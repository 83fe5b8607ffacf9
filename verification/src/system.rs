//! A model that was built, and its simulations.

use crate::error::{ModelicaSystemError, OMCSessionZMQError};
use crate::exchange::{carries, Exchange};
use crate::expression::OMCExpression;
use crate::identity::{is_random_uuid, random_uuid};
use crate::options::{
    given_pairs, is_last_setting, names_are_distinct, options_are_those_set_last, options_text,
    pairs, pairs_are_those_of_each_pair, set_option, set_options_keeps_names_distinct,
    with_options, write_options, OptionView,
};
use crate::path::{
    directory, directory_of, directory_stands_before_the_last_component, has_no_component_from,
    join_path, joined_path, joined_path_keeps_both_parts, only_nothing_and_the_root_lie_nowhere,
};
use crate::results::BuildModelResults;
use crate::session::{
    is_request_to_build, is_request_to_load, session_path, session_path_of, OMCSessionZMQ,
    SessionView,
};
use crate::text::{
    chars_of, join_undoes_split, joined, split, split_chars, split_of_one_piece,
    split_pieces_hold_no_separator, texts, texts_are_those_of_each_string,
};
use vstd::prelude::*;
use vstd::string::*;
use zeromq::ZmqMessage;

verus! {

/// A model that was built, and the options of its simulations.
pub struct ModelicaSystem {
    model_file_path: String,
    model_name: String,
    xml_file_path: String,
    exec_file_path: String,
    simulation_options: Vec<(String, String)>,
    result_file_path: String,
    current_user: String,
    session_log_file_suffix: String,
    session_random_string: String,
}

/// What is known of a model that was built.
pub struct SystemView {
    pub model_file_path: Seq<char>,
    pub model_name: Seq<char>,
    pub xml_file_path: Seq<char>,
    pub exec_file_path: Seq<char>,
    pub simulation_options: Seq<OptionView>,
    pub result_file_path: Seq<char>,
    /// The user of its session.
    pub current_user: Seq<char>,
    /// The text in the names of the files of its session that stands before the random text.
    pub session_log_file_suffix: Seq<char>,
    /// The random text of its session.
    pub session_random_string: Seq<char>,
}

impl SystemView {
    /// The path that the files of its session begin with.
    pub open spec fn session_path(self) -> Seq<char> {
        session_path(
            self.current_user,
            self.session_log_file_suffix,
            self.session_random_string,
        )
    }

    /// It was built in the session.
    pub open spec fn belongs_to(self, session: SessionView) -> bool {
        &&& self.current_user == session.current_user
        &&& self.session_log_file_suffix == session.log_file_suffix
        &&& self.session_random_string == session.random_string
    }

    /// No option has two values.
    pub open spec fn wf(self) -> bool {
        names_are_distinct(self.simulation_options)
    }
}

impl View for ModelicaSystem {
    type V = SystemView;

    closed spec fn view(&self) -> SystemView {
        SystemView {
            model_file_path: self.model_file_path@,
            model_name: self.model_name@,
            xml_file_path: self.xml_file_path@,
            exec_file_path: self.exec_file_path@,
            simulation_options: pairs(self.simulation_options@),
            result_file_path: self.result_file_path@,
            current_user: self.current_user@,
            session_log_file_suffix: self.session_log_file_suffix@,
            session_random_string: self.session_random_string@,
        }
    }
}

/// A simulation that is to be started.
pub struct SimulationCommand {
    /// The simulation executable.
    pub exec_path: String,
    /// Its arguments.
    pub args: Vec<String>,
    /// The file that its output goes to.
    pub log_file_path: String,
}

/// What happened to a simulation that was started.
pub enum SimulationEvent {
    /// It was cancelled.
    Cancelled,
    /// Its process has ended.
    Exited,
}

/// What is to be done about it.
pub enum SimulationAction {
    /// End the process.
    Kill,
    /// Tell whoever waits for the simulation that it is done.
    NotifyCompleted,
}

/// A model right after it was built.
pub open spec fn new_system(
    session: SessionView,
    file_path: Seq<char>,
    model_name: Seq<char>,
    exec_path: Seq<char>,
    xml_file_name: Seq<char>,
    exec_dir: Seq<char>,
) -> SystemView {
    SystemView {
        model_file_path: file_path,
        model_name,
        xml_file_path: joined_path(exec_dir, xml_file_name),
        exec_file_path: exec_path,
        simulation_options: Seq::<OptionView>::empty(),
        result_file_path: model_name + "_res.mat"@,
        current_user: session.current_user,
        session_log_file_suffix: session.log_file_suffix,
        session_random_string: session.random_string,
    }
}

/// The model that was built from a file, or the error for an executable that lies in no directory.
pub open spec fn is_new_system(
    session: OMCSessionZMQ,
    file_path: &str,
    model_name: &str,
    exec_path: Seq<char>,
    xml_file_name: Seq<char>,
    r: Result<ModelicaSystem, ModelicaSystemError>,
) -> bool {
    match directory_of(exec_path) {
        Some(exec_dir) => r matches Ok(system) && system@.wf() && system@ == new_system(
            session@,
            file_path@,
            model_name@,
            exec_path,
            xml_file_name,
            exec_dir,
        ),
        None => r matches Err(ModelicaSystemError::ExecParentDirError { exec_path: path }) && path@
            == exec_path,
    }
}

/// The model after options were set.
pub open spec fn has_options_set(
    before: SystemView,
    opts: &[(&str, &str)],
    after: SystemView,
) -> bool {
    after == (SystemView {
        simulation_options: with_options(before.simulation_options, given_pairs(opts@)),
        ..before
    })
}

/// What a request for a simulation comes to, and the model after it.
pub open spec fn is_simulation_request(
    before: SystemView,
    result_file: Option<&str>,
    sim_flags: Option<&str>,
    exec_exists: bool,
    run_id: Seq<char>,
    after: SystemView,
    r: Result<SimulationCommand, ModelicaSystemError>,
) -> bool {
    &&& after == after_request(before, optional_slice(result_file))
    &&& match r {
        Ok(command) => exec_exists && is_requested_simulation(
            before,
            optional_slice(result_file),
            optional_slice(sim_flags),
            run_id,
            command,
        ),
        Err(e) => !exec_exists && is_executable_missing(e, before.exec_file_path),
    }
}

/// The arguments of a simulation.
pub open spec fn simulation_args(
    options: Seq<OptionView>,
    result_file: Option<Seq<char>>,
    sim_flags: Option<Seq<char>>,
) -> Seq<Seq<char>> {
    result_file_args(result_file) + flag_args(sim_flags) + option_args(options)
}

/// The argument that names the file for the results, where one is given.
pub open spec fn result_file_args(result_file: Option<Seq<char>>) -> Seq<Seq<char>> {
    match result_file {
        Some(file) => seq!["-r="@ + file],
        None => Seq::<Seq<char>>::empty(),
    }
}

/// The flags, each an argument of its own, where some are given.
pub open spec fn flag_args(sim_flags: Option<Seq<char>>) -> Seq<Seq<char>> {
    match sim_flags {
        Some(flags) => split(flags, ' '),
        None => Seq::<Seq<char>>::empty(),
    }
}

/// The argument that sets the options, where there are some.
pub open spec fn option_args(options: Seq<OptionView>) -> Seq<Seq<char>> {
    if options.len() > 0 {
        seq!["-override="@ + options_text(options)]
    } else {
        Seq::<Seq<char>>::empty()
    }
}

/// The text of an optional string slice.
pub open spec fn optional_slice(text: Option<&str>) -> Option<Seq<char>> {
    match text {
        Some(s) => Some(s@),
        None => None,
    }
}

/// The model after a simulation was asked for: the file for its results is the one given, where
/// one is given, and all else stays.
pub open spec fn after_request(system: SystemView, result_file: Option<Seq<char>>) -> SystemView {
    SystemView {
        result_file_path: match result_file {
            Some(file) => file,
            None => system.result_file_path,
        },
        ..system
    }
}

/// The path of the log file of a simulation.
pub open spec fn simulation_log_path(system: SystemView, run_id: Seq<char>) -> Seq<char> {
    system.session_path() + ".sim."@ + system.model_name + "."@ + run_id + ".log"@
}

/// The simulation that a request asks for.
pub open spec fn is_requested_simulation(
    system: SystemView,
    result_file: Option<Seq<char>>,
    sim_flags: Option<Seq<char>>,
    run_id: Seq<char>,
    command: SimulationCommand,
) -> bool {
    &&& command.exec_path@ == system.exec_file_path
    &&& texts(command.args@) == simulation_args(system.simulation_options, result_file, sim_flags)
    &&& command.log_file_path@ == simulation_log_path(system, run_id)
}

/// The result of a request to the session, with its error as one of the model.
pub open spec fn is_session_result<T>(
    result: Result<T, OMCSessionZMQError>,
    r: Result<T, ModelicaSystemError>,
) -> bool {
    match result {
        Ok(value) => r == Ok::<T, ModelicaSystemError>(value),
        Err(e) => r == Err::<T, ModelicaSystemError>(ModelicaSystemError::OMCSessionZMQErr(e)),
    }
}

/// The error for a model file that does not exist.
pub open spec fn is_model_missing(error: ModelicaSystemError, model_path: &str) -> bool {
    error matches ModelicaSystemError::ModelNotFound { model_path: path } && path@ == model_path@
}

/// The error for an executable that does not exist.
pub open spec fn is_executable_missing(error: ModelicaSystemError, exec_path: Seq<char>) -> bool {
    error matches ModelicaSystemError::SimNotFound { exec_path: path } && path@ == exec_path
}

/// Adds the pieces to the arguments.
fn append_args(args: &mut Vec<String>, more: Vec<String>)
    ensures
        texts(final(args)@) == texts(old(args)@) + texts(more@),
{
    let ghost before = texts(args@);
    for i in 0..more.len()
        invariant
            texts(args@) == before + texts(more@).take(i as int),
    {
        let ghost done = texts(args@);
        args.push(more[i].clone());
        assert(texts(args@) =~= done.push(more@[i as int]@));
        assert(before + texts(more@).take(i + 1) =~= (before + texts(more@).take(i as int)).push(
            texts(more@)[i as int],
        ));
    }
    assert(texts(more@).take(more@.len() as int) =~= texts(more@));
}

impl ModelicaSystem {
    /// The model that was built from a file, as the results of the build describe it: the XML file
    /// lies in the directory of the executable. An executable that lies in no directory is
    /// refused.
    pub fn new(
        session: &OMCSessionZMQ,
        file_path: &str,
        model_name: &str,
        results: BuildModelResults,
    ) -> (r: Result<Self, ModelicaSystemError>)
        ensures
            match directory_of(results.exec_path@) {
                Some(exec_dir) => r matches Ok(system) && system@.wf() && system@ == new_system(
                    session@,
                    file_path@,
                    model_name@,
                    results.exec_path@,
                    results.xml_file_name@,
                    exec_dir,
                ),
                None => r matches Err(ModelicaSystemError::ExecParentDirError { exec_path })
                    && exec_path@ == results.exec_path@,
            },
            r matches Ok(system) ==> system@.result_file_path == model_name@ + "_res.mat"@,
            is_new_system(
                *session,
                file_path,
                model_name,
                results.exec_path@,
                results.xml_file_name@,
                r,
            ),
    {
        match directory(results.exec_path.as_str()) {
            Some(dir) => {
                let system = ModelicaSystem {
                    model_file_path: file_path.to_string(),
                    model_name: model_name.to_string(),
                    xml_file_path: join_path(dir.as_str(), results.xml_file_name.as_str()),
                    exec_file_path: results.exec_path,
                    simulation_options: Vec::new(),
                    result_file_path: model_name.to_string().concat("_res.mat"),
                    current_user: session.current_user().to_string(),
                    session_log_file_suffix: session.log_file_suffix().to_string(),
                    session_random_string: session.random_string().to_string(),
                };
                assert(system@.simulation_options =~= Seq::<OptionView>::empty());
                Ok(system)
            },
            None => Err(ModelicaSystemError::ExecParentDirError { exec_path: results.exec_path }),
        }
    }

    /// The file that the model was loaded from.
    pub fn model_file_path(&self) -> (r: &str)
        ensures
            r@ == self@.model_file_path,
    {
        self.model_file_path.as_str()
    }

    /// The name of the model.
    pub fn model_name(&self) -> (r: &str)
        ensures
            r@ == self@.model_name,
    {
        self.model_name.as_str()
    }

    /// The XML file that configures the simulation executable.
    pub fn xml_file_path(&self) -> (r: &str)
        ensures
            r@ == self@.xml_file_path,
    {
        self.xml_file_path.as_str()
    }

    /// The simulation executable.
    pub fn exec_file_path(&self) -> (r: &str)
        ensures
            r@ == self@.exec_file_path,
    {
        self.exec_file_path.as_str()
    }

    /// The file that the results of the last simulation go to.
    pub fn result_file_path(&self) -> (r: &str)
        ensures
            r@ == self@.result_file_path,
    {
        self.result_file_path.as_str()
    }

    /// Starts the request that loads a model file, where the file exists.
    pub fn load_model(
        session: &OMCSessionZMQ,
        model_file_path: &str,
        file_exists: bool,
    ) -> (r: Result<(ZmqMessage, Exchange), ModelicaSystemError>)
        ensures
            r is Ok <==> file_exists,
            r matches Ok(request) ==> carries(
                request.0,
                "loadFile(\""@ + model_file_path@ + "\")"@,
            ) && (request.1 matches Exchange::Evaluating {
                expr: OMCExpression::LoadFile { file },
            } && file@ == model_file_path@),
            r matches Ok(request) ==> is_request_to_load(request, model_file_path),
            r matches Err(e) ==> is_model_missing(e, model_file_path),
            r matches Err(e) ==> (e matches ModelicaSystemError::ModelNotFound { model_path }
                && model_path@ == model_file_path@),
    {
        if file_exists {
            Ok(session.load_file(model_file_path))
        } else {
            Err(ModelicaSystemError::ModelNotFound { model_path: model_file_path.to_string() })
        }
    }

    /// Starts the request that builds a model.
    pub fn build_model(session: &OMCSessionZMQ, model_name: &str) -> (r: (ZmqMessage, Exchange))
        ensures
            carries(r.0, "buildModel("@ + model_name@ + ")"@),
            r.1 matches Exchange::Evaluating { expr: OMCExpression::BuildModel { name } } && name@
                == model_name@,
            is_request_to_build(r, model_name),
    {
        session.build_model(model_name)
    }

    /// The result of a request to the session, with its error as one of the model.
    pub fn session_result<T>(result: Result<T, OMCSessionZMQError>) -> (r: Result<
        T,
        ModelicaSystemError,
    >)
        ensures
            r == match result {
                Ok(value) => Ok::<T, ModelicaSystemError>(value),
                Err(e) => Err(ModelicaSystemError::OMCSessionZMQErr(e)),
            },
            is_session_result(result, r),
    {
        match result {
            Ok(value) => Ok(value),
            Err(e) => Err(ModelicaSystemError::OMCSessionZMQErr(e)),
        }
    }

    /// Sets options of the simulations that follow.
    pub fn set_simulation_options(&mut self, opts: &[(&str, &str)])
        ensures
            final(self)@ == (SystemView {
                simulation_options: with_options(
                    old(self)@.simulation_options,
                    given_pairs(opts@),
                ),
                ..old(self)@
            }),
            old(self)@.wf() ==> final(self)@.wf(),
            has_options_set(old(self)@, opts, final(self)@),
    {
        let ghost before = self@;
        let ghost given = given_pairs(opts@);
        assert(given.take(0) =~= Seq::<OptionView>::empty());
        for i in 0..opts.len()
            invariant
                given == given_pairs(opts@),
                self@ == (SystemView {
                    simulation_options: with_options(
                        before.simulation_options,
                        given.take(i as int),
                    ),
                    ..before
                }),
        {
            assert(given.take(i + 1).drop_last() =~= given.take(i as int));
            assert(given.take(i + 1).last() == (opts@[i as int].0@, opts@[i as int].1@));
            set_option(&mut self.simulation_options, opts[i].0, opts[i].1);
        }
        assert(given.take(opts@.len() as int) =~= given);
        proof {
            if before.wf() {
                set_options_keeps_names_distinct(before.simulation_options, given);
            }
        }
    }

    /// Asks for a simulation. A result file that is given is remembered, whatever comes of the
    /// request. The request is refused where the executable does not exist. The log file of the
    /// simulation is told from others by a random text.
    pub fn simulate(
        &mut self,
        result_file: Option<&str>,
        sim_flags: Option<&str>,
        exec_exists: bool,
    ) -> (r: Result<SimulationCommand, ModelicaSystemError>)
        ensures
            final(self)@ == after_request(old(self)@, optional_slice(result_file)),
            r is Ok <==> exec_exists,
            r matches Err(e) ==> is_executable_missing(e, old(self)@.exec_file_path),
            r matches Ok(command) ==> exists|run_id: Seq<char>| #[trigger]
                is_random_uuid(run_id) && is_requested_simulation(
                    old(self)@,
                    optional_slice(result_file),
                    optional_slice(sim_flags),
                    run_id,
                    command,
                ),
            exec_exists ==> exists|run_id: Seq<char>| #[trigger]
                is_random_uuid(run_id) && is_simulation_request(
                    old(self)@,
                    result_file,
                    sim_flags,
                    exec_exists,
                    run_id,
                    final(self)@,
                    r,
                ),
            !exec_exists ==> is_simulation_request(
                old(self)@,
                result_file,
                sim_flags,
                exec_exists,
                Seq::<char>::empty(),
                final(self)@,
                r,
            ),
    {
        if exec_exists {
            self.simulate_as(result_file, sim_flags, true, random_uuid())
        } else {
            self.remember_result_file(result_file);
            Err(ModelicaSystemError::SimNotFound { exec_path: self.exec_file_path.clone() })
        }
    }

    /// Remembers the result file, where one is given.
    fn remember_result_file(&mut self, result_file: Option<&str>)
        ensures
            final(self)@ == after_request(old(self)@, optional_slice(result_file)),
    {
        match result_file {
            Some(file) => {
                self.result_file_path = file.to_string();
            },
            None => {},
        }
    }

    /// Asks for a simulation whose log file is told from others by `run_id`.
    pub fn simulate_as(
        &mut self,
        result_file: Option<&str>,
        sim_flags: Option<&str>,
        exec_exists: bool,
        run_id: String,
    ) -> (r: Result<SimulationCommand, ModelicaSystemError>)
        ensures
            final(self)@ == after_request(old(self)@, optional_slice(result_file)),
            r is Ok <==> exec_exists,
            r matches Err(e) ==> is_executable_missing(e, old(self)@.exec_file_path),
            r matches Ok(command) ==> is_requested_simulation(
                old(self)@,
                optional_slice(result_file),
                optional_slice(sim_flags),
                run_id@,
                command,
            ),
            r matches Ok(command) ==> (result_file matches Some(file) ==> command.args@.len() > 0
                && command.args@[0]@ == "-r="@ + file@),
            is_simulation_request(
                old(self)@,
                result_file,
                sim_flags,
                exec_exists,
                run_id@,
                final(self)@,
                r,
            ),
    {
        self.remember_result_file(result_file);
        let mut args: Vec<String> = Vec::new();
        match result_file {
            Some(file) => {
                args.push("-r=".to_string().concat(file));
            },
            None => {},
        }
        let ghost file_args = result_file_args(optional_slice(result_file));
        assert(texts(args@) =~= file_args);
        match sim_flags {
            Some(flags) => {
                append_args(&mut args, split_chars(&chars_of(flags), ' '));
            },
            None => {},
        }
        let ghost flag_args = flag_args(optional_slice(sim_flags));
        assert(texts(args@) =~= file_args + flag_args);
        assert(pairs(self.simulation_options@).len() == self.simulation_options@.len());
        if self.simulation_options.len() > 0 {
            let options = write_options(&self.simulation_options);
            args.push("-override=".to_string().concat(options.as_str()));
        }
        assert(texts(args@) =~= simulation_args(
            old(self)@.simulation_options,
            optional_slice(result_file),
            optional_slice(sim_flags),
        ));
        assert(args@.len() > 0 ==> texts(args@)[0] == args@[0]@);
        if exec_exists {
            let mut log_file_path = session_path_of(
                self.current_user.as_str(),
                self.session_log_file_suffix.as_str(),
                self.session_random_string.as_str(),
            );
            log_file_path.append(".sim.");
            log_file_path.append(self.model_name.as_str());
            log_file_path.append(".");
            log_file_path.append(run_id.as_str());
            log_file_path.append(".log");
            Ok(SimulationCommand { exec_path: self.exec_file_path.clone(), args, log_file_path })
        } else {
            Err(ModelicaSystemError::SimNotFound { exec_path: self.exec_file_path.clone() })
        }
    }
}

impl SimulationCommand {
    /// The error for a log file that could not be created.
    pub fn log_file_error(&self, source: std::io::Error) -> (r: ModelicaSystemError)
        ensures
            r matches ModelicaSystemError::FailedToCreateSimLogFile { path, source: cause }
                && path@ == self.log_file_path@ && cause == source,
    {
        ModelicaSystemError::FailedToCreateSimLogFile { path: self.log_file_path.clone(), source }
    }

    /// The error for a process that could not be started.
    pub fn start_error(&self, source: std::io::Error) -> (r: ModelicaSystemError)
        ensures
            r == ModelicaSystemError::IOError(source),
    {
        ModelicaSystemError::IOError(source)
    }
}

impl SimulationEvent {
    /// What is to be done about the event: a simulation that is cancelled is ended, and only one
    /// that has ended by itself counts as completed.
    pub fn action(self) -> (r: SimulationAction)
        ensures
            self is Cancelled <==> r is Kill,
            self is Exited <==> r is NotifyCompleted,
    {
        match self {
            SimulationEvent::Cancelled => SimulationAction::Kill,
            SimulationEvent::Exited => SimulationAction::NotifyCompleted,
        }
    }
}

/// A request for a simulation leaves the options alone: the same request right after it asks for
/// the same arguments, and for the same result file.
pub proof fn requests_can_be_repeated(
    system: SystemView,
    result_file: Option<Seq<char>>,
    sim_flags: Option<Seq<char>>,
)
    ensures
        after_request(after_request(system, result_file), result_file) == after_request(
            system,
            result_file,
        ),
        simulation_args(
            after_request(system, result_file).simulation_options,
            result_file,
            sim_flags,
        ) == simulation_args(system.simulation_options, result_file, sim_flags),
{
}

/// Two simulations of a model that are told apart have different log files, and neither is a file
/// of the session.
pub proof fn simulations_have_their_own_logs(system: SystemView, a: Seq<char>, b: Seq<char>)
    ensures
        a != b ==> simulation_log_path(system, a) != simulation_log_path(system, b),
        simulation_log_path(system, a) != system.session_path(),
        simulation_log_path(system, a) != system.session_path() + ".log"@,
{
    reveal_strlit(".sim.");
    reveal_strlit(".log");
    let front = system.session_path() + ".sim."@ + system.model_name + "."@;
    let x = simulation_log_path(system, a);
    let y = simulation_log_path(system, b);
    let n = front.len() as int;
    assert(a =~= x.subrange(n, x.len() - 4));
    assert(b =~= y.subrange(n, y.len() - 4));
    let k = system.session_path().len() as int;
    assert(x[k + 1] == ".sim."@[1]);
    assert((system.session_path() + ".log"@)[k + 1] == ".log"@[1]);
}

/// Two simulations with different random texts share no log file, whatever their models and
/// sessions are.
pub proof fn simulations_share_no_log(a: SystemView, b: SystemView, x: Seq<char>, y: Seq<char>)
    requires
        is_random_uuid(x),
        is_random_uuid(y),
        x != y,
    ensures
        simulation_log_path(a, x) != simulation_log_path(b, y),
{
    reveal_strlit(".log");
    let p = simulation_log_path(a, x);
    let q = simulation_log_path(b, y);
    assert(x =~= p.subrange(p.len() - 40, p.len() - 4));
    assert(y =~= q.subrange(q.len() - 40, q.len() - 4));
}

/// The log file of every simulation of a model stands beside the files of the session that the
/// model was built in: its path begins with the path of the session's port file, then `.sim.`, the
/// name of the model and a dot. That stays so when a simulation is asked for and when options are
/// set.
pub proof fn simulation_logs_begin_with_the_port_file(
    session: SessionView,
    system: SystemView,
    result_file: Option<Seq<char>>,
    options: Seq<OptionView>,
    run_id: Seq<char>,
)
    requires
        session.wf(),
        system.belongs_to(session),
    ensures
        simulation_log_path(system, run_id) == session.port_file + ".sim."@ + system.model_name
            + "."@ + run_id + ".log"@,
        (session.port_file + ".sim."@ + system.model_name + "."@).is_prefix_of(
            simulation_log_path(system, run_id),
        ),
        after_request(system, result_file).belongs_to(session),
        simulation_log_path(after_request(system, result_file), run_id) == simulation_log_path(
            system,
            run_id,
        ),
        (SystemView { simulation_options: options, ..system }).belongs_to(session),
        simulation_log_path((SystemView { simulation_options: options, ..system }), run_id)
            == simulation_log_path(system, run_id),
{
    let front = session.port_file + ".sim."@ + system.model_name + "."@;
    let path = simulation_log_path(system, run_id);
    assert(path.subrange(0, front.len() as int) =~= front);
}

/// A model that was just built belongs to the session that it was built in.
pub proof fn new_systems_belong_to_their_session(
    session: SessionView,
    file_path: Seq<char>,
    model_name: Seq<char>,
    exec_path: Seq<char>,
    xml_file_name: Seq<char>,
    exec_dir: Seq<char>,
)
    ensures
        new_system(
            session,
            file_path,
            model_name,
            exec_path,
            xml_file_name,
            exec_dir,
        ).belongs_to(session),
{
}

/// A model that was just built knows the file, the name and the executable that it was given, as
/// they are, and has no options. Its result file is its whole name, dotted or not, followed by
/// `_res.mat`, as the simulation executable writes it.
pub proof fn new_system_knows_its_files(
    session: SessionView,
    file_path: Seq<char>,
    model_name: Seq<char>,
    exec_path: Seq<char>,
    xml_file_name: Seq<char>,
    exec_dir: Seq<char>,
)
    ensures
        ({
            let system = new_system(
                session,
                file_path,
                model_name,
                exec_path,
                xml_file_name,
                exec_dir,
            );
            &&& system.model_file_path == file_path
            &&& system.model_name == model_name
            &&& system.exec_file_path == exec_path
            &&& system.simulation_options.len() == 0
            &&& system.result_file_path.len() == model_name.len() + 8
            &&& model_name.is_prefix_of(system.result_file_path)
            &&& system.result_file_path.skip(model_name.len() as int) == "_res.mat"@
        }),
{
    reveal_strlit("_res.mat");
    let file = model_name + "_res.mat"@;
    assert(file.subrange(0, model_name.len() as int) =~= model_name);
    assert(file.skip(model_name.len() as int) =~= "_res.mat"@);
}

/// Models of different names have different result files, wherever they were built.
pub proof fn models_share_no_result_file(
    session: SessionView,
    file_path: Seq<char>,
    exec_path: Seq<char>,
    xml_file_name: Seq<char>,
    exec_dir: Seq<char>,
    a: Seq<char>,
    b: Seq<char>,
)
    requires
        a != b,
    ensures
        new_system(session, file_path, a, exec_path, xml_file_name, exec_dir).result_file_path
            != new_system(
            session,
            file_path,
            b,
            exec_path,
            xml_file_name,
            exec_dir,
        ).result_file_path,
{
    new_system_knows_its_files(session, file_path, a, exec_path, xml_file_name, exec_dir);
    new_system_knows_its_files(session, file_path, b, exec_path, xml_file_name, exec_dir);
    let x = new_system(session, file_path, a, exec_path, xml_file_name, exec_dir).result_file_path;
    let y = new_system(session, file_path, b, exec_path, xml_file_name, exec_dir).result_file_path;
    assert(a =~= x.take(x.len() - 8));
    assert(b =~= y.take(y.len() - 8));
}

/// The XML file lies beside the executable: its path is that of the executable with the name of
/// the XML file in the place of the last component, whatever separators stand around that. An
/// absolute path of an XML file stays as it is.
pub proof fn xml_file_lies_beside_the_executable(
    session: SessionView,
    file_path: Seq<char>,
    model_name: Seq<char>,
    xml_file_name: Seq<char>,
    dir: Seq<char>,
    gap: Seq<char>,
    file: Seq<char>,
    rest: Seq<char>,
)
    requires
        dir.len() > 0,
        dir.last() != '/',
        dir.len() >= 2 && dir.last() == '.' ==> dir[dir.len() - 2] != '/',
        gap.len() > 0,
        gap[0] == '/',
        gap.last() == '/',
        has_no_component_from(gap, 0),
        file.len() > 0,
        !file.contains('/'),
        file != seq!['.'],
        rest.len() > 0 ==> rest[0] == '/',
        has_no_component_from(rest, 0),
    ensures
        ({
            let absolute = xml_file_name.len() > 0 && xml_file_name[0] == '/';
            let in_dir = dir + gap + file + rest;
            let in_root = gap + file + rest;
            let alone = file + rest;
            &&& directory_of(in_dir) matches Some(d) && new_system(
                session,
                file_path,
                model_name,
                in_dir,
                xml_file_name,
                d,
            ).xml_file_path == if absolute {
                xml_file_name
            } else {
                dir.push('/') + xml_file_name
            }
            &&& directory_of(in_root) matches Some(d) && new_system(
                session,
                file_path,
                model_name,
                in_root,
                xml_file_name,
                d,
            ).xml_file_path == if absolute {
                xml_file_name
            } else {
                seq!['/'] + xml_file_name
            }
            &&& directory_of(alone) matches Some(d) && new_system(
                session,
                file_path,
                model_name,
                alone,
                xml_file_name,
                d,
            ).xml_file_path == xml_file_name
        }),
{
    directory_stands_before_the_last_component(dir, gap, file, rest);
    joined_path_keeps_both_parts(Seq::<char>::empty(), xml_file_name);
}

/// A result file that is given is named to the executable as its first argument, whatever else is
/// asked for, and changes nothing about the other arguments; where none is given, none is named.
pub proof fn result_file_is_the_first_argument(
    options: Seq<OptionView>,
    sim_flags: Option<Seq<char>>,
    file: Seq<char>,
)
    ensures
        simulation_args(options, Some(file), sim_flags).len() > 0,
        simulation_args(options, Some(file), sim_flags)[0] == seq!['-', 'r', '='] + file,
        simulation_args(options, Some(file), sim_flags).skip(1) == simulation_args(
            options,
            None,
            sim_flags,
        ),
{
    reveal_strlit("-r=");
    assert("-r="@ =~= seq!['-', 'r', '=']);
    assert(simulation_args(options, Some(file), sim_flags).skip(1) =~= simulation_args(
        options,
        None,
        sim_flags,
    ));
}

/// Options that are set are handed over in one argument, the last: `-override=` and then the text
/// of all of them. They change nothing about the other arguments. Without options there is no
/// such argument.
pub proof fn options_are_the_last_argument(
    options: Seq<OptionView>,
    result_file: Option<Seq<char>>,
    sim_flags: Option<Seq<char>>,
)
    ensures
        ({
            let args = simulation_args(options, result_file, sim_flags);
            let bare = simulation_args(Seq::<OptionView>::empty(), result_file, sim_flags);
            &&& options.len() > 0 ==> args.len() == bare.len() + 1 && args.drop_last() == bare
                && args.last() == "-override="@ + options_text(options)
            &&& options.len() == 0 ==> args == bare
        }),
{
    let args = simulation_args(options, result_file, sim_flags);
    let bare = simulation_args(Seq::<OptionView>::empty(), result_file, sim_flags);
    if options.len() > 0 {
        assert(args.drop_last() =~= bare);
    } else {
        assert(options =~= Seq::<OptionView>::empty());
    }
}

/// Flags that are given are handed over between the result file and the options, cut at each space
/// and nowhere else: put together again with spaces they are the flags, none of them holds a
/// space, and flags without a space are one argument. Without flags nothing stands there. A
/// request for nothing has no arguments.
pub proof fn flags_are_cut_at_spaces(
    options: Seq<OptionView>,
    result_file: Option<Seq<char>>,
    flags: Seq<char>,
)
    ensures
        ({
            let none = Seq::<OptionView>::empty();
            let pieces = simulation_args(none, None, Some(flags));
            &&& simulation_args(options, result_file, Some(flags)) == simulation_args(
                none,
                result_file,
                None,
            ) + pieces + simulation_args(options, None, None)
            &&& simulation_args(options, result_file, None) == simulation_args(
                none,
                result_file,
                None,
            ) + simulation_args(options, None, None)
            &&& simulation_args(none, None, None).len() == 0
            &&& joined(pieces, seq![' ']) == flags
            &&& forall|i: int| 0 <= i < pieces.len() ==> !(#[trigger] pieces[i]).contains(' ')
            &&& pieces.len() > 0
            &&& !flags.contains(' ') ==> pieces == seq![flags]
        }),
{
    let none = Seq::<OptionView>::empty();
    let pieces = simulation_args(none, None, Some(flags));
    assert(pieces =~= split(flags, ' '));
    join_undoes_split(flags, ' ');
    assert forall|i: int| 0 <= i < pieces.len() implies !(#[trigger] pieces[i]).contains(' ') by {
        split_pieces_hold_no_separator(flags, ' ', i);
    }
    if !flags.contains(' ') {
        split_of_one_piece(flags, ' ');
    }
    assert(simulation_args(options, result_file, Some(flags)) =~= simulation_args(
        none,
        result_file,
        None,
    ) + pieces + simulation_args(options, None, None));
    assert(simulation_args(options, result_file, None) =~= simulation_args(
        none,
        result_file,
        None,
    ) + simulation_args(options, None, None));
}

/// Two simulations of a model, asked for with and without a result file: both run the executable
/// of the model, the first with one argument more, in front, which names the file. That file is
/// the one that the model remembers.
pub proof fn result_file_is_named_and_remembered(
    system: SystemView,
    file: Seq<char>,
    sim_flags: Option<Seq<char>>,
    run_id: Seq<char>,
    with_file: SimulationCommand,
    without_file: SimulationCommand,
)
    requires
        is_requested_simulation(system, Some(file), sim_flags, run_id, with_file),
        is_requested_simulation(system, None, sim_flags, run_id, without_file),
    ensures
        with_file.exec_path@ == system.exec_file_path,
        without_file.exec_path@ == system.exec_file_path,
        with_file.args@.len() == without_file.args@.len() + 1,
        with_file.args@[0]@ == seq!['-', 'r', '='] + file,
        forall|i: int|
            0 <= i < without_file.args@.len() ==> (#[trigger] without_file.args@[i])@
                == with_file.args@[i + 1]@,
        with_file.args@[0]@.skip(3) == after_request(system, Some(file)).result_file_path,
{
    result_file_is_the_first_argument(system.simulation_options, sim_flags, file);
    texts_are_those_of_each_string(with_file.args@);
    texts_are_those_of_each_string(without_file.args@);
    let x = texts(with_file.args@);
    let y = texts(without_file.args@);
    assert(x[0] == with_file.args@[0]@);
    assert(x[0].skip(3) =~= file);
    assert forall|i: int| 0 <= i < without_file.args@.len() implies (
    #[trigger] without_file.args@[i])@ == with_file.args@[i + 1]@ by {
        assert(y[i] == x.skip(1)[i]);
        assert(x[i + 1] == with_file.args@[i + 1]@);
    }
}

/// A simulation whose options were just set is told each of them: its last argument is `-override=`
/// and then their text. It runs the executable of the model, and logs to a file of the session
/// whose name holds the whole name of the model and the whole text that tells it from others.
pub proof fn simulation_is_told_its_options(
    system: SystemView,
    options: Seq<OptionView>,
    result_file: Option<Seq<char>>,
    sim_flags: Option<Seq<char>>,
    run_id: Seq<char>,
    command: SimulationCommand,
)
    requires
        is_requested_simulation(
            (SystemView { simulation_options: options, ..system }),
            result_file,
            sim_flags,
            run_id,
            command,
        ),
    ensures
        command.exec_path@ == system.exec_file_path,
        options.len() > 0 ==> command.args@.len() > 0 && command.args@.last()@ == "-override="@
            + options_text(options),
        command.log_file_path@ == "/tmp/openmodelica."@ + system.current_user + "."@
            + system.session_log_file_suffix + "."@ + system.session_random_string + ".sim."@
            + system.model_name + "."@ + run_id + ".log"@,
{
    options_are_the_last_argument(options, result_file, sim_flags);
    texts_are_those_of_each_string(command.args@);
    if options.len() > 0 {
        let args = texts(command.args@);
        assert(args[args.len() - 1] == command.args@[args.len() - 1]@);
    }
}

/// A request for a simulation changes the result file of the model to the one that is given, and
/// nothing where none is given; it changes nothing else.
pub proof fn request_changes_the_result_file_alone(system: SystemView, file: Seq<char>)
    ensures
        after_request(system, Some(file)).result_file_path == file,
        after_request(system, None) == system,
        ({
            let after = after_request(system, Some(file));
            &&& after.model_file_path == system.model_file_path
            &&& after.model_name == system.model_name
            &&& after.xml_file_path == system.xml_file_path
            &&& after.exec_file_path == system.exec_file_path
            &&& after.simulation_options == system.simulation_options
            &&& after.current_user == system.current_user
            &&& after.session_log_file_suffix == system.session_log_file_suffix
            &&& after.session_random_string == system.session_random_string
        }),
{
}

/// A text that is given is there, even where it is empty, and one that is not given is not.
pub proof fn given_texts_are_there(text: &str)
    ensures
        optional_slice(Some(text)) == Some(text@),
        optional_slice(None) is None,
{
}

/// The error for an executable that does not exist names it.
pub proof fn missing_executable_is_named(error: ModelicaSystemError, exec_path: Seq<char>)
    requires
        is_executable_missing(error, exec_path),
    ensures
        error is SimNotFound,
        error->SimNotFound_exec_path@ == exec_path,
{
}

/// What comes of a build: a model wherever the path of the executable names a component, with the
/// file, the name and the executable as they were given, the result file of the whole name, and no
/// options, in the session that it was built in. Else there is an error that names the executable.
pub proof fn build_becomes_a_model(
    session: OMCSessionZMQ,
    file_path: &str,
    model_name: &str,
    exec_path: Seq<char>,
    xml_file_name: Seq<char>,
    r: Result<ModelicaSystem, ModelicaSystemError>,
)
    requires
        is_new_system(session, file_path, model_name, exec_path, xml_file_name, r),
    ensures
        r is Err <==> exec_path.len() == 0 || (exec_path[0] == '/' && has_no_component_from(
            exec_path,
            1,
        )),
        r matches Err(e) ==> e is ExecParentDirError && e->ExecParentDirError_exec_path@
            == exec_path,
        r matches Ok(system) ==> {
            &&& system@.model_file_path == file_path@
            &&& system@.model_name == model_name@
            &&& system@.exec_file_path == exec_path
            &&& system@.result_file_path == model_name@ + "_res.mat"@
            &&& system@.simulation_options.len() == 0
            &&& system@.current_user == session@.current_user
            &&& system@.session_log_file_suffix == session@.log_file_suffix
            &&& system@.session_random_string == session@.random_string
            &&& directory_of(exec_path) is Some
            &&& system@.xml_file_path == joined_path(directory_of(exec_path)->0, xml_file_name)
        },
{
    only_nothing_and_the_root_lie_nowhere(exec_path);
}

/// Every option that is set is there with the value that it was given last, every option of a name
/// that was not set is there exactly if it was, and nothing else of the model changes.
pub proof fn set_options_are_there(
    before: SystemView,
    opts: &[(&str, &str)],
    after: SystemView,
    i: int,
    other: OptionView,
)
    requires
        before.wf(),
        has_options_set(before, opts, after),
    ensures
        0 <= i < opts@.len() && (forall|j: int|
            i < j < opts@.len() ==> (#[trigger] opts@[j]).0@ != opts@[i].0@)
            ==> after.simulation_options.contains((opts@[i].0@, opts@[i].1@)),
        (forall|j: int| 0 <= j < opts@.len() ==> (#[trigger] opts@[j]).0@ != other.0) ==> (
        after.simulation_options.contains(other) <==> before.simulation_options.contains(other)),
        after.model_file_path == before.model_file_path,
        after.model_name == before.model_name,
        after.xml_file_path == before.xml_file_path,
        after.exec_file_path == before.exec_file_path,
        after.result_file_path == before.result_file_path,
        after.current_user == before.current_user,
        after.session_log_file_suffix == before.session_log_file_suffix,
        after.session_random_string == before.session_random_string,
{
    let more = given_pairs(opts@);
    pairs_are_those_of_each_pair(Seq::<(String, String)>::empty(), opts@);
    if 0 <= i < opts@.len() && (forall|j: int|
        i < j < opts@.len() ==> (#[trigger] opts@[j]).0@ != opts@[i].0@) {
        options_are_those_set_last(before.simulation_options, more, more[i]);
        assert forall|j: int| i < j < more.len() implies (#[trigger] more[j]).0 != more[i].0 by {
            assert(opts@[j].0@ != opts@[i].0@);
        }
        assert(is_last_setting(more, i, more[i]));
    }
    if forall|j: int| 0 <= j < opts@.len() ==> (#[trigger] opts@[j]).0@ != other.0 {
        options_are_those_set_last(before.simulation_options, more, other);
        assert forall|j: int| 0 <= j < more.len() implies (#[trigger] more[j]).0 != other.0 by {
            assert(opts@[j].0@ != other.0);
        }
        if exists|k: int| #[trigger] is_last_setting(more, k, other) {
            let k = choose|k: int| #[trigger] is_last_setting(more, k, other);
            assert(more[k].0 != other.0);
        }
    }
}

/// What a request for a simulation comes to: where the executable exists, it is run, with the
/// result file, the flags and the options that were asked for, and logs to a file of its own; else
/// the error names it. Either way a result file that was given is remembered, and else the one of
/// before.
pub proof fn request_runs_what_was_asked_for(
    before: SystemView,
    result_file: Option<&str>,
    sim_flags: Option<&str>,
    exec_exists: bool,
    run_id: Seq<char>,
    after: SystemView,
    r: Result<SimulationCommand, ModelicaSystemError>,
)
    requires
        is_simulation_request(
            before,
            result_file,
            sim_flags,
            exec_exists,
            run_id,
            after,
            r,
        ),
    ensures
        r is Ok <==> exec_exists,
        r matches Err(e) ==> e is SimNotFound && e->SimNotFound_exec_path@ == before.exec_file_path,
        result_file matches Some(file) ==> after == (SystemView {
            result_file_path: file@,
            ..before
        }),
        result_file is None ==> after == before,
        r matches Ok(command) ==> {
            &&& command.exec_path@ == before.exec_file_path
            &&& result_file matches Some(file) ==> command.args@.len() > 0 && command.args@[0]@
                == seq!['-', 'r', '='] + file@
            &&& before.simulation_options.len() > 0 ==> command.args@.len() > 0
                && command.args@.last()@ == "-override="@ + options_text(before.simulation_options)
            &&& texts(command.args@) == simulation_args(
                before.simulation_options,
                (match result_file {
                    Some(file) => Some(file@),
                    None => None,
                }),
                (match sim_flags {
                    Some(flags) => Some(flags@),
                    None => None,
                }),
            )
            &&& command.log_file_path@ == "/tmp/openmodelica."@ + before.current_user + "."@
                + before.session_log_file_suffix + "."@ + before.session_random_string + ".sim."@
                + before.model_name + "."@ + run_id + ".log"@
        },
{
    if r is Ok {
        let args = r->Ok_0.args@;
        texts_are_those_of_each_string(args);
        if result_file is Some {
            result_file_is_the_first_argument(
                before.simulation_options,
                optional_slice(sim_flags),
                result_file->0@,
            );
            assert(texts(args)[0] == args[0]@);
        }
        options_are_the_last_argument(
            before.simulation_options,
            optional_slice(result_file),
            optional_slice(sim_flags),
        );
        if before.simulation_options.len() > 0 {
            assert(texts(args)[args.len() - 1] == args[args.len() - 1]@);
        }
    }
}

/// The error for a model file that does not exist names it, by its whole path.
pub proof fn missing_model_is_named(error: ModelicaSystemError, model_path: &str)
    requires
        is_model_missing(error, model_path),
    ensures
        error is ModelNotFound,
        error->model_path@ == model_path@,
{
}

/// No error of the session is lost on the way, and no value: what the session says is what the
/// model says.
pub proof fn session_results_are_kept<T>(
    result: Result<T, OMCSessionZMQError>,
    r: Result<T, ModelicaSystemError>,
)
    requires
        is_session_result(result, r),
    ensures
        r is Ok <==> result is Ok,
        r is Ok ==> r->Ok_0 == result->Ok_0,
        r is Err ==> r->Err_0 is OMCSessionZMQErr && r->Err_0->OMCSessionZMQErr_0 == result->Err_0,
{
}

} // verus!
