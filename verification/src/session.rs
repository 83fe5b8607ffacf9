//! A session with a server: how the server is started, where its files lie, and which expressions
//! it is sent.

use crate::connector::Connector;
use crate::error::{
    FromZmqError, IoFailure, OMCPathError, OMCSessionBaseConstructionError,
    OMCSessionZMQConstructionError, OMCSessionZMQError, ZmqFailure,
};
use crate::exchange::{carries, Exchange};
use crate::expression::{text_is_a_call_with_the_argument, OMCExpression};
use crate::identity::{is_hex_digit, is_random_uuid, random_uuid, username};
use crate::message::{contents, frames, message_of_text};
use crate::path::{join_path, joined_path};
use crate::results::{build_results, BuildModelResults, FromZmq};
use crate::text::texts;
use vstd::prelude::*;
use vstd::string::*;
use vstd::utf8::*;
use zeromq::ZmqMessage;

verus! {

/// How often the port file of a new server is read.
pub const CONNECT_ATTEMPTS: u8 = 80;

/// How long to pause between two of these times, in milliseconds.
pub const CONNECT_PAUSE_MILLIS: u64 = 5;

/// The path that the files of a session begin with.
pub open spec fn session_path(
    current_user: Seq<char>,
    suffix: Seq<char>,
    random_string: Seq<char>,
) -> Seq<char> {
    "/tmp/openmodelica."@ + current_user + "."@ + suffix + "."@ + random_string
}

/// The path of the executable in an installation of OpenModelica.
pub open spec fn omc_path(omc_home: Seq<char>) -> Seq<char> {
    joined_path(joined_path(omc_home, "bin"@), "omc"@)
}

/// The path that the files of a session begin with.
pub fn session_path_of(current_user: &str, suffix: &str, random_string: &str) -> (r: String)
    ensures
        r@ == session_path(current_user@, suffix@, random_string@),
{
    let mut r = "/tmp/openmodelica.".to_string();
    r.append(current_user);
    r.append(".");
    r.append(suffix);
    r.append(".");
    r.append(random_string);
    r
}

/// The request that begins the evaluation of an expression.
pub open spec fn is_request(request: (ZmqMessage, Exchange), expr: OMCExpression) -> bool {
    carries(request.0, expr.text()) && request.1 == (Exchange::Evaluating { expr })
}

/// The request that loads the models of a file.
pub open spec fn is_request_to_load(request: (ZmqMessage, Exchange), file_path: &str) -> bool {
    request.1 matches Exchange::Evaluating { expr } && is_request(request, expr) && expr is LoadFile
        && expr->file@ == file_path@
}

/// The request that builds a model.
pub open spec fn is_request_to_build(request: (ZmqMessage, Exchange), model_name: &str) -> bool {
    request.1 matches Exchange::Evaluating { expr } && is_request(request, expr)
        && expr is BuildModel && expr->name@ == model_name@
}

/// What the request that builds a model comes to.
pub open spec fn is_build_outcome(
    result: Result<ZmqMessage, OMCSessionZMQError>,
    r: Result<BuildModelResults, OMCSessionZMQError>,
) -> bool {
    match result {
        Err(e) => r == Err::<BuildModelResults, OMCSessionZMQError>(e),
        Ok(reply) => match r {
            Ok(results) => build_results(frames(reply)) == Some(
                (results.exec_path@, results.xml_file_name@),
            ),
            Err(e) => build_results(frames(reply)) is None && (e matches
                OMCSessionZMQError::FromZmqErr(
                FromZmqError::BuildModelResultsParseError { bytes },
            ) && contents(bytes@) == frames(reply)),
        },
    }
}

/// The installation that is used: the one given, or else the one that the environment names. There
/// is none where the environment names none.
pub open spec fn chosen_home(omc_home: Option<String>, env_home: Option<String>) -> Option<
    Seq<char>,
> {
    match (omc_home, env_home) {
        (_, None) => None,
        (Some(home), Some(_)) => Some(home@),
        (None, Some(home)) => Some(home@),
    }
}

/// The error for a process that could not be started.
pub open spec fn is_start_error(
    launch: OMCLaunch,
    failure: IoFailure,
    error: OMCSessionBaseConstructionError,
) -> bool {
    match failure {
        IoFailure::NotFound(_) => error matches OMCSessionBaseConstructionError::OMCPathErr(
            OMCPathError::OMCNotFound { omc_path },
        ) && omc_path@ == launch.omc_path@,
        IoFailure::Other(e) => error == OMCSessionBaseConstructionError::IOError(e),
    }
}

/// What is to be reported when a session has ended.
pub open spec fn is_shutdown_report(
    outcome: Result<(), OMCSessionZMQError>,
    report: Option<OMCSessionZMQError>,
) -> bool {
    match outcome {
        Ok(_) => report is None,
        Err(OMCSessionZMQError::ZmqErr(ZmqFailure::NoMessage)) => report is None,
        Err(e) => report == Some(e),
    }
}

/// A server process that is to be started.
pub struct OMCLaunch {
    /// The executable.
    pub omc_path: String,
    /// Its arguments.
    pub omc_args: Vec<String>,
    /// The file that its output goes to.
    pub log_file_path: String,
}

/// The part of a session that runs the server process.
pub struct OMCSessionBase {
    log_file_path: String,
}

impl View for OMCSessionBase {
    type V = Seq<char>;

    /// The path of the log file.
    closed spec fn view(&self) -> Seq<char> {
        self.log_file_path@
    }
}

impl OMCSessionBase {
    /// Prepares the start of a server: the executable of the installation runs with the
    /// arguments, and writes to a log file of its own.
    pub fn new(
        omc_home: &str,
        random_string: &str,
        current_user: &str,
        log_file_suffix: &str,
        omc_args: Vec<String>,
    ) -> (r: Result<OMCLaunch, OMCSessionBaseConstructionError>)
        ensures
            r matches Ok(launch) && launch.omc_path@ == omc_path(omc_home@) && launch.omc_args
                == omc_args && launch.log_file_path@ == session_path(
                current_user@,
                log_file_suffix@,
                random_string@,
            ) + ".log"@,
    {
        let omc_path = match OMCSessionBase::get_omc_path_str(omc_home) {
            Ok(path) => path,
            Err(e) => {
                return Err(OMCSessionBaseConstructionError::OMCPathErr(e));
            },
        };
        let log_file_path = session_path_of(current_user, log_file_suffix, random_string).concat(
            ".log",
        );
        Ok(OMCLaunch { omc_path, omc_args, log_file_path })
    }

    /// The path of the executable in an installation.
    pub fn get_omc_path(omc_home: &str) -> (r: Result<String, OMCPathError>)
        ensures
            r matches Ok(path) && path@ == omc_path(omc_home@),
    {
        Ok(join_path(join_path(omc_home, "bin").as_str(), "omc"))
    }

    /// The path of the executable in an installation, as a text. An installation that is given
    /// by a text has such a path.
    pub fn get_omc_path_str(omc_home: &str) -> (r: Result<String, OMCPathError>)
        ensures
            r matches Ok(path) && path@ == omc_path(omc_home@),
    {
        OMCSessionBase::get_omc_path(omc_home)
    }

    /// The path of the file that the output of the server goes to.
    pub fn log_file_path(&self) -> (r: &str)
        ensures
            r@ == self@,
    {
        self.log_file_path.as_str()
    }
}

impl OMCLaunch {
    /// The error for a log file that could not be created.
    pub fn log_file_error(&self, source: std::io::Error) -> (r: OMCSessionBaseConstructionError)
        ensures
            r matches OMCSessionBaseConstructionError::FailedToCreateOMCLogFile {
                path,
                source: cause,
            } && path@ == self.log_file_path@ && cause == source,
    {
        OMCSessionBaseConstructionError::FailedToCreateOMCLogFile {
            path: self.log_file_path.clone(),
            source,
        }
    }

    /// The error for a process that could not be started: where nothing was found at the path of
    /// the executable, it names that path.
    pub fn start_error(&self, failure: IoFailure) -> (r: OMCSessionBaseConstructionError)
        ensures
            match failure {
                IoFailure::NotFound(_) => r matches OMCSessionBaseConstructionError::OMCPathErr(
                    OMCPathError::OMCNotFound { omc_path },
                ) && omc_path@ == self.omc_path@,
                IoFailure::Other(e) => r == OMCSessionBaseConstructionError::IOError(e),
            },
            is_start_error(*self, failure, r),
    {
        match failure {
            IoFailure::NotFound(_) => OMCSessionBaseConstructionError::OMCPathErr(
                OMCPathError::OMCNotFound { omc_path: self.omc_path.clone() },
            ),
            IoFailure::Other(e) => OMCSessionBaseConstructionError::IOError(e),
        }
    }

    /// The session base of the process that was started.
    pub fn started(self) -> (r: OMCSessionBase)
        ensures
            r@ == self.log_file_path@,
    {
        OMCSessionBase { log_file_path: self.log_file_path }
    }
}

/// What is known of a session: the user and the random text that it belongs to, and its files.
pub struct SessionView {
    pub port_file: Seq<char>,
    pub log_file_path: Seq<char>,
    pub current_user: Seq<char>,
    pub log_file_suffix: Seq<char>,
    pub random_string: Seq<char>,
}

impl SessionView {
    /// The files of the session are those of its user and its random text.
    pub open spec fn wf(self) -> bool {
        &&& self.log_file_suffix == "port"@
        &&& self.port_file == session_path(
            self.current_user,
            self.log_file_suffix,
            self.random_string,
        )
        &&& self.log_file_path == self.port_file + ".log"@
    }
}

/// A session whose server is to be started and reached.
pub struct PendingSession {
    port_file: String,
    launch: OMCLaunch,
    current_user: String,
    log_file_suffix: String,
    random_string: String,
}

/// What is known of a session whose server is to be started: the session that it becomes, and the
/// executable of the server with its arguments.
pub struct PendingView {
    pub session: SessionView,
    pub omc_path: Seq<char>,
    pub omc_args: Seq<Seq<char>>,
}

impl View for PendingSession {
    type V = PendingView;

    closed spec fn view(&self) -> PendingView {
        PendingView {
            session: SessionView {
                port_file: self.port_file@,
                log_file_path: self.launch.log_file_path@,
                current_user: self.current_user@,
                log_file_suffix: self.log_file_suffix@,
                random_string: self.random_string@,
            },
            omc_path: self.launch.omc_path@,
            omc_args: texts(self.launch.omc_args@),
        }
    }
}

/// A session with a server that runs and was reached.
pub struct OMCSessionZMQ {
    port_file: String,
    base: OMCSessionBase,
    current_user: String,
    log_file_suffix: String,
    random_string: String,
}

impl View for OMCSessionZMQ {
    type V = SessionView;

    closed spec fn view(&self) -> SessionView {
        SessionView {
            port_file: self.port_file@,
            log_file_path: self.base@,
            current_user: self.current_user@,
            log_file_suffix: self.log_file_suffix@,
            random_string: self.random_string@,
        }
    }
}

/// The arguments of a server that listens for a session with the random text.
pub open spec fn server_args(random_string: Seq<char>) -> Seq<Seq<char>> {
    seq!["--interactive=zmq"@, "--locale=C"@, "-z="@ + random_string]
}

/// The session of a user with a random text, and how its server is started.
pub open spec fn is_pending_session(
    pending: PendingView,
    omc_home: Seq<char>,
    current_user: Seq<char>,
    random_string: Seq<char>,
) -> bool {
    &&& pending.session.wf()
    &&& pending.session.current_user == current_user
    &&& pending.session.random_string == random_string
    &&& pending.omc_path == omc_path(omc_home)
    &&& pending.omc_args == server_args(random_string)
}

/// The error for an installation that the environment does not name.
pub open spec fn is_home_missing(error: OMCSessionZMQConstructionError) -> bool {
    error matches OMCSessionZMQConstructionError::OpenModelicaHomeEnvVarNotSet { env_var }
        && env_var@ == "OPENMODELICAHOME"@
}

/// The error for an installation that the environment does not name.
fn home_missing() -> (r: OMCSessionZMQConstructionError)
    ensures
        is_home_missing(r),
{
    OMCSessionZMQConstructionError::OpenModelicaHomeEnvVarNotSet {
        env_var: "OPENMODELICAHOME".to_string(),
    }
}

impl PendingSession {
    /// How the server is started.
    pub fn launch(&self) -> (r: &OMCLaunch)
        ensures
            r.omc_path@ == self@.omc_path,
            texts(r.omc_args@) == self@.omc_args,
            r.log_file_path@ == self@.session.log_file_path,
    {
        &self.launch
    }

    /// The search for the address of the server, once it was started.
    pub fn connector(&self) -> (r: Connector)
        ensures
            r.port_file@ == self@.session.port_file,
            r.pause_millis == CONNECT_PAUSE_MILLIS,
            r.attempts_left == CONNECT_ATTEMPTS,
            r.pause_millis == 5,
            r.attempts_left == 80,
    {
        Connector::new(self.port_file.as_str(), CONNECT_PAUSE_MILLIS, CONNECT_ATTEMPTS)
    }

    /// The session, once its server was reached.
    pub fn established(self) -> (r: OMCSessionZMQ)
        ensures
            r@ == self@.session,
    {
        OMCSessionZMQ {
            port_file: self.port_file,
            base: self.launch.started(),
            current_user: self.current_user,
            log_file_suffix: self.log_file_suffix,
            random_string: self.random_string,
        }
    }
}

impl OMCSessionZMQ {
    /// Prepares a session of the current user with a server of its own. The installation is the
    /// one given, or else the one that the environment variable `OPENMODELICAHOME` names, whose
    /// value is `env_home`. Without that variable no session can be prepared.
    pub fn new(omc_home: Option<String>, env_home: Option<String>) -> (r: Result<
        PendingSession,
        OMCSessionZMQConstructionError,
    >)
        ensures
            r is Err <==> env_home is None,
            r matches Err(e) ==> is_home_missing(e),
            r matches Ok(pending) ==> is_random_uuid(pending@.session.random_string)
                && is_pending_session(
                pending@,
                (if omc_home is Some {
                    omc_home->0@
                } else {
                    env_home->0@
                }),
                pending@.session.current_user,
                pending@.session.random_string,
            ),
            r is Ok <==> chosen_home(omc_home, env_home) is Some,
            r matches Ok(pending) ==> pending@.omc_path == omc_path(
                chosen_home(omc_home, env_home)->0,
            ),
    {
        if env_home.is_none() {
            return Err(home_missing());
        }
        OMCSessionZMQ::new_for(omc_home, env_home, username(), random_uuid())
    }

    /// Prepares a session of a user, told from others by a random text.
    pub fn new_for(
        omc_home: Option<String>,
        env_home: Option<String>,
        current_user: String,
        random_string: String,
    ) -> (r: Result<PendingSession, OMCSessionZMQConstructionError>)
        ensures
            r is Err <==> env_home is None,
            r matches Err(e) ==> is_home_missing(e),
            r matches Ok(pending) ==> is_pending_session(
                pending@,
                (if omc_home is Some {
                    omc_home->0@
                } else {
                    env_home->0@
                }),
                current_user@,
                random_string@,
            ),
            r matches Ok(pending) ==> pending@.omc_args.len() == 3 && pending@.omc_args[2] == "-z="@
                + random_string@,
            r is Ok <==> chosen_home(omc_home, env_home) is Some,
            r matches Ok(pending) ==> pending@.omc_path == omc_path(
                chosen_home(omc_home, env_home)->0,
            ),
    {
        let env_home = match env_home {
            Some(home) => home,
            None => {
                return Err(home_missing());
            },
        };
        let home = match omc_home {
            Some(home) => home,
            None => env_home,
        };
        let log_file_suffix = "port".to_string();
        let port_file = session_path_of(
            current_user.as_str(),
            log_file_suffix.as_str(),
            random_string.as_str(),
        );
        let mut omc_args: Vec<String> = Vec::new();
        omc_args.push("--interactive=zmq".to_string());
        omc_args.push("--locale=C".to_string());
        omc_args.push("-z=".to_string().concat(random_string.as_str()));
        assert(texts(omc_args@) =~= server_args(random_string@));
        match OMCSessionBase::new(
            home.as_str(),
            random_string.as_str(),
            current_user.as_str(),
            log_file_suffix.as_str(),
            omc_args,
        ) {
            Ok(launch) => Ok(
                PendingSession { port_file, launch, current_user, log_file_suffix, random_string },
            ),
            Err(e) => Err(OMCSessionZMQConstructionError::OMCSessionBaseConstructionErr(e)),
        }
    }

    /// The file that the server wrote its address to.
    pub fn port_file(&self) -> (r: &str)
        ensures
            r@ == self@.port_file,
    {
        self.port_file.as_str()
    }

    /// The part of the session that runs the server process.
    pub fn base(&self) -> (r: &OMCSessionBase)
        ensures
            r@ == self@.log_file_path,
    {
        &self.base
    }

    /// The user that the session belongs to.
    pub fn current_user(&self) -> (r: &str)
        ensures
            r@ == self@.current_user,
    {
        self.current_user.as_str()
    }

    /// The text in the names of the files of the session that stands before the random text.
    pub fn log_file_suffix(&self) -> (r: &str)
        ensures
            r@ == self@.log_file_suffix,
    {
        self.log_file_suffix.as_str()
    }

    /// The random text of the session.
    pub fn random_string(&self) -> (r: &str)
        ensures
            r@ == self@.random_string,
    {
        self.random_string.as_str()
    }

    /// Starts the evaluation of an expression: the first message, and the conversation that waits
    /// for what comes of it.
    pub fn send_expression(&self, expr: OMCExpression) -> (r: (ZmqMessage, Exchange))
        ensures
            carries(r.0, expr.text()),
            r.1 == (Exchange::Evaluating { expr }),
            is_request(r, expr),
    {
        let message = message_of_text(expr.to_string());
        (message, Exchange::Evaluating { expr })
    }

    /// Starts the request that ends the server.
    pub fn quit(&self) -> (r: (ZmqMessage, Exchange))
        ensures
            carries(r.0, "quit()"@),
            r.1 == (Exchange::Evaluating { expr: OMCExpression::Quit }),
    {
        self.send_expression(OMCExpression::Quit)
    }

    /// Starts the request that loads the models of a file.
    pub fn load_file(&self, file_path: &str) -> (r: (ZmqMessage, Exchange))
        ensures
            carries(r.0, "loadFile(\""@ + file_path@ + "\")"@),
            r.1 matches Exchange::Evaluating { expr: OMCExpression::LoadFile { file } } && file@
                == file_path@,
            is_request_to_load(r, file_path),
    {
        self.send_expression(OMCExpression::LoadFile { file: file_path.to_string() })
    }

    /// Starts the request that builds a model.
    pub fn build_model(&self, model_name: &str) -> (r: (ZmqMessage, Exchange))
        ensures
            carries(r.0, "buildModel("@ + model_name@ + ")"@),
            r.1 matches Exchange::Evaluating { expr: OMCExpression::BuildModel { name } } && name@
                == model_name@,
            is_request_to_build(r, model_name),
    {
        self.send_expression(OMCExpression::BuildModel { name: model_name.to_string() })
    }

    /// The result of the request that builds a model: what the reply names, or why there is
    /// nothing.
    pub fn build_model_results(result: Result<ZmqMessage, OMCSessionZMQError>) -> (r: Result<
        BuildModelResults,
        OMCSessionZMQError,
    >)
        requires
            result matches Ok(reply) ==> BuildModelResults::readable(reply),
        ensures
            match result {
                Err(e) => r == Err::<BuildModelResults, OMCSessionZMQError>(e),
                Ok(reply) => match build_results(frames(reply)) {
                    Some(names) => r matches Ok(results) && names == (
                        results.exec_path@,
                        results.xml_file_name@,
                    ),
                    None => r matches Err(
                        OMCSessionZMQError::FromZmqErr(
                            FromZmqError::BuildModelResultsParseError { bytes },
                        ),
                    ) && contents(bytes@) == frames(reply),
                },
            },
            is_build_outcome(result, r),
    {
        match result {
            Ok(reply) => match BuildModelResults::from_zmq(reply) {
                Ok(results) => Ok(results),
                Err(e) => Err(OMCSessionZMQError::FromZmqErr(e)),
            },
            Err(e) => Err(e),
        }
    }

    /// The failure to report when a session has ended. That the server closed the connection
    /// without an answer is none: it was asked to end.
    pub fn shutdown_failure(outcome: Result<(), OMCSessionZMQError>) -> (r: Option<
        OMCSessionZMQError,
    >)
        ensures
            r == match outcome {
                Ok(_) => None::<OMCSessionZMQError>,
                Err(OMCSessionZMQError::ZmqErr(ZmqFailure::NoMessage)) => None,
                Err(e) => Some(e),
            },
            is_shutdown_report(outcome, r),
    {
        match outcome {
            Ok(_) => None,
            Err(e) => match e {
                OMCSessionZMQError::ZmqErr(ZmqFailure::NoMessage) => None,
                e => Some(e),
            },
        }
    }
}

/// Two sessions with different random texts share no file, whoever their users are.
pub proof fn sessions_share_no_file(a: SessionView, b: SessionView)
    requires
        a.wf(),
        b.wf(),
        is_random_uuid(a.random_string),
        is_random_uuid(b.random_string),
        a.random_string != b.random_string,
    ensures
        a.port_file != b.port_file,
        a.log_file_path != b.log_file_path,
        a.port_file != b.log_file_path,
        a.log_file_path != b.port_file,
{
    reveal_strlit(".log");
    let m = a.port_file.len() as int;
    let n = b.port_file.len() as int;
    assert(a.random_string =~= a.port_file.subrange(m - 36, m));
    assert(b.random_string =~= b.port_file.subrange(n - 36, n));
    assert(a.random_string =~= a.log_file_path.subrange(m - 36, m));
    assert(b.random_string =~= b.log_file_path.subrange(n - 36, n));
    // A port file ends in a digit of its random text, a log file in a letter that is none.
    assert(a.port_file.last() == a.random_string[35] && is_hex_digit(a.random_string[35]));
    assert(b.port_file.last() == b.random_string[35] && is_hex_digit(b.random_string[35]));
    assert(a.log_file_path.last() == 'g' && b.log_file_path.last() == 'g');
}

/// The server writes its address to the very file that the session waits for: of the three
/// arguments of the server, the last is `-z=` and then the random text, all of it, and the port
/// file is the one of the user and of what that argument hands over. The log file stands beside
/// it.
pub proof fn server_is_told_the_port_file(
    pending: PendingView,
    omc_home: Seq<char>,
    current_user: Seq<char>,
    random_string: Seq<char>,
)
    requires
        is_pending_session(pending, omc_home, current_user, random_string),
    ensures
        pending.omc_args.len() == 3,
        pending.omc_args[0] == "--interactive=zmq"@,
        pending.omc_args[1] == "--locale=C"@,
        seq!['-', 'z', '='].is_prefix_of(pending.omc_args[2]),
        pending.omc_args[2].skip(3) == random_string,
        pending.session.port_file == "/tmp/openmodelica."@ + current_user + ".port."@
            + pending.omc_args[2].skip(3),
        pending.session.log_file_path == pending.session.port_file + ".log"@,
        pending.session.current_user == current_user,
        pending.session.random_string == random_string,
{
    reveal_strlit("-z=");
    assert(pending.omc_args[2].skip(3) =~= random_string);
    files_carry_the_user_and_the_random_text(pending.session);
}

/// Servers of different random texts are started with different arguments.
pub proof fn servers_are_told_apart(a: Seq<char>, b: Seq<char>)
    requires
        a != b,
    ensures
        server_args(a) != server_args(b),
{
    reveal_strlit("-z=");
    assert(server_args(a)[2].skip(3) =~= a);
    assert(server_args(b)[2].skip(3) =~= b);
}

/// The files of a session lie in `/tmp`, and their names hold the whole name of the user and the
/// whole random text.
pub proof fn files_carry_the_user_and_the_random_text(session: SessionView)
    requires
        session.wf(),
    ensures
        session.port_file == "/tmp/openmodelica."@ + session.current_user + ".port."@
            + session.random_string,
        session.log_file_path == "/tmp/openmodelica."@ + session.current_user + ".port."@
            + session.random_string + ".log"@,
{
    reveal_strlit(".");
    reveal_strlit("port");
    reveal_strlit(".port.");
    assert(session.port_file =~= "/tmp/openmodelica."@ + session.current_user + ".port."@
        + session.random_string);
}

/// The path that the files of a session begin with is made of three texts, each of them whole,
/// with a dot before the second and before the third.
pub proof fn session_path_holds_its_three_texts(
    current_user: Seq<char>,
    suffix: Seq<char>,
    random_string: Seq<char>,
)
    ensures
        ({
            let path = session_path(current_user, suffix, random_string);
            let n = current_user.len() as int;
            let m = suffix.len() as int;
            &&& path.take(18) == "/tmp/openmodelica."@
            &&& path.subrange(18, 18 + n) == current_user
            &&& path[18 + n] == '.'
            &&& path.subrange(19 + n, 19 + n + m) == suffix
            &&& path[19 + n + m] == '.'
            &&& path.skip(20 + n + m) == random_string
        }),
{
    reveal_strlit("/tmp/openmodelica.");
    reveal_strlit(".");
    let path = session_path(current_user, suffix, random_string);
    let n = current_user.len() as int;
    let m = suffix.len() as int;
    assert(path.take(18) =~= "/tmp/openmodelica."@);
    assert(path.subrange(18, 18 + n) =~= current_user);
    assert(path.subrange(19 + n, 19 + n + m) =~= suffix);
    assert(path.skip(20 + n + m) =~= random_string);
}

/// The executable of an installation is the file `bin/omc` in its directory, whether the path of
/// the directory ends in a separator or not; in the empty path it is `bin/omc` itself.
pub proof fn executable_lies_in_the_installation(omc_home: Seq<char>)
    ensures
        omc_home.len() == 0 ==> omc_path(omc_home) == "bin/omc"@,
        omc_home.len() > 0 && omc_home.last() == '/' ==> omc_path(omc_home) == omc_home
            + "bin/omc"@,
        omc_home.len() > 0 && omc_home.last() != '/' ==> omc_path(omc_home) == omc_home
            + "/bin/omc"@,
{
    reveal_strlit("bin");
    reveal_strlit("omc");
    reveal_strlit("bin/omc");
    reveal_strlit("/bin/omc");
    let bin = joined_path(omc_home, "bin"@);
    assert(bin.last() == 'n');
    assert(omc_home.len() == 0 ==> omc_path(omc_home) =~= "bin/omc"@);
    assert(omc_home.len() > 0 && omc_home.last() == '/' ==> omc_path(omc_home) =~= omc_home
        + "bin/omc"@);
    assert(omc_home.len() > 0 && omc_home.last() != '/' ==> omc_path(omc_home) =~= omc_home
        + "/bin/omc"@);
}

/// Where an installation is missing, the error names the variable of the environment that was
/// looked for.
pub proof fn missing_home_names_the_variable(error: OMCSessionZMQConstructionError)
    requires
        is_home_missing(error),
    ensures
        error is OpenModelicaHomeEnvVarNotSet,
        error->env_var@ == "OPENMODELICAHOME"@,
{
}

/// An installation that is given is used, whatever its path is, and whatever the environment names;
/// the one that the environment names is used where none is given. Where the environment names
/// none, none is used, even one that is given.
pub proof fn given_home_goes_before_the_environment(
    omc_home: Option<String>,
    env_home: Option<String>,
)
    ensures
        chosen_home(omc_home, env_home) is Some <==> env_home is Some,
        omc_home is Some && env_home is Some ==> chosen_home(omc_home, env_home) == Some(
            omc_home->0@,
        ),
        omc_home is None && env_home is Some ==> chosen_home(omc_home, env_home) == Some(
            env_home->0@,
        ),
{
}

/// The one frame of a request to load a file holds the path as it was given, and the conversation
/// waits for the answer about that very file. So it is with the request to build a model and its
/// name.
pub proof fn requests_hold_what_was_asked_for(
    load: (ZmqMessage, Exchange),
    file_path: &str,
    build: (ZmqMessage, Exchange),
    model_name: &str,
)
    requires
        is_request_to_load(load, file_path),
        is_request_to_build(build, model_name),
    ensures
        frames(load.0) == seq![
            encode_utf8("loadFile"@ + seq!['(', '"'] + file_path@ + seq!['"', ')']),
        ],
        load.1 is Evaluating,
        load.1->Evaluating_expr is LoadFile,
        load.1->Evaluating_expr->file@ == file_path@,
        frames(build.0) == seq![
            encode_utf8("buildModel"@ + seq!['('] + model_name@ + seq![')']),
        ],
        build.1 is Evaluating,
        build.1->Evaluating_expr is BuildModel,
        build.1->Evaluating_expr->name@ == model_name@,
{
    reveal_strlit("loadFile");
    reveal_strlit("loadFile(\"");
    reveal_strlit("\")");
    reveal_strlit("buildModel");
    reveal_strlit("buildModel(");
    reveal_strlit(")");
    assert(load.1->Evaluating_expr.text() =~= "loadFile"@ + seq!['(', '"'] + file_path@ + seq![
        '"',
        ')',
    ]);
    assert(build.1->Evaluating_expr.text() =~= "buildModel"@ + seq!['('] + model_name@ + seq![
        ')',
    ]);
}

/// A request is about the expression that it was made for, and about no other: its one frame is the
/// text of the expression.
pub proof fn request_is_about_its_expression(
    request: (ZmqMessage, Exchange),
    expr: OMCExpression,
)
    requires
        is_request(request, expr),
    ensures
        frames(request.0).len() == 1,
        frames(request.0)[0] == encode_utf8(expr.text()),
        request.1 is Evaluating,
        request.1->Evaluating_expr == expr,
        expr is Quit ==> frames(request.0)[0] == encode_utf8(seq!['q', 'u', 'i', 't', '(', ')']),
{
    text_is_a_call_with_the_argument(expr, 0);
}

/// Of a process that could not be started, the error names the executable where nothing was found
/// there, and is the one that was reported else.
pub proof fn start_error_says_why(
    launch: OMCLaunch,
    failure: IoFailure,
    error: OMCSessionBaseConstructionError,
)
    requires
        is_start_error(launch, failure, error),
    ensures
        failure is NotFound <==> error is OMCPathErr,
        error is OMCPathErr ==> error->OMCPathErr_0 is OMCNotFound
            && error->OMCPathErr_0->omc_path@ == launch.omc_path@,
        !(error is OMCPathErr) ==> error is IOError && error->IOError_0 == failure->Other_0,
{
}

/// When a session has ended, every failure is reported as it is but one: that the server closed
/// the connection without an answer.
pub proof fn every_other_failure_is_reported(
    outcome: Result<(), OMCSessionZMQError>,
    report: Option<OMCSessionZMQError>,
)
    requires
        is_shutdown_report(outcome, report),
    ensures
        report is None <==> (outcome matches Err(e) ==> (e matches OMCSessionZMQError::ZmqErr(f)
            && f is NoMessage)),
        report is Some ==> outcome is Err && report->0 == outcome->Err_0,
{
}

/// A build that failed has no results, and its error is the one that the evaluation came to. A
/// build that did not has the two names of the reply as its results, and where the reply names
/// none, the error holds all of its frames.
pub proof fn build_outcome_is_that_of_the_reply(
    result: Result<ZmqMessage, OMCSessionZMQError>,
    r: Result<BuildModelResults, OMCSessionZMQError>,
)
    requires
        is_build_outcome(result, r),
    ensures
        result is Err ==> r is Err && r->Err_0 == result->Err_0,
        result is Ok ==> (r is Ok <==> build_results(frames(result->Ok_0)) is Some),
        r is Ok ==> result is Ok && build_results(frames(result->Ok_0)) == Some(
            (r->Ok_0.exec_path@, r->Ok_0.xml_file_name@),
        ),
        result is Ok && r is Err ==> r->Err_0 is FromZmqErr
            && r->Err_0->FromZmqErr_0 is BuildModelResultsParseError && contents(
            r->Err_0->FromZmqErr_0->BuildModelResultsParseError_bytes@,
        ) == frames(result->Ok_0),
{
}

} // verus!
