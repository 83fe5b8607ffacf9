//! The conversations that turn a model file into a model that was built: the file is loaded, then
//! the model is built.

use crate::error::{FromZmqError, ModelicaSystemError, OMCSessionZMQError, ZmqFailure};
use crate::exchange::{
    carries, is_next_action, is_verdict, refusals_are_told_by_the_frames, Exchange, ExchangeAction,
    ExchangeEvent,
};
use crate::expression::{text_is_a_call_with_the_argument, OMCExpression};
use crate::message::{contents, frames};
use crate::path::{directory_of, directory_stands_before_the_last_component};
use crate::results::{
    build_array, build_reply, build_results, surrounded_build_is_read_back, BuildModelResults,
    FromZmq,
};
use crate::session::{is_request_to_load, OMCSessionZMQ};
use crate::system::{
    build_becomes_a_model, is_model_missing, is_new_system, new_system, ModelicaSystem,
};
use vstd::prelude::*;
use vstd::string::*;
use vstd::utf8::*;
use zeromq::ZmqMessage;

verus! {

/// A setup that waits for what comes of the message that was handed out last.
pub enum SystemSetup {
    /// The model file is being loaded.
    Loading { exchange: Exchange, model_name: String },
    /// The model is being built.
    Building { exchange: Exchange },
}

/// What is to be done next.
pub enum SetupAction {
    /// Send the message and report what comes of it to the setup.
    Send { message: ZmqMessage, next: SystemSetup },
    /// The model was built; the reply names the results.
    Built { reply: ZmqMessage },
    /// The setup has failed.
    Fail { error: ModelicaSystemError },
}

/// The conversation evaluates the expression that builds the model, from its begin.
pub open spec fn is_build_of(exchange: Exchange, model_name: Seq<char>) -> bool {
    exchange matches Exchange::Evaluating { expr: OMCExpression::BuildModel { name } } && name@
        == model_name
}

/// The setup has just sent the request to load a file, and builds the model next.
pub open spec fn is_load_of(
    setup: SystemSetup,
    file_path: Seq<char>,
    model_name: Seq<char>,
) -> bool {
    exists|file: String, name: String| #[trigger]
        loading(file, name) == setup && file@ == file_path && name@ == model_name
}

/// A setup that has just sent the request to load a file.
pub open spec fn loading(file: String, model_name: String) -> SystemSetup {
    SystemSetup::Loading {
        exchange: Exchange::Evaluating { expr: OMCExpression::LoadFile { file } },
        model_name,
    }
}

/// The request to load a file, and the setup that waits for the answer and builds the model next.
pub open spec fn is_start_of_setup(
    request: (ZmqMessage, SystemSetup),
    file_path: &str,
    model_name: &str,
) -> bool {
    request.1 matches SystemSetup::Loading { exchange, model_name: name } && name@ == model_name@
        && is_request_to_load((request.0, exchange), file_path)
}

/// The model that the reply to a build describes, or the error for a reply that describes none.
pub open spec fn is_built_from(
    session: OMCSessionZMQ,
    file_path: &str,
    model_name: &str,
    reply: ZmqMessage,
    r: Result<ModelicaSystem, ModelicaSystemError>,
) -> bool {
    match build_results(frames(reply)) {
        Some((exec, xml)) => is_new_system(session, file_path, model_name, exec, xml, r),
        None => r matches Err(
            ModelicaSystemError::OMCSessionZMQErr(
                OMCSessionZMQError::FromZmqErr(FromZmqError::BuildModelResultsParseError { bytes }),
            ),
        ) && contents(bytes@) == frames(reply),
    }
}

/// The setup has failed because the server refused a request with the error string.
pub open spec fn is_refusal(action: SetupAction, error: Seq<Seq<u8>>) -> bool {
    action matches SetupAction::Fail {
        error: ModelicaSystemError::OMCSessionZMQErr(OMCSessionZMQError::ExpressionError { bytes }),
    } && contents(bytes@) == error
}

impl SystemSetup {
    /// The conversation that is under way.
    pub open spec fn exchange(self) -> Exchange {
        match self {
            SystemSetup::Loading { exchange, .. } => exchange,
            SystemSetup::Building { exchange } => exchange,
        }
    }

    /// What the setup does when its conversation takes an action: it goes on with a conversation
    /// that goes on, fails with one that fails, builds once the file was loaded, and is done once
    /// the model was built.
    pub open spec fn follows(self, of_exchange: ExchangeAction, action: SetupAction) -> bool {
        match of_exchange {
            ExchangeAction::Send { message, next } => match self {
                SystemSetup::Loading { model_name, .. } => action == (SetupAction::Send {
                    message,
                    next: SystemSetup::Loading { exchange: next, model_name },
                }),
                SystemSetup::Building { .. } => action == (SetupAction::Send {
                    message,
                    next: SystemSetup::Building { exchange: next },
                }),
            },
            ExchangeAction::Finish { result: Err(e) } => action == (SetupAction::Fail {
                error: ModelicaSystemError::OMCSessionZMQErr(e),
            }),
            ExchangeAction::Finish { result: Ok(reply) } => match self {
                SystemSetup::Loading { model_name, .. } => {
                    action matches SetupAction::Send {
                        message,
                        next: SystemSetup::Building { exchange },
                    } && carries(message, "buildModel("@ + model_name@ + ")"@) && is_build_of(
                        exchange,
                        model_name@,
                    )
                },
                SystemSetup::Building { .. } => action == (SetupAction::Built { reply }),
            },
        }
    }

    /// The action that a setup takes on an event.
    pub open spec fn is_next(self, event: ExchangeEvent, action: SetupAction) -> bool {
        exists|of_exchange: ExchangeAction| #[trigger]
            is_next_action(self.exchange(), event, of_exchange) && self.follows(
                of_exchange,
                action,
            )
    }

    /// Starts the setup of a model from a file, where the file exists.
    pub fn start(
        session: &OMCSessionZMQ,
        file_path: &str,
        model_name: &str,
        file_exists: bool,
    ) -> (r: Result<(ZmqMessage, SystemSetup), ModelicaSystemError>)
        ensures
            r is Ok <==> file_exists,
            r matches Ok(request) ==> carries(request.0, "loadFile(\""@ + file_path@ + "\")"@)
                && is_load_of(request.1, file_path@, model_name@),
            r matches Ok(request) ==> is_start_of_setup(request, file_path, model_name),
            r matches Err(e) ==> is_model_missing(e, file_path),
            r matches Err(e) ==> (e matches ModelicaSystemError::ModelNotFound { model_path }
                && model_path@ == file_path@),
    {
        match ModelicaSystem::load_model(session, file_path, file_exists) {
            Ok((message, exchange)) => {
                let name = model_name.to_string();
                proof {
                    let file = exchange->Evaluating_expr->file;
                    assert(loading(file, name) == (SystemSetup::Loading {
                        exchange,
                        model_name: name,
                    }));
                }
                Ok((message, SystemSetup::Loading { exchange, model_name: name }))
            },
            Err(e) => Err(e),
        }
    }

    /// Takes the setup one step further.
    pub fn step(self, session: &OMCSessionZMQ, event: ExchangeEvent) -> (r: SetupAction)
        ensures
            self.is_next(event, r),
    {
        match self {
            SystemSetup::Loading { exchange, model_name } => {
                let of_exchange = exchange.step(event);
                let ghost taken = of_exchange;
                let action = match of_exchange {
                    ExchangeAction::Send { message, next } => SetupAction::Send {
                        message,
                        next: SystemSetup::Loading { exchange: next, model_name },
                    },
                    ExchangeAction::Finish { result } => match result {
                        Ok(_) => {
                            let (message, next) = ModelicaSystem::build_model(
                                session,
                                model_name.as_str(),
                            );
                            SetupAction::Send {
                                message,
                                next: SystemSetup::Building { exchange: next },
                            }
                        },
                        Err(e) => SetupAction::Fail {
                            error: ModelicaSystemError::OMCSessionZMQErr(e),
                        },
                    },
                };
                assert(is_next_action(self.exchange(), event, taken) && self.follows(
                    taken,
                    action,
                ));
                action
            },
            SystemSetup::Building { exchange } => {
                let of_exchange = exchange.step(event);
                let ghost taken = of_exchange;
                let action = match of_exchange {
                    ExchangeAction::Send { message, next } => SetupAction::Send {
                        message,
                        next: SystemSetup::Building { exchange: next },
                    },
                    ExchangeAction::Finish { result } => match result {
                        Ok(reply) => SetupAction::Built { reply },
                        Err(e) => SetupAction::Fail {
                            error: ModelicaSystemError::OMCSessionZMQErr(e),
                        },
                    },
                };
                assert(is_next_action(self.exchange(), event, taken) && self.follows(
                    taken,
                    action,
                ));
                action
            },
        }
    }
}

/// The model that the reply to a build describes.
pub fn built_system(
    session: &OMCSessionZMQ,
    file_path: &str,
    model_name: &str,
    reply: ZmqMessage,
) -> (r: Result<ModelicaSystem, ModelicaSystemError>)
    requires
        BuildModelResults::readable(reply),
    ensures
        match build_results(frames(reply)) {
            Some((exec, xml)) => match directory_of(exec) {
                Some(exec_dir) => r matches Ok(system) && system@.wf() && system@ == new_system(
                    session@,
                    file_path@,
                    model_name@,
                    exec,
                    xml,
                    exec_dir,
                ),
                None => r matches Err(ModelicaSystemError::ExecParentDirError { exec_path })
                    && exec_path@ == exec,
            },
            None => r matches Err(
                ModelicaSystemError::OMCSessionZMQErr(
                    OMCSessionZMQError::FromZmqErr(
                        FromZmqError::BuildModelResultsParseError { bytes },
                    ),
                ),
            ) && contents(bytes@) == frames(reply),
        },
        is_built_from(*session, file_path, model_name, reply, r),
{
    let results = ModelicaSystem::session_result(OMCSessionZMQ::build_model_results(Ok(reply)));
    match results {
        Ok(results) => ModelicaSystem::new(session, file_path, model_name, results),
        Err(e) => Err(e),
    }
}

/// A setup whose requests the server refuses none of: the file is loaded, then the model is
/// built, with the error string asked for after each, and what was built is read from the reply
/// to the build.
pub proof fn setup_loads_then_builds(
    file: String,
    model_name: String,
    loaded: ZmqMessage,
    load_errors: ZmqMessage,
    built: ZmqMessage,
    build_errors: ZmqMessage,
    first: SetupAction,
    second: SetupAction,
    third: SetupAction,
    last: SetupAction,
)
    requires
        loading(file, model_name).is_next(ExchangeEvent::Reply(loaded), first),
        first is Send ==> first->next.is_next(ExchangeEvent::Reply(load_errors), second),
        second is Send ==> second->next.is_next(ExchangeEvent::Reply(built), third),
        third is Send ==> third->next.is_next(ExchangeEvent::Reply(build_errors), last),
        is_verdict((OMCExpression::LoadFile { file }), loaded, load_errors, Ok(loaded)),
        frames(built).len() != 2,
    ensures
        first is Send && carries(first->message, "getErrorString()"@),
        second is Send && carries(second->message, "buildModel("@ + model_name@ + ")"@),
        third is Send && carries(third->message, "getErrorString()"@),
        last == (SetupAction::Built { reply: built }),
{
}

/// A setup that fails to load its file builds nothing: the verdict on the file is its error.
pub proof fn setup_stops_where_the_file_is_refused(
    file: String,
    model_name: String,
    loaded: ZmqMessage,
    load_errors: ZmqMessage,
    refusal: OMCSessionZMQError,
    first: SetupAction,
    second: SetupAction,
)
    requires
        loading(file, model_name).is_next(ExchangeEvent::Reply(loaded), first),
        first is Send ==> first->next.is_next(ExchangeEvent::Reply(load_errors), second),
        is_verdict((OMCExpression::LoadFile { file }), loaded, load_errors, Err(refusal)),
    ensures
        is_refusal(second, frames(load_errors)),
{
}

/// A setup that has just sent the request to load a file waits for the answer about that very
/// file, and keeps the whole name of the model for later.
pub proof fn started_setup_knows_its_file_and_model(
    setup: SystemSetup,
    file_path: Seq<char>,
    model_name: Seq<char>,
)
    requires
        is_load_of(setup, file_path, model_name),
    ensures
        setup is Loading,
        setup->Loading_exchange is Evaluating,
        setup->Loading_exchange->Evaluating_expr is LoadFile,
        setup->Loading_exchange->Evaluating_expr->file@ == file_path,
        setup->model_name@ == model_name,
{
}

/// A message that does not get through ends a setup, however far it has come, with the failure as
/// it was reported.
pub proof fn failure_ends_the_setup(setup: SystemSetup, failure: ZmqFailure, action: SetupAction)
    requires
        setup.is_next(ExchangeEvent::Failure(failure), action),
    ensures
        action is Fail,
        action->error is OMCSessionZMQErr,
        action->error->OMCSessionZMQErr_0 is ZmqErr,
        action->error->OMCSessionZMQErr_0->ZmqErr_0 == failure,
{
}

/// Whether the server has loaded a file: it says so in the first frame of its response, which is
/// then the line `true`, or it has no error string to show.
pub open spec fn counts_as_loaded(response: Seq<Seq<u8>>, error: Seq<Seq<u8>>) -> bool {
    ||| response.len() > 0 && response[0] == encode_utf8(seq!['t', 'r', 'u', 'e', '\n'])
    ||| error.len() == 0 || !valid_utf8(error[0])
}

/// The whole of a setup whose messages get through. After the response to the request to load the
/// file, the error string is asked for. A file that was not loaded ends the setup with that error
/// string, all of it, and no model is built. For a file that was loaded, one frame is sent that
/// builds the model, by its whole name. After the response to that, the error string is asked for
/// again. A response of two frames ends the setup with that error string, and any other response
/// is the one that the results are read from.
pub proof fn setup_outcome(
    file: String,
    model_name: String,
    loaded: ZmqMessage,
    load_errors: ZmqMessage,
    built: ZmqMessage,
    build_errors: ZmqMessage,
    first: SetupAction,
    second: SetupAction,
    third: SetupAction,
    last: SetupAction,
)
    requires
        loading(file, model_name).is_next(ExchangeEvent::Reply(loaded), first),
        first is Send ==> first->next.is_next(ExchangeEvent::Reply(load_errors), second),
        second is Send ==> second->next.is_next(ExchangeEvent::Reply(built), third),
        third is Send ==> third->next.is_next(ExchangeEvent::Reply(build_errors), last),
    ensures
        first is Send,
        frames(first->message) == seq![encode_utf8("getErrorString"@ + seq!['(', ')'])],
        !counts_as_loaded(frames(loaded), frames(load_errors)) ==> {
            &&& second is Fail
            &&& second->error is OMCSessionZMQErr
            &&& second->error->OMCSessionZMQErr_0 is ExpressionError
            &&& contents(second->error->OMCSessionZMQErr_0->bytes@) == frames(load_errors)
        },
        counts_as_loaded(frames(loaded), frames(load_errors)) ==> {
            &&& second is Send
            &&& frames(second->message) == seq![
                encode_utf8("buildModel"@ + seq!['('] + model_name@ + seq![')']),
            ]
            &&& third is Send
            &&& frames(third->message) == seq![encode_utf8("getErrorString"@ + seq!['(', ')'])]
            &&& frames(built).len() != 2 ==> last == (SetupAction::Built { reply: built })
            &&& frames(built).len() == 2 ==> {
                &&& last is Fail
                &&& last->error is OMCSessionZMQErr
                &&& last->error->OMCSessionZMQErr_0 is ExpressionError
                &&& contents(last->error->OMCSessionZMQErr_0->bytes@) == frames(build_errors)
            }
        },
{
    reveal_strlit("buildModel(");
    reveal_strlit("buildModel");
    reveal_strlit(")");
    let load = OMCExpression::LoadFile { file };
    refusals_are_told_by_the_frames(load, frames(loaded), frames(load_errors));
    text_is_a_call_with_the_argument(OMCExpression::GetErrorString, 0);
    assert("buildModel("@ + model_name@ + ")"@ =~= "buildModel"@ + seq!['('] + model_name@
        + seq![')']);
}

/// A setup that fails because of a refusal holds the whole error string.
pub proof fn refusal_holds_the_error_string(action: SetupAction, error: Seq<Seq<u8>>)
    requires
        is_refusal(action, error),
    ensures
        action is Fail,
        action->error is OMCSessionZMQErr,
        action->error->OMCSessionZMQErr_0 is ExpressionError,
        contents(action->error->OMCSessionZMQErr_0->bytes@) == error,
{
}

/// A setup begins with one frame that loads the file, by its whole path, and waits for the answer
/// about that file; it keeps the whole name of the model.
pub proof fn setup_begins_with_the_file(
    request: (ZmqMessage, SystemSetup),
    file_path: &str,
    model_name: &str,
)
    requires
        is_start_of_setup(request, file_path, model_name),
    ensures
        frames(request.0) == seq![
            encode_utf8("loadFile"@ + seq!['(', '"'] + file_path@ + seq!['"', ')']),
        ],
        request.1 is Loading,
        request.1->model_name@ == model_name@,
        request.1->Loading_exchange is Evaluating,
        request.1->Loading_exchange->Evaluating_expr is LoadFile,
        request.1->Loading_exchange->Evaluating_expr->file@ == file_path@,
{
    reveal_strlit("loadFile");
    reveal_strlit("loadFile(\"");
    reveal_strlit("\")");
    let expr = request.1->Loading_exchange->Evaluating_expr;
    assert(expr.text() =~= "loadFile"@ + seq!['(', '"'] + file_path@ + seq!['"', ')']);
}

/// A model that the server reports as built is known with its files: the executable is the one
/// that was reported, the XML file lies beside it, and the result file has the whole name of the
/// model. Neither path may hold a comma or a quotation mark.
pub proof fn reported_build_becomes_a_model(
    session: OMCSessionZMQ,
    file_path: &str,
    model_name: &str,
    reply: ZmqMessage,
    dir: Seq<char>,
    file: Seq<char>,
    xml_file_name: Seq<char>,
    r: Result<ModelicaSystem, ModelicaSystemError>,
)
    requires
        is_built_from(session, file_path, model_name, reply, r),
        frames(reply).len() > 0,
        frames(reply)[0] == encode_utf8(build_reply(dir.push('/') + file, xml_file_name)),
        dir.len() > 0,
        dir.last() != '/',
        dir.len() >= 2 && dir.last() == '.' ==> dir[dir.len() - 2] != '/',
        file.len() > 0,
        !file.contains('/'),
        file != seq!['.'],
        !(dir.push('/') + file).contains(','),
        !(dir.push('/') + file).contains('"'),
        !xml_file_name.contains(','),
        !xml_file_name.contains('"'),
        xml_file_name.len() > 0 ==> xml_file_name[0] != '/',
    ensures
        r matches Ok(system) && {
            &&& system@.model_file_path == file_path@
            &&& system@.model_name == model_name@
            &&& system@.exec_file_path == dir.push('/') + file
            &&& system@.xml_file_path == dir.push('/') + xml_file_name
            &&& system@.result_file_path == model_name@ + "_res.mat"@
            &&& system@.simulation_options.len() == 0
        },
{
    let exec = dir.push('/') + file;
    let none = Seq::<char>::empty();
    reveal_strlit("\n");
    let more = frames(reply).skip(1);
    surrounded_build_is_read_back(none, exec, xml_file_name, "\n"@, more);
    assert(none + build_array(exec, xml_file_name) + "\n"@ =~= build_reply(exec, xml_file_name));
    assert(seq![frames(reply)[0]] + more =~= frames(reply));
    build_becomes_a_model(session, file_path, model_name, exec, xml_file_name, r);
    directory_stands_before_the_last_component(dir, seq!['/'], file, none);
    assert(dir + seq!['/'] + file + none =~= exec);
}

/// A reply that names no two results is reported whole.
pub proof fn unreadable_build_is_reported_whole(
    session: OMCSessionZMQ,
    file_path: &str,
    model_name: &str,
    reply: ZmqMessage,
    r: Result<ModelicaSystem, ModelicaSystemError>,
)
    requires
        is_built_from(session, file_path, model_name, reply, r),
        build_results(frames(reply)) is None,
    ensures
        r is Err,
        r->Err_0 is OMCSessionZMQErr,
        r->Err_0->OMCSessionZMQErr_0 is FromZmqErr,
        r->Err_0->OMCSessionZMQErr_0->FromZmqErr_0 is BuildModelResultsParseError,
        contents(
            r->Err_0->OMCSessionZMQErr_0->FromZmqErr_0->BuildModelResultsParseError_bytes@,
        ) == frames(reply),
{
}

} // verus!
