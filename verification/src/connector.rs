//! The search for the address of a server that has just been started: the server writes it to its
//! port file, which is read again and again until it is there.

use crate::error::{IoFailure, OMCSessionZMQConstructionError, OMCSessionZMQError, ZmqFailure};
use vstd::prelude::*;
use vstd::string::*;

verus! {

/// A search that is under way.
pub struct Connector {
    /// The file that the server writes its address to.
    pub port_file: String,
    /// How long to pause after the file was not found, in milliseconds.
    pub pause_millis: u64,
    /// How often the file may still be read.
    pub attempts_left: u8,
}

/// What came of the last action.
pub enum ConnectEvent {
    /// Nothing was done yet.
    Begin,
    /// The port file was read; its content is the address.
    PortFileRead(String),
    /// The port file could not be read.
    PortFileFailed(IoFailure),
    /// The pause is over.
    Paused,
    /// The server was reached at the address.
    Connected,
    /// The server could not be reached at the address.
    ConnectFailed(ZmqFailure),
}

/// What is to be done next.
pub enum ConnectAction {
    /// Read the port file.
    ReadPortFile,
    /// Pause for that many milliseconds.
    Pause(u64),
    /// Connect to the server at the address.
    Connect(String),
    /// The search has ended.
    Finish(Result<(), OMCSessionZMQConstructionError>),
}

/// The search ends because the file was not there in time.
pub open spec fn is_timeout(action: ConnectAction, port_file: Seq<char>) -> bool {
    action matches ConnectAction::Finish(Err(
        OMCSessionZMQConstructionError::OMCServerFailedToStart { port_file: path },
    )) && path@ == port_file
}

/// The action that a search takes on an event, and how many attempts it leaves.
pub open spec fn is_next_connect_action(
    port_file: Seq<char>,
    pause_millis: u64,
    attempts_before: u8,
    attempts_after: u8,
    event: ConnectEvent,
    action: ConnectAction,
) -> bool {
    match event {
        ConnectEvent::Begin | ConnectEvent::Paused => if attempts_before == 0 {
            is_timeout(action, port_file) && attempts_after == 0
        } else {
            action is ReadPortFile && attempts_after == attempts_before - 1
        },
        ConnectEvent::PortFileRead(address) => {
            action == ConnectAction::Connect(address) && attempts_after == attempts_before
        },
        ConnectEvent::PortFileFailed(IoFailure::NotFound(_)) => {
            action == ConnectAction::Pause(pause_millis) && attempts_after == attempts_before
        },
        ConnectEvent::PortFileFailed(IoFailure::Other(e)) => {
            action == ConnectAction::Finish(Err(OMCSessionZMQConstructionError::IOErr(e)))
                && attempts_after == attempts_before
        },
        ConnectEvent::Connected => {
            action == ConnectAction::Finish(Ok(())) && attempts_after == attempts_before
        },
        ConnectEvent::ConnectFailed(failure) => {
            action == ConnectAction::Finish(
                Err(
                    OMCSessionZMQConstructionError::OMCSessionZMQErr(
                        OMCSessionZMQError::ZmqErr(failure),
                    ),
                ),
            ) && attempts_after == attempts_before
        },
    }
}

impl Connector {
    /// A search that reads the port file up to `attempts` times.
    pub fn new(port_file: &str, pause_millis: u64, attempts: u8) -> (r: Self)
        ensures
            r.port_file@ == port_file@,
            r.pause_millis == pause_millis,
            r.attempts_left == attempts,
    {
        Connector { port_file: port_file.to_string(), pause_millis, attempts_left: attempts }
    }

    /// Takes the search one step further.
    pub fn step(&mut self, event: ConnectEvent) -> (r: ConnectAction)
        ensures
            final(self).port_file == old(self).port_file,
            final(self).pause_millis == old(self).pause_millis,
            is_next_connect_action(
                old(self).port_file@,
                old(self).pause_millis,
                old(self).attempts_left,
                final(self).attempts_left,
                event,
                r,
            ),
            event matches ConnectEvent::PortFileRead(address) ==> r == ConnectAction::Connect(
                address,
            ) && final(self).attempts_left == old(self).attempts_left,
    {
        match event {
            ConnectEvent::Begin | ConnectEvent::Paused => if self.attempts_left == 0 {
                ConnectAction::Finish(
                    Err(
                        OMCSessionZMQConstructionError::OMCServerFailedToStart {
                            port_file: self.port_file.clone(),
                        },
                    ),
                )
            } else {
                self.attempts_left = self.attempts_left - 1;
                ConnectAction::ReadPortFile
            },
            ConnectEvent::PortFileRead(address) => ConnectAction::Connect(address),
            ConnectEvent::PortFileFailed(failure) => match failure {
                IoFailure::NotFound(_) => ConnectAction::Pause(self.pause_millis),
                IoFailure::Other(e) => ConnectAction::Finish(
                    Err(OMCSessionZMQConstructionError::IOErr(e)),
                ),
            },
            ConnectEvent::Connected => ConnectAction::Finish(Ok(())),
            ConnectEvent::ConnectFailed(failure) => ConnectAction::Finish(
                Err(
                    OMCSessionZMQConstructionError::OMCSessionZMQErr(
                        OMCSessionZMQError::ZmqErr(failure),
                    ),
                ),
            ),
        }
    }
}

/// A stretch of a search: the events that were handed in, the actions that came out, and the
/// attempts that were left before each step and after the last.
pub struct SearchLog {
    pub events: Seq<ConnectEvent>,
    pub actions: Seq<ConnectAction>,
    pub attempts: Seq<u8>,
}

impl SearchLog {
    /// The log is one of steps of a search for the port file, from its begin, in which the port
    /// file was missing every time that it was read.
    pub open spec fn is_fruitless(
        self,
        port_file: Seq<char>,
        pause_millis: u64,
        attempts: u8,
    ) -> bool {
        &&& self.actions.len() == self.events.len()
        &&& self.attempts.len() == self.events.len() + 1
        &&& self.attempts[0] == attempts
        &&& forall|i: int|
            #![trigger self.events[i]]
            0 <= i < self.events.len() ==> {
                &&& is_next_connect_action(
                    port_file,
                    pause_millis,
                    self.attempts[i],
                    self.attempts[i + 1],
                    self.events[i],
                    self.actions[i],
                )
                &&& i % 2 == 0 ==> (if i == 0 {
                    self.events[i] is Begin
                } else {
                    self.events[i] is Paused
                })
                &&& i % 2 == 1 ==> (self.events[i] matches ConnectEvent::PortFileFailed(failure)
                    && failure is NotFound)
            }
    }
}

/// Where the log of a fruitless search stands after a number of steps.
proof fn lemma_fruitless_prefix(
    log: SearchLog,
    port_file: Seq<char>,
    pause_millis: u64,
    attempts: u8,
    i: int,
)
    requires
        log.is_fruitless(port_file, pause_millis, attempts),
        0 <= i <= log.events.len(),
        i <= 2 * attempts,
    ensures
        log.attempts[i] == attempts - (i + 1) / 2,
    decreases i,
{
    if i > 0 {
        lemma_fruitless_prefix(log, port_file, pause_millis, attempts, i - 1);
        let event = log.events[i - 1];
    }
}

/// As long as the port file is missing, it is read once for each attempt, with a pause after each
/// time, and then the search ends with the error that names the port file.
pub proof fn fruitless_search_times_out(
    log: SearchLog,
    port_file: Seq<char>,
    pause_millis: u64,
    attempts: u8,
    i: int,
)
    requires
        log.is_fruitless(port_file, pause_millis, attempts),
        0 <= i < log.events.len(),
        i <= 2 * attempts,
    ensures
        i < 2 * attempts && i % 2 == 0 ==> log.actions[i] is ReadPortFile,
        i < 2 * attempts && i % 2 == 1 ==> log.actions[i] == ConnectAction::Pause(pause_millis),
        i == 2 * attempts ==> is_timeout(log.actions[i], port_file),
{
    lemma_fruitless_prefix(log, port_file, pause_millis, attempts, i);
    let event = log.events[i];
}

/// What each action of a search means: there is no other occasion for it. The port file is read
/// exactly at the begin and after a pause, as long as an attempt is left, and each reading takes
/// one. A server is connected to exactly when the port file was read, at the address that it
/// held, whatever attempts are left. A pause follows exactly a port file that was not found. The
/// search succeeds exactly when the server was reached.
pub proof fn search_acts_on_what_it_is_told(
    port_file: Seq<char>,
    pause_millis: u64,
    before: u8,
    after: u8,
    event: ConnectEvent,
    action: ConnectAction,
    address: String,
)
    requires
        is_next_connect_action(port_file, pause_millis, before, after, event, action),
    ensures
        action is ReadPortFile <==> (event is Begin || event is Paused) && before > 0,
        action is ReadPortFile ==> after + 1 == before,
        !(action is ReadPortFile) ==> after == before,
        action == ConnectAction::Connect(address) <==> event == ConnectEvent::PortFileRead(
            address,
        ),
        event is PortFileRead ==> action is Connect,
        action is Pause <==> (event matches ConnectEvent::PortFileFailed(f) && f is NotFound),
        action matches ConnectAction::Pause(millis) ==> millis == pause_millis,
        action matches ConnectAction::Finish(result) ==> (result is Ok <==> event is Connected),
        event is Connected ==> action is Finish,
{
}

/// Why a search fails: the attempts are used up, and the error names the port file; or the port
/// file could not be read for another reason than that it is missing, or the server could not be
/// reached, and the error is the one that was reported. Each of them ends the search at once,
/// whatever attempts are left.
pub proof fn search_reports_why_it_failed(
    port_file: Seq<char>,
    pause_millis: u64,
    before: u8,
    after: u8,
    event: ConnectEvent,
    action: ConnectAction,
)
    requires
        is_next_connect_action(port_file, pause_millis, before, after, event, action),
    ensures
        (event is Begin || event is Paused) && before == 0 <==> {
            action matches ConnectAction::Finish(
                Err(OMCSessionZMQConstructionError::OMCServerFailedToStart { port_file: path }),
            ) && path@ == port_file
        },
        forall|e: std::io::Error|
            event == ConnectEvent::PortFileFailed(IoFailure::Other(e)) <==> #[trigger]
                finish_unread(e) == action,
        forall|f: ZmqFailure|
            event == ConnectEvent::ConnectFailed(f) <==> #[trigger] finish_unreached(f) == action,
{
}

/// The end of a search whose port file could not be read.
pub open spec fn finish_unread(e: std::io::Error) -> ConnectAction {
    ConnectAction::Finish(Err(OMCSessionZMQConstructionError::IOErr(e)))
}

/// The end of a search whose server could not be reached.
pub open spec fn finish_unreached(f: ZmqFailure) -> ConnectAction {
    ConnectAction::Finish(
        Err(OMCSessionZMQConstructionError::OMCSessionZMQErr(OMCSessionZMQError::ZmqErr(f))),
    )
}

/// A search finds a server that is late: where the port file is missing `misses` times, fewer than
/// there are attempts, and is then read, its content is connected to as it is, and the search
/// succeeds once the server was reached. So it does where the file is there at the first reading,
/// and where it is there at the last.
pub proof fn late_server_is_found(
    log: SearchLog,
    port_file: Seq<char>,
    pause_millis: u64,
    attempts: u8,
    misses: int,
    address: String,
    after_read: u8,
    found: ConnectAction,
    after_connect: u8,
    end: ConnectAction,
)
    requires
        log.is_fruitless(port_file, pause_millis, attempts),
        0 <= misses < attempts,
        log.events.len() == 2 * misses + 1,
        is_next_connect_action(
            port_file,
            pause_millis,
            log.attempts.last(),
            after_read,
            ConnectEvent::PortFileRead(address),
            found,
        ),
        is_next_connect_action(
            port_file,
            pause_millis,
            after_read,
            after_connect,
            ConnectEvent::Connected,
            end,
        ),
    ensures
        log.actions.last() is ReadPortFile,
        found == ConnectAction::Connect(address),
        after_read == attempts - misses - 1,
        end == ConnectAction::Finish(Ok(())),
{
    fruitless_search_times_out(log, port_file, pause_millis, attempts, 2 * misses);
    lemma_fruitless_prefix(log, port_file, pause_millis, attempts, 2 * misses + 1);
}

/// A search that times out names the port file that it waited for.
pub proof fn timeout_names_the_port_file(action: ConnectAction, port_file: Seq<char>)
    requires
        is_timeout(action, port_file),
    ensures
        action is Finish,
        action->Finish_0 is Err,
        action->Finish_0->Err_0 is OMCServerFailedToStart,
        action->Finish_0->Err_0->port_file@ == port_file,
{
}

} // verus!
