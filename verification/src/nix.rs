//! The POSIX way of reading and writing the host name, as two small machines.
//!
//! Neither machine calls the system. Each one tells its driver what to ask of
//! the system next, and takes the answer as an event. The reader asks for the
//! limit on host names, then has a zeroed buffer of that length filled, and
//! finds the name in it. Where the system gives no limit that a buffer can
//! have as its length, the query has failed. The writer hands the name over with its length. Both
//! ask for the system's error code when a call failed.

use vstd::prelude::*;
use crate::bounds::{lemma_name_end_unique, lemma_name_in_is_clean_prefix, name_in, wrap_buffer};
use crate::error::SystemError;
use crate::value::{HostnameValue, NameUnits};

verus! {

/// A buffer of `len` zero bytes.
pub open spec fn zeroed(len: nat) -> Seq<u8> {
    Seq::new(len, |i: int| 0u8)
}

/// Whether a buffer can have `limit` as its length. No allocation is larger
/// than `isize::MAX` bytes, and a query for the limit that failed leaves a
/// number above that.
pub open spec fn is_buffer_length(limit: usize) -> bool {
    limit <= isize::MAX
}

/// Where a query stands.
#[derive(Clone, Copy, Debug, PartialEq, Eq, Structural)]
pub enum Reader {
    /// Waiting for the system's limit on the length of a host name.
    Sizing,
    /// Waiting for the system to fill a buffer of `capacity` bytes.
    Querying { capacity: usize },
    /// A call failed; waiting for the system's error code.
    Failing,
    /// The outcome was handed out.
    Finished,
}

/// What the driver reports to the reader.
#[derive(Debug, PartialEq, Eq)]
pub enum ReadEvent {
    /// The system's limit on the length of a host name, in bytes.
    Limit(usize),
    /// The query returned `status` and left `buffer` behind.
    Filled { status: i32, buffer: Vec<u8> },
    /// The error code that the system reported last.
    OsError(i32),
}

/// What the reader asks of its driver.
#[derive(Debug, PartialEq, Eq)]
pub enum ReadAction {
    /// Ask the system for its limit on the length of a host name.
    QueryLimit,
    /// Have the system write the host name into this buffer.
    Fill(Vec<u8>),
    /// Ask the system for the error code it reported last.
    ReadError,
    /// The query is over, with this outcome.
    Return(Result<HostnameValue, SystemError>),
}

impl Reader {
    /// Whether `event` answers what the reader asked for last. Every limit is
    /// an answer, and a filled buffer has the length of the buffer that was
    /// handed out.
    pub open spec fn expects(self, event: ReadEvent) -> bool {
        match (self, event) {
            (Reader::Sizing, ReadEvent::Limit(_)) => true,
            (Reader::Querying { capacity }, ReadEvent::Filled { status: _, buffer }) => {
                buffer@.len() == capacity
            },
            (Reader::Failing, ReadEvent::OsError(_)) => true,
            _ => false,
        }
    }

    /// What the reader does on `event`: it moves to `next` and asks for
    /// `action`.
    pub open spec fn moves(self, event: ReadEvent, next: Reader, action: ReadAction) -> bool {
        match (self, event) {
            (Reader::Sizing, ReadEvent::Limit(limit)) => {
                if is_buffer_length(limit) {
                    &&& next == Reader::Querying { capacity: limit }
                    &&& action matches ReadAction::Fill(buffer) && buffer@ == zeroed(limit as nat)
                } else {
                    &&& next == Reader::Failing
                    &&& action is ReadError
                }
            },
            (Reader::Querying { capacity: _ }, ReadEvent::Filled { status, buffer }) => {
                if status != 0 {
                    &&& next == Reader::Failing
                    &&& action is ReadError
                } else {
                    &&& next == Reader::Finished
                    &&& action matches ReadAction::Return(Ok(name)) && name@ == NameUnits::Bytes(
                        name_in(buffer@),
                    )
                }
            },
            (Reader::Failing, ReadEvent::OsError(code)) => {
                &&& next == Reader::Finished
                &&& action == ReadAction::Return(Err(SystemError::SystemCallFailure { code }))
            },
            _ => false,
        }
    }

    /// A new query, and the first thing to ask of the system.
    pub fn begin() -> (start: (Reader, ReadAction))
        ensures
            start.0 == Reader::Sizing,
            start.1 is QueryLimit,
    {
        (Reader::Sizing, ReadAction::QueryLimit)
    }

    /// Whether `event` answers what the reader asked for last.
    pub fn accepts(self, event: &ReadEvent) -> (fits: bool)
        ensures
            fits == self.expects(*event),
    {
        match (self, event) {
            (Reader::Sizing, ReadEvent::Limit(_)) => true,
            (Reader::Querying { capacity }, ReadEvent::Filled { status: _, buffer }) => {
                buffer.len() == capacity
            },
            (Reader::Failing, ReadEvent::OsError(_)) => true,
            _ => false,
        }
    }
}

/// Takes a query one step further: from the reader's state and the driver's
/// event to the next state and the next thing to do.
///
/// A limit that no buffer can have as its length and a status other than
/// zero are failures, and their outcome is the system's error code. A filled
/// buffer carries no length, so the name ends at the first zero byte, or at
/// the end of the buffer where there is none.
pub fn get(state: Reader, event: ReadEvent) -> (step: (Reader, ReadAction))
    requires
        state.expects(event),
    ensures
        state.moves(event, step.0, step.1),
        state matches Reader::Querying { capacity } ==> (step.1 matches ReadAction::Return(
            Ok(name),
        ) ==> name@.len() <= capacity),
{
    match event {
        ReadEvent::Limit(limit) => {
            if limit <= isize::MAX as usize {
                let buffer = vec![0u8; limit];
                assert(buffer@ =~= zeroed(limit as nat));
                (Reader::Querying { capacity: limit }, ReadAction::Fill(buffer))
            } else {
                (Reader::Failing, ReadAction::ReadError)
            }
        },
        ReadEvent::Filled { status, buffer } => {
            if status != 0 {
                (Reader::Failing, ReadAction::ReadError)
            } else {
                (Reader::Finished, ReadAction::Return(Ok(wrap_buffer(buffer))))
            }
        },
        ReadEvent::OsError(code) => {
            (
                Reader::Finished,
                ReadAction::Return(Err(SystemError::SystemCallFailure { code })),
            )
        },
    }
}

/// A name that a query returns is never longer than the limit that the system
/// reported at the start of that query.
pub proof fn lemma_name_within_limit(
    limit: usize,
    sized: Reader,
    fill: ReadAction,
    filled: ReadEvent,
    done: Reader,
    outcome: ReadAction,
)
    requires
        Reader::Sizing.moves(ReadEvent::Limit(limit), sized, fill),
        sized.expects(filled),
        sized.moves(filled, done, outcome),
    ensures
        is_buffer_length(limit) ==> (fill matches ReadAction::Fill(buffer) && buffer@.len()
            == limit),
        outcome matches ReadAction::Return(Ok(name)) ==> name@.len() <= limit,
{
    if let ReadEvent::Filled { status: _, buffer } = filled {
        lemma_name_in_is_clean_prefix(buffer@);
    }
}

/// A query for which the system gave no limit that a buffer can have ends
/// with the system's error code: no buffer is asked for, and no name is
/// returned.
pub proof fn lemma_query_without_limit_fails(
    limit: usize,
    code: i32,
    failing: Reader,
    ask: ReadAction,
    done: Reader,
    outcome: ReadAction,
)
    requires
        !is_buffer_length(limit),
        Reader::Sizing.moves(ReadEvent::Limit(limit), failing, ask),
        failing.moves(ReadEvent::OsError(code), done, outcome),
    ensures
        ask is ReadError,
        done == Reader::Finished,
        outcome == ReadAction::Return(Err(SystemError::SystemCallFailure { code })),
{
}

/// The number of steps that a query in `state` has left at most.
pub open spec fn steps_left(state: Reader) -> nat {
    match state {
        Reader::Sizing => 3,
        Reader::Querying { capacity: _ } => 2,
        Reader::Failing => 1,
        Reader::Finished => 0,
    }
}

/// Each step brings the reader nearer to its end, and the step that ends the
/// query is the one that hands out the outcome.
pub proof fn lemma_step_nears_the_end(
    state: Reader,
    event: ReadEvent,
    next: Reader,
    action: ReadAction,
)
    requires
        state.moves(event, next, action),
    ensures
        steps_left(next) < steps_left(state),
        next == Reader::Finished <==> action is Return,
{
}

/// A name without a zero byte that was written to the start of a zeroed
/// buffer with room for it is read back as it was written, whether or not the
/// buffer has room for a terminator behind it.
pub proof fn lemma_written_name_is_read_back(name: Seq<u8>, limit: nat)
    requires
        forall|i: int| 0 <= i < name.len() ==> name[i] != 0,
        name.len() <= limit,
    ensures
        name_in(name + zeroed((limit - name.len()) as nat)) == name,
{
    let buffer = name + zeroed((limit - name.len()) as nat);
    assert forall|i: int| 0 <= i < name.len() implies buffer[i] != 0 by {
        assert(buffer[i] == name[i]);
    }
    lemma_name_end_unique(buffer, name.len() as int);
    assert(buffer.take(name.len() as int) =~= name);
}

/// A query that failed ends with the system's error code, unchanged, and with
/// nothing else.
pub proof fn lemma_failed_query_is_reported(
    capacity: usize,
    status: i32,
    buffer: Vec<u8>,
    code: i32,
    failing: Reader,
    ask: ReadAction,
    done: Reader,
    outcome: ReadAction,
)
    requires
        status != 0,
        (Reader::Querying { capacity }).moves(ReadEvent::Filled { status, buffer }, failing, ask),
        failing.moves(ReadEvent::OsError(code), done, outcome),
    ensures
        ask is ReadError,
        outcome == ReadAction::Return(Err(SystemError::SystemCallFailure { code })),
{
}

/// Where a change of the host name stands.
#[derive(Clone, Copy, Debug, PartialEq, Eq, Structural)]
pub enum Writer {
    /// Waiting for the system to take the new name.
    Renaming,
    /// The call failed; waiting for the system's error code.
    Failing,
    /// The outcome was handed out.
    Finished,
}

/// What the driver reports to the writer.
#[derive(Clone, Copy, Debug, PartialEq, Eq, Structural)]
pub enum WriteEvent {
    /// The call that sets the name returned this status.
    Renamed(i32),
    /// The error code that the system reported last.
    OsError(i32),
}

/// What the writer asks of its driver.
#[derive(Debug, PartialEq, Eq)]
pub enum WriteAction {
    /// Hand the system these bytes, and `size` as their number.
    Rename { name: Vec<u8>, size: usize },
    /// Ask the system for the error code it reported last.
    ReadError,
    /// The change is over, with this outcome.
    Return(Result<(), SystemError>),
}

impl Writer {
    /// Whether `event` answers what the writer asked for last.
    pub open spec fn expects(self, event: WriteEvent) -> bool {
        match (self, event) {
            (Writer::Renaming, WriteEvent::Renamed(_)) => true,
            (Writer::Failing, WriteEvent::OsError(_)) => true,
            _ => false,
        }
    }

    /// What the writer does on `event`: it moves to `next` and asks for
    /// `action`.
    pub open spec fn moves(self, event: WriteEvent, next: Writer, action: WriteAction) -> bool {
        match (self, event) {
            (Writer::Renaming, WriteEvent::Renamed(status)) => {
                if status != 0 {
                    &&& next == Writer::Failing
                    &&& action is ReadError
                } else {
                    &&& next == Writer::Finished
                    &&& action == WriteAction::Return(Ok(()))
                }
            },
            (Writer::Failing, WriteEvent::OsError(code)) => {
                &&& next == Writer::Finished
                &&& action == WriteAction::Return(Err(SystemError::SystemCallFailure { code }))
            },
            _ => false,
        }
    }

    /// A new change of the host name to `hostname`, and the request to hand
    /// it to the system: all of its bytes, whatever their number and whatever
    /// they hold. Which names are acceptable is for the system to say.
    pub fn begin(hostname: Vec<u8>) -> (start: (Writer, WriteAction))
        ensures
            start.0 == Writer::Renaming,
            start.1 matches WriteAction::Rename { name, size } && name@ == hostname@ && size
                == hostname@.len(),
    {
        let size = hostname.len();
        (Writer::Renaming, WriteAction::Rename { name: hostname, size })
    }

    /// Whether `event` answers what the writer asked for last.
    pub fn accepts(self, event: &WriteEvent) -> (fits: bool)
        ensures
            fits == self.expects(*event),
    {
        match (self, event) {
            (Writer::Renaming, WriteEvent::Renamed(_)) => true,
            (Writer::Failing, WriteEvent::OsError(_)) => true,
            _ => false,
        }
    }
}

/// Takes a change of the host name one step further: from the writer's state
/// and the driver's event to the next state and the next thing to do.
///
/// A status other than zero is a failure, and its outcome is the system's
/// error code. Nothing is tried again.
pub fn set(state: Writer, event: WriteEvent) -> (step: (Writer, WriteAction))
    requires
        state.expects(event),
    ensures
        state.moves(event, step.0, step.1),
{
    match event {
        WriteEvent::Renamed(status) => {
            if status != 0 {
                (Writer::Failing, WriteAction::ReadError)
            } else {
                (Writer::Finished, WriteAction::Return(Ok(())))
            }
        },
        WriteEvent::OsError(code) => {
            (
                Writer::Finished,
                WriteAction::Return(Err(SystemError::SystemCallFailure { code })),
            )
        },
    }
}

/// A change that the system refused ends with the system's error code,
/// unchanged: no name is cut to fit, and no refusal is passed over.
pub proof fn lemma_failed_rename_is_reported(
    status: i32,
    code: i32,
    failing: Writer,
    ask: WriteAction,
    done: Writer,
    outcome: WriteAction,
)
    requires
        status != 0,
        Writer::Renaming.moves(WriteEvent::Renamed(status), failing, ask),
        failing.moves(WriteEvent::OsError(code), done, outcome),
    ensures
        ask is ReadError,
        outcome == WriteAction::Return(Err(SystemError::SystemCallFailure { code })),
{
}

} // verus!
