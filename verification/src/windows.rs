//! The Windows way of reading and writing the host name, as two small
//! machines.
//!
//! Neither machine calls the system. The reader works in two passes: it first
//! asks how many UTF-16 units the name needs, then has a buffer of that length
//! filled. The system reports how many units it wrote, and that many are the
//! name. The writer hands the name's units over, with a zero unit to end
//! them. Both ask for the system's error code when a call failed.

use vstd::prelude::*;
use crate::bounds::slice_reported;
use crate::error::SystemError;
use crate::value::{HostnameValue, NameUnits};

verus! {

/// A buffer of `len` zero units.
pub open spec fn zeroed(len: nat) -> Seq<u16> {
    Seq::new(len, |i: int| 0u16)
}

/// Whether a buffer can have `size` units. On a machine whose addresses are
/// no wider than the size itself, the largest sizes are out of reach.
pub open spec fn is_buffer_length(size: u32) -> bool {
    size <= isize::MAX
}

/// Where a query stands.
#[derive(Clone, Copy, Debug, PartialEq, Eq, Structural)]
pub enum Reader {
    /// Waiting for the number of units that the name needs.
    Sizing,
    /// Waiting for the system to fill a buffer of `capacity` units.
    Querying { capacity: u32 },
    /// A call failed; waiting for the system's error code.
    Failing,
    /// The outcome was handed out.
    Finished,
}

/// What the driver reports to the reader.
#[derive(Debug, PartialEq, Eq)]
pub enum ReadEvent {
    /// The first pass, made without a buffer, asked for this many units.
    Size(u32),
    /// The second pass succeeded or not, left `buffer` behind and reported
    /// `size` units.
    Filled { succeeded: bool, buffer: Vec<u16>, size: u32 },
    /// The error code that the system reported last.
    OsError(i32),
}

/// What the reader asks of its driver.
#[derive(Debug, PartialEq, Eq)]
pub enum ReadAction {
    /// Ask the system, without a buffer, how many units the name needs.
    QuerySize,
    /// Have the system write the host name into this buffer.
    Fill(Vec<u16>),
    /// Ask the system for the error code it reported last.
    ReadError,
    /// The query is over, with this outcome.
    Return(Result<HostnameValue, SystemError>),
}

impl Reader {
    /// Whether `event` answers what the reader asked for last. Every size is
    /// an answer, a filled buffer has the length of the buffer that was handed
    /// out, and a pass that succeeded reports no more units than the buffer
    /// has.
    pub open spec fn expects(self, event: ReadEvent) -> bool {
        match (self, event) {
            (Reader::Sizing, ReadEvent::Size(_)) => true,
            (Reader::Querying { capacity }, ReadEvent::Filled { succeeded, buffer, size }) => {
                &&& buffer@.len() == capacity
                &&& succeeded ==> size <= capacity
            },
            (Reader::Failing, ReadEvent::OsError(_)) => true,
            _ => false,
        }
    }

    /// What the reader does on `event`: it moves to `next` and asks for
    /// `action`.
    pub open spec fn moves(self, event: ReadEvent, next: Reader, action: ReadAction) -> bool {
        match (self, event) {
            (Reader::Sizing, ReadEvent::Size(size)) => {
                if is_buffer_length(size) {
                    &&& next == Reader::Querying { capacity: size }
                    &&& action matches ReadAction::Fill(buffer) && buffer@ == zeroed(size as nat)
                } else {
                    &&& next == Reader::Failing
                    &&& action is ReadError
                }
            },
            (Reader::Querying { capacity: _ }, ReadEvent::Filled { succeeded, buffer, size }) => {
                if !succeeded {
                    &&& next == Reader::Failing
                    &&& action is ReadError
                } else {
                    &&& next == Reader::Finished
                    &&& action matches ReadAction::Return(Ok(name)) && name@ == NameUnits::Wide(
                        buffer@.take(size as int),
                    )
                }
            },
            (Reader::Failing, ReadEvent::OsError(code)) => {
                &&& next == Reader::Finished
                &&& action == ReadAction::Return(Err(SystemError::SystemCallFailure { code }))
            },
            _ => false,
        }
    }

    /// A new query, and the first thing to ask of the system.
    pub fn begin() -> (start: (Reader, ReadAction))
        ensures
            start.0 == Reader::Sizing,
            start.1 is QuerySize,
    {
        (Reader::Sizing, ReadAction::QuerySize)
    }

    /// Whether `event` answers what the reader asked for last.
    pub fn accepts(self, event: &ReadEvent) -> (fits: bool)
        ensures
            fits == self.expects(*event),
    {
        match (self, event) {
            (Reader::Sizing, ReadEvent::Size(_)) => true,
            (Reader::Querying { capacity }, ReadEvent::Filled { succeeded, buffer, size }) => {
                buffer.len() == capacity as usize && (!*succeeded || *size <= capacity)
            },
            (Reader::Failing, ReadEvent::OsError(_)) => true,
            _ => false,
        }
    }
}

/// Takes a query one step further: from the reader's state and the driver's
/// event to the next state and the next thing to do.
///
/// A size that no buffer can have and a pass that did not succeed are
/// failures, and their outcome is the system's error code. A pass that
/// succeeded reported a length: the name is that many units from the start of
/// the buffer, whatever they hold.
pub fn get(state: Reader, event: ReadEvent) -> (step: (Reader, ReadAction))
    requires
        state.expects(event),
    ensures
        state.moves(event, step.0, step.1),
        state matches Reader::Querying { capacity } ==> (step.1 matches ReadAction::Return(
            Ok(name),
        ) ==> name@.len() <= capacity),
{
    match event {
        ReadEvent::Size(size) => {
            if size as usize <= isize::MAX as usize {
                let buffer = vec![0u16; size as usize];
                assert(buffer@ =~= zeroed(size as nat));
                (Reader::Querying { capacity: size }, ReadAction::Fill(buffer))
            } else {
                (Reader::Failing, ReadAction::ReadError)
            }
        },
        ReadEvent::Filled { succeeded, buffer, size } => {
            if !succeeded {
                (Reader::Failing, ReadAction::ReadError)
            } else {
                (Reader::Finished, ReadAction::Return(Ok(slice_reported(buffer, size as usize))))
            }
        },
        ReadEvent::OsError(code) => {
            (
                Reader::Finished,
                ReadAction::Return(Err(SystemError::SystemCallFailure { code })),
            )
        },
    }
}

/// A name that a query returns is never longer than the size that the system
/// asked for in the first pass.
pub proof fn lemma_name_within_size(
    size: u32,
    sized: Reader,
    fill: ReadAction,
    filled: ReadEvent,
    done: Reader,
    outcome: ReadAction,
)
    requires
        Reader::Sizing.moves(ReadEvent::Size(size), sized, fill),
        sized.expects(filled),
        sized.moves(filled, done, outcome),
    ensures
        is_buffer_length(size) ==> (fill matches ReadAction::Fill(buffer) && buffer@.len()
            == size),
        outcome matches ReadAction::Return(Ok(name)) ==> name@.len() <= size,
{
}

/// A query whose first pass asked for more units than a buffer can have ends
/// with the system's error code: no buffer is asked for, and no name is
/// returned.
pub proof fn lemma_query_without_size_fails(
    size: u32,
    code: i32,
    failing: Reader,
    ask: ReadAction,
    done: Reader,
    outcome: ReadAction,
)
    requires
        !is_buffer_length(size),
        Reader::Sizing.moves(ReadEvent::Size(size), failing, ask),
        failing.moves(ReadEvent::OsError(code), done, outcome),
    ensures
        ask is ReadError,
        done == Reader::Finished,
        outcome == ReadAction::Return(Err(SystemError::SystemCallFailure { code })),
{
}

/// Where a change of the host name stands.
#[derive(Clone, Copy, Debug, PartialEq, Eq, Structural)]
pub enum Writer {
    /// Waiting for the system to take the new name.
    Renaming,
    /// The call failed; waiting for the system's error code.
    Failing,
    /// The outcome was handed out.
    Finished,
}

/// What the driver reports to the writer.
#[derive(Clone, Copy, Debug, PartialEq, Eq, Structural)]
pub enum WriteEvent {
    /// The call that sets the name succeeded, or did not.
    Renamed(bool),
    /// The error code that the system reported last.
    OsError(i32),
}

/// What the writer asks of its driver.
#[derive(Debug, PartialEq, Eq)]
pub enum WriteAction {
    /// Hand the system these units as the new name. They are terminated: the
    /// name's units, then one zero unit, since the call takes no length and
    /// reads up to the first zero.
    Rename(Vec<u16>),
    /// Ask the system for the error code it reported last.
    ReadError,
    /// The change is over, with this outcome.
    Return(Result<(), SystemError>),
}

impl Writer {
    /// Whether `event` answers what the writer asked for last.
    pub open spec fn expects(self, event: WriteEvent) -> bool {
        match (self, event) {
            (Writer::Renaming, WriteEvent::Renamed(_)) => true,
            (Writer::Failing, WriteEvent::OsError(_)) => true,
            _ => false,
        }
    }

    /// What the writer does on `event`: it moves to `next` and asks for
    /// `action`.
    pub open spec fn moves(self, event: WriteEvent, next: Writer, action: WriteAction) -> bool {
        match (self, event) {
            (Writer::Renaming, WriteEvent::Renamed(succeeded)) => {
                if !succeeded {
                    &&& next == Writer::Failing
                    &&& action is ReadError
                } else {
                    &&& next == Writer::Finished
                    &&& action == WriteAction::Return(Ok(()))
                }
            },
            (Writer::Failing, WriteEvent::OsError(code)) => {
                &&& next == Writer::Finished
                &&& action == WriteAction::Return(Err(SystemError::SystemCallFailure { code }))
            },
            _ => false,
        }
    }

    /// A new change of the host name to `hostname`, and the request to hand
    /// it to the system: all of its units, whatever their number and whatever
    /// they hold, and one zero unit behind them to end the name. Which names
    /// are acceptable is for the system to say.
    pub fn begin(hostname: Vec<u16>) -> (start: (Writer, WriteAction))
        ensures
            start.0 == Writer::Renaming,
            start.1 matches WriteAction::Rename(name) && name@ == hostname@.push(0u16),
    {
        let mut name = hostname;
        name.push(0u16);
        (Writer::Renaming, WriteAction::Rename(name))
    }

    /// Whether `event` answers what the writer asked for last.
    pub fn accepts(self, event: &WriteEvent) -> (fits: bool)
        ensures
            fits == self.expects(*event),
    {
        match (self, event) {
            (Writer::Renaming, WriteEvent::Renamed(_)) => true,
            (Writer::Failing, WriteEvent::OsError(_)) => true,
            _ => false,
        }
    }
}

/// Takes a change of the host name one step further: from the writer's state
/// and the driver's event to the next state and the next thing to do.
///
/// A call that did not succeed is a failure, and its outcome is the system's
/// error code. Nothing is tried again.
pub fn set(state: Writer, event: WriteEvent) -> (step: (Writer, WriteAction))
    requires
        state.expects(event),
    ensures
        state.moves(event, step.0, step.1),
{
    match event {
        WriteEvent::Renamed(succeeded) => {
            if !succeeded {
                (Writer::Failing, WriteAction::ReadError)
            } else {
                (Writer::Finished, WriteAction::Return(Ok(())))
            }
        },
        WriteEvent::OsError(code) => {
            (
                Writer::Finished,
                WriteAction::Return(Err(SystemError::SystemCallFailure { code })),
            )
        },
    }
}

/// The number of steps that a query in `state` has left at most.
pub open spec fn steps_left(state: Reader) -> nat {
    match state {
        Reader::Sizing => 3,
        Reader::Querying { capacity: _ } => 2,
        Reader::Failing => 1,
        Reader::Finished => 0,
    }
}

/// Each step brings the reader nearer to its end, and the step that ends the
/// query is the one that hands out the outcome.
pub proof fn lemma_step_nears_the_end(
    state: Reader,
    event: ReadEvent,
    next: Reader,
    action: ReadAction,
)
    requires
        state.moves(event, next, action),
    ensures
        steps_left(next) < steps_left(state),
        next == Reader::Finished <==> action is Return,
{
}

/// A change that the system refused ends with the system's error code,
/// unchanged: no name is cut to fit, and no refusal is passed over.
pub proof fn lemma_failed_rename_is_reported(
    code: i32,
    failing: Writer,
    ask: WriteAction,
    done: Writer,
    outcome: WriteAction,
)
    requires
        Writer::Renaming.moves(WriteEvent::Renamed(false), failing, ask),
        failing.moves(WriteEvent::OsError(code), done, outcome),
    ensures
        ask is ReadError,
        outcome == WriteAction::Return(Err(SystemError::SystemCallFailure { code })),
{
}

} // verus!
