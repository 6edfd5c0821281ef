use vstd::prelude::*;

verus! {

/// What a poll of a non-blocking socket operation gives back.
pub enum IoPoll<T, E> {
    /// The operation is over, with this outcome.
    Ready(Result<T, E>),
    /// The socket was not ready: wake the task and try again later.
    Pending,
}

/// Decides a poll from the outcome of one non-blocking attempt: success and
/// any error but "would block" finish the operation; "would block" leaves
/// it pending, to be retried.
pub fn decide_io_poll<T, E>(outcome: Result<T, E>, would_block: bool) -> (r: IoPoll<T, E>)
    ensures
        match outcome {
            Ok(v) => r == IoPoll::<T, E>::Ready(Ok(v)),
            Err(e) => if would_block {
                r is Pending
            } else {
                r == IoPoll::<T, E>::Ready(Err(e))
            },
        },
{
    match outcome {
        Ok(v) => IoPoll::Ready(Ok(v)),
        Err(e) => {
            if would_block {
                IoPoll::Pending
            } else {
                IoPoll::Ready(Err(e))
            }
        },
    }
}

/// Where writing a whole buffer stands after one non-blocking attempt.
pub enum WriteProgress<E> {
    /// The whole buffer has been written.
    Done,
    /// This many bytes of the buffer are written; write the rest at once.
    Again(usize),
    /// The socket was not ready: wake the task and try again later.
    Pending,
    /// The write failed with this error.
    Failed(E),
    /// The socket accepted no byte of a non-empty rest: the write cannot end.
    Stalled,
}

/// Decides how writing a buffer of `len` bytes goes on after an attempt to
/// write the bytes from `written` on: accepted bytes are never sent again,
/// an interrupted attempt is retried at once, "would block" waits.
pub fn write_progress<E>(
    written: usize,
    len: usize,
    outcome: Result<usize, E>,
    would_block: bool,
    interrupted: bool,
) -> (r: WriteProgress<E>)
    requires
        written < len,
    ensures
        match outcome {
            Ok(n) => if n == 0 {
                r is Stalled
            } else if written + n >= len {
                r is Done
            } else {
                r == WriteProgress::<E>::Again((written + n) as usize)
            },
            Err(e) => if would_block {
                r is Pending
            } else if interrupted {
                r == WriteProgress::<E>::Again(written)
            } else {
                r == WriteProgress::<E>::Failed(e)
            },
        },
{
    match outcome {
        Ok(n) => {
            if n == 0 {
                WriteProgress::Stalled
            } else if n >= len - written {
                WriteProgress::Done
            } else {
                WriteProgress::Again(written + n)
            }
        },
        Err(e) => {
            if would_block {
                WriteProgress::Pending
            } else if interrupted {
                WriteProgress::Again(written)
            } else {
                WriteProgress::Failed(e)
            }
        },
    }
}

} // verus!
