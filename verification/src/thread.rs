//! Worker spawning (`saga:thread`): interpretation of the host's answer.
use vstd::prelude::*;
use crate::text::{signed_decimal, push_signed_decimal};

verus! {

/// Errors returned when the host refuses to spawn a worker.
///
/// Wraps the host-reported negative code so that mod authors can match on
/// a single error type rather than carrying host integers around.
#[derive(Debug, Clone, Copy, PartialEq, Eq, Structural)]
pub struct ThreadError(i32);

/// Result of a spawn request.
pub type ThreadResult<T> = Result<T, ThreadError>;

impl View for ThreadError {
    type V = i32;

    closed spec fn view(&self) -> i32 {
        self.0
    }
}

impl ThreadError {
    /// Construct from the raw host-reported error code.
    pub fn new(code: i32) -> (e: Self)
        ensures
            e@ == code,
    {
        ThreadError(code)
    }

    /// The human-readable description of the error.
    pub open spec fn spec_message(self) -> Seq<char> {
        "saga_thread_spawn failed (host code "@ + signed_decimal(self@ as int) + ")"@
    }

    /// The human-readable description of the error.
    pub fn message(&self) -> (m: String)
        ensures
            m@ == self.spec_message(),
            m@ == "saga_thread_spawn failed (host code "@ + signed_decimal(self@ as int) + ")"@,
    {
        let mut m = "saga_thread_spawn failed (host code ".to_owned();
        push_signed_decimal(&mut m, self.0 as i64);
        m.append(")");
        m
    }

    /// The raw host error code.
    pub fn code(&self) -> (c: i32)
        ensures
            c == self@,
    {
        self.0
    }
}

/// Interprets the value returned by `saga_thread_spawn`: a non-negative
/// value is the new worker's identifier, a negative value is the host's
/// error code.
pub fn spawn_outcome(tid: i32) -> (r: ThreadResult<i32>)
    ensures
        tid >= 0 ==> r == Ok::<i32, ThreadError>(tid),
        tid < 0 ==> (r matches Err(e) && e@ == tid),
{
    if tid < 0 {
        return Err(ThreadError(tid));
    }
    Ok(tid)
}

} // verus!
