//! The session clock: when the game began and, once the price collapses,
//! when it ended. The end is recorded at most once and is immutable after.

use vstd::prelude::*;

verus! {

/// The mathematical state of a session clock (timestamps in milliseconds).
pub ghost struct SessionModel {
    pub started_at_ms: int,
    pub ended_at_ms: Option<int>,
}

impl SessionModel {
    /// A session is over once its end has been recorded.
    pub open spec fn over(self) -> bool {
        self.ended_at_ms is Some
    }

    /// Elapsed time at `now`: up to the recorded end once the session is
    /// over, up to `now` while it is running.
    pub open spec fn elapsed_ms(self, now: int) -> int {
        (match self.ended_at_ms {
            Some(e) => e,
            None => now,
        }) - self.started_at_ms
    }
}

/// Records when the session started and, at most once, when it ended.
pub struct Session {
    started_at_ms: i64,
    ended_at_ms: Option<i64>,
}

impl View for Session {
    type V = SessionModel;

    closed spec fn view(&self) -> SessionModel {
        SessionModel {
            started_at_ms: self.started_at_ms as int,
            ended_at_ms: match self.ended_at_ms {
                Some(e) => Some(e as int),
                None => None,
            },
        }
    }
}

impl Session {
    pub fn new(now_ms: i64) -> (r: Self)
        ensures
            r@ == (SessionModel { started_at_ms: now_ms as int, ended_at_ms: None }),
    {
        Session { started_at_ms: now_ms, ended_at_ms: None }
    }

    pub fn started_at_ms(&self) -> (r: i64)
        ensures
            r == self@.started_at_ms,
    {
        self.started_at_ms
    }

    pub fn ended_at_ms(&self) -> (r: Option<i64>)
        ensures
            r is Some <==> self@.over(),
            r matches Some(e) ==> self@.ended_at_ms == Some(e as int),
    {
        self.ended_at_ms
    }

    pub fn is_over(&self) -> (r: bool)
        ensures
            r == self@.over(),
    {
        matches!(self.ended_at_ms, Some(_))
    }

    /// Records the end of the session; callable only while it is running,
    /// so the recorded moment is final.
    pub fn end(&mut self, now_ms: i64)
        requires
            !old(self)@.over(),
        ensures
            final(self)@ == (SessionModel {
                started_at_ms: old(self)@.started_at_ms,
                ended_at_ms: Some(now_ms as int),
            }),
    {
        self.ended_at_ms = Some(now_ms);
    }

    /// Elapsed milliseconds at `now`, frozen at the recorded end once over.
    pub fn elapsed_ms(&self, now_ms: i64) -> (r: i128)
        ensures
            r == self@.elapsed_ms(now_ms as int),
    {
        let effective: i64 = match self.ended_at_ms {
            Some(e) => e,
            None => now_ms,
        };
        (effective as i128) - (self.started_at_ms as i128)
    }
}

} // verus!
