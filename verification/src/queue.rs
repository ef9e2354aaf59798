//! The queue page's cancel workflow: which jobs have a cancel request in flight, the
//! last cancel error, and the counter that makes the jobs table reload.
use vstd::prelude::*;
use vstd::string::*;

use crate::live::{boson_job_event_is_status, is_status_event, BosonLiveEvent};
use crate::text::str_eq;

verus! {

/// Cancel-request bookkeeping of the queue page.
///
/// A job id is pending from the moment a cancel is requested until the coordinator's
/// answer is recorded; a second request for a pending job starts nothing.
#[derive(Debug)]
pub struct QueueCancelState {
    pending: Vec<String>,
    error: Option<String>,
    refresh: u32,
}

/// Ids of the jobs in a list.
pub open spec fn ids_of(v: Seq<String>) -> Set<Seq<char>> {
    Set::new(|id: Seq<char>| exists|i: int| 0 <= i < v.len() && v[i]@ == id)
}

/// No job id occurs twice in a list.
pub open spec fn ids_unique(v: Seq<String>) -> bool {
    forall|i: int, j: int| 0 <= i < j < v.len() ==> v[i]@ != v[j]@
}

/// The text of an optional message.
pub open spec fn message_of(e: Option<String>) -> Option<Seq<char>> {
    match e {
        Some(s) => Some(s@),
        None => None,
    }
}

impl QueueCancelState {
    /// No job is listed as pending twice.
    #[verifier::type_invariant]
    spec fn pending_listed_once(self) -> bool {
        ids_unique(self.pending@)
    }

    /// Jobs with a cancel request in flight.
    pub closed spec fn pending_ids(self) -> Set<Seq<char>> {
        ids_of(self.pending@)
    }

    /// The last cancel error shown above the table.
    pub closed spec fn error_text(self) -> Option<Seq<char>> {
        message_of(self.error)
    }

    /// How many times the jobs table has been told to reload.
    pub closed spec fn refresh_count(self) -> nat {
        self.refresh as nat
    }

    /// No request in flight, no error, no reload yet.
    pub fn new() -> (s: Self)
        ensures
            s.pending_ids() == Set::<Seq<char>>::empty(),
            s.error_text() == None::<Seq<char>>,
            s.refresh_count() == 0,
    {
        let s = QueueCancelState { pending: Vec::new(), error: None, refresh: 0 };
        assert(ids_of(s.pending@) =~= Set::<Seq<char>>::empty());
        s
    }

    fn position(&self, job_id: &str) -> (r: Option<usize>)
        ensures
            match r {
                Some(i) => i < self.pending@.len() && self.pending@[i as int]@ == job_id@,
                None => !self.pending_ids().contains(job_id@),
            },
    {
        let n = self.pending.len();
        let mut i: usize = 0;
        while i < n
            invariant
                n == self.pending@.len(),
                i <= n,
                forall|j: int| 0 <= j < i ==> self.pending@[j]@ != job_id@,
            decreases n - i,
        {
            if str_eq(self.pending[i].as_str(), job_id) {
                return Some(i);
            }
            i += 1;
        }
        None
    }

    /// Whether a cancel request for the job is in flight.
    pub fn is_cancelling(&self, job_id: &str) -> (r: bool)
        ensures
            r == self.pending_ids().contains(job_id@),
    {
        match self.position(job_id) {
            Some(_) => true,
            None => false,
        }
    }

    /// Label of a job's cancel button.
    pub fn cancel_button_label(&self, job_id: &str) -> (r: &'static str)
        ensures
            r@ == if self.pending_ids().contains(job_id@) {
                "Cancelling…"@
            } else {
                "Cancel"@
            },
    {
        if self.is_cancelling(job_id) {
            "Cancelling…"
        } else {
            "Cancel"
        }
    }

    /// The last cancel error, if any.
    pub fn error(&self) -> (r: Option<&str>)
        ensures
            match r {
                Some(s) => self.error_text() == Some(s@),
                None => self.error_text() == None::<Seq<char>>,
            },
    {
        match &self.error {
            Some(e) => Some(e.as_str()),
            None => None,
        }
    }

    /// The reload counter handed to the jobs table.
    pub fn refresh_signal(&self) -> (r: u32)
        ensures
            r as nat == self.refresh_count(),
    {
        self.refresh
    }

    /// An operator asks to cancel a job. Returns whether the cancel call is to be made:
    /// not when one is already in flight for that job, in which case nothing changes.
    /// Otherwise the job becomes pending and the previous error is cleared.
    pub fn request_cancel(&mut self, job_id: String) -> (start: bool)
        ensures
            start == !old(self).pending_ids().contains(job_id@),
            !start ==> final(self).pending_ids() == old(self).pending_ids()
                && final(self).error_text() == old(self).error_text()
                && final(self).refresh_count() == old(self).refresh_count(),
            start ==> final(self).pending_ids() == old(self).pending_ids().insert(job_id@)
                && final(self).error_text() == None::<Seq<char>>
                && final(self).refresh_count() == old(self).refresh_count(),
    {
        proof {
            use_type_invariant(&*self);
        }
        if self.is_cancelling(job_id.as_str()) {
            return false;
        }
        let ghost before = self.pending@;
        let ghost id = job_id@;
        let mut pending: Vec<String> = Vec::new();
        std::mem::swap(&mut pending, &mut self.pending);
        pending.push(job_id);
        assert(ids_unique(pending@)) by {
            assert forall|a: int, b: int| 0 <= a < b < pending@.len() implies pending@[a]@
                != pending@[b]@ by {
                if b == before.len() {
                    assert(before[a]@ != id);
                }
            }
        }
        assert forall|x: Seq<char>|
            ids_of(pending@).contains(x) == ids_of(before).insert(id).contains(x) by {
            if ids_of(pending@).contains(x) {
                let k = choose|k: int| 0 <= k < pending@.len() && pending@[k]@ == x;
                if k < before.len() {
                    assert(before[k]@ == x);
                }
            }
            if ids_of(before).insert(id).contains(x) {
                if x == id {
                    assert(pending@[before.len() as int]@ == x);
                } else {
                    let k = choose|k: int| 0 <= k < before.len() && before[k]@ == x;
                    assert(pending@[k]@ == x);
                }
            }
        }
        assert(ids_of(pending@) =~= ids_of(before).insert(id));
        self.pending = pending;
        self.error = None;
        true
    }

    /// The coordinator answered a cancel request: the job is no longer pending, the
    /// error (if any) is shown, and the jobs table reloads.
    pub fn finish_cancel(&mut self, job_id: &str, outcome: Result<(), String>)
        requires
            old(self).refresh_count() < u32::MAX,
        ensures
            final(self).pending_ids() == old(self).pending_ids().remove(job_id@),
            final(self).error_text() == match outcome {
                Ok(()) => None,
                Err(e) => Some(e@),
            },
            final(self).refresh_count() == old(self).refresh_count() + 1,
    {
        proof {
            use_type_invariant(&*self);
        }
        let ghost before = self.pending@;
        self.error = match outcome {
            Ok(()) => None,
            Err(e) => Some(e),
        };
        self.refresh = self.refresh + 1;
        match self.position(job_id) {
            Some(i) => {
                let mut pending: Vec<String> = Vec::new();
                std::mem::swap(&mut pending, &mut self.pending);
                pending.remove(i);
                assert(ids_unique(pending@)) by {
                    assert forall|a: int, b: int| 0 <= a < b < pending@.len() implies pending@[a]@
                        != pending@[b]@ by {
                        if a < i && b >= i {
                            assert(pending@[b] == before[b + 1]);
                        } else if a >= i {
                            assert(pending@[a] == before[a + 1] && pending@[b] == before[b + 1]);
                        }
                    }
                }
                assert forall|id: Seq<char>|
                    ids_of(pending@).contains(id) == ids_of(before).remove(job_id@).contains(id) by {
                    if ids_of(before).remove(job_id@).contains(id) {
                        let k = choose|k: int| 0 <= k < before.len() && before[k]@ == id;
                        if k < i {
                            assert(pending@[k]@ == id);
                        } else {
                            assert(k != i);
                            assert(pending@[k - 1]@ == id);
                        }
                    }
                    if ids_of(pending@).contains(id) {
                        let k = choose|k: int| 0 <= k < pending@.len() && pending@[k]@ == id;
                        if k < i {
                            assert(before[k]@ == id);
                        } else {
                            assert(before[k + 1]@ == id);
                            assert(id != job_id@);
                        }
                    }
                }
                assert(ids_of(pending@) =~= ids_of(before).remove(job_id@));
                self.pending = pending;
            },
            None => {
                assert(ids_of(self.pending@) =~= ids_of(before).remove(job_id@));
            },
        }
    }

    /// A live job event arrived: status transitions make the jobs table reload.
    pub fn on_live_event(&mut self, event: &BosonLiveEvent)
        requires
            is_status_event(*event) ==> old(self).refresh_count() < u32::MAX,
        ensures
            final(self).pending_ids() == old(self).pending_ids(),
            final(self).error_text() == old(self).error_text(),
            final(self).refresh_count() == old(self).refresh_count() + if is_status_event(*event) {
                1nat
            } else {
                0nat
            },
    {
        proof {
            use_type_invariant(&*self);
        }
        if boson_job_event_is_status(event) {
            self.refresh = self.refresh + 1;
        }
    }
}

/// A cancel that is requested and then answered leaves the set of pending jobs as it
/// was before the request.
pub proof fn cancel_round_trip_restores_pending(pending: Set<Seq<char>>, job_id: Seq<char>)
    requires
        !pending.contains(job_id),
    ensures
        pending.insert(job_id).remove(job_id) == pending,
{
    assert(pending.insert(job_id).remove(job_id) =~= pending);
}

} // verus!
