use vstd::prelude::*;

use crate::error::BotError;

verus! {

/// Where a recycling stands: listing the spent pool, moving its candidates
/// back one by one, or finished.
#[derive(Clone, Copy, Debug, PartialEq, Eq, Structural)]
pub enum RecycleStage {
    ListingSpent,
    Moving,
    Done,
    Failed(BotError),
}

/// Moving every candidate of the spent pool back into the available pool.
/// While `Moving`, the candidate to relocate next is `pending[next]`.
#[derive(Clone, Debug)]
pub struct Recycle {
    pub available_dir: String,
    pub spent_dir: String,
    pub pending: Vec<String>,
    pub next: usize,
    pub moved: Vec<String>,
    pub stage: RecycleStage,
}

/// The stage after the spent pool was listed with `listing`.
pub open spec fn recycle_after_listing(listing: Result<Seq<String>, BotError>) -> RecycleStage {
    match listing {
        Err(e) => RecycleStage::Failed(e),
        Ok(v) => if v.len() == 0 {
            RecycleStage::Done
        } else {
            RecycleStage::Moving
        },
    }
}

pub open spec fn listing_view(listing: Result<Vec<String>, BotError>) -> Result<Seq<String>, BotError> {
    match listing {
        Ok(v) => Ok(v@),
        Err(e) => Err(e),
    }
}

impl Recycle {
    /// While moving, a candidate is still due.
    pub open spec fn wf(&self) -> bool {
        self.stage == RecycleStage::Moving ==> self.next < self.pending@.len()
    }

    /// Starts recycling `spent_dir` into `available_dir`; the first step is
    /// to list `spent_dir`.
    pub fn new(available_dir: &str, spent_dir: &str) -> (r: Recycle)
        ensures
            r.available_dir@ == available_dir@,
            r.spent_dir@ == spent_dir@,
            r.stage == RecycleStage::ListingSpent,
            r.moved@.len() == 0,
            r.wf(),
    {
        Recycle {
            available_dir: available_dir.to_owned(),
            spent_dir: spent_dir.to_owned(),
            pending: Vec::new(),
            next: 0,
            moved: Vec::new(),
            stage: RecycleStage::ListingSpent,
        }
    }

    /// Takes the listing of the spent pool. An empty pool ends the
    /// recycling at once, with nothing moved; a failed listing ends it with
    /// that failure. Outside the listing stage nothing changes.
    pub fn listed(&mut self, listing: Result<Vec<String>, BotError>)
        requires
            old(self).wf(),
        ensures
            final(self).wf(),
            old(self).stage != RecycleStage::ListingSpent ==> *final(self) == *old(self),
            old(self).stage == RecycleStage::ListingSpent ==> {
                &&& final(self).stage == recycle_after_listing(listing_view(listing))
                &&& final(self).moved == old(self).moved
                &&& final(self).next == 0
                &&& listing is Ok ==> final(self).pending@ == listing->Ok_0@
            },
            final(self).available_dir == old(self).available_dir,
            final(self).spent_dir == old(self).spent_dir,
    {
        if self.stage != RecycleStage::ListingSpent {
            return;
        }
        self.next = 0;
        match listing {
            Err(e) => {
                self.stage = RecycleStage::Failed(e);
            },
            Ok(v) => {
                if v.len() == 0 {
                    self.stage = RecycleStage::Done;
                } else {
                    self.stage = RecycleStage::Moving;
                }
                self.pending = v;
            },
        }
    }

    /// The candidate to relocate next, while moving.
    pub fn current(&self) -> (r: Option<&String>)
        ensures
            self.stage == RecycleStage::Moving && self.next < self.pending@.len() ==> r == Some(&self.pending@[self.next as int]),
            !(self.stage == RecycleStage::Moving && self.next < self.pending@.len()) ==> r is None,
    {
        if self.stage == RecycleStage::Moving && self.next < self.pending.len() {
            Some(&self.pending[self.next])
        } else {
            None
        }
    }

    /// Takes the result of relocating the current candidate: its new path
    /// is recorded and the next one is due, or the failure ends the
    /// recycling. Outside the moving stage nothing changes.
    pub fn moved_one(&mut self, result: Result<String, BotError>)
        requires
            old(self).wf(),
        ensures
            final(self).wf(),
            old(self).stage != RecycleStage::Moving ==> *final(self) == *old(self),
            old(self).stage == RecycleStage::Moving && result is Err ==> {
                &&& final(self).stage == RecycleStage::Failed(result->Err_0)
                &&& final(self).moved == old(self).moved
            },
            old(self).stage == RecycleStage::Moving && result is Ok ==> {
                &&& final(self).moved@ == old(self).moved@.push(result->Ok_0)
                &&& final(self).next == old(self).next + 1
                &&& final(self).stage == if old(self).next + 1 >= old(self).pending@.len() {
                    RecycleStage::Done
                } else {
                    RecycleStage::Moving
                }
            },
            final(self).available_dir == old(self).available_dir,
            final(self).spent_dir == old(self).spent_dir,
            final(self).pending == old(self).pending,
    {
        if self.stage != RecycleStage::Moving {
            return;
        }
        match result {
            Err(e) => {
                self.stage = RecycleStage::Failed(e);
            },
            Ok(dest) => {
                self.moved.push(dest);
                if self.next >= self.pending.len() - 1 {
                    self.stage = RecycleStage::Done;
                }
                self.next = self.next + 1;
            },
        }
    }

    /// The result once finished: the recycled paths, or the failure.
    pub fn result(&self) -> (r: Option<Result<Vec<String>, BotError>>)
        ensures
            self.stage == RecycleStage::Done ==> r is Some && r->Some_0 is Ok && r->Some_0->Ok_0@ == self.moved@,
            self.stage is Failed ==> r == Some(Err::<Vec<String>, BotError>(self.stage->Failed_0)),
            (self.stage is ListingSpent || self.stage is Moving) ==> r is None,
    {
        match self.stage {
            RecycleStage::Done => Some(Ok(self.moved.clone())),
            RecycleStage::Failed(e) => Some(Err(e)),
            _ => None,
        }
    }
}

/// Recycling an empty spent pool is a no-op: a fresh recycling (`before`)
/// that takes an empty listing through `listed` (giving `after`) ends
/// `Done` with nothing moved, without a failure and with no candidate due
/// (`current` offers none; `result` is `Ok` of the empty list). The pools
/// are untouched, so a second recycling ends the same way.
pub proof fn lemma_recycle_empty_is_noop(before: Recycle, after: Recycle, listing: Seq<String>)
    requires
        before.stage == RecycleStage::ListingSpent,
        before.moved@.len() == 0,
        listing.len() == 0,
        after.stage == recycle_after_listing(Ok(listing)),
        after.moved == before.moved,
    ensures
        after.stage == RecycleStage::Done,
        !(after.stage is Failed),
        after.stage != RecycleStage::Moving,
        after.moved@ == Seq::<String>::empty(),
{
}

} // verus!
