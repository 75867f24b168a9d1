//! Levels, the per-thread record of held levels, and the ordering check.
use vstd::prelude::*;

use std::marker::PhantomData;
use std::rc::Rc;

use crate::hierarchy::{
    admits, after_acquire, after_release, lemma_acquire_keeps_order, lemma_position_of,
    lemma_release_keeps_order, may_release, strictly_descending, violation,
};

verus! {

/// An acquisition that breaks the lock hierarchy: `requested` is not strictly
/// below `held`, the lowest level the thread holds.
#[derive(Debug, Clone, Copy, PartialEq, Eq, Structural)]
pub struct HierarchyViolation {
    pub requested: u32,
    pub held: u32,
}

/// The levels that one thread holds, in the order in which it acquired them.
///
/// A thread keeps one value of this type and hands it to every acquisition and
/// release; the value cannot leave its thread. Built with [`LockLevels::new`]
/// it checks the lock hierarchy; built with [`LockLevels::unchecked`] it
/// admits every level and records nothing. Nothing stops a thread from making
/// a second value; the hierarchy is then checked within each value only.
#[derive(Debug)]
pub struct LockLevels {
    levels: Vec<u32>,
    checked: bool,
    thread: PhantomData<Rc<()>>,
}

impl View for LockLevels {
    type V = Seq<u32>;

    closed spec fn view(&self) -> Seq<u32> {
        self.levels@
    }
}

impl LockLevels {
    /// The held levels fall strictly; with checking off none is recorded.
    #[verifier::type_invariant]
    pub open spec fn well_formed(&self) -> bool {
        &&& strictly_descending(self@)
        &&& !self.spec_is_checked() ==> self@.len() == 0
    }

    pub closed spec fn spec_is_checked(&self) -> bool {
        self.checked
    }

    /// Levels of a thread that holds no lock, with the ordering check on.
    pub fn new() -> (r: Self)
        ensures
            r.is_checked(),
            r@ == Seq::<u32>::empty(),
    {
        LockLevels { levels: Vec::new(), checked: true, thread: PhantomData }
    }

    /// Levels with the ordering check off: every acquisition is admitted and
    /// nothing is recorded.
    pub fn unchecked() -> (r: Self)
        ensures
            !r.is_checked(),
            r@ == Seq::<u32>::empty(),
    {
        LockLevels { levels: Vec::new(), checked: false, thread: PhantomData }
    }

    /// Whether the ordering check is on.
    #[verifier::when_used_as_spec(spec_is_checked)]
    pub fn is_checked(&self) -> (r: bool)
        ensures
            r == self.is_checked(),
    {
        self.checked
    }

    /// The held levels, first acquired first.
    pub fn held(&self) -> (r: &[u32])
        ensures
            r@ == self@,
    {
        self.levels.as_slice()
    }

    /// Whether the check admits `level`; nothing is recorded.
    pub fn admits_level(&self, level: u32) -> (r: bool)
        ensures
            r == admits(self.is_checked(), self@, level),
    {
        let n = self.levels.len();
        !self.checked || n == 0 || level < self.levels[n - 1]
    }

    /// Records `level` as acquired if the check admits it; otherwise reports
    /// the violation and records nothing. With checking off, every level is
    /// admitted and nothing is recorded.
    pub fn push(&mut self, level: u32) -> (r: Result<(), HierarchyViolation>)
        ensures
            final(self).is_checked() == old(self).is_checked(),
            r is Ok <==> admits(old(self).is_checked(), old(self)@, level),
            r is Ok ==> final(self)@ == after_acquire(old(self).is_checked(), old(self)@, level),
            r is Err ==> r->Err_0 == violation(old(self)@, level) && final(self)@ == old(self)@,
    {
        proof {
            use_type_invariant(&*self);
        }
        if self.checked {
            let n = self.levels.len();
            if n > 0 {
                let lowest = self.levels[n - 1];
                if lowest <= level {
                    return Err(HierarchyViolation { requested: level, held: lowest });
                }
            }
            proof {
                lemma_acquire_keeps_order(self@, level);
            }
            // The vector is taken out while it changes, so that the value
            // stays well formed should the change unwind.
            let mut levels = Vec::new();
            std::mem::swap(&mut levels, &mut self.levels);
            levels.push(level);
            self.levels = levels;
        }
        Ok(())
    }

    /// Takes the last entry of `level` out of the held levels; the others keep
    /// their order. With checking off nothing is recorded, and nothing changes.
    /// Only a guard that gives its level back does this.
    pub(crate) fn remove(&mut self, level: u32)
        requires
            may_release(old(self).is_checked(), old(self)@, level),
        ensures
            final(self).is_checked() == old(self).is_checked(),
            final(self)@ == after_release(old(self).is_checked(), old(self)@, level),
    {
        proof {
            use_type_invariant(&*self);
        }
        if self.checked {
            let index = last_position(&self.levels, level).expect(
                "a level that is given back was recorded when it was acquired",
            );
            proof {
                lemma_position_of(self@, level, index as int);
                lemma_release_keeps_order(self@, level);
            }
            let mut levels = Vec::new();
            std::mem::swap(&mut levels, &mut self.levels);
            levels.remove(index);
            self.levels = levels;
        }
    }
}

/// The last place that holds `level`, searching from the end.
fn last_position(levels: &Vec<u32>, level: u32) -> (r: Option<usize>)
    ensures
        r is Some <==> levels@.contains(level),
        r matches Some(i) ==> i < levels@.len() && levels@[i as int] == level && forall|j: int|
            i < j < levels@.len() ==> levels@[j] != level,
{
    let mut i: usize = levels.len();
    while i > 0
        invariant
            i <= levels@.len(),
            forall|k: int| i <= k < levels@.len() ==> levels@[k] != level,
        decreases i,
    {
        if levels[i - 1] == level {
            return Some(i - 1);
        }
        i -= 1;
    }
    None
}

/// The rank of a lock in the hierarchy, fixed when the lock is made. Locks of
/// higher levels are acquired first when several are held at once.
#[derive(Debug)]
pub struct Level {
    level: u32,
}

impl View for Level {
    type V = u32;

    closed spec fn view(&self) -> u32 {
        self.level
    }
}

impl Default for Level {
    fn default() -> (r: Self)
        ensures
            r@ == 0,
    {
        Level::new(0)
    }
}

impl Level {
    pub fn new(level: u32) -> (r: Self)
        ensures
            r@ == level,
    {
        Level { level }
    }

    pub fn value(&self) -> (r: u32)
        ensures
            r == self@,
    {
        self.level
    }

    /// Checks this level against the held levels and records it. An
    /// acquisition that breaks the hierarchy is a defect of the caller: a
    /// caller that Verus does not check gets a panic that names both levels.
    pub fn lock(&self, levels: &mut LockLevels) -> (r: LevelGuard)
        requires
            admits(old(levels).is_checked(), old(levels)@, self@),
        ensures
            r@ == self@,
            final(levels).is_checked() == old(levels).is_checked(),
            final(levels)@ == after_acquire(old(levels).is_checked(), old(levels)@, self@),
    {
        levels.push(self.level).unwrap();
        LevelGuard { level: self.level, thread: PhantomData }
    }
}

/// The token of a held level; releasing it takes the level out of the held
/// levels. Like the record it came from, it cannot leave its thread.
#[derive(Debug)]
pub struct LevelGuard {
    level: u32,
    thread: PhantomData<Rc<()>>,
}

impl View for LevelGuard {
    type V = u32;

    closed spec fn view(&self) -> u32 {
        self.level
    }
}

impl LevelGuard {
    pub fn level(&self) -> (r: u32)
        ensures
            r == self@,
    {
        self.level
    }

    /// Gives the level back. Guards of one thread may be released in any order.
    /// With checking off this does nothing. With it on, a level that is not
    /// recorded in `levels` is a defect of the caller: a caller that Verus does
    /// not check gets a panic.
    pub fn release(self, levels: &mut LockLevels)
        requires
            may_release(old(levels).is_checked(), old(levels)@, self@),
        ensures
            final(levels).is_checked() == old(levels).is_checked(),
            final(levels)@ == after_release(old(levels).is_checked(), old(levels)@, self@),
    {
        levels.remove(self.level);
    }
}

} // verus!
