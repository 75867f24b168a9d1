//! Poisoning, as the locks of this library report it.
use vstd::prelude::*;

use crate::level::LevelGuard;

verus! {

/// The report that a lock is poisoned: a previous holder panicked while it held
/// the lock. The guard or value is still inside, so that a caller may accept
/// the state of the payload and go on.
#[derive(Debug)]
pub struct PoisonError<G> {
    guard: G,
}

/// The result of an acquisition that may find the lock poisoned.
pub type LockResult<G> = Result<G, PoisonError<G>>;

impl<G> View for PoisonError<G> {
    type V = G;

    closed spec fn view(&self) -> G {
        self.guard
    }
}

impl<G> PoisonError<G> {
    pub fn new(guard: G) -> (r: Self)
        ensures
            r@ == guard,
    {
        PoisonError { guard }
    }

    /// The guard or value inside.
    pub fn into_inner(self) -> (r: G)
        ensures
            r == self@,
    {
        self.guard
    }

    /// A reference to the guard or value inside.
    pub fn get_ref(&self) -> (r: &G)
        ensures
            *r == self@,
    {
        &self.guard
    }
}

/// Hands on what std reported, in this library's terms.
pub(crate) fn from_std<T>(result: std::sync::LockResult<T>) -> (r: LockResult<T>)
    ensures
        r is Ok <==> result is Ok,
        r is Ok ==> r->Ok_0 == result->Ok_0,
{
    match result {
        Ok(value) => Ok(value),
        Err(poisoned) => Err(PoisonError::new(poisoned.into_inner())),
    }
}

/// Joins the guard of a std lock with the token of the lock's level, into a
/// guard of this library: a success stays a success, and a poisoned lock
/// stays poisoned, with the joined guard inside.
pub(crate) fn map_guard<G, H, F: FnOnce(G, LevelGuard) -> H>(
    result: std::sync::LockResult<G>,
    level: LevelGuard,
    join: F,
) -> (r: LockResult<H>)
    requires
        forall|g: G, l: LevelGuard| join.requires((g, l)),
    ensures
        r is Ok <==> result is Ok,
        r matches Ok(h) ==> join.ensures((result->Ok_0, level), h),
        r is Err ==> exists|g: G| #[trigger] join.ensures((g, level), r->Err_0@),
{
    match result {
        Ok(guard) => Ok(join(guard, level)),
        Err(poisoned) => {
            let guard = poisoned.into_inner();
            let ghost inner = guard;
            let r: LockResult<H> = Err(PoisonError::new(join(guard, level)));
            assert(join.ensures((inner, level), r->Err_0@));
            r
        },
    }
}

} // verus!
