//! A value resolved at most once and kept for the owner's lifetime.
//!
//! Meant for single-threaded lazy access: the first lookup runs the query and
//! keeps its value; later lookups answer from the slot. A failed query is not
//! kept, so a later lookup tries again.

use vstd::prelude::*;

use crate::error::{AudioError, ErrorKind};

verus! {

pub const CACHE_SET_TWICE: &'static str = "OnceCell init multiple times";

/// A slot that is either unresolved or holds its one value.
#[derive(Debug)]
pub struct OnceSlot<T> {
    value: Option<T>,
}

impl<T> View for OnceSlot<T> {
    type V = Option<T>;

    closed spec fn view(&self) -> Option<T> {
        self.value
    }
}

/// Whether a lookup on `slot` runs the query.
pub open spec fn needs_query<T>(slot: Option<T>) -> bool {
    slot is None
}

/// A lookup on `slot` where the query, if it runs, gives `fetched`: the slot
/// afterwards, and the lookup's result.
pub open spec fn lookup<T>(slot: Option<T>, fetched: Result<T, AudioError>) -> (Option<T>, Result<
    T,
    AudioError,
>) {
    match slot {
        Some(v) => (Some(v), Ok(v)),
        None => match fetched {
            Ok(v) => (Some(v), Ok(v)),
            Err(e) => (None, Err(e)),
        },
    }
}

/// A borrowed result as the value it refers to.
pub open spec fn owned_result<T>(r: Result<&T, AudioError>) -> Result<T, AudioError> {
    match r {
        Ok(v) => Ok(*v),
        Err(e) => Err(e),
    }
}

impl<T> OnceSlot<T> {
    /// An unresolved slot.
    pub fn new() -> (r: OnceSlot<T>)
        ensures
            r@ is None,
    {
        OnceSlot { value: None }
    }

    /// The value, if resolved.
    pub fn get(&self) -> (r: Option<&T>)
        ensures
            r is Some <==> self@ is Some,
            r is Some ==> *r->Some_0 == self@->Some_0,
    {
        match &self.value {
            Some(v) => Some(v),
            None => None,
        }
    }

    /// Resolves the slot; a second write to a resolved slot is rejected as
    /// misuse and leaves the first value in place.
    pub fn set(&mut self, value: T) -> (r: Result<(), AudioError>)
        ensures
            old(self)@ is None ==> r is Ok && final(self)@ == Some(value),
            old(self)@ is Some ==> r is Err && r->Err_0.kind == ErrorKind::Misuse
                && r->Err_0.msg@ == CACHE_SET_TWICE@ && final(self)@ == old(self)@,
    {
        if self.value.is_some() {
            return Err(AudioError::with_msg(ErrorKind::Misuse, CACHE_SET_TWICE));
        }
        self.value = Some(value);
        Ok(())
    }
}

/// The slot's value, running `f` to resolve it first if it is unresolved.
/// A resolved slot answers without running `f`.
pub fn get_or_try_init<T, F>(once_cell: &mut OnceSlot<T>, f: F) -> (r: Result<&T, AudioError>) where
    F: FnOnce() -> Result<T, AudioError>,

    requires
        needs_query(old(once_cell)@) ==> f.requires(()),
    ensures
        !needs_query(old(once_cell)@) ==> forall|fetched: Result<T, AudioError>|
            #[trigger] lookup(old(once_cell)@, fetched) == (final(once_cell)@, owned_result(r)),
        needs_query(old(once_cell)@) ==> exists|fetched: Result<T, AudioError>|
            #[trigger] f.ensures((), fetched) && (final(once_cell)@, owned_result(r)) == lookup(
                old(once_cell)@,
                fetched,
            ),
{
    if once_cell.value.is_none() {
        let fetched = f();
        match fetched {
            Ok(v) => {
                once_cell.value = Some(v);
            },
            Err(e) => {
                return Err(e);
            },
        }
    }
    match &once_cell.value {
        Some(v) => Ok(v),
        None => vstd::pervasive::unreached(),
    }
}

/// A lookup whose query succeeded leaves the slot resolved, so the next
/// lookup runs no query and returns the same value whatever the query would
/// have given; a failed query leaves the slot unresolved.
pub proof fn lemma_single_query<T>(first: Result<T, AudioError>, second: Result<T, AudioError>)
    ensures
        needs_query(None::<T>),
        lookup(None, first).1 is Ok ==> !needs_query(lookup(None, first).0) && lookup(
            lookup(None, first).0,
            second,
        ) == lookup(None, first),
        lookup(None, first).1 is Err ==> needs_query(lookup(None, first).0),
{
}

} // verus!
