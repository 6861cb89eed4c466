//! The table of live sessions, keyed by handle.

use std::collections::BTreeMap;
use vstd::prelude::*;

verus! {

/// The identifier of a session: the process id of the shell it hosts.
pub type PtyHandler = u32;

/// An ordered mapping from handle to session.
///
/// `S` is whatever the host keeps per session (its master side, child,
/// writer and reader). The table only ever receives a complete `S`, so a
/// handle that is present always refers to a fully constructed session.
pub struct SessionTable<S> {
    entries: BTreeMap<PtyHandler, S>,
}

impl<S> View for SessionTable<S> {
    type V = Map<u32, S>;

    closed spec fn view(&self) -> Map<u32, S> {
        self.entries@
    }
}

impl<S> SessionTable<S> {
    /// A table with no session in it.
    pub fn new() -> (table: Self)
        ensures
            table@ == Map::<u32, S>::empty(),
    {
        SessionTable { entries: BTreeMap::new() }
    }

    /// Puts `session` under `handle`. A session that was there before under
    /// the same handle is handed back; every other entry stays as it was.
    pub fn insert(&mut self, handle: PtyHandler, session: S) -> (replaced: Option<S>)
        ensures
            final(self)@ == old(self)@.insert(handle, session),
            match replaced {
                Some(previous) => old(self)@.contains_key(handle) && previous == old(self)@[handle],
                None => !old(self)@.contains_key(handle),
            },
    {
        broadcast use vstd::laws_cmp::group_laws_cmp;
        self.entries.insert(handle, session)
    }

    /// The session under `handle`, if there is one.
    pub fn get(&self, handle: PtyHandler) -> (found: Option<&S>)
        ensures
            match found {
                Some(session) => self@.contains_key(handle) && *session == self@[handle],
                None => !self@.contains_key(handle),
            },
    {
        broadcast use vstd::laws_cmp::group_laws_cmp;
        broadcast use vstd::std_specs::btree::group_btree_axioms;
        self.entries.get(&handle)
    }

    /// How many sessions are in the table.
    pub fn len(&self) -> (count: usize)
        ensures
            count == self@.len(),
            self@.dom().finite(),
    {
        broadcast use vstd::laws_cmp::group_laws_cmp;
        broadcast use vstd::std_specs::btree::group_btree_axioms;
        self.entries.len()
    }

    /// Whether a session stands under `handle`.
    pub fn contains(&self, handle: PtyHandler) -> (present: bool)
        ensures
            present == self@.contains_key(handle),
    {
        broadcast use vstd::laws_cmp::group_laws_cmp;
        broadcast use vstd::std_specs::btree::group_btree_axioms;
        self.entries.contains_key(&handle)
    }

    /// Takes the session under `handle` out of the table and hands it back.
    /// Nothing in this library calls it on its own: a session stays listed
    /// until the caller removes it.
    pub fn remove(&mut self, handle: PtyHandler) -> (removed: Option<S>)
        ensures
            final(self)@ == old(self)@.remove(handle),
            match removed {
                Some(session) => old(self)@.contains_key(handle) && session == old(self)@[handle],
                None => !old(self)@.contains_key(handle),
            },
    {
        broadcast use vstd::laws_cmp::group_laws_cmp;
        broadcast use vstd::std_specs::btree::group_btree_axioms;
        self.entries.remove(&handle)
    }
}

impl<S> Default for SessionTable<S> {
    /// A table with no session in it.
    fn default() -> (table: Self)
        ensures
            table@ == Map::<u32, S>::empty(),
    {
        SessionTable::new()
    }
}

} // verus!
