//! The shared capability contract of the persistence subsystem: what any
//! backing store must offer, independent of the storage technology, so that
//! backends are substitutable without touching the request pipeline.
//!
//! Every implementation exposes its state as an abstract [`StoreView`] and
//! promises the same transition and read semantics the in-memory store
//! proves: a backend may fail with its own engine faults, but whenever an
//! operation succeeds it behaves exactly as the store's specification
//! functions prescribe, and a failed operation leaves the store as it was
//! (each call is one exclusive transaction, committed whole or not at all).
//!
//! The in-memory [`crate::store::PolicyStore`] implements the contract
//! directly; a store backed by a relational engine implements it by running
//! each method as one exclusive transaction.

use vstd::prelude::*;

use crate::metadata::{AttachedMetadata, Metadata, User};
use crate::store::{StoreView, metadata_of, next_version, spec_activate, spec_active_version,
    spec_activator, spec_add_version, spec_deactivate, spec_version_content,
    spec_version_metadata};

verus! {

/// A connection to a backing policy store.  Every mutating call runs as one
/// exclusive transaction; no cross-call transactions are exposed.  Each
/// operation takes the identity it is attributed to.
pub trait DatabaseConnection: Sized {
    /// What the store holds as policy content.
    type Content;

    /// The store's failure type; every variant is a server fault, since an
    /// absent version is an absent optional, never an error.
    type Error;

    /// Whether the connection's state is well formed.
    spec fn wf(&self) -> bool;

    /// Whether the store can take one more version.
    spec fn can_add(&self) -> bool;

    /// The abstract store behind the connection.
    spec fn store(&self) -> StoreView;

    /// The model of one content value.
    spec fn content_model(content: &Self::Content) -> Seq<char>;

    /// Adds a new policy version; on success the assigned number is the
    /// next one and the store gains exactly the new record, stamped at
    /// some creation time.
    fn add_version(&mut self, user: &User, metadata: AttachedMetadata, content: Self::Content)
        -> (r: Result<u64, Self::Error>)
        requires
            old(self).wf(),
            old(self).can_add(),
        ensures
            final(self).wf(),
            r matches Ok(v) ==> v == next_version(old(self).store()) && (exists|now: i64|
                final(self).store() == spec_add_version(
                    old(self).store(),
                    user@.id,
                    metadata@,
                    Self::content_model(&content),
                    now,
                )),
            r is Err ==> final(self).store() == old(self).store(),
    ;

    /// Marks `version` as the enforced one; a no-op when it already is,
    /// else one ledger row appended, stamped at some activation time.
    fn activate(&mut self, user: &User, version: u64) -> (r: Result<(), Self::Error>)
        requires
            old(self).wf(),
        ensures
            final(self).wf(),
            r is Ok ==> (exists|now: i64|
                final(self).store() == spec_activate(old(self).store(), user@.id, version, now)),
            r is Err ==> final(self).store() == old(self).store(),
    ;

    /// Clears the enforced version; a no-op when nothing is enforced, else
    /// the latest ledger row stamped at some deactivation time.
    fn deactivate(&mut self, user: &User) -> (r: Result<(), Self::Error>)
        requires
            old(self).wf(),
        ensures
            final(self).wf(),
            r is Ok ==> (exists|now: i64|
                final(self).store() == spec_deactivate(old(self).store(), user@.id, now)),
            r is Err ==> final(self).store() == old(self).store(),
    ;

    /// Lists every version with its metadata, in version order, without
    /// changing the store.
    fn get_versions(&mut self) -> (r: Result<Vec<(u64, Metadata)>, Self::Error>)
        requires
            old(self).wf(),
        ensures
            final(self).wf(),
            final(self).store() == old(self).store(),
            r matches Ok(list) ==> list@.len() == old(self).store().policies.len()
                && forall|i: int| 0 <= i < list@.len()
                ==> (#[trigger] list@[i]).0 == old(self).store().policies[i].version
                    && list@[i].1@ == metadata_of(old(self).store().policies[i]),
    ;

    /// Returns the enforced version, derived from the ledger, without
    /// changing the store.
    fn get_active_version(&mut self) -> (r: Result<Option<u64>, Self::Error>)
        requires
            old(self).wf(),
        ensures
            final(self).wf(),
            final(self).store() == old(self).store(),
            r matches Ok(active) ==> active == spec_active_version(old(self).store().ledger),
    ;

    /// Returns who activated the enforced version, if one is enforced,
    /// without changing the store.
    fn get_activator(&mut self) -> (r: Result<Option<User>, Self::Error>)
        requires
            old(self).wf(),
        ensures
            final(self).wf(),
            final(self).store() == old(self).store(),
            r matches Ok(activator) ==> {
                &&& activator is Some <==> spec_activator(old(self).store().ledger) is Some
                &&& activator matches Some(u) ==> spec_activator(old(self).store().ledger)
                    == Some(u@)
            },
    ;

    /// Returns `version`'s metadata; absent when never issued, not an
    /// error; the store is unchanged.
    fn get_version_metadata(&mut self, version: u64) -> (r: Result<Option<Metadata>, Self::Error>)
        requires
            old(self).wf(),
        ensures
            final(self).wf(),
            final(self).store() == old(self).store(),
            r matches Ok(found) ==> {
                &&& found is Some <==> spec_version_metadata(old(self).store(), version) is Some
                &&& found matches Some(m) ==> spec_version_metadata(old(self).store(), version)
                    == Some(m@)
            },
    ;

    /// Returns `version`'s content; absent when never issued, not an
    /// error; the store is unchanged.
    fn get_version_content(&mut self, version: u64) -> (r: Result<
        Option<Self::Content>,
        Self::Error,
    >)
        requires
            old(self).wf(),
        ensures
            final(self).wf(),
            final(self).store() == old(self).store(),
            r matches Ok(found) ==> {
                &&& found is Some <==> spec_version_content(old(self).store(), version) is Some
                &&& found matches Some(c) ==> spec_version_content(old(self).store(), version)
                    == Some(Self::content_model(&c))
            },
    ;
}

} // verus!
