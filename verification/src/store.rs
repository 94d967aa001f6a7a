//! The versioned policy store and its activation ledger.
//!
//! The store keeps two append-only tables.  `policies` holds one immutable
//! record per submitted policy version; version numbers are assigned densely,
//! starting at 1, so the record for version `v` always sits at index `v - 1`.
//! `ledger` holds one activation event per `activate` that was not a no-op;
//! an event is amended at most once, to stamp its deactivation fields.  The
//! currently enforced version is never stored separately: it is derived from
//! the ledger row with the latest activation stamp, which the stamp-ordering
//! invariant pins to the last row.
//!
//! Each mutating method corresponds to one exclusive transaction of the
//! backing engine: callers sequence them through `&mut`, so a read-then-
//! decide-then-write sequence can never interleave with another one.

use vstd::prelude::*;

use crate::metadata::{AttachedMetadata, AttachedMetadataView, Metadata, MetadataView, User,
    UserView, placeholder_name, placeholder_user_name};

verus! {

/// One row of the policy table: what the caller attached, plus what the
/// store inferred when the version was created.  Immutable once inserted.
#[derive(Debug)]
pub struct PolicyRecord {
    /// Caller-supplied name, not necessarily unique.
    pub name: String,
    /// Caller-supplied free-text description.
    pub description: String,
    /// Caller-supplied content-language tag.
    pub language: String,
    /// The ledger-assigned version number.
    pub version: u64,
    /// Identifier of the identity that submitted the version.
    pub creator: String,
    /// Creation time, in microseconds since the Unix epoch (UTC).
    pub created_at: i64,
    /// The opaque serialized policy content.
    pub content: String,
}

/// Mathematical model of a [`PolicyRecord`].
#[verifier::ext_equal]
pub struct PolicyRecordView {
    pub name: Seq<char>,
    pub description: Seq<char>,
    pub language: Seq<char>,
    pub version: u64,
    pub creator: Seq<char>,
    pub created_at: i64,
    pub content: Seq<char>,
}

impl View for PolicyRecord {
    type V = PolicyRecordView;

    open spec fn view(&self) -> PolicyRecordView {
        PolicyRecordView {
            name: self.name@,
            description: self.description@,
            language: self.language@,
            version: self.version,
            creator: self.creator@,
            created_at: self.created_at,
            content: self.content@,
        }
    }
}

/// One row of the activation ledger: "version `version` is enforced starting
/// at `activated_on`".  The deactivation fields only ever move from absent to
/// present, and only on the latest row.
#[derive(Debug)]
pub struct ActivationRecord {
    /// The version the event activates.
    pub version: u64,
    /// Activation time, in microseconds since the Unix epoch (UTC).
    pub activated_on: i64,
    /// Identifier of the identity that activated the version.
    pub activated_by: String,
    /// Deactivation time, once the event has been superseded by an explicit
    /// deactivation.
    pub deactivated_on: Option<i64>,
    /// Identifier of the identity that deactivated the version.
    pub deactivated_by: Option<String>,
}

/// Mathematical model of an [`ActivationRecord`].
#[verifier::ext_equal]
pub struct ActivationRecordView {
    pub version: u64,
    pub activated_on: i64,
    pub activated_by: Seq<char>,
    pub deactivated_on: Option<i64>,
    pub deactivated_by: Option<Seq<char>>,
}

impl View for ActivationRecord {
    type V = ActivationRecordView;

    open spec fn view(&self) -> ActivationRecordView {
        ActivationRecordView {
            version: self.version,
            activated_on: self.activated_on,
            activated_by: self.activated_by@,
            deactivated_on: self.deactivated_on,
            deactivated_by: match self.deactivated_by {
                Some(ref id) => Some(id@),
                None => None,
            },
        }
    }
}

/// Mathematical model of the whole store: both tables as sequences.
#[verifier::ext_equal]
pub struct StoreView {
    pub policies: Seq<PolicyRecordView>,
    pub ledger: Seq<ActivationRecordView>,
}

/// The store invariant.
///
/// Policy versions are assigned densely: the record at index `i` carries
/// version `i + 1`, so the version numbers are exactly `1..=N` with no
/// duplicates and no gaps.  Activation stamps never decrease along the
/// ledger, so the row with the latest activation stamp is the last row.
pub open spec fn store_inv(s: StoreView) -> bool {
    &&& forall|i: int|
        0 <= i < s.policies.len() ==> (#[trigger] s.policies[i].version) == i + 1
    &&& forall|i: int, j: int|
        0 <= i <= j < s.ledger.len() ==> (#[trigger] s.ledger[i].activated_on)
            <= (#[trigger] s.ledger[j].activated_on)
}

/// The store with no versions and an empty ledger.
pub open spec fn empty_store() -> StoreView {
    StoreView { policies: Seq::empty(), ledger: Seq::empty() }
}

/// The version the ledger declares enforced: the one on the row with the
/// latest activation stamp, provided that row has not been deactivated.
/// Older undeactivated rows are inert history and do not count.
pub open spec fn spec_active_version(ledger: Seq<ActivationRecordView>) -> Option<u64> {
    if ledger.len() == 0 {
        None
    } else if ledger.last().deactivated_on is Some {
        None
    } else {
        Some(ledger.last().version)
    }
}

/// The metadata derived from one policy record.
pub open spec fn metadata_of(r: PolicyRecordView) -> MetadataView {
    MetadataView {
        attached: AttachedMetadataView {
            name: r.name,
            description: r.description,
            language: r.language,
        },
        created: r.created_at,
        creator: UserView { id: r.creator, name: placeholder_name() },
        version: r.version,
    }
}

/// The version number the next submission will be assigned.
pub open spec fn next_version(s: StoreView) -> u64
    recommends
        s.policies.len() < u64::MAX,
{
    (s.policies.len() + 1) as u64
}

/// The policy record a submission inserts.
pub open spec fn new_policy_record(
    s: StoreView,
    uid: Seq<char>,
    meta: AttachedMetadataView,
    content: Seq<char>,
    now: i64,
) -> PolicyRecordView {
    PolicyRecordView {
        name: meta.name,
        description: meta.description,
        language: meta.language,
        version: next_version(s),
        creator: uid,
        created_at: now,
        content,
    }
}

/// The store after a submission: one more policy record, ledger untouched.
pub open spec fn spec_add_version(
    s: StoreView,
    uid: Seq<char>,
    meta: AttachedMetadataView,
    content: Seq<char>,
    now: i64,
) -> StoreView {
    StoreView { policies: s.policies.push(new_policy_record(s, uid, meta, content, now)), ledger: s.ledger }
}

/// The stamp a new activation row receives: the wall-clock reading, nudged
/// forward if the clock reads earlier than the latest existing stamp, so
/// that stamps never decrease along the ledger.
pub open spec fn activation_stamp(s: StoreView, now: i64) -> i64 {
    if s.ledger.len() == 0 || now >= s.ledger.last().activated_on {
        now
    } else {
        s.ledger.last().activated_on
    }
}

/// The activation row an `activate` appends.
pub open spec fn new_activation_record(
    s: StoreView,
    uid: Seq<char>,
    version: u64,
    now: i64,
) -> ActivationRecordView {
    ActivationRecordView {
        version,
        activated_on: activation_stamp(s, now),
        activated_by: uid,
        deactivated_on: None,
        deactivated_by: None,
    }
}

/// The store after `activate(version)`: unchanged when `version` is already
/// the active one, else one more ledger row.  The store deliberately does not
/// check that `version` exists among the stored policies: the ledger is
/// independent of content existence.
pub open spec fn spec_activate(
    s: StoreView,
    uid: Seq<char>,
    version: u64,
    now: i64,
) -> StoreView {
    if spec_active_version(s.ledger) == Some(version) {
        s
    } else {
        StoreView { policies: s.policies, ledger: s.ledger.push(new_activation_record(s, uid, version, now)) }
    }
}

/// The store after `deactivate()`: unchanged when nothing is active, else the
/// latest ledger row stamped with the deactivation time and identity.
pub open spec fn spec_deactivate(s: StoreView, uid: Seq<char>, now: i64) -> StoreView {
    if spec_active_version(s.ledger) is None {
        s
    } else {
        let last = s.ledger.last();
        let stamped = ActivationRecordView {
            version: last.version,
            activated_on: last.activated_on,
            activated_by: last.activated_by,
            deactivated_on: Some(now),
            deactivated_by: Some(uid),
        };
        StoreView { policies: s.policies, ledger: s.ledger.update(s.ledger.len() - 1, stamped) }
    }
}

/// The identity the ledger records as having activated the active version,
/// if one is active.
pub open spec fn spec_activator(ledger: Seq<ActivationRecordView>) -> Option<UserView> {
    if spec_active_version(ledger) is Some {
        Some(UserView { id: ledger.last().activated_by, name: placeholder_name() })
    } else {
        None
    }
}

/// The metadata the store returns for `version`, absent when the version was
/// never issued.
pub open spec fn spec_version_metadata(s: StoreView, version: u64) -> Option<MetadataView> {
    if 1 <= version <= s.policies.len() {
        Some(metadata_of(s.policies[version - 1]))
    } else {
        None
    }
}

/// The content the store returns for `version`, absent when the version was
/// never issued.
pub open spec fn spec_version_content(s: StoreView, version: u64) -> Option<Seq<char>> {
    if 1 <= version <= s.policies.len() {
        Some(s.policies[version - 1].content)
    } else {
        None
    }
}

/// The in-memory incarnation of the store.  All access goes through the
/// methods; the invariant `store_inv` holds on every value reachable from
/// [`PolicyStore::new`].
#[derive(Debug)]
pub struct PolicyStore {
    policies: Vec<PolicyRecord>,
    ledger: Vec<ActivationRecord>,
}

impl View for PolicyStore {
    type V = StoreView;

    closed spec fn view(&self) -> StoreView {
        StoreView {
            policies: self.policies@.map_values(|r: PolicyRecord| r@),
            ledger: self.ledger@.map_values(|r: ActivationRecord| r@),
        }
    }
}

/// Relies on chrono's `Utc::now`: the current UTC wall-clock reading, in
/// microseconds since the Unix epoch.  Nothing is promised of the reading;
/// the store nudges it where an invariant needs more.
#[verifier::external_body]
fn now_timestamp() -> (t: i64) {
    chrono::Utc::now().timestamp_micros()
}

impl PolicyStore {
    /// Creates a store with no versions and an empty ledger.
    pub fn new() -> (s: Self)
        ensures
            s@ == empty_store(),
            store_inv(s@),
    {
        let s = PolicyStore { policies: Vec::new(), ledger: Vec::new() };
        proof {
            assert(s@ =~~= empty_store());
        }
        s
    }

    /// Returns the currently enforced version, derived from the ledger.
    pub fn get_active_version(&self) -> (r: Option<u64>)
        ensures
            r == spec_active_version(self@.ledger),
    {
        if self.ledger.len() == 0 {
            None
        } else {
            let last = &self.ledger[self.ledger.len() - 1];
            if last.deactivated_on.is_some() {
                None
            } else {
                Some(last.version)
            }
        }
    }

    /// Appends a new policy version and returns its ledger-assigned number:
    /// one more than the highest number issued so far.  The record snapshots
    /// the calling identity and the supplied creation time.
    pub fn add_version_at(
        &mut self,
        user: &User,
        metadata: AttachedMetadata,
        content: String,
        now: i64,
    ) -> (v: u64)
        requires
            store_inv(old(self)@),
            old(self)@.policies.len() < u64::MAX,
        ensures
            store_inv(final(self)@),
            v == next_version(old(self)@),
            final(self)@ == spec_add_version(old(self)@, user@.id, metadata@, content@, now),
    {
        let v = (self.policies.len() as u64) + 1;
        let record = PolicyRecord {
            name: metadata.name,
            description: metadata.description,
            language: metadata.language,
            version: v,
            creator: user.id.clone(),
            created_at: now,
            content,
        };
        self.policies.push(record);
        proof {
            assert(self@ =~~= spec_add_version(old(self)@, user@.id, metadata@, content@, now));
        }
        v
    }

    /// Marks `version` as the enforced one.  When `version` is already
    /// active this is a no-op and appends nothing; otherwise a new ledger
    /// row is appended, stamped with the calling identity and the supplied
    /// time (nudged forward if it reads earlier than the latest stamp).
    /// Whether `version` exists among the stored policies is deliberately
    /// not checked.
    pub fn activate_at(&mut self, user: &User, version: u64, now: i64)
        requires
            store_inv(old(self)@),
        ensures
            store_inv(final(self)@),
            final(self)@ == spec_activate(old(self)@, user@.id, version, now),
    {
        let already_active = match self.get_active_version() {
            Some(active) => active == version,
            None => false,
        };
        if already_active {
            return;
        }
        let stamp: i64 = if self.ledger.len() == 0 {
            now
        } else {
            let latest = self.ledger[self.ledger.len() - 1].activated_on;
            if now >= latest {
                now
            } else {
                latest
            }
        };
        let record = ActivationRecord {
            version,
            activated_on: stamp,
            activated_by: user.id.clone(),
            deactivated_on: None,
            deactivated_by: None,
        };
        self.ledger.push(record);
        proof {
            let prev = old(self)@.ledger;
            let cur = self@.ledger;
            assert(cur =~~= prev.push(new_activation_record(old(self)@, user@.id, version, now)));
            assert forall|i: int, j: int| 0 <= i <= j < cur.len() implies
                cur[i].activated_on <= cur[j].activated_on by {
                if j < prev.len() {
                    assert(prev[i].activated_on <= prev[j].activated_on);
                } else if i < prev.len() {
                    assert(prev[i].activated_on <= prev[prev.len() - 1].activated_on);
                }
            }
            assert(self@ =~~= spec_activate(old(self)@, user@.id, version, now));
        }
    }

    /// Clears the enforced version.  When nothing is active this is a no-op;
    /// otherwise the latest ledger row is stamped with the deactivation time
    /// and the calling identity.  The row's activation fields are untouched.
    pub fn deactivate_at(&mut self, user: &User, now: i64)
        requires
            store_inv(old(self)@),
        ensures
            store_inv(final(self)@),
            final(self)@ == spec_deactivate(old(self)@, user@.id, now),
    {
        if self.ledger.len() == 0 {
            return;
        }
        if self.ledger[self.ledger.len() - 1].deactivated_on.is_some() {
            return;
        }
        let mut record = self.ledger.pop().unwrap();
        record.deactivated_on = Some(now);
        record.deactivated_by = Some(user.id.clone());
        self.ledger.push(record);
        proof {
            let prev = old(self)@.ledger;
            let cur = self@.ledger;
            assert(cur =~~= spec_deactivate(old(self)@, user@.id, now).ledger);
            assert forall|i: int, j: int| 0 <= i <= j < cur.len() implies
                cur[i].activated_on <= cur[j].activated_on by {
                assert(cur[i].activated_on == prev[i].activated_on);
                assert(cur[j].activated_on == prev[j].activated_on);
            }
            assert(self@ =~~= spec_deactivate(old(self)@, user@.id, now));
        }
    }

    /// Appends a new policy version stamped with the current wall-clock
    /// reading.  Apart from the creation stamp, which depends on the clock,
    /// the effect is exactly that of [`PolicyStore::add_version_at`].
    pub fn add_version(&mut self, user: &User, metadata: AttachedMetadata, content: String) -> (v:
        u64)
        requires
            store_inv(old(self)@),
            old(self)@.policies.len() < u64::MAX,
        ensures
            store_inv(final(self)@),
            v == next_version(old(self)@),
            exists|now: i64| final(self)@ == spec_add_version(
                old(self)@,
                user@.id,
                metadata@,
                content@,
                now,
            ),
    {
        let now = now_timestamp();
        self.add_version_at(user, metadata, content, now)
    }

    /// Marks `version` as the enforced one, stamping any new ledger row
    /// with the current wall-clock reading.  Apart from that stamp, the
    /// effect is exactly that of [`PolicyStore::activate_at`].
    pub fn activate(&mut self, user: &User, version: u64)
        requires
            store_inv(old(self)@),
        ensures
            store_inv(final(self)@),
            exists|now: i64| final(self)@ == spec_activate(old(self)@, user@.id, version, now),
            spec_active_version(final(self)@.ledger) == Some(version),
    {
        let now = now_timestamp();
        self.activate_at(user, version, now);
        proof {
            if spec_active_version(old(self)@.ledger) != Some(version) {
                assert(self@.ledger.last() == new_activation_record(
                    old(self)@,
                    user@.id,
                    version,
                    now,
                ));
            }
        }
    }

    /// Clears the enforced version, stamping the deactivation with the
    /// current wall-clock reading.  Apart from that stamp, the effect is
    /// exactly that of [`PolicyStore::deactivate_at`].
    pub fn deactivate(&mut self, user: &User)
        requires
            store_inv(old(self)@),
        ensures
            store_inv(final(self)@),
            exists|now: i64| final(self)@ == spec_deactivate(old(self)@, user@.id, now),
            spec_active_version(final(self)@.ledger) is None,
    {
        let now = now_timestamp();
        self.deactivate_at(user, now);
    }

    /// Lists every stored version with its derived metadata, in version
    /// order.
    pub fn get_versions(&self) -> (r: Vec<(u64, Metadata)>)
        ensures
            r@.len() == self@.policies.len(),
            forall|i: int| 0 <= i < r@.len() ==> (#[trigger] r@[i]).0 == self@.policies[i].version
                && r@[i].1@ == metadata_of(self@.policies[i]),
    {
        let mut out: Vec<(u64, Metadata)> = Vec::new();
        let n = self.policies.len();
        for i in 0..n
            invariant
                n == self.policies.len(),
                out@.len() == i,
                forall|k: int| 0 <= k < i ==> (#[trigger] out@[k]).0 == self@.policies[k].version
                    && out@[k].1@ == metadata_of(self@.policies[k]),
        {
            let p = &self.policies[i];
            let m = Metadata {
                attached: AttachedMetadata {
                    name: p.name.clone(),
                    description: p.description.clone(),
                    language: p.language.clone(),
                },
                created: p.created_at,
                creator: User { id: p.creator.clone(), name: placeholder_user_name() },
                version: p.version,
            };
            proof {
                assert(m@ =~~= metadata_of(self@.policies[i as int]));
            }
            out.push((p.version, m));
        }
        out
    }

    /// Returns the identity recorded as having activated the currently
    /// enforced version, if one is enforced.
    pub fn get_activator(&self) -> (r: Option<User>)
        ensures
            r is Some <==> spec_activator(self@.ledger) is Some,
            r matches Some(u) ==> spec_activator(self@.ledger) == Some(u@),
    {
        if self.ledger.len() == 0 {
            return None;
        }
        let last = &self.ledger[self.ledger.len() - 1];
        if last.deactivated_on.is_some() {
            None
        } else {
            let u = User {
                id: last.activated_by.clone(),
                name: placeholder_user_name(),
            };
            proof {
                assert(Some(u@) =~~= spec_activator(self@.ledger));
            }
            Some(u)
        }
    }

    /// Returns the derived metadata of `version`, or nothing when `version`
    /// was never issued.  An absent version is not an error.
    pub fn get_version_metadata(&self, version: u64) -> (r: Option<Metadata>)
        requires
            store_inv(self@),
        ensures
            r is Some <==> spec_version_metadata(self@, version) is Some,
            r matches Some(m) ==> spec_version_metadata(self@, version) == Some(m@),
    {
        if version >= 1 && version <= self.policies.len() as u64 {
            let idx = (version - 1) as usize;
            let p = &self.policies[idx];
            let m = Metadata {
                attached: AttachedMetadata {
                    name: p.name.clone(),
                    description: p.description.clone(),
                    language: p.language.clone(),
                },
                created: p.created_at,
                creator: User { id: p.creator.clone(), name: placeholder_user_name() },
                version: p.version,
            };
            proof {
                assert(Some(m@) =~~= spec_version_metadata(self@, version));
            }
            Some(m)
        } else {
            None
        }
    }

    /// Returns the stored content of `version`, or nothing when `version`
    /// was never issued.  An absent version is not an error.
    pub fn get_version_content(&self, version: u64) -> (r: Option<String>)
        requires
            store_inv(self@),
        ensures
            r is Some <==> spec_version_content(self@, version) is Some,
            r matches Some(c) ==> spec_version_content(self@, version) == Some(c@),
    {
        if version >= 1 && version <= self.policies.len() as u64 {
            let idx = (version - 1) as usize;
            Some(self.policies[idx].content.clone())
        } else {
            None
        }
    }
}

/// The failure type of the in-memory store, filling the connection
/// contract's failure slot.  The in-memory engine has no failure modes, so
/// no operation ever produces a value of it.
#[derive(Debug)]
pub enum StoreError {
    /// A failure of the backing engine; the in-memory engine never fails.
    Engine,
}

impl crate::dataconn::DatabaseConnection for PolicyStore {
    type Content = String;

    type Error = StoreError;

    open spec fn wf(&self) -> bool {
        store_inv(self@)
    }

    open spec fn can_add(&self) -> bool {
        self@.policies.len() < u64::MAX
    }

    open spec fn store(&self) -> StoreView {
        self@
    }

    open spec fn content_model(content: &String) -> Seq<char> {
        content@
    }

    fn add_version(&mut self, user: &User, metadata: AttachedMetadata, content: String) -> Result<
        u64,
        StoreError,
    > {
        let v = self.add_version(user, metadata.clone(), content.clone());
        proof {
            let now = choose|now: i64|
                self@ == spec_add_version(old(self)@, user@.id, metadata@, content@, now);
            assert(self.store() == spec_add_version(
                old(self).store(),
                user@.id,
                metadata@,
                Self::content_model(&content),
                now,
            ));
        }
        Ok(v)
    }

    fn activate(&mut self, user: &User, version: u64) -> Result<(), StoreError> {
        self.activate(user, version);
        proof {
            let now = choose|now: i64|
                self@ == spec_activate(old(self)@, user@.id, version, now);
            assert(self.store() == spec_activate(old(self).store(), user@.id, version, now));
        }
        Ok(())
    }

    fn deactivate(&mut self, user: &User) -> Result<(), StoreError> {
        self.deactivate(user);
        proof {
            let now = choose|now: i64| self@ == spec_deactivate(old(self)@, user@.id, now);
            assert(self.store() == spec_deactivate(old(self).store(), user@.id, now));
        }
        Ok(())
    }

    fn get_versions(&mut self) -> Result<Vec<(u64, Metadata)>, StoreError> {
        Ok(PolicyStore::get_versions(self))
    }

    fn get_active_version(&mut self) -> Result<Option<u64>, StoreError> {
        Ok(PolicyStore::get_active_version(self))
    }

    fn get_activator(&mut self) -> Result<Option<User>, StoreError> {
        Ok(PolicyStore::get_activator(self))
    }

    fn get_version_metadata(&mut self, version: u64) -> Result<Option<Metadata>, StoreError> {
        Ok(PolicyStore::get_version_metadata(self, version))
    }

    fn get_version_content(&mut self, version: u64) -> Result<Option<String>, StoreError> {
        Ok(PolicyStore::get_version_content(self, version))
    }
}

/// The version number a submission assigns, given the highest number
/// issued so far: one past it.  This is the decision a driver applies
/// inside its submission transaction, between loading the highest stored
/// version and inserting the new row; on a well-formed store the highest
/// number is the policy count, so this agrees with [`next_version`].
pub fn next_version_after(latest: u64) -> (v: u64)
    requires
        latest < u64::MAX,
    ensures
        v == latest + 1,
{
    latest + 1
}

/// The active version a driver derives from the ledger row with the
/// latest activation stamp, handed over as the row's version number and
/// whether the row is deactivated: the version when the row stands
/// undeactivated, nothing otherwise — the same derivation
/// [`spec_active_version`] prescribes for the row sequence.
pub fn derive_active_version(latest: Option<(u64, bool)>) -> (r: Option<u64>)
    ensures
        r == (match latest {
            Some((version, deactivated)) => if deactivated {
                None
            } else {
                Some(version)
            },
            None => None::<u64>,
        }),
        forall|ledger: Seq<ActivationRecordView>|
            ledger.len() > 0 && latest == Some::<(u64, bool)>(
                (ledger.last().version, ledger.last().deactivated_on is Some),
            ) ==> r == #[trigger] spec_active_version(ledger),
{
    match latest {
        Some((version, deactivated)) => if deactivated {
            None
        } else {
            Some(version)
        },
        None => None,
    }
}

/// Whether an activation is a no-op: the requested version is already the
/// active one, so no ledger row is to be appended.
pub fn activation_is_noop(active: Option<u64>, version: u64) -> (r: bool)
    ensures
        r == (active == Some(version)),
{
    match active {
        Some(v) => v == version,
        None => false,
    }
}

/// Whether some stored policy record carries version number `v`.
pub open spec fn version_issued(s: StoreView, v: u64) -> bool {
    exists|i: int| 0 <= i < s.policies.len() && (#[trigger] s.policies[i].version) == v
}

/// However many submissions the store has seen, and in whatever order their
/// transactions were sequenced, the issued version numbers are exactly
/// `1..=N` for `N` stored policies: each submission is assigned one more
/// than the highest number issued so far, and a number is issued for a
/// version if and only if it lies in `1..=N`.
pub proof fn lemma_version_numbers_dense(s: StoreView)
    requires
        store_inv(s),
    ensures
        s.policies.len() < u64::MAX ==> next_version(s) == s.policies.len() + 1,
        forall|v: u64| #[trigger] version_issued(s, v) <==> 1 <= v <= s.policies.len(),
{
    assert forall|v: u64| 1 <= v <= s.policies.len() implies #[trigger] version_issued(s, v) by {
        assert(s.policies[v - 1].version == v);
    }
}

/// A submission preserves the store invariant, extends the policy table by
/// exactly one record carrying the next version number, and leaves the
/// ledger untouched.
pub proof fn lemma_add_version_assigns_next(
    s: StoreView,
    uid: Seq<char>,
    meta: AttachedMetadataView,
    content: Seq<char>,
    now: i64,
)
    requires
        store_inv(s),
        s.policies.len() < u64::MAX,
    ensures
        store_inv(spec_add_version(s, uid, meta, content, now)),
        spec_add_version(s, uid, meta, content, now).policies.len() == s.policies.len() + 1,
        spec_add_version(s, uid, meta, content, now).policies.last().version == next_version(s),
        spec_add_version(s, uid, meta, content, now).ledger == s.ledger,
{
}

/// Activating the version that is already active changes nothing: no ledger
/// row is appended, and the active version stays what it was.
pub proof fn lemma_activate_active_is_noop(s: StoreView, uid: Seq<char>, version: u64, now: i64)
    requires
        spec_active_version(s.ledger) == Some(version),
    ensures
        spec_activate(s, uid, version, now) == s,
        spec_active_version(spec_activate(s, uid, version, now).ledger) == Some(version),
{
}

/// Deactivating when nothing is active changes nothing, and is not an
/// error.
pub proof fn lemma_deactivate_without_active_is_noop(s: StoreView, uid: Seq<char>, now: i64)
    requires
        spec_active_version(s.ledger) is None,
    ensures
        spec_deactivate(s, uid, now) == s,
{
}

/// What a submission stores is what reading the returned version yields:
/// the metadata comes back as attached (extended with the creator identity
/// and the creation stamp), and the content comes back unchanged.
pub proof fn lemma_add_version_round_trip(
    s: StoreView,
    uid: Seq<char>,
    meta: AttachedMetadataView,
    content: Seq<char>,
    now: i64,
)
    requires
        store_inv(s),
        s.policies.len() < u64::MAX,
    ensures
        spec_version_metadata(spec_add_version(s, uid, meta, content, now), next_version(s))
            == Some(MetadataView {
                attached: meta,
                created: now,
                creator: UserView { id: uid, name: placeholder_name() },
                version: next_version(s),
            }),
        spec_version_content(spec_add_version(s, uid, meta, content, now), next_version(s))
            == Some(content),
{
    let s2 = spec_add_version(s, uid, meta, content, now);
    let v = next_version(s);
    assert(s2.policies[v - 1] == new_policy_record(s, uid, meta, content, now));
    assert(metadata_of(s2.policies[v - 1]) =~~= MetadataView {
        attached: meta,
        created: now,
        creator: UserView { id: uid, name: placeholder_name() },
        version: v,
    });
}

/// Reading a never-issued version yields nothing, for metadata and content
/// alike; it is never an error.
pub proof fn lemma_absent_version_reads_empty(s: StoreView, version: u64)
    requires
        store_inv(s),
        version == 0 || version > s.policies.len(),
    ensures
        spec_version_metadata(s, version) is None,
        spec_version_content(s, version) is None,
{
}

/// Two activations, however their transactions were ordered, never leave
/// the active version ambiguous: the later-committed activation alone
/// determines it, whether or not it was a no-op.
pub proof fn lemma_activation_serializes(
    s: StoreView,
    uid1: Seq<char>,
    v1: u64,
    t1: i64,
    uid2: Seq<char>,
    v2: u64,
    t2: i64,
)
    requires
        store_inv(s),
    ensures
        store_inv(spec_activate(s, uid1, v1, t1)),
        spec_active_version(spec_activate(s, uid1, v1, t1).ledger) == Some(v1),
        spec_active_version(
            spec_activate(spec_activate(s, uid1, v1, t1), uid2, v2, t2).ledger,
        ) == Some(v2),
{
    let s1 = spec_activate(s, uid1, v1, t1);
    if spec_active_version(s.ledger) != Some(v1) {
        lemma_activate_preserves_inv(s, uid1, v1, t1);
    }
}

/// The ledger is append-only history.  A submission does not touch it; an
/// activation at most appends one row, never changing an existing one; a
/// deactivation at most amends the latest row, leaving every earlier row
/// and the row's own activation fields untouched, and a row once
/// deactivated is never amended again.
pub proof fn lemma_ledger_is_append_only(
    s: StoreView,
    uid: Seq<char>,
    meta: AttachedMetadataView,
    content: Seq<char>,
    version: u64,
    now: i64,
)
    ensures
        spec_add_version(s, uid, meta, content, now).ledger == s.ledger,
        spec_activate(s, uid, version, now).ledger.len() >= s.ledger.len(),
        forall|i: int| 0 <= i < s.ledger.len()
            ==> (#[trigger] spec_activate(s, uid, version, now).ledger[i]) == s.ledger[i],
        spec_deactivate(s, uid, now).ledger.len() == s.ledger.len(),
        forall|i: int| 0 <= i < s.ledger.len() - 1
            ==> (#[trigger] spec_deactivate(s, uid, now).ledger[i]) == s.ledger[i],
        s.ledger.len() > 0 ==> spec_deactivate(s, uid, now).ledger.last().version
            == s.ledger.last().version,
        s.ledger.len() > 0 ==> spec_deactivate(s, uid, now).ledger.last().activated_on
            == s.ledger.last().activated_on,
        s.ledger.len() > 0 ==> spec_deactivate(s, uid, now).ledger.last().activated_by
            == s.ledger.last().activated_by,
        s.ledger.len() > 0 && s.ledger.last().deactivated_on is Some
            ==> spec_deactivate(s, uid, now) == s,
{
}

/// An activation that appends a row keeps the activation stamps
/// non-decreasing, so the store invariant survives it.
pub proof fn lemma_activate_preserves_inv(s: StoreView, uid: Seq<char>, version: u64, now: i64)
    requires
        store_inv(s),
    ensures
        store_inv(spec_activate(s, uid, version, now)),
{
    let s2 = spec_activate(s, uid, version, now);
    if spec_active_version(s.ledger) != Some(version) {
        assert forall|i: int, j: int| 0 <= i <= j < s2.ledger.len() implies
            s2.ledger[i].activated_on <= s2.ledger[j].activated_on by {
            if j < s.ledger.len() {
                assert(s.ledger[i].activated_on <= s.ledger[j].activated_on);
            } else if i < s.ledger.len() {
                assert(s.ledger[i].activated_on <= s.ledger[s.ledger.len() - 1].activated_on);
            }
        }
    }
}

} // verus!
