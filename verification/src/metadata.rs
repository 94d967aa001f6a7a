//! Identities and the metadata attached to every policy version.

use vstd::prelude::*;

verus! {

/// The display name attached to every identity the service reads back out
/// of a stored record or a verified token: only the identifier is ever
/// persisted or derived, so the name is a fixed placeholder.
pub open spec fn placeholder_name() -> Seq<char> {
    "John Smith"@
}

/// The placeholder display name, executably.
pub fn placeholder_user_name() -> (s: String)
    ensures
        s@ == placeholder_name(),
{
    String::from_str("John Smith")
}

/// The identity on whose behalf an operation runs.  Stored denormalized on
/// every mutation for audit attribution.
#[derive(Debug)]
pub struct User {
    /// Machine-facing identifier.
    pub id: String,
    /// Human-facing display name.
    pub name: String,
}

/// Mathematical model of a [`User`]: both fields as character sequences.
#[verifier::ext_equal]
pub struct UserView {
    pub id: Seq<char>,
    pub name: Seq<char>,
}

impl View for User {
    type V = UserView;

    open spec fn view(&self) -> UserView {
        UserView { id: self.id@, name: self.name@ }
    }
}

impl Clone for User {
    fn clone(&self) -> (r: Self)
        ensures
            r@ == self@,
    {
        User { id: self.id.clone(), name: self.name.clone() }
    }
}

/// Metadata supplied by the caller when submitting a policy version.  None of
/// the fields has to be unique.
#[derive(Debug)]
pub struct AttachedMetadata {
    /// A name for recognising the policy later.
    pub name: String,
    /// A free-text description.
    pub description: String,
    /// The language the policy content is written in.
    pub language: String,
}

/// Mathematical model of [`AttachedMetadata`].
#[verifier::ext_equal]
pub struct AttachedMetadataView {
    pub name: Seq<char>,
    pub description: Seq<char>,
    pub language: Seq<char>,
}

impl View for AttachedMetadata {
    type V = AttachedMetadataView;

    open spec fn view(&self) -> AttachedMetadataView {
        AttachedMetadataView {
            name: self.name@,
            description: self.description@,
            language: self.language@,
        }
    }
}

impl Clone for AttachedMetadata {
    fn clone(&self) -> (r: Self)
        ensures
            r@ == self@,
    {
        AttachedMetadata {
            name: self.name.clone(),
            description: self.description.clone(),
            language: self.language.clone(),
        }
    }
}

/// Everything the store knows about one policy version: what the caller
/// attached plus what the store inferred when the version was created.
#[derive(Debug)]
pub struct Metadata {
    /// Whatever the caller attached on submission.
    pub attached: AttachedMetadata,
    /// Creation time, in microseconds since the Unix epoch (UTC).
    pub created: i64,
    /// Who submitted the version.
    pub creator: User,
    /// The ledger-assigned version number.
    pub version: u64,
}

/// Mathematical model of [`Metadata`].
#[verifier::ext_equal]
pub struct MetadataView {
    pub attached: AttachedMetadataView,
    pub created: i64,
    pub creator: UserView,
    pub version: u64,
}

impl View for Metadata {
    type V = MetadataView;

    open spec fn view(&self) -> MetadataView {
        MetadataView {
            attached: self.attached@,
            created: self.created,
            creator: self.creator@,
            version: self.version,
        }
    }
}

impl Clone for Metadata {
    fn clone(&self) -> (r: Self)
        ensures
            r@ == self@,
    {
        Metadata {
            attached: self.attached.clone(),
            created: self.created,
            creator: self.creator.clone(),
            version: self.version,
        }
    }
}

} // verus!
