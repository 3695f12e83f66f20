use vstd::prelude::*;

use crate::text::{copy_opt, opt_text, same_text};

verus! {

/// The name under which cargo's configuration knows crates.io.
pub open spec fn crates_io_registry() -> Seq<char> {
    seq!['c', 'r', 'a', 't', 'e', 's', '-', 'i', 'o']
}

/// The domain of crates.io, named where a dependency without a registry
/// of its own takes its version from.
pub open spec fn crates_io_domain() -> Seq<char> {
    seq!['c', 'r', 'a', 't', 'e', 's', '.', 'i', 'o']
}

/// `cargo::sources::CRATES_IO_REGISTRY`, which cargo's source defines as
/// `"crates-io"`.
#[verifier::external_body]
pub(crate) fn crates_io_registry_name() -> (s: String)
    ensures
        s@ == crates_io_registry(),
{
    cargo::sources::CRATES_IO_REGISTRY.to_string()
}

/// `cargo::sources::CRATES_IO_DOMAIN`, which cargo's source defines as
/// `"crates.io"`.
#[verifier::external_body]
pub(crate) fn crates_io_domain_name() -> (s: String)
    ensures
        s@ == crates_io_domain(),
{
    cargo::sources::CRATES_IO_DOMAIN.to_string()
}

/// The kinds of places that cargo fetches packages from.
#[derive(PartialEq, Eq, Structural, Clone, Copy, Debug)]
pub enum SourceKind {
    Git,
    Path,
    Registry,
    SparseRegistry,
    LocalRegistry,
    Directory,
}

/// Whether a source of this kind is a registry (remote, sparse or local).
pub open spec fn is_registry_kind(kind: SourceKind) -> bool {
    kind == SourceKind::Registry || kind == SourceKind::SparseRegistry || kind
        == SourceKind::LocalRegistry
}

/// A source of packages, as cargo identifies it.
///
/// `identity` is what cargo compares two sources of the same kind by: the
/// canonical URL and reference for git sources, the URL for the others.
pub struct SourceId {
    pub kind: SourceKind,
    pub identity: String,
    /// The URL of the source, as cargo writes it.
    pub url: String,
    /// The name that cargo shows for a registry.
    pub registry_name: String,
    /// Whether this is the crates.io index.
    pub is_crates_io: bool,
    /// The key under which the configuration names this registry, if any.
    pub alt_registry_key: Option<String>,
    /// How cargo prints the source.
    pub display: String,
}

pub struct SourceIdView {
    pub kind: SourceKind,
    pub identity: Seq<char>,
    pub url: Seq<char>,
    pub registry_name: Seq<char>,
    pub is_crates_io: bool,
    pub alt_registry_key: Option<Seq<char>>,
    pub display: Seq<char>,
}

impl View for SourceId {
    type V = SourceIdView;

    open spec fn view(&self) -> SourceIdView {
        SourceIdView {
            kind: self.kind,
            identity: self.identity@,
            url: self.url@,
            registry_name: self.registry_name@,
            is_crates_io: self.is_crates_io,
            alt_registry_key: opt_text(self.alt_registry_key),
            display: self.display@,
        }
    }
}

impl SourceIdView {
    /// Two sources are the same when their kinds and identities agree.
    pub open spec fn same_as(self, other: SourceIdView) -> bool {
        self.kind == other.kind && self.identity == other.identity
    }
}

impl SourceId {
    /// Whether `self` and `other` are the same source.
    pub fn same_source(&self, other: &SourceId) -> (b: bool)
        ensures
            b == self@.same_as(other@),
    {
        self.kind == other.kind && same_text(self.identity.as_str(), other.identity.as_str())
    }

    /// A copy with the same view.
    pub fn copied(&self) -> (r: SourceId)
        ensures
            r@ == self@,
    {
        SourceId {
            kind: self.kind,
            identity: self.identity.clone(),
            url: self.url.clone(),
            registry_name: self.registry_name.clone(),
            is_crates_io: self.is_crates_io,
            alt_registry_key: copy_opt(&self.alt_registry_key),
            display: self.display.clone(),
        }
    }
}

} // verus!
