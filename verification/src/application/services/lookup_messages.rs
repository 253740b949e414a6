//! The messages with which the services report that an artifact, or the
//! entry of an author and name, could not be found.

use vstd::prelude::*;
use crate::text::{framed, prefixed, uuid_string, uuid_text};

verus! {

pub open spec fn artifact_missing_text(artifact_id: u128) -> Seq<char> {
    "Artifact with id "@ + uuid_text(artifact_id) + " does not exist"@
}

/// What kind of entry could not be found by author and name.
#[derive(Clone, Copy, Debug, PartialEq, Eq, Structural)]
pub enum EntryKind {
    Model,
    Metadata,
}

pub open spec fn entry_kind_text(kind: EntryKind) -> Seq<char> {
    match kind {
        EntryKind::Model => "model"@,
        EntryKind::Metadata => "metadata"@,
    }
}

pub open spec fn entry_missing_text(kind: EntryKind, author: Seq<char>, name: Seq<char>) -> Seq<
    char,
> {
    "No "@ + entry_kind_text(kind) + " found with author "@ + author + " and name "@ + name
}

/// "Artifact with id ... does not exist".
pub fn artifact_missing(artifact_id: u128) -> (m: String)
    ensures
        m@ == artifact_missing_text(artifact_id),
{
    let id = uuid_string(artifact_id);
    framed("Artifact with id ", id.as_str(), " does not exist")
}

/// "No model found with author ... and name ...", or the same of metadata.
pub fn entry_missing(kind: EntryKind, author: &String, name: &String) -> (m: String)
    ensures
        m@ == entry_missing_text(kind, author@, name@),
{
    let head = match kind {
        EntryKind::Model => "No model found with author ",
        EntryKind::Metadata => "No metadata found with author ",
    };
    proof {
        reveal_strlit("No model found with author ");
        reveal_strlit("No metadata found with author ");
        reveal_strlit("No ");
        reveal_strlit("model");
        reveal_strlit("metadata");
        reveal_strlit(" found with author ");
    }
    let with_author = framed(head, author.as_str(), " and name ");
    let m = prefixed(with_author.as_str(), name.as_str());
    assert(m@ =~= entry_missing_text(kind, author@, name@));
    m
}

} // verus!
