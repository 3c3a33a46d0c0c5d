//! Publication of device blueprint drafts as immutable, numbered revisions.
use vstd::prelude::*;
use crate::json::{json_eq, json_view, Json};
use crate::text::str_equal;
use crate::time::same_instant;
use chrono::NaiveDateTime;

verus! {

/// The newest published revision of a blueprint.
pub struct PublishedRevision<'a> {
    pub id: &'a str,
    pub document_hash: &'a str,
    pub document: &'a Json,
}

/// What an adapter read, under the blueprint and draft row locks, about one
/// publication request, and what the request expects to find.
pub struct PublishFacts<'a> {
    pub blueprint_found: bool,
    /// The draft's last update and document, when the blueprint has a draft.
    pub draft: Option<(NaiveDateTime, &'a Json)>,
    pub expected_draft_updated_at: NaiveDateTime,
    pub document: &'a Json,
    pub document_hash: &'a str,
    pub latest: Option<PublishedRevision<'a>>,
    pub expected_previous_revision_id: Option<&'a str>,
    /// One more than the highest revision number, or 1 for the first revision.
    pub next_revision: i64,
}

/// The decision on a publication request.
#[derive(Debug, Clone, Copy, PartialEq, Eq, Structural)]
pub enum PublishDecision {
    BlueprintNotFound,
    /// The draft was edited after the caller read it.
    DraftChanged,
    /// The newest revision already holds this document; it is the answer.
    AlreadyPublished,
    /// Another revision was published after the caller read the blueprint.
    PublicationChanged,
    /// A new revision with this number is inserted.
    Publish { revision: i32 },
    /// The next revision number does not fit the revision column.
    RevisionOutOfRange,
}

/// The draft is still the one the caller read: same update instant and document.
pub open spec fn draft_unchanged(facts: PublishFacts) -> bool {
    facts.draft matches Some((at, doc)) && at == facts.expected_draft_updated_at
        && json_view(*doc) == json_view(*facts.document)
}

/// The newest revision already holds the requested document and hash.
pub open spec fn latest_matches(facts: PublishFacts) -> bool {
    facts.latest matches Some(l) && l.document_hash@ == facts.document_hash@ && json_view(
        *l.document,
    ) == json_view(*facts.document)
}

/// The newest revision is the one the caller expected to follow.
pub open spec fn previous_as_expected(facts: PublishFacts) -> bool {
    match (facts.latest, facts.expected_previous_revision_id) {
        (None, None) => true,
        (Some(l), Some(e)) => l.id@ == e@,
        _ => false,
    }
}

/// A missing blueprint or draft is `BlueprintNotFound`; an edited draft is
/// `DraftChanged`; republishing the newest revision's document is answered
/// by that revision; a newer revision than expected is `PublicationChanged`;
/// otherwise the next revision number is used when it fits an `i32`.
pub open spec fn publish_decision(facts: PublishFacts) -> PublishDecision {
    if !facts.blueprint_found || facts.draft is None {
        PublishDecision::BlueprintNotFound
    } else if !draft_unchanged(facts) {
        PublishDecision::DraftChanged
    } else if latest_matches(facts) {
        PublishDecision::AlreadyPublished
    } else if !previous_as_expected(facts) {
        PublishDecision::PublicationChanged
    } else if i32::MIN <= facts.next_revision <= i32::MAX {
        PublishDecision::Publish { revision: facts.next_revision as i32 }
    } else {
        PublishDecision::RevisionOutOfRange
    }
}

/// Decides a publication request.
pub fn decide_publication(facts: &PublishFacts) -> (r: PublishDecision)
    ensures
        r == publish_decision(*facts),
{
    if !facts.blueprint_found {
        return PublishDecision::BlueprintNotFound;
    }
    let (updated_at, draft_document) = match &facts.draft {
        Some(d) => *d,
        None => return PublishDecision::BlueprintNotFound,
    };
    if !same_instant(&updated_at, &facts.expected_draft_updated_at) || !json_eq(
        draft_document,
        facts.document,
    ) {
        return PublishDecision::DraftChanged;
    }
    match &facts.latest {
        Some(l) => {
            if str_equal(l.document_hash, facts.document_hash) && json_eq(l.document, facts.document) {
                return PublishDecision::AlreadyPublished;
            }
        },
        None => {},
    }
    let expected = match (&facts.latest, facts.expected_previous_revision_id) {
        (None, None) => true,
        (Some(l), Some(e)) => str_equal(l.id, e),
        _ => false,
    };
    if !expected {
        return PublishDecision::PublicationChanged;
    }
    if i32::MIN as i64 <= facts.next_revision && facts.next_revision <= i32::MAX as i64 {
        PublishDecision::Publish { revision: facts.next_revision as i32 }
    } else {
        PublishDecision::RevisionOutOfRange
    }
}

/// Law: publication is idempotent: once the newest revision holds a document,
/// publishing the same document from the unchanged draft again inserts no
/// revision, whatever previous revision the request names.
pub proof fn lemma_republishing_is_idempotent(facts: PublishFacts)
    requires
        facts.blueprint_found,
        draft_unchanged(facts),
        latest_matches(facts),
    ensures
        publish_decision(facts) == PublishDecision::AlreadyPublished,
{
}

/// Law: a revision is published only when the newest revision is the one
/// the request names as its predecessor (both absent, or the same
/// identifier), and only from the draft the caller read.
pub proof fn lemma_publish_follows_expected_revision(facts: PublishFacts)
    requires
        publish_decision(facts) is Publish,
    ensures
        (facts.latest is None && facts.expected_previous_revision_id is None) || (
        facts.latest is Some && facts.expected_previous_revision_id is Some
            && facts.latest->0.id@ == facts.expected_previous_revision_id->0@),
        facts.blueprint_found,
        facts.draft matches Some((at, doc)) && at == facts.expected_draft_updated_at && json_view(
            *doc,
        ) == json_view(*facts.document),
{
}

/// Law: a new revision is only inserted on top of the revision the caller
/// expected, from the draft the caller read.
pub proof fn lemma_publication_is_optimistic(facts: PublishFacts)
    requires
        publish_decision(facts) is Publish,
    ensures
        facts.blueprint_found,
        draft_unchanged(facts),
        previous_as_expected(facts),
        !latest_matches(facts),
{
}

} // verus!
