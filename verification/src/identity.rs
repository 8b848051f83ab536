//! Identity delivery: the per-channel reply identity under which a persona's
//! replies are posted.
//!
//! The identities of a channel live on the chat platform. The functions here
//! decide, from a listing of them, what is to be done; the caller does it. The
//! canonical identity of a channel is found by its well-known name, never by
//! a remembered id.

use crate::botmanager::BotManager;
use vstd::prelude::*;
use vstd::string::*;

verus! {

/// The well-known name of the reply identity.
pub const IDENTITY_NAME: &'static str = "Uc207_Bot";

/// A delivery handle of a channel, as the platform lists it.
#[derive(Clone, Debug, PartialEq, Eq)]
pub struct ReplyIdentity {
    pub id: u64,
    /// The handle's name; empty where the platform gives none.
    pub name: String,
}

/// The mathematical value of a [`ReplyIdentity`].
pub struct ReplyIdentityView {
    pub id: u64,
    pub name: Seq<char>,
}

impl View for ReplyIdentity {
    type V = ReplyIdentityView;

    open spec fn view(&self) -> ReplyIdentityView {
        ReplyIdentityView { id: self.id, name: self.name@ }
    }
}

/// The views of a listing of identities, in the same order.
pub open spec fn identity_views(listing: Seq<ReplyIdentity>) -> Seq<ReplyIdentityView> {
    listing.map_values(|i: ReplyIdentity| i@)
}

/// The identity carries the well-known name.
pub open spec fn is_canonical(identity: ReplyIdentityView) -> bool {
    identity.name == IDENTITY_NAME@
}

/// The position of the first identity of the well-known name in a listing, or
/// the length of the listing where there is none.
pub open spec fn first_canonical(listing: Seq<ReplyIdentityView>) -> nat
    decreases listing.len(),
{
    if listing.len() == 0 || is_canonical(listing[0]) {
        0
    } else {
        1 + first_canonical(listing.drop_first())
    }
}

/// The state of identity delivery for a channel with this listing: `true` is
/// present, `false` is absent.
pub open spec fn identity_present(listing: Seq<ReplyIdentityView>) -> bool {
    first_canonical(listing) < listing.len()
}

/// The id of the channel's reply identity: that of the first identity of the
/// well-known name, or `None` where the state is absent.
pub open spec fn canonical_id(listing: Seq<ReplyIdentityView>) -> Option<u64> {
    if identity_present(listing) {
        Some(listing[first_canonical(listing) as int].id)
    } else {
        None
    }
}

/// At most one identity of the listing carries the well-known name.
pub open spec fn at_most_one_canonical(listing: Seq<ReplyIdentityView>) -> bool {
    forall|i: int, j: int|
        0 <= i < listing.len() && 0 <= j < listing.len() && is_canonical(#[trigger] listing[i])
            && is_canonical(#[trigger] listing[j]) ==> i == j
}

/// The listing after the platform has deleted the identities with this id.
pub open spec fn without_id(listing: Seq<ReplyIdentityView>, id: u64) -> Seq<ReplyIdentityView> {
    listing.filter(|i: ReplyIdentityView| i.id != id)
}

/// The listing after the platform has created an identity of this name.
pub open spec fn with_created(
    listing: Seq<ReplyIdentityView>,
    id: u64,
    name: Seq<char>,
) -> Seq<ReplyIdentityView> {
    listing.push(ReplyIdentityView { id, name })
}

/// What is to be done so that the channel has its reply identity.
#[derive(Clone, Copy, Debug, PartialEq, Eq, Structural)]
pub enum EnsureIdentity {
    /// The identity exists: post through the one with this id.
    Use(u64),
    /// No identity of the well-known name exists: create one under
    /// [`IDENTITY_NAME`].
    Create,
}

/// The listing after a teardown was carried out on it.
pub open spec fn after_teardown(listing: Seq<ReplyIdentityView>) -> Seq<ReplyIdentityView> {
    match canonical_id(listing) {
        Some(id) => without_id(listing, id),
        None => listing,
    }
}

/// What `first_canonical` returns: a position within bounds or the length,
/// with no identity of the well-known name in front of it.
pub proof fn lemma_first_canonical_bounds(listing: Seq<ReplyIdentityView>)
    ensures
        first_canonical(listing) <= listing.len(),
        forall|j: int| 0 <= j < first_canonical(listing) ==> !is_canonical(#[trigger] listing[j]),
        first_canonical(listing) < listing.len() ==> is_canonical(
            listing[first_canonical(listing) as int],
        ),
    decreases listing.len(),
{
    if !(listing.len() == 0 || is_canonical(listing[0])) {
        let rest = listing.drop_first();
        lemma_first_canonical_bounds(rest);
        let n = first_canonical(rest);
        assert forall|j: int| 0 <= j < n + 1 implies !is_canonical(#[trigger] listing[j]) by {
            if j > 0 {
                assert(rest[j - 1] == listing[j]);
            }
        }
        if n < rest.len() {
            assert(rest[n as int] == listing[n as int + 1]);
        }
    }
}

/// `first_canonical` is `at` when nothing in front of `at` carries the
/// well-known name and `at` is the end or carries it.
pub proof fn lemma_first_canonical_is(listing: Seq<ReplyIdentityView>, at: nat)
    requires
        at <= listing.len(),
        forall|j: int| 0 <= j < at ==> !is_canonical(#[trigger] listing[j]),
        at == listing.len() || is_canonical(listing[at as int]),
    ensures
        first_canonical(listing) == at,
    decreases at,
{
    if at > 0 {
        let rest = listing.drop_first();
        assert forall|j: int| 0 <= j < at - 1 implies !is_canonical(#[trigger] rest[j]) by {
            assert(rest[j] == listing[j + 1]);
        }
        if at < listing.len() {
            assert(rest[at - 1] == listing[at as int]);
        }
        lemma_first_canonical_is(rest, (at - 1) as nat);
    }
}

/// The state is present exactly when some identity of the listing carries the
/// well-known name.
pub proof fn lemma_present_iff_some_canonical(listing: Seq<ReplyIdentityView>)
    ensures
        identity_present(listing) <==> exists|i: int|
            0 <= i < listing.len() && is_canonical(#[trigger] listing[i]),
{
    lemma_first_canonical_bounds(listing);
    if identity_present(listing) {
        assert(is_canonical(listing[first_canonical(listing) as int]));
    }
}

/// Teardown leaves the state absent: where a channel has at most one identity
/// of the well-known name, none is left once the platform has deleted the one
/// that the teardown names.
pub proof fn lemma_teardown_leaves_absent(listing: Seq<ReplyIdentityView>)
    requires
        at_most_one_canonical(listing),
    ensures
        !identity_present(after_teardown(listing)),
{
    lemma_first_canonical_bounds(listing);
    let after = after_teardown(listing);
    lemma_present_iff_some_canonical(after);
    if identity_present(listing) {
        let at = first_canonical(listing) as int;
        let id = listing[at].id;
        let pred = |i: ReplyIdentityView| i.id != id;
        assert forall|k: int| 0 <= k < after.len() implies !is_canonical(#[trigger] after[k]) by {
            listing.lemma_filter_pred(pred, k);
            assert(listing.filter(pred).contains(after[k]));
            listing.lemma_filter_contains_rev(pred, after[k]);
            let j = choose|j: int| 0 <= j < listing.len() && listing[j] == after[k];
            if is_canonical(listing[j]) {
                assert(j == at);
            }
        }
    }
}

/// Creating the identity leaves the state present.
pub proof fn lemma_creation_leaves_present(listing: Seq<ReplyIdentityView>, id: u64)
    ensures
        identity_present(with_created(listing, id, IDENTITY_NAME@)),
{
    let after = with_created(listing, id, IDENTITY_NAME@);
    lemma_present_iff_some_canonical(after);
    assert(is_canonical(after[listing.len() as int]));
}

/// Get-or-create keeps the identity single: where a channel has at most one
/// identity of the well-known name, it still has at most one after an identity
/// was created because none was found.
pub proof fn lemma_creation_keeps_one(listing: Seq<ReplyIdentityView>, id: u64)
    requires
        at_most_one_canonical(listing),
        canonical_id(listing) is None,
    ensures
        at_most_one_canonical(with_created(listing, id, IDENTITY_NAME@)),
        canonical_id(with_created(listing, id, IDENTITY_NAME@)) == Some(id),
{
    let after = with_created(listing, id, IDENTITY_NAME@);
    lemma_first_canonical_bounds(listing);
    assert forall|j: int| 0 <= j < listing.len() implies !is_canonical(#[trigger] after[j]) by {
        assert(after[j] == listing[j]);
    }
    lemma_first_canonical_is(after, listing.len());
}

impl BotManager {
    /// The id of the channel's reply identity in a listing: the first identity of
    /// the well-known name.
    fn get_webhook(listing: &Vec<ReplyIdentity>) -> (found: Option<u64>)
        ensures
            found == canonical_id(identity_views(listing@)),
    {
        let wanted = String::from_str(IDENTITY_NAME);
        let ghost views = identity_views(listing@);
        let mut at: usize = 0;
        while at < listing.len() && !(listing[at].name == wanted)
            invariant
                at <= listing.len(),
                wanted@ == IDENTITY_NAME@,
                views == identity_views(listing@),
                forall|j: int| 0 <= j < at ==> !is_canonical(#[trigger] views[j]),
            decreases listing.len() - at,
        {
            at = at + 1;
        }
        proof {
            lemma_first_canonical_is(views, at as nat);
        }
        if at < listing.len() {
            Some(listing[at].id)
        } else {
            None
        }
    }

    /// Get-or-create: what is to be done so that the channel has its reply
    /// identity, given the listing of its identities.
    pub fn ensure_webhook(listing: &Vec<ReplyIdentity>) -> (step: EnsureIdentity)
        ensures
            step == match canonical_id(identity_views(listing@)) {
                Some(id) => EnsureIdentity::Use(id),
                None => EnsureIdentity::Create,
            },
    {
        match BotManager::get_webhook(listing) {
            Some(id) => EnsureIdentity::Use(id),
            None => EnsureIdentity::Create,
        }
    }

    /// Teardown: the id of the identity that is to be deleted, given the listing
    /// of the channel's identities; `None` where the state is absent already.
    pub fn delete_webhook(listing: &Vec<ReplyIdentity>) -> (target: Option<u64>)
        ensures
            target == canonical_id(identity_views(listing@)),
            match target {
                Some(id) => after_teardown(identity_views(listing@)) == without_id(
                    identity_views(listing@),
                    id,
                ),
                None => after_teardown(identity_views(listing@)) == identity_views(listing@),
            },
    {
        BotManager::get_webhook(listing)
    }
}

} // verus!
