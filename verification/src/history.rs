//! The history extractor: from a channel's raw message log to the
//! conversation window that is fed into a prompt.

use crate::text::{contains, occurs_in};
use crate::textgen::api::{message_views, Message, MessageView};
use vstd::prelude::*;
use vstd::string::*;

verus! {

/// The sentinel text of a fence. A self-authored message that carries it hides
/// itself and everything older from the generation model.
pub const FENCE_MARKER: &'static str = "--- Message Fence ---";

/// How many of the newest messages are examined when nothing else is configured.
pub const DEFAULT_WINDOW_CAP: usize = 10;

/// One entry of a channel's message log, as the chat platform reports it.
#[derive(Clone, Debug, PartialEq, Eq)]
pub struct RawMessage {
    /// Display name of the author.
    pub speaker: String,
    /// The message text, already normalised by the platform layer.
    pub content: String,
    /// Whether the system's own account wrote the message.
    pub is_self: bool,
    /// Whether the text carries the fence marker.
    pub is_fence: bool,
}

/// The mathematical value of a [`RawMessage`].
pub struct RawMessageView {
    pub speaker: Seq<char>,
    pub content: Seq<char>,
    pub is_self: bool,
    pub is_fence: bool,
}

impl View for RawMessage {
    type V = RawMessageView;

    open spec fn view(&self) -> RawMessageView {
        RawMessageView {
            speaker: self.speaker@,
            content: self.content@,
            is_self: self.is_self,
            is_fence: self.is_fence,
        }
    }
}

/// The views of a message log, in the same order.
pub open spec fn raw_views(log: Seq<RawMessage>) -> Seq<RawMessageView> {
    log.map_values(|m: RawMessage| m@)
}

/// What the extractor is configured to do.
#[derive(Clone, Copy, Debug, PartialEq, Eq)]
pub struct HistoryPolicy {
    /// At most this many of the newest messages are examined.
    pub cap: usize,
    /// Whether a fence truncates the history.
    pub honor_fence: bool,
    /// Whether self-authored messages are left out of the window.
    pub drop_self: bool,
}

/// The message is a fence: self-authored and carrying the marker.
pub open spec fn is_fence(m: RawMessageView) -> bool {
    m.is_self && m.is_fence
}

/// The scan stops in front of this message.
pub open spec fn stops_scan(policy: HistoryPolicy, m: RawMessageView) -> bool {
    policy.honor_fence && is_fence(m)
}

/// An examined message makes it into the window.
pub open spec fn keeps(policy: HistoryPolicy, m: RawMessageView) -> bool {
    !(policy.drop_self && m.is_self) && m.content.len() > 0
}

/// The conversation turn that a log entry stands for.
pub open spec fn turn_of(m: RawMessageView) -> MessageView {
    MessageView { speaker: m.speaker, content: m.content }
}

/// How many messages of a newest-first log are examined: the scan ends at the
/// first fence, after `limit` messages, or with the log, whichever comes first.
pub open spec fn examined(log: Seq<RawMessageView>, policy: HistoryPolicy, limit: nat) -> nat
    decreases log.len(),
{
    if limit == 0 || log.len() == 0 || stops_scan(policy, log[0]) {
        0
    } else {
        1 + examined(log.drop_first(), policy, (limit - 1) as nat)
    }
}

/// The turns of the kept messages among `scanned`, oldest first.
pub open spec fn kept_turns(scanned: Seq<RawMessageView>, policy: HistoryPolicy) -> Seq<
    MessageView,
> {
    scanned.filter(|m: RawMessageView| keeps(policy, m)).map_values(
        |m: RawMessageView| turn_of(m),
    ).reverse()
}

/// The conversation window of a newest-first log: the kept messages among the
/// examined ones, oldest first.
pub open spec fn window_of(log: Seq<RawMessageView>, policy: HistoryPolicy) -> Seq<MessageView> {
    kept_turns(log.take(examined(log, policy, policy.cap as nat) as int), policy)
}

/// The scan examines exactly `end` messages when none of the first `end` stops
/// it and it cannot go further.
pub proof fn lemma_examined_is(
    log: Seq<RawMessageView>,
    policy: HistoryPolicy,
    limit: nat,
    end: nat,
)
    requires
        end <= log.len(),
        end <= limit,
        forall|j: int| 0 <= j < end ==> !stops_scan(policy, #[trigger] log[j]),
        end == limit || end == log.len() || stops_scan(policy, log[end as int]),
    ensures
        examined(log, policy, limit) == end,
    decreases end,
{
    if end > 0 {
        let rest = log.drop_first();
        assert forall|j: int| 0 <= j < end - 1 implies !stops_scan(policy, #[trigger] rest[j]) by {
            assert(rest[j] == log[j + 1]);
        }
        if end < log.len() {
            assert(rest[end - 1] == log[end as int]);
        }
        lemma_examined_is(rest, policy, (limit - 1) as nat, (end - 1) as nat);
    }
}

/// The scan never goes beyond the limit, the log, or a message that stops it.
pub proof fn lemma_examined_bounds(log: Seq<RawMessageView>, policy: HistoryPolicy, limit: nat)
    ensures
        examined(log, policy, limit) <= log.len(),
        examined(log, policy, limit) <= limit,
        forall|j: int|
            0 <= j < examined(log, policy, limit) ==> !stops_scan(policy, #[trigger] log[j]),
        examined(log, policy, limit) == limit || examined(log, policy, limit) == log.len()
            || stops_scan(policy, log[examined(log, policy, limit) as int]),
    decreases log.len(),
{
    if !(limit == 0 || log.len() == 0 || stops_scan(policy, log[0])) {
        let rest = log.drop_first();
        lemma_examined_bounds(rest, policy, (limit - 1) as nat);
        let n = examined(rest, policy, (limit - 1) as nat);
        assert forall|j: int| 0 <= j < n + 1 implies !stops_scan(policy, #[trigger] log[j]) by {
            if j > 0 {
                assert(rest[j - 1] == log[j]);
            }
        }
        if n < rest.len() {
            assert(rest[n as int] == log[n as int + 1]);
        }
    }
}

/// A fence hides itself and everything older, whatever the cap: the window of
/// a log with a fence at position `k` is the window of the `k` messages that
/// are newer than it.
pub proof fn lemma_fence_discards_older(log: Seq<RawMessageView>, policy: HistoryPolicy, k: int)
    requires
        policy.honor_fence,
        0 <= k < log.len(),
        is_fence(log[k]),
    ensures
        window_of(log, policy) == window_of(log.take(k), policy),
{
    let limit = policy.cap as nat;
    let newer = log.take(k);
    lemma_examined_bounds(log, policy, limit);
    let end = examined(log, policy, limit);
    assert(end <= k) by {
        if end > k {
            assert(!stops_scan(policy, log[k]));
        }
    }
    assert forall|j: int| 0 <= j < end implies !stops_scan(policy, #[trigger] newer[j]) by {
        assert(newer[j] == log[j]);
    }
    if end < k {
        assert(newer[end as int] == log[end as int]);
    }
    lemma_examined_is(newer, policy, limit, end);
    assert(newer.take(end as int) =~= log.take(end as int));
}

/// What is older than a fence does not matter: two logs that agree on the
/// messages newer than a fence which both hold at position `k` have the same
/// window, however the older history is ordered or filled.
pub proof fn lemma_older_history_is_irrelevant(
    first: Seq<RawMessageView>,
    second: Seq<RawMessageView>,
    policy: HistoryPolicy,
    k: int,
)
    requires
        policy.honor_fence,
        0 <= k < first.len(),
        0 <= k < second.len(),
        is_fence(first[k]),
        is_fence(second[k]),
        first.take(k) == second.take(k),
    ensures
        window_of(first, policy) == window_of(second, policy),
{
    lemma_fence_discards_older(first, policy, k);
    lemma_fence_discards_older(second, policy, k);
}

/// The window never holds more turns than the cap allows.
pub proof fn lemma_window_within_cap(log: Seq<RawMessageView>, policy: HistoryPolicy)
    ensures
        window_of(log, policy).len() <= policy.cap,
        window_of(log, policy).len() <= log.len(),
{
    lemma_examined_bounds(log, policy, policy.cap as nat);
    let scanned = log.take(examined(log, policy, policy.cap as nat) as int);
    scanned.lemma_filter_len(|m: RawMessageView| keeps(policy, m));
}

/// Every turn of the window stands for an examined message that is kept: one
/// with text, and not self-authored where the policy drops those.
pub proof fn lemma_window_turns_are_kept(log: Seq<RawMessageView>, policy: HistoryPolicy, i: int)
    requires
        0 <= i < window_of(log, policy).len(),
    ensures
        exists|j: int|
            0 <= j < examined(log, policy, policy.cap as nat) && keeps(policy, #[trigger] log[j])
                && window_of(log, policy)[i] == turn_of(log[j]),
{
    lemma_examined_bounds(log, policy, policy.cap as nat);
    let scanned = log.take(examined(log, policy, policy.cap as nat) as int);
    let pred = |m: RawMessageView| keeps(policy, m);
    let kept = scanned.filter(pred);
    let k = kept.len() - 1 - i;
    scanned.lemma_filter_pred(pred, k);
    assert(kept.contains(kept[k]));
    scanned.lemma_filter_contains_rev(pred, kept[k]);
    let j = choose|j: int| 0 <= j < scanned.len() && scanned[j] == kept[k];
    assert(log[j] == scanned[j]);
}

proof fn lemma_kept_turns_step(
    scanned: Seq<RawMessageView>,
    policy: HistoryPolicy,
    from: int,
    end: int,
)
    requires
        0 < from <= end <= scanned.len(),
    ensures
        kept_turns(scanned.subrange(from - 1, end), policy) == if keeps(policy, scanned[from - 1]) {
            kept_turns(scanned.subrange(from, end), policy).push(turn_of(scanned[from - 1]))
        } else {
            kept_turns(scanned.subrange(from, end), policy)
        },
{
    let pred = |m: RawMessageView| keeps(policy, m);
    let turn = |m: RawMessageView| turn_of(m);
    let head = seq![scanned[from - 1]];
    let tail = scanned.subrange(from, end);
    assert(scanned.subrange(from - 1, end) =~= head + tail);
    Seq::filter_distributes_over_add(head, tail, pred);
    assert(head.filter(pred) =~= if pred(head[0]) {
        head
    } else {
        Seq::empty()
    }) by {
        reveal_with_fuel(Seq::filter, 2);
        assert(head.drop_last() =~= Seq::<RawMessageView>::empty());
    }
    let kept_tail = tail.filter(pred);
    if pred(head[0]) {
        assert((head + kept_tail).map_values(turn).reverse() =~= kept_tail.map_values(
            turn,
        ).reverse().push(turn(head[0])));
    } else {
        assert(Seq::<RawMessageView>::empty() + kept_tail =~= kept_tail);
    }
}

impl RawMessage {
    /// A log entry with the given author and text; `is_fence` is set when the
    /// text carries [`FENCE_MARKER`].
    pub fn new(speaker: String, content: String, is_self: bool) -> (m: RawMessage)
        ensures
            m@ == (RawMessageView {
                speaker: speaker@,
                content: content@,
                is_self,
                is_fence: occurs_in(FENCE_MARKER@, content@),
            }),
    {
        let is_fence = contains(content.as_str(), FENCE_MARKER);
        RawMessage { speaker, content, is_self, is_fence }
    }
}

impl HistoryPolicy {
    /// The full policy: fences truncate and self-authored messages are dropped.
    pub fn canonical(cap: usize) -> (policy: HistoryPolicy)
        ensures
            policy == (HistoryPolicy { cap, honor_fence: true, drop_self: true }),
    {
        HistoryPolicy { cap, honor_fence: true, drop_self: true }
    }

    /// The reduced policy: nothing but the cap and the empty-text rule.
    pub fn plain(cap: usize) -> (policy: HistoryPolicy)
        ensures
            policy == (HistoryPolicy { cap, honor_fence: false, drop_self: false }),
    {
        HistoryPolicy { cap, honor_fence: false, drop_self: false }
    }
}

/// Extracts the conversation window from a newest-first message log.
///
/// The log is scanned from the newest message on. The scan ends in front of
/// the first fence, after `policy.cap` messages, or with the log. Of the
/// messages examined, self-authored ones and those with empty text are
/// dropped; the others come back oldest first.
pub fn extract_window(log: &Vec<RawMessage>, policy: &HistoryPolicy) -> (window: Vec<Message>)
    ensures
        message_views(window@) == window_of(raw_views(log@), *policy),
{
    let ghost views = raw_views(log@);
    let mut end: usize = 0;
    while end < log.len() && end < policy.cap && !(policy.honor_fence && log[end].is_self
        && log[end].is_fence)
        invariant
            end <= log.len(),
            end <= policy.cap,
            views == raw_views(log@),
            forall|j: int| 0 <= j < end ==> !stops_scan(*policy, #[trigger] views[j]),
        decreases log.len() - end,
    {
        end = end + 1;
    }
    proof {
        lemma_examined_is(views, *policy, policy.cap as nat, end as nat);
        assert(views.take(end as int) =~= views.subrange(0, end as int));
    }
    let mut window: Vec<Message> = Vec::new();
    let mut i: usize = end;
    assert(views.subrange(end as int, end as int) =~= Seq::<RawMessageView>::empty());
    assert(message_views(window@) =~= kept_turns(Seq::<RawMessageView>::empty(), *policy));
    while i > 0
        invariant
            i <= end <= log.len(),
            views == raw_views(log@),
            message_views(window@) == kept_turns(views.subrange(i as int, end as int), *policy),
        decreases i,
    {
        proof {
            lemma_kept_turns_step(views, *policy, i as int, end as int);
        }
        i = i - 1;
        let entry = &log[i];
        if !(policy.drop_self && entry.is_self) && !entry.content.as_str().is_empty() {
            let ghost before = message_views(window@);
            window.push(Message { speaker: entry.speaker.clone(), content: entry.content.clone() });
            assert(message_views(window@) =~= before.push(turn_of(views[i as int])));
        }
    }
    window
}

} // verus!
