//! The fence command.

use crate::commands::{name_of, Command, Registration, Reply, ReplyView};
use crate::history::FENCE_MARKER;
use crate::text::occurs_in;
use vstd::prelude::*;
use vstd::string::*;

verus! {

/// The text of the message that puts a fence into a channel.
pub const FENCE_TEXT: &'static str =
    "--- Message Fence ---\nBots won't see any messages above this one!";

/// The text of a fence carries the marker, so a fence that the system's own
/// account posts is recognised when the history is scanned.
pub proof fn lemma_fence_text_carries_marker()
    ensures
        occurs_in(FENCE_MARKER@, FENCE_TEXT@),
{
    reveal_strlit("--- Message Fence ---");
    reveal_strlit("--- Message Fence ---\nBots won't see any messages above this one!");
    assert(FENCE_TEXT@.subrange(0, 0 + FENCE_MARKER@.len() as int) =~= FENCE_MARKER@);
    assert(crate::text::occurs_at(FENCE_MARKER@, FENCE_TEXT@, 0));
}

/// How the fence command is registered: without options.
pub fn register() -> (registration: Registration)
    ensures
        registration.name@ == name_of(Command::Fence),
        registration.description@
            == "Create a fence - Bots won't see any messages on the other side of the fence"@,
        registration.option is None,
{
    Registration {
        name: Command::Fence.name(),
        description: "Create a fence - Bots won't see any messages on the other side of the fence",
        option: None,
    }
}

/// Answers the fence command: the fence itself.
pub fn run() -> (reply: Reply)
    ensures
        reply@ == ReplyView::Content(FENCE_TEXT@),
{
    Reply::Content(String::from_str(FENCE_TEXT))
}

} // verus!
