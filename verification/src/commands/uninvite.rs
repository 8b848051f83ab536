//! The uninvite command.

use crate::botmanager::BotManagerData;
use crate::commands::{name_of, Command, Registration, Reply, ReplyView};
use crate::registry::unbound;
use vstd::prelude::*;
use vstd::string::*;

verus! {

/// What the command answers, given whether the channel had a binding.
pub open spec fn reply_for(existed: bool) -> ReplyView {
    if existed {
        ReplyView::Content("Bot uninvited!"@)
    } else {
        ReplyView::Content("There is no active bot in this channel!"@)
    }
}

/// What an uninvite did: its answer, and whether the channel had a binding,
/// which decides whether the channel's reply identity is to be torn down.
#[derive(Clone, Debug, PartialEq, Eq)]
pub struct Uninvited {
    pub reply: Reply,
    pub existed: bool,
}

/// How the uninvite command is registered: without options.
pub fn register() -> (registration: Registration)
    ensures
        registration.name@ == name_of(Command::Uninvite),
        registration.description@ == "Uninvite the current bot from this channel"@,
        registration.option is None,
{
    Registration {
        name: Command::Uninvite.name(),
        description: "Uninvite the current bot from this channel",
        option: None,
    }
}

/// Runs the uninvite command in `channel`: the channel's binding, if any, is
/// removed.
pub fn run(data: &mut BotManagerData, channel: u64) -> (done: Uninvited)
    ensures
        done.existed == old(data).invited_characters@.contains_key(channel),
        done.reply@ == reply_for(done.existed),
        final(data).invited_characters@ == unbound(old(data).invited_characters@, channel),
        final(data).characters@ == old(data).characters@,
        old(data).consistent() ==> final(data).consistent(),
{
    let existed = data.invited_characters.unbind(channel);
    let reply = if existed {
        Reply::Content(String::from_str("Bot uninvited!"))
    } else {
        Reply::Content(String::from_str("There is no active bot in this channel!"))
    };
    Uninvited { reply, existed }
}

} // verus!
