//! The invite command.

use crate::botmanager::BotManagerData;
use crate::commands::{
    name_of, optional_text, Command, CommandOption, EmbedField, EmbedFieldView, OptionKind,
    Registration, Reply, ReplyView,
};
use crate::registry::{bound, Bindings};
use crate::textgen::character::{persona_of, Entries};
use vstd::prelude::*;
use vstd::string::*;

verus! {

/// What the command answers, given the catalog and the persona id it got.
pub open spec fn reply_for(catalog: Entries, id: Option<Seq<char>>) -> ReplyView {
    match id {
        None => ReplyView::Content("Expected bot ID!"@),
        Some(id) => match persona_of(catalog, id) {
            Some(persona) => ReplyView::Embed {
                title: "Bot invited!"@,
                description: persona.char_name + " will now respond in this channel!"@,
                image: Some(persona.avatar_url),
                fields: Seq::<EmbedFieldView>::empty(),
            },
            None => ReplyView::Content("The selected bot ID doesn't exist!"@),
        },
    }
}

/// The binding table after the command: the channel is bound to the persona
/// where the id resolves in the catalog, and nothing changes where it does not.
pub open spec fn bindings_after(
    catalog: Entries,
    table: Bindings,
    channel: u64,
    id: Option<Seq<char>>,
) -> Bindings {
    match id {
        Some(id) if persona_of(catalog, id) is Some => bound(table, channel, id),
        _ => table,
    }
}

/// How the invite command is registered: with the persona id as its one,
/// required, option.
pub fn register() -> (registration: Registration)
    ensures
        registration.name@ == name_of(Command::Invite),
        registration.description@ == "Invite a bot to this channel"@,
        registration.option matches Some(option) && option.name@ == "id"@
            && option.description@ == "The bot's ID"@ && option.kind == OptionKind::Text
            && option.required,
{
    Registration {
        name: Command::Invite.name(),
        description: "Invite a bot to this channel",
        option: Some(
            CommandOption {
                name: "id",
                description: "The bot's ID",
                kind: OptionKind::Text,
                required: true,
            },
        ),
    }
}

/// Runs the invite command in `channel` with the persona id it was given, if
/// any. An id that resolves in the catalog is bound to the channel, in place
/// of whatever was bound before; the catalog is only read.
pub fn run(data: &mut BotManagerData, channel: u64, id: Option<&str>) -> (reply: Reply)
    ensures
        reply@ == reply_for(old(data).characters@, optional_text(id)),
        final(data).invited_characters@ == bindings_after(
            old(data).characters@,
            old(data).invited_characters@,
            channel,
            optional_text(id),
        ),
        final(data).characters@ == old(data).characters@,
        old(data).consistent() ==> final(data).consistent(),
{
    let id = match id {
        Some(id) => id,
        None => {
            return Reply::Content(String::from_str("Expected bot ID!"));
        },
    };
    let reply = match data.characters.get(id) {
        Some(persona) => {
            let mut description = persona.char_name.clone();
            description.append(" will now respond in this channel!");
            Reply::Embed {
                title: String::from_str("Bot invited!"),
                description,
                image: Some(persona.avatar_url.clone()),
                fields: Vec::new(),
            }
        },
        None => {
            return Reply::Content(String::from_str("The selected bot ID doesn't exist!"));
        },
    };
    data.invited_characters.bind(channel, String::from_str(id));
    assert(reply@ == reply_for(old(data).characters@, Some(id@))) by {
        assert(reply->Embed_fields@.map_values(|f: EmbedField| f@)
            =~= Seq::<EmbedFieldView>::empty());
    }
    reply
}

} // verus!
