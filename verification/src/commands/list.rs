//! The list command.

use crate::botmanager::BotManagerData;
use crate::commands::{
    field_views, name_of, Command, CommandOption, EmbedField, EmbedFieldView, OptionKind,
    Registration, Reply, ReplyView,
};
use crate::textgen::character::{CatalogEntryView, Entries};
use vstd::prelude::*;
use vstd::string::*;

verus! {

/// The most personas that one answer lists.
pub const LIST_LIMIT: usize = 26;

/// The field that stands for a persona: its name, and how to invite it
/// above its description.
pub open spec fn field_of(entry: CatalogEntryView) -> EmbedFieldView {
    EmbedFieldView {
        name: entry.character.char_name,
        value: "`/invite "@ + entry.id + "`\n"@ + entry.character.char_description,
        inline: true,
    }
}

/// Where the listing starts: at `start`, but not in front of the first
/// persona and not behind the last.
pub open spec fn first_listed(catalog: Entries, start: int) -> int {
    if start < 0 {
        0
    } else if start > catalog.len() {
        catalog.len() as int
    } else {
        start
    }
}

/// Where the listing ends: after [`LIST_LIMIT`] personas or with the catalog.
pub open spec fn end_listed(catalog: Entries, start: int) -> int {
    if first_listed(catalog, start) + LIST_LIMIT < catalog.len() {
        first_listed(catalog, start) + LIST_LIMIT
    } else {
        catalog.len() as int
    }
}

/// The fields of the answer: one for each persona from position `start` on,
/// in the catalog's order, at most [`LIST_LIMIT`] of them.
pub open spec fn listed(catalog: Entries, start: int) -> Seq<EmbedFieldView> {
    catalog.subrange(first_listed(catalog, start), end_listed(catalog, start)).map_values(
        |entry: CatalogEntryView| field_of(entry),
    )
}

/// What the command answers, given the catalog and the position it got.
pub open spec fn reply_for(catalog: Entries, start: Option<i64>) -> ReplyView {
    ReplyView::Embed {
        title: "Bot profile List"@,
        description: "Use `/invite` to invite one of these bots to the current channel!"@,
        image: None,
        fields: listed(
            catalog,
            match start {
                Some(position) => position as int,
                None => 0,
            },
        ),
    }
}

/// How the list command is registered: with the position to start from as
/// its one option, which may be left out.
pub fn register() -> (registration: Registration)
    ensures
        registration.name@ == name_of(Command::List),
        registration.description@ == "List registered bots"@,
        registration.option matches Some(option) && option.name@ == "page"@
            && option.description@ == "Which page of the list to display"@ && option.kind
            == OptionKind::Integer && !option.required,
{
    Registration {
        name: Command::List.name(),
        description: "List registered bots",
        option: Some(
            CommandOption {
                name: "page",
                description: "Which page of the list to display",
                kind: OptionKind::Integer,
                required: false,
            },
        ),
    }
}

/// Runs the list command with the position it was given, if any: the
/// personas of the catalog from that position on. Nothing is changed.
pub fn run(data: &BotManagerData, start: Option<i64>) -> (reply: Reply)
    ensures
        reply@ == reply_for(data.characters@, start),
{
    let ghost catalog = data.characters@;
    let ghost wanted: int = match start {
        Some(position) => position as int,
        None => 0,
    };
    let count = data.characters.len();
    let first: usize = match start {
        Some(position) => if position <= 0 {
            0
        } else if position as u64 > count as u64 {
            count
        } else {
            position as usize
        },
        None => 0,
    };
    let end: usize = if count - first > LIST_LIMIT {
        first + LIST_LIMIT
    } else {
        count
    };
    assert(first == first_listed(catalog, wanted));
    assert(end == end_listed(catalog, wanted));
    let mut fields: Vec<EmbedField> = Vec::new();
    let mut at: usize = first;
    while at < end
        invariant
            first <= at <= end <= count,
            count == catalog.len(),
            catalog == data.characters@,
            field_views(fields@) == catalog.subrange(first as int, at as int).map_values(
                |entry: CatalogEntryView| field_of(entry),
            ),
        decreases end - at,
    {
        let entry = data.characters.entry(at);
        let mut value = String::from_str("`/invite ");
        value.append(entry.id.as_str());
        value.append("`\n");
        value.append(entry.character.char_description.as_str());
        let ghost before = field_views(fields@);
        fields.push(EmbedField { name: entry.character.char_name.clone(), value, inline: true });
        at = at + 1;
        assert(field_views(fields@) =~= before.push(field_of(catalog[at - 1])));
        assert(catalog.subrange(first as int, at as int) =~= catalog.subrange(
            first as int,
            at - 1,
        ).push(catalog[at - 1]));
    }
    Reply::Embed {
        title: String::from_str("Bot profile List"),
        description: String::from_str(
            "Use `/invite` to invite one of these bots to the current channel!",
        ),
        image: None,
        fields,
    }
}

} // verus!
