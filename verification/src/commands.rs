//! The command layer: what each command does to the engine's state and what
//! it answers. Registering the commands with the chat platform and reading
//! their options is left to the caller.

pub mod fence;
pub mod invite;
pub mod list;
pub mod uninvite;

use vstd::prelude::*;
use vstd::string::*;

verus! {

/// The commands that the engine knows.
#[derive(Clone, Copy, Debug, PartialEq, Eq, Structural)]
pub enum Command {
    /// Bind a persona to the channel.
    Invite,
    /// Remove the channel's binding and tear its reply identity down.
    Uninvite,
    /// Enumerate the catalog.
    List,
    /// Put a fence into the channel.
    Fence,
}

/// What kind of value an option of a command takes.
#[derive(Clone, Copy, Debug, PartialEq, Eq, Structural)]
pub enum OptionKind {
    Text,
    Integer,
}

/// An option of a command, as it is registered with the chat platform.
#[derive(Clone, Debug, PartialEq, Eq)]
pub struct CommandOption {
    pub name: &'static str,
    pub description: &'static str,
    pub kind: OptionKind,
    pub required: bool,
}

/// A command as it is registered with the chat platform.
#[derive(Clone, Debug, PartialEq, Eq)]
pub struct Registration {
    pub name: &'static str,
    pub description: &'static str,
    pub option: Option<CommandOption>,
}

/// One field of an embed.
#[derive(Clone, Debug, PartialEq, Eq)]
pub struct EmbedField {
    pub name: String,
    pub value: String,
    pub inline: bool,
}

/// The mathematical value of an [`EmbedField`].
pub struct EmbedFieldView {
    pub name: Seq<char>,
    pub value: Seq<char>,
    pub inline: bool,
}

impl View for EmbedField {
    type V = EmbedFieldView;

    open spec fn view(&self) -> EmbedFieldView {
        EmbedFieldView { name: self.name@, value: self.value@, inline: self.inline }
    }
}

/// The views of a list of fields, in the same order.
pub open spec fn field_views(fields: Seq<EmbedField>) -> Seq<EmbedFieldView> {
    fields.map_values(|f: EmbedField| f@)
}

/// The answer to a command, for the caller to present.
#[derive(Clone, Debug, PartialEq, Eq)]
pub enum Reply {
    /// A plain message.
    Content(String),
    /// A rich message.
    Embed { title: String, description: String, image: Option<String>, fields: Vec<EmbedField> },
}

/// The mathematical value of a [`Reply`].
pub enum ReplyView {
    Content(Seq<char>),
    Embed {
        title: Seq<char>,
        description: Seq<char>,
        image: Option<Seq<char>>,
        fields: Seq<EmbedFieldView>,
    },
}

impl View for Reply {
    type V = ReplyView;

    open spec fn view(&self) -> ReplyView {
        match *self {
            Reply::Content(text) => ReplyView::Content(text@),
            Reply::Embed { title, description, image, fields } => ReplyView::Embed {
                title: title@,
                description: description@,
                image: match image {
                    Some(url) => Some(url@),
                    None => None,
                },
                fields: field_views(fields@),
            },
        }
    }
}

/// An optional string slice as its text.
pub open spec fn optional_text(option: Option<&str>) -> Option<Seq<char>> {
    match option {
        Some(text) => Some(text@),
        None => None,
    }
}

/// The command of this name, or `None` where the name is not a command's.
pub open spec fn command_named(name: Seq<char>) -> Option<Command> {
    if name == "invite"@ {
        Some(Command::Invite)
    } else if name == "fence"@ {
        Some(Command::Fence)
    } else if name == "uninvite"@ {
        Some(Command::Uninvite)
    } else if name == "list"@ {
        Some(Command::List)
    } else {
        None
    }
}

/// The name of a command.
pub open spec fn name_of(command: Command) -> Seq<char> {
    match command {
        Command::Invite => "invite"@,
        Command::Uninvite => "uninvite"@,
        Command::List => "list"@,
        Command::Fence => "fence"@,
    }
}

/// Every command is found under its own name.
pub proof fn lemma_command_names_resolve(command: Command)
    ensures
        command_named(name_of(command)) == Some(command),
{
    reveal_strlit("invite");
    reveal_strlit("fence");
    reveal_strlit("uninvite");
    reveal_strlit("list");
    assert("invite"@.len() == 6 && "fence"@.len() == 5 && "uninvite"@.len() == 8 && "list"@.len()
        == 4);
}

impl Command {
    /// The command of this name.
    pub fn from_name(name: &str) -> (command: Option<Command>)
        ensures
            command == command_named(name@),
    {
        let given = String::from_str(name);
        if given == String::from_str("invite") {
            Some(Command::Invite)
        } else if given == String::from_str("fence") {
            Some(Command::Fence)
        } else if given == String::from_str("uninvite") {
            Some(Command::Uninvite)
        } else if given == String::from_str("list") {
            Some(Command::List)
        } else {
            None
        }
    }

    /// The name under which the command is registered.
    pub fn name(&self) -> (name: &'static str)
        ensures
            name@ == name_of(*self),
    {
        match self {
            Command::Invite => "invite",
            Command::Uninvite => "uninvite",
            Command::List => "list",
            Command::Fence => "fence",
        }
    }
}

} // verus!
