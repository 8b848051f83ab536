//! The engine's state and the orchestration of a reply.
//!
//! Nothing here touches the chat platform or the backend. A reply is made in
//! steps: [`BotManager::step`] takes the phase that a reply is in and the
//! event that has come in, and gives the next phase and the action that the
//! caller is to carry out. The caller reports how the action went as the
//! next event.

use crate::commands::{
    command_named, fence, invite, list, optional_text, uninvite, Command, Reply, ReplyView,
};
use crate::error::EngineError;
use crate::history::{extract_window, raw_views, window_of, HistoryPolicy, RawMessage};
use crate::identity::{canonical_id, identity_views, ReplyIdentity, IDENTITY_NAME};
use crate::registry::{binding_of, unbound, Bindings, SessionRegistry};
use crate::textgen::api::{
    completion_of, envelope_tree, rendered, sampling_tree, BackendOutcome, TextgenApi,
    REQUEST_TIMEOUT_SECS,
};
use crate::textgen::character::{persona_of, Character, CharacterView, Entries, PersonaCatalog};
use crate::textgen::json::json_text;
use vstd::prelude::*;
use vstd::string::*;

verus! {

/// The engine's mutable state: the catalog and the binding table.
pub struct BotManagerData {
    /// The persona catalog, filled at startup.
    pub characters: PersonaCatalog,
    /// Which persona is bound to which channel.
    pub invited_characters: SessionRegistry,
}

/// Every bound persona resolves in the catalog.
pub open spec fn bindings_resolve(catalog: Entries, table: Bindings) -> bool {
    forall|channel: u64| #[trigger]
        table.contains_key(channel) ==> persona_of(catalog, table[channel]) is Some
}

/// The persona that answers in a channel: the one that the channel's binding
/// resolves to. A channel without a binding has none, and a binding that does
/// not resolve in the catalog is a fault.
pub open spec fn active_persona_of(catalog: Entries, table: Bindings, channel: u64) -> Result<
    CharacterView,
    EngineError,
> {
    match binding_of(table, channel) {
        None => Err(EngineError::BindingAbsent),
        Some(id) => match persona_of(catalog, id) {
            None => Err(EngineError::PersonaNotFound),
            Some(persona) => Ok(persona),
        },
    }
}

/// In a consistent state no binding fails to resolve: a channel has its
/// persona, or it has no binding.
pub proof fn lemma_consistent_bindings_resolve(catalog: Entries, table: Bindings, channel: u64)
    requires
        bindings_resolve(catalog, table),
    ensures
        active_persona_of(catalog, table, channel) != Err::<CharacterView, EngineError>(
            EngineError::PersonaNotFound,
        ),
{
    if table.contains_key(channel) {
        assert(persona_of(catalog, table[channel]) is Some);
    }
}

impl BotManagerData {
    /// The state is consistent: every bound persona resolves in the catalog.
    pub open spec fn consistent(&self) -> bool {
        bindings_resolve(self.characters@, self.invited_characters@)
    }

    /// The persona that answers in `channel`.
    pub fn active_persona(&self, channel: u64) -> (found: Result<&Character, EngineError>)
        ensures
            match found {
                Ok(persona) => active_persona_of(
                    self.characters@,
                    self.invited_characters@,
                    channel,
                ) == Ok::<CharacterView, EngineError>(persona@),
                Err(error) => active_persona_of(
                    self.characters@,
                    self.invited_characters@,
                    channel,
                ) == Err::<CharacterView, EngineError>(error),
            },
    {
        match self.invited_characters.lookup(channel) {
            None => Err(EngineError::BindingAbsent),
            Some(id) => match self.characters.get(id.as_str()) {
                None => Err(EngineError::PersonaNotFound),
                Some(persona) => Ok(persona),
            },
        }
    }

    /// The state around a catalog, with no channel bound.
    pub fn new(characters: PersonaCatalog) -> (data: BotManagerData)
        ensures
            data.characters@ == characters@,
            data.invited_characters@ == Map::<u64, Seq<char>>::empty(),
            data.consistent(),
    {
        BotManagerData { characters, invited_characters: SessionRegistry::new() }
    }
}

/// The engine: the backend client, the state, and how history is windowed.
pub struct BotManager {
    pub api: TextgenApi,
    pub data: BotManagerData,
    pub history: HistoryPolicy,
}

/// What a command did: its answer, and whether the reply identity of the
/// channel is to be torn down afterwards.
#[derive(Clone, Debug, PartialEq, Eq)]
pub struct CommandOutcome {
    pub reply: Reply,
    pub teardown: bool,
}

/// The phase that a reply to a message is in.
#[derive(Clone, Debug, PartialEq, Eq)]
pub enum ReplyPhase {
    /// Nothing has happened yet.
    Idle,
    /// The channel's newest messages are being fetched.
    AwaitingHistory { channel: u64 },
    /// The request is with the backend, and the typing indicator is on.
    Generating { channel: u64, name: String, avatar: String, prompt: String },
    /// The completion is there, and the channel's identities are being listed.
    Resolving { channel: u64, name: String, avatar: String, text: String },
    /// The channel had no reply identity, and one is being created.
    Creating { channel: u64, name: String, avatar: String, text: String },
    /// The reply is being posted through the identity.
    Posting,
    /// Nothing is in progress: the reply was delivered, skipped or given up.
    Done,
}

/// What has come in.
#[derive(Clone, Debug, PartialEq, Eq)]
pub enum ReplyEvent {
    /// A message arrived in a channel.
    Arrived { channel: u64, author_is_bot: bool },
    /// The newest messages of the channel, newest first, and the text of the
    /// prompt template, or `None` where it could not be loaded.
    History { log: Vec<RawMessage>, template: Option<String> },
    /// The exchange with the backend ended.
    Backend(BackendOutcome),
    /// The identities of the channel were listed.
    Identities(Vec<ReplyIdentity>),
    /// The reply identity was created, with this id.
    IdentityCreated(u64),
    /// The reply was posted.
    Posted,
    /// Listing, creating or posting through an identity failed.
    IdentityFailed,
}

/// What the caller is to do next.
#[derive(Clone, Debug, PartialEq, Eq)]
pub enum ReplyAction {
    /// Nothing: the message gets no reply.
    Skip,
    /// Fetch the newest messages of the channel, at most `limit` of them,
    /// and load the prompt template.
    FetchHistory { channel: u64, limit: usize },
    /// Turn the typing indicator on and post `body` to `url`, waiting at most
    /// `timeout_secs` seconds. The indicator goes off when the exchange has
    /// ended, however it ended.
    Generate { url: String, body: String, timeout_secs: u64 },
    /// List the identities of the channel.
    ListIdentities { channel: u64 },
    /// Create an identity of this name in the channel.
    CreateIdentity { channel: u64, name: String },
    /// Post `content` through the identity, under this name and avatar.
    Post { channel: u64, identity: u64, username: String, avatar_url: String, content: String },
    /// Nothing more: the reply was delivered.
    Complete,
    /// Give up and report the error.
    Fail(EngineError),
}

/// The outcome of a step: the next phase, and the action to carry out.
#[derive(Clone, Debug, PartialEq, Eq)]
pub struct ReplyStep {
    pub phase: ReplyPhase,
    pub action: ReplyAction,
}

/// The typing indicator is on in this phase.
pub open spec fn typing_active(phase: ReplyPhase) -> bool {
    phase is Generating
}

/// An operation on the channel's reply identity is under way in this phase.
pub open spec fn identity_active(phase: ReplyPhase) -> bool {
    phase is Resolving || phase is Creating || phase is Posting
}

/// The step ends the reply with this action.
pub open spec fn ends_with(next: ReplyStep, action: ReplyAction) -> bool {
    next.phase == ReplyPhase::Done && next.action == action
}

/// The step goes on to post `text` through the identity `identity`.
pub open spec fn posts(
    next: ReplyStep,
    channel: u64,
    identity: u64,
    name: Seq<char>,
    avatar: Seq<char>,
    text: Seq<char>,
) -> bool {
    &&& next.phase == ReplyPhase::Posting
    &&& next.action matches ReplyAction::Post {
        channel: to,
        identity: through,
        username,
        avatar_url,
        content,
    }
    &&& to == channel
    &&& through == identity
    &&& username@ == name
    &&& avatar_url@ == avatar
    &&& content@ == text
}

/// How a reply ends where the channel has no persona to answer: silently
/// where it has no binding, with the error otherwise.
pub open spec fn without_persona(error: EngineError) -> ReplyAction {
    if error == EngineError::BindingAbsent {
        ReplyAction::Skip
    } else {
        ReplyAction::Fail(error)
    }
}

/// The step for a message that arrived: no reply to bots and in channels
/// without a binding; a binding that does not resolve is an error; otherwise
/// the history is fetched.
pub open spec fn arrival_step(
    manager: BotManager,
    channel: u64,
    author_is_bot: bool,
    next: ReplyStep,
) -> bool {
    if author_is_bot {
        ends_with(next, ReplyAction::Skip)
    } else {
        match active_persona_of(
            manager.data.characters@,
            manager.data.invited_characters@,
            channel,
        ) {
            Ok(_) => {
                &&& next.phase == ReplyPhase::AwaitingHistory { channel }
                &&& next.action == ReplyAction::FetchHistory { channel, limit: manager.history.cap }
            },
            Err(error) => ends_with(next, without_persona(error)),
        }
    }
}

/// The step for a fetched history: the window is extracted and the prompt
/// rendered for the persona that is bound now. No binding or an empty window
/// ends the reply without an error.
pub open spec fn history_step(
    manager: BotManager,
    channel: u64,
    log: Vec<RawMessage>,
    template: Option<String>,
    next: ReplyStep,
) -> bool {
    match active_persona_of(manager.data.characters@, manager.data.invited_characters@, channel) {
        Err(error) => ends_with(next, without_persona(error)),
        Ok(persona) => {
            let window = window_of(raw_views(log@), manager.history);
            if window.len() == 0 {
                ends_with(next, ReplyAction::Skip)
            } else {
                match template {
                    None => ends_with(next, ReplyAction::Fail(EngineError::TemplateLoadFailure)),
                    Some(text) => {
                        let wanted = rendered(text@, persona, window);
                        &&& next.phase matches ReplyPhase::Generating {
                            channel: to,
                            name,
                            avatar,
                            prompt,
                        }
                        &&& to == channel
                        &&& name@ == persona.char_name
                        &&& avatar@ == persona.avatar_url
                        &&& prompt@ == wanted
                        &&& next.action matches ReplyAction::Generate { url, body, timeout_secs }
                        &&& url@ == manager.api.textgen_url@
                        &&& body@ == json_text(
                            envelope_tree(wanted, sampling_tree(manager.api.sampling)),
                        )
                        &&& timeout_secs == REQUEST_TIMEOUT_SECS
                    },
                }
            }
        },
    }
}

/// What the exchange with the backend amounts to for this prompt.
pub open spec fn generation_result(outcome: BackendOutcome, prompt: Seq<char>) -> Result<
    Seq<char>,
    EngineError,
> {
    match outcome {
        BackendOutcome::Answered(body) => completion_of(body@, prompt),
        BackendOutcome::TimedOut => Err(EngineError::BackendTimeout),
        BackendOutcome::Unreachable => Err(EngineError::BackendUnreachable),
    }
}

/// The step for an ended exchange with the backend: a completion goes on to
/// delivery, anything else ends the reply with its error.
pub open spec fn backend_step(
    channel: u64,
    name: Seq<char>,
    avatar: Seq<char>,
    prompt: Seq<char>,
    outcome: BackendOutcome,
    next: ReplyStep,
) -> bool {
    match generation_result(outcome, prompt) {
        Ok(completion) => {
            &&& next.phase matches ReplyPhase::Resolving {
                channel: to,
                name: under,
                avatar: picture,
                text,
            }
            &&& to == channel
            &&& under@ == name
            &&& picture@ == avatar
            &&& text@ == completion
            &&& next.action == ReplyAction::ListIdentities { channel }
        },
        Err(error) => ends_with(next, ReplyAction::Fail(error)),
    }
}

/// The step for a listing of the channel's identities: post through the
/// identity of the well-known name, or have one created.
pub open spec fn identities_step(
    channel: u64,
    name: Seq<char>,
    avatar: Seq<char>,
    text: Seq<char>,
    listing: Vec<ReplyIdentity>,
    next: ReplyStep,
) -> bool {
    match canonical_id(identity_views(listing@)) {
        Some(id) => posts(next, channel, id, name, avatar, text),
        None => {
            &&& next.phase matches ReplyPhase::Creating {
                channel: to,
                name: under,
                avatar: picture,
                text: content,
            }
            &&& to == channel
            &&& under@ == name
            &&& picture@ == avatar
            &&& content@ == text
            &&& next.action matches ReplyAction::CreateIdentity { channel: at, name: called }
            &&& at == channel
            &&& called@ == IDENTITY_NAME@
        },
    }
}

/// The step that `event` leads to from `phase`. An event that the phase does
/// not wait for ends the reply without one.
pub open spec fn follows(
    manager: BotManager,
    phase: ReplyPhase,
    event: ReplyEvent,
    next: ReplyStep,
) -> bool {
    match phase {
        ReplyPhase::Idle => match event {
            ReplyEvent::Arrived { channel, author_is_bot } => arrival_step(
                manager,
                channel,
                author_is_bot,
                next,
            ),
            _ => ends_with(next, ReplyAction::Skip),
        },
        ReplyPhase::AwaitingHistory { channel } => match event {
            ReplyEvent::History { log, template } => history_step(
                manager,
                channel,
                log,
                template,
                next,
            ),
            _ => ends_with(next, ReplyAction::Skip),
        },
        ReplyPhase::Generating { channel, name, avatar, prompt } => match event {
            ReplyEvent::Backend(outcome) => backend_step(
                channel,
                name@,
                avatar@,
                prompt@,
                outcome,
                next,
            ),
            _ => ends_with(next, ReplyAction::Skip),
        },
        ReplyPhase::Resolving { channel, name, avatar, text } => match event {
            ReplyEvent::Identities(listing) => identities_step(
                channel,
                name@,
                avatar@,
                text@,
                listing,
                next,
            ),
            ReplyEvent::IdentityFailed => ends_with(
                next,
                ReplyAction::Fail(EngineError::IdentityOperationFailure),
            ),
            _ => ends_with(next, ReplyAction::Skip),
        },
        ReplyPhase::Creating { channel, name, avatar, text } => match event {
            ReplyEvent::IdentityCreated(id) => posts(next, channel, id, name@, avatar@, text@),
            ReplyEvent::IdentityFailed => ends_with(
                next,
                ReplyAction::Fail(EngineError::IdentityOperationFailure),
            ),
            _ => ends_with(next, ReplyAction::Skip),
        },
        ReplyPhase::Posting => match event {
            ReplyEvent::Posted => ends_with(next, ReplyAction::Complete),
            ReplyEvent::IdentityFailed => ends_with(
                next,
                ReplyAction::Fail(EngineError::IdentityOperationFailure),
            ),
            _ => ends_with(next, ReplyAction::Skip),
        },
        ReplyPhase::Done => ends_with(next, ReplyAction::Skip),
    }
}

/// The answer to a command that is not known.
pub open spec fn unknown_command_reply() -> ReplyView {
    ReplyView::Content("Command not implemented"@)
}

fn done(action: ReplyAction) -> (next: ReplyStep)
    ensures
        ends_with(next, action),
{
    ReplyStep { phase: ReplyPhase::Done, action }
}

fn no_persona(error: EngineError) -> (action: ReplyAction)
    ensures
        action == without_persona(error),
{
    match error {
        EngineError::BindingAbsent => ReplyAction::Skip,
        _ => ReplyAction::Fail(error),
    }
}

impl BotManager {
    /// Turns a command event into its effect on the state and its answer.
    ///
    /// `name` is the command's name, `channel` the channel it was given in,
    /// `text` its string option and `number` its integer option, where it
    /// has them. Only an uninvite that removed a binding asks for the
    /// teardown of the channel's reply identity.
    pub fn interaction_create(
        &mut self,
        channel: u64,
        name: &str,
        text: Option<&str>,
        number: Option<i64>,
    ) -> (outcome: CommandOutcome)
        ensures
            final(self).data.characters@ == old(self).data.characters@,
            old(self).data.consistent() ==> final(self).data.consistent(),
            match command_named(name@) {
                Some(Command::Invite) => {
                    &&& outcome.reply@ == invite::reply_for(
                        old(self).data.characters@,
                        optional_text(text),
                    )
                    &&& final(self).data.invited_characters@ == invite::bindings_after(
                        old(self).data.characters@,
                        old(self).data.invited_characters@,
                        channel,
                        optional_text(text),
                    )
                    &&& !outcome.teardown
                },
                Some(Command::Uninvite) => {
                    &&& outcome.teardown == old(self).data.invited_characters@.contains_key(
                        channel,
                    )
                    &&& outcome.reply@ == uninvite::reply_for(outcome.teardown)
                    &&& final(self).data.invited_characters@ == unbound(
                        old(self).data.invited_characters@,
                        channel,
                    )
                },
                Some(Command::List) => {
                    &&& outcome.reply@ == list::reply_for(old(self).data.characters@, number)
                    &&& final(self).data.invited_characters@ == old(self).data.invited_characters@
                    &&& !outcome.teardown
                },
                Some(Command::Fence) => {
                    &&& outcome.reply@ == ReplyView::Content(fence::FENCE_TEXT@)
                    &&& final(self).data.invited_characters@ == old(self).data.invited_characters@
                    &&& !outcome.teardown
                },
                None => {
                    &&& outcome.reply@ == unknown_command_reply()
                    &&& final(self).data.invited_characters@ == old(self).data.invited_characters@
                    &&& !outcome.teardown
                },
            },
    {
        match Command::from_name(name) {
            Some(Command::Invite) => CommandOutcome {
                reply: invite::run(&mut self.data, channel, text),
                teardown: false,
            },
            Some(Command::Uninvite) => {
                let uninvited = uninvite::run(&mut self.data, channel);
                CommandOutcome { reply: uninvited.reply, teardown: uninvited.existed }
            },
            Some(Command::List) => CommandOutcome {
                reply: list::run(&self.data, number),
                teardown: false,
            },
            Some(Command::Fence) => CommandOutcome { reply: fence::run(), teardown: false },
            None => CommandOutcome {
                reply: Reply::Content(String::from_str("Command not implemented")),
                teardown: false,
            },
        }
    }

    /// The first step of a reply: what is to be done about a message that
    /// arrived in `channel`.
    pub fn message(&self, channel: u64, author_is_bot: bool) -> (next: ReplyStep)
        ensures
            arrival_step(*self, channel, author_is_bot, next),
    {
        if author_is_bot {
            return done(ReplyAction::Skip);
        }
        match self.data.active_persona(channel) {
            Ok(_) => ReplyStep {
                phase: ReplyPhase::AwaitingHistory { channel },
                action: ReplyAction::FetchHistory { channel, limit: self.history.cap },
            },
            Err(error) => done(no_persona(error)),
        }
    }

    fn plan(&self, channel: u64, log: Vec<RawMessage>, template: Option<String>) -> (next:
        ReplyStep)
        ensures
            history_step(*self, channel, log, template, next),
    {
        let persona = match self.data.active_persona(channel) {
            Ok(persona) => persona,
            Err(error) => {
                return done(no_persona(error));
            },
        };
        let window = extract_window(&log, &self.history);
        if window.len() == 0 {
            return done(ReplyAction::Skip);
        }
        let text = match &template {
            Some(text) => Some(text.as_str()),
            None => None,
        };
        match self.api.make_prompt(persona, &window, text) {
            Ok(prompt) => {
                let body = self.api.request_body(prompt.as_str());
                ReplyStep {
                    phase: ReplyPhase::Generating {
                        channel,
                        name: persona.char_name.clone(),
                        avatar: persona.avatar_url.clone(),
                        prompt,
                    },
                    action: ReplyAction::Generate {
                        url: self.api.textgen_url.clone(),
                        body,
                        timeout_secs: REQUEST_TIMEOUT_SECS,
                    },
                }
            },
            Err(error) => done(ReplyAction::Fail(error)),
        }
    }

    /// One step of a reply: from the phase it is in and the event that came
    /// in to the next phase and the action to carry out.
    ///
    /// Whatever the backend's answer, the typing indicator is off after the
    /// step that takes it, and a reply that ends, ends with nothing under way.
    pub fn step(&self, phase: ReplyPhase, event: ReplyEvent) -> (next: ReplyStep)
        ensures
            follows(*self, phase, event, next),
            typing_active(next.phase) <==> next.action is Generate,
            typing_active(phase) ==> !typing_active(next.phase),
            (phase is Generating && event matches ReplyEvent::Backend(BackendOutcome::TimedOut))
                ==> {
                &&& next.action == ReplyAction::Fail(EngineError::BackendTimeout)
                &&& next.phase == ReplyPhase::Done
                &&& !typing_active(next.phase)
                &&& !identity_active(next.phase)
            },
            (next.action is Skip || next.action is Complete || next.action is Fail) <==> next.phase
                == ReplyPhase::Done,
    {
        match phase {
            ReplyPhase::Idle => match event {
                ReplyEvent::Arrived { channel, author_is_bot } => self.message(
                    channel,
                    author_is_bot,
                ),
                _ => done(ReplyAction::Skip),
            },
            ReplyPhase::AwaitingHistory { channel } => match event {
                ReplyEvent::History { log, template } => self.plan(channel, log, template),
                _ => done(ReplyAction::Skip),
            },
            ReplyPhase::Generating { channel, name, avatar, prompt } => match event {
                ReplyEvent::Backend(outcome) => match self.api.request(
                    prompt.as_str(),
                    &outcome,
                ) {
                    Ok(text) => ReplyStep {
                        phase: ReplyPhase::Resolving { channel, name, avatar, text },
                        action: ReplyAction::ListIdentities { channel },
                    },
                    Err(error) => done(ReplyAction::Fail(error)),
                },
                _ => done(ReplyAction::Skip),
            },
            ReplyPhase::Resolving { channel, name, avatar, text } => match event {
                ReplyEvent::Identities(listing) => match BotManager::ensure_webhook(&listing) {
                    crate::identity::EnsureIdentity::Use(identity) => ReplyStep {
                        phase: ReplyPhase::Posting,
                        action: ReplyAction::Post {
                            channel,
                            identity,
                            username: name,
                            avatar_url: avatar,
                            content: text,
                        },
                    },
                    crate::identity::EnsureIdentity::Create => ReplyStep {
                        phase: ReplyPhase::Creating { channel, name, avatar, text },
                        action: ReplyAction::CreateIdentity {
                            channel,
                            name: String::from_str(IDENTITY_NAME),
                        },
                    },
                },
                ReplyEvent::IdentityFailed => done(
                    ReplyAction::Fail(EngineError::IdentityOperationFailure),
                ),
                _ => done(ReplyAction::Skip),
            },
            ReplyPhase::Creating { channel, name, avatar, text } => match event {
                ReplyEvent::IdentityCreated(identity) => ReplyStep {
                    phase: ReplyPhase::Posting,
                    action: ReplyAction::Post {
                        channel,
                        identity,
                        username: name,
                        avatar_url: avatar,
                        content: text,
                    },
                },
                ReplyEvent::IdentityFailed => done(
                    ReplyAction::Fail(EngineError::IdentityOperationFailure),
                ),
                _ => done(ReplyAction::Skip),
            },
            ReplyPhase::Posting => match event {
                ReplyEvent::Posted => done(ReplyAction::Complete),
                ReplyEvent::IdentityFailed => done(
                    ReplyAction::Fail(EngineError::IdentityOperationFailure),
                ),
                _ => done(ReplyAction::Skip),
            },
            ReplyPhase::Done => done(ReplyAction::Skip),
        }
    }
}

} // verus!
