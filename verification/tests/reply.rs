use character_session::botmanager::{
    BotManager, BotManagerData, ReplyAction, ReplyEvent, ReplyPhase, ReplyStep,
};
use character_session::error::EngineError;
use character_session::history::{HistoryPolicy, RawMessage};
use character_session::identity::ReplyIdentity;
use character_session::textgen::api::{BackendOutcome, Message, SamplingParams, TextgenApi};
use character_session::textgen::character::{Character, PersonaCatalog};
use serde_json::Value;

const TEMPLATE: &str = "[[NAME]]'s Persona: [[PERSONA]]\n[[EXAMPLE]]\n<START>\n[[CONTEXT]]\n[[NAME]]:";
const PROMPT: &str = "Alice's Persona: Curious.\nYou: Hi\nAlice: Hello!\n<START>\nBob: first\nCarol: second\nAlice:";

fn alice() -> Character {
    Character {
        char_name: "Alice".to_string(),
        char_description: "A curious girl".to_string(),
        char_persona: "Curious.".to_string(),
        example_dialogue: vec![
            Message { speaker: "You".to_string(), content: "Hi".to_string() },
            Message { speaker: "Alice".to_string(), content: "Hello!".to_string() },
        ],
        avatar_url: "https://example.org/alice.png".to_string(),
    }
}

fn manager() -> BotManager {
    let number = Value::from(1.0);
    let mut catalog = PersonaCatalog::new();
    catalog.insert("alice".to_string(), alice());
    let mut data = BotManagerData::new(catalog);
    data.invited_characters.bind(42, "alice".to_string());
    data.invited_characters.bind(43, "ghost".to_string());
    BotManager {
        api: TextgenApi::new(
            "http://backend/run".to_string(),
            "http://backend/model".to_string(),
            SamplingParams {
                temperature: number.clone(),
                top_p: number.clone(),
                typical_p: number.clone(),
                repetition_penalty: number.clone(),
                encoder_repetition_penalty: number.clone(),
                top_k: number.clone(),
                min_length: 0,
                no_repeat_ngram_size: 0,
                num_beams: 1,
                penalty_alpha: number.clone(),
                length_penalty: number,
            },
        ),
        data,
        history: HistoryPolicy::canonical(10),
    }
}

fn log() -> Vec<RawMessage> {
    vec![
        RawMessage::new("Carol".to_string(), "second".to_string(), false),
        RawMessage::new("Bob".to_string(), "first".to_string(), false),
        RawMessage::new("Self".to_string(), "--- Message Fence ---".to_string(), true),
        RawMessage::new("Dave".to_string(), "hidden".to_string(), false),
    ]
}

fn generating() -> ReplyPhase {
    ReplyPhase::Generating {
        channel: 42,
        name: "Alice".to_string(),
        avatar: "https://example.org/alice.png".to_string(),
        prompt: PROMPT.to_string(),
    }
}

fn resolving() -> ReplyPhase {
    ReplyPhase::Resolving {
        channel: 42,
        name: "Alice".to_string(),
        avatar: "https://example.org/alice.png".to_string(),
        text: " Nice to meet you.".to_string(),
    }
}

fn creating() -> ReplyPhase {
    ReplyPhase::Creating {
        channel: 42,
        name: "Alice".to_string(),
        avatar: "https://example.org/alice.png".to_string(),
        text: " Nice to meet you.".to_string(),
    }
}

fn post(identity: u64) -> ReplyAction {
    ReplyAction::Post {
        channel: 42,
        identity,
        username: "Alice".to_string(),
        avatar_url: "https://example.org/alice.png".to_string(),
        content: " Nice to meet you.".to_string(),
    }
}

fn ended(action: ReplyAction) -> ReplyStep {
    ReplyStep { phase: ReplyPhase::Done, action }
}

fn every_event() -> Vec<ReplyEvent> {
    vec![
        ReplyEvent::Arrived { channel: 42, author_is_bot: false },
        ReplyEvent::History { log: log(), template: Some(TEMPLATE.to_string()) },
        ReplyEvent::Backend(BackendOutcome::Answered("{\"data\":[\"x\"]}".to_string())),
        ReplyEvent::Identities(Vec::new()),
        ReplyEvent::IdentityCreated(7),
        ReplyEvent::Posted,
        ReplyEvent::IdentityFailed,
    ]
}

#[test]
fn the_active_persona_is_the_one_that_the_binding_resolves_to() {
    let manager = manager();
    assert_eq!(manager.data.active_persona(42), Ok(&alice()));
    assert_eq!(manager.data.active_persona(1), Err(EngineError::BindingAbsent));
    assert_eq!(manager.data.active_persona(43), Err(EngineError::PersonaNotFound));
}

#[test]
fn a_message_in_a_bound_channel_has_the_history_fetched() {
    let manager = manager();
    let expected = ReplyStep {
        phase: ReplyPhase::AwaitingHistory { channel: 42 },
        action: ReplyAction::FetchHistory { channel: 42, limit: 10 },
    };
    assert_eq!(manager.message(42, false), expected);
    assert_eq!(
        manager.step(ReplyPhase::Idle, ReplyEvent::Arrived { channel: 42, author_is_bot: false }),
        expected
    );
}

#[test]
fn a_message_from_a_bot_gets_no_reply() {
    assert_eq!(manager().message(42, true), ended(ReplyAction::Skip));
}

#[test]
fn a_message_in_an_unbound_channel_gets_no_reply() {
    assert_eq!(manager().message(1, false), ended(ReplyAction::Skip));
}

#[test]
fn a_binding_that_does_not_resolve_is_an_error() {
    let manager = manager();
    assert_eq!(manager.message(43, false), ended(ReplyAction::Fail(EngineError::PersonaNotFound)));
    assert_eq!(
        manager.step(
            ReplyPhase::AwaitingHistory { channel: 43 },
            ReplyEvent::History { log: log(), template: Some(TEMPLATE.to_string()) }
        ),
        ended(ReplyAction::Fail(EngineError::PersonaNotFound))
    );
}

#[test]
fn a_fetched_history_leads_to_a_generation_request() {
    let manager = manager();
    let next = manager.step(
        ReplyPhase::AwaitingHistory { channel: 42 },
        ReplyEvent::History { log: log(), template: Some(TEMPLATE.to_string()) },
    );
    assert_eq!(next.phase, generating());
    assert_eq!(
        next.action,
        ReplyAction::Generate {
            url: "http://backend/run".to_string(),
            body: manager.api.request_body(PROMPT),
            timeout_secs: 20,
        }
    );
}

#[test]
fn an_empty_window_gets_no_reply() {
    let manager = manager();
    let only_noise = vec![
        RawMessage::new("Self".to_string(), "an earlier reply".to_string(), true),
        RawMessage::new("Bob".to_string(), "".to_string(), false),
    ];
    for log in [Vec::new(), only_noise] {
        for template in [Some(TEMPLATE.to_string()), None] {
            assert_eq!(
                manager.step(
                    ReplyPhase::AwaitingHistory { channel: 42 },
                    ReplyEvent::History { log: log.clone(), template }
                ),
                ended(ReplyAction::Skip)
            );
        }
    }
}

#[test]
fn a_binding_that_went_away_gets_no_reply() {
    assert_eq!(
        manager().step(
            ReplyPhase::AwaitingHistory { channel: 1 },
            ReplyEvent::History { log: log(), template: Some(TEMPLATE.to_string()) }
        ),
        ended(ReplyAction::Skip)
    );
}

#[test]
fn a_template_that_could_not_be_loaded_ends_the_reply() {
    assert_eq!(
        manager().step(
            ReplyPhase::AwaitingHistory { channel: 42 },
            ReplyEvent::History { log: log(), template: None }
        ),
        ended(ReplyAction::Fail(EngineError::TemplateLoadFailure))
    );
}

#[test]
fn a_completion_goes_on_to_delivery() {
    let body = serde_json::Value::from(format!("{} Nice to meet you.", PROMPT)).to_string();
    let next = manager().step(
        generating(),
        ReplyEvent::Backend(BackendOutcome::Answered(format!("{{\"data\":[{}]}}", body))),
    );
    assert_eq!(next, ReplyStep { phase: resolving(), action: ReplyAction::ListIdentities { channel: 42 } });
}

#[test]
fn a_timeout_ends_the_reply_with_nothing_under_way() {
    let next = manager().step(generating(), ReplyEvent::Backend(BackendOutcome::TimedOut));
    assert_eq!(next, ended(ReplyAction::Fail(EngineError::BackendTimeout)));
}

#[test]
fn an_unreachable_backend_ends_the_reply() {
    let next = manager().step(generating(), ReplyEvent::Backend(BackendOutcome::Unreachable));
    assert_eq!(next, ended(ReplyAction::Fail(EngineError::BackendUnreachable)));
}

#[test]
fn a_malformed_answer_ends_the_reply() {
    for body in ["", "{\"data\":[]}", "{\"data\":[3]}", "busy"] {
        let next = manager()
            .step(generating(), ReplyEvent::Backend(BackendOutcome::Answered(body.to_string())));
        assert_eq!(next, ended(ReplyAction::Fail(EngineError::MalformedBackendResponse)));
    }
}

#[test]
fn the_reply_is_posted_through_the_existing_identity() {
    let listing = vec![
        ReplyIdentity { id: 1, name: "Other".to_string() },
        ReplyIdentity { id: 2, name: "Uc207_Bot".to_string() },
    ];
    let next = manager().step(resolving(), ReplyEvent::Identities(listing));
    assert_eq!(next, ReplyStep { phase: ReplyPhase::Posting, action: post(2) });
}

#[test]
fn a_missing_identity_is_created_first() {
    let listing = vec![ReplyIdentity { id: 1, name: "Other".to_string() }];
    let next = manager().step(resolving(), ReplyEvent::Identities(listing));
    assert_eq!(
        next,
        ReplyStep {
            phase: creating(),
            action: ReplyAction::CreateIdentity { channel: 42, name: "Uc207_Bot".to_string() },
        }
    );
    let then = manager().step(creating(), ReplyEvent::IdentityCreated(9));
    assert_eq!(then, ReplyStep { phase: ReplyPhase::Posting, action: post(9) });
}

#[test]
fn a_posted_reply_completes() {
    assert_eq!(manager().step(ReplyPhase::Posting, ReplyEvent::Posted), ended(ReplyAction::Complete));
}

#[test]
fn a_failed_identity_operation_is_reported() {
    for phase in [resolving(), creating(), ReplyPhase::Posting] {
        assert_eq!(
            manager().step(phase, ReplyEvent::IdentityFailed),
            ended(ReplyAction::Fail(EngineError::IdentityOperationFailure))
        );
    }
}

#[test]
fn an_event_that_the_phase_does_not_wait_for_ends_the_reply() {
    let manager = manager();
    let waits_for = |phase: &ReplyPhase, event: &ReplyEvent| {
        matches!(
            (phase, event),
            (ReplyPhase::Idle, ReplyEvent::Arrived { .. })
                | (ReplyPhase::AwaitingHistory { .. }, ReplyEvent::History { .. })
                | (ReplyPhase::Generating { .. }, ReplyEvent::Backend(_))
                | (ReplyPhase::Resolving { .. }, ReplyEvent::Identities(_))
                | (ReplyPhase::Resolving { .. }, ReplyEvent::IdentityFailed)
                | (ReplyPhase::Creating { .. }, ReplyEvent::IdentityCreated(_))
                | (ReplyPhase::Creating { .. }, ReplyEvent::IdentityFailed)
                | (ReplyPhase::Posting, ReplyEvent::Posted)
                | (ReplyPhase::Posting, ReplyEvent::IdentityFailed)
        )
    };
    let phases = vec![
        ReplyPhase::Idle,
        ReplyPhase::AwaitingHistory { channel: 42 },
        generating(),
        resolving(),
        creating(),
        ReplyPhase::Posting,
        ReplyPhase::Done,
    ];
    for phase in &phases {
        for event in every_event() {
            if !waits_for(phase, &event) {
                assert_eq!(manager.step(phase.clone(), event), ended(ReplyAction::Skip));
            }
        }
    }
}

#[test]
fn the_typing_indicator_is_on_only_while_generating() {
    let manager = manager();
    let phases = vec![
        ReplyPhase::Idle,
        ReplyPhase::AwaitingHistory { channel: 42 },
        generating(),
        resolving(),
        creating(),
        ReplyPhase::Posting,
        ReplyPhase::Done,
    ];
    for phase in &phases {
        for event in every_event() {
            let was_generating = matches!(phase, ReplyPhase::Generating { .. });
            let next = manager.step(phase.clone(), event);
            let generating = matches!(next.phase, ReplyPhase::Generating { .. });
            assert_eq!(generating, matches!(next.action, ReplyAction::Generate { .. }));
            assert!(!(was_generating && generating));
            let done = matches!(next.phase, ReplyPhase::Done);
            let last = matches!(
                next.action,
                ReplyAction::Skip | ReplyAction::Complete | ReplyAction::Fail(_)
            );
            assert_eq!(done, last);
        }
    }
}

#[test]
fn a_whole_reply_from_message_to_post() {
    let manager = manager();
    let first = manager.step(ReplyPhase::Idle, ReplyEvent::Arrived { channel: 42, author_is_bot: false });
    assert_eq!(first.action, ReplyAction::FetchHistory { channel: 42, limit: 10 });
    let second = manager
        .step(first.phase, ReplyEvent::History { log: log(), template: Some(TEMPLATE.to_string()) });
    assert!(matches!(second.action, ReplyAction::Generate { .. }));
    let third = manager.step(
        second.phase,
        ReplyEvent::Backend(BackendOutcome::Answered("{\"data\":[\" Nice to meet you.\"]}".to_string())),
    );
    assert_eq!(third.action, ReplyAction::ListIdentities { channel: 42 });
    let fourth = manager.step(third.phase, ReplyEvent::Identities(Vec::new()));
    assert_eq!(
        fourth.action,
        ReplyAction::CreateIdentity { channel: 42, name: "Uc207_Bot".to_string() }
    );
    let fifth = manager.step(fourth.phase, ReplyEvent::IdentityCreated(5));
    assert_eq!(fifth.action, post(5));
    let last = manager.step(fifth.phase, ReplyEvent::Posted);
    assert_eq!(last, ended(ReplyAction::Complete));
}
