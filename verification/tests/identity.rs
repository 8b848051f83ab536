use character_session::botmanager::BotManager;
use character_session::identity::{EnsureIdentity, ReplyIdentity, IDENTITY_NAME};

fn identity(id: u64, name: &str) -> ReplyIdentity {
    ReplyIdentity { id, name: name.to_string() }
}

#[test]
fn the_well_known_name() {
    assert_eq!(IDENTITY_NAME, "Uc207_Bot");
}

#[test]
fn an_existing_identity_is_used() {
    let listing = vec![identity(1, "Other"), identity(2, "Uc207_Bot"), identity(3, "Third")];
    assert_eq!(BotManager::ensure_webhook(&listing), EnsureIdentity::Use(2));
}

#[test]
fn a_missing_identity_is_created() {
    assert_eq!(BotManager::ensure_webhook(&Vec::new()), EnsureIdentity::Create);
    let listing = vec![identity(1, "Other"), identity(2, ""), identity(3, "uc207_bot")];
    assert_eq!(BotManager::ensure_webhook(&listing), EnsureIdentity::Create);
}

#[test]
fn the_first_identity_of_the_name_is_the_canonical_one() {
    let listing = vec![identity(5, "Uc207_Bot"), identity(6, "Uc207_Bot")];
    assert_eq!(BotManager::ensure_webhook(&listing), EnsureIdentity::Use(5));
    assert_eq!(BotManager::delete_webhook(&listing), Some(5));
}

#[test]
fn teardown_names_the_identity_to_delete() {
    let listing = vec![identity(1, "Other"), identity(2, "Uc207_Bot")];
    assert_eq!(BotManager::delete_webhook(&listing), Some(2));
}

#[test]
fn teardown_of_an_absent_identity_deletes_nothing() {
    assert_eq!(BotManager::delete_webhook(&Vec::new()), None);
    assert_eq!(BotManager::delete_webhook(&vec![identity(1, "Other")]), None);
}

#[test]
fn after_teardown_the_identity_is_absent() {
    let mut listing = vec![identity(1, "Other"), identity(2, "Uc207_Bot"), identity(3, "More")];
    let target = BotManager::delete_webhook(&listing).unwrap();
    listing.retain(|i| i.id != target);
    assert_eq!(BotManager::delete_webhook(&listing), None);
    assert_eq!(BotManager::ensure_webhook(&listing), EnsureIdentity::Create);
}

#[test]
fn after_creation_the_identity_is_present() {
    let mut listing = vec![identity(1, "Other")];
    assert_eq!(BotManager::ensure_webhook(&listing), EnsureIdentity::Create);
    listing.push(identity(9, IDENTITY_NAME));
    assert_eq!(BotManager::ensure_webhook(&listing), EnsureIdentity::Use(9));
}
