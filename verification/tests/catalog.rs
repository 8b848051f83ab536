use character_session::textgen::api::Message;
use character_session::textgen::character::{Character, PersonaCatalog, PersonaFile};

fn persona(name: &str) -> Character {
    Character {
        char_name: name.to_string(),
        char_description: format!("{} in one line", name),
        char_persona: format!("{} is a test persona.", name),
        example_dialogue: vec![Message {
            speaker: name.to_string(),
            content: "An example.".to_string(),
        }],
        avatar_url: format!("https://example.org/{}.png", name),
    }
}

fn file(name: &str, character: Option<Character>) -> PersonaFile {
    PersonaFile { file_name: name.to_string(), character }
}

#[test]
fn a_new_catalog_is_empty() {
    let catalog = PersonaCatalog::new();
    assert_eq!(catalog.len(), 0);
    assert!(catalog.get("alice").is_none());
}

#[test]
fn get_finds_what_insert_put_in() {
    let mut catalog = PersonaCatalog::new();
    catalog.insert("alice".to_string(), persona("Alice"));
    catalog.insert("bob".to_string(), persona("Bob"));
    assert_eq!(catalog.len(), 2);
    assert_eq!(catalog.get("alice"), Some(&persona("Alice")));
    assert_eq!(catalog.get("bob"), Some(&persona("Bob")));
    assert_eq!(catalog.get("carol"), None);
    assert_eq!(catalog.get("Alice"), None);
}

#[test]
fn insert_under_a_known_id_replaces_and_keeps_the_place() {
    let mut catalog = PersonaCatalog::new();
    catalog.insert("alice".to_string(), persona("Alice"));
    catalog.insert("bob".to_string(), persona("Bob"));
    catalog.insert("alice".to_string(), persona("Alicia"));
    assert_eq!(catalog.len(), 2);
    assert_eq!(catalog.get("alice"), Some(&persona("Alicia")));
    assert_eq!(catalog.entry(0).id, "alice");
    assert_eq!(catalog.entry(0).character, persona("Alicia"));
    assert_eq!(catalog.entry(1).id, "bob");
}

#[test]
fn load_all_catalogues_each_persona_under_its_file_name() {
    let catalog = Character::load_all(vec![
        file("alice.json", Some(persona("Alice"))),
        file("bob.v2.json", Some(persona("Bob"))),
        file("carol", Some(persona("Carol"))),
    ]);
    assert_eq!(catalog.len(), 3);
    assert_eq!(catalog.get("alice"), Some(&persona("Alice")));
    assert_eq!(catalog.get("bob"), Some(&persona("Bob")));
    assert_eq!(catalog.get("carol"), Some(&persona("Carol")));
    assert_eq!(catalog.get("alice.json"), None);
    assert_eq!(catalog.entry(0).id, "alice");
    assert_eq!(catalog.entry(1).id, "bob");
    assert_eq!(catalog.entry(2).id, "carol");
}

#[test]
fn load_all_passes_over_files_that_did_not_load() {
    let catalog = Character::load_all(vec![
        file("broken.json", None),
        file("alice.json", Some(persona("Alice"))),
        file("also_broken.json", None),
    ]);
    assert_eq!(catalog.len(), 1);
    assert_eq!(catalog.get("alice"), Some(&persona("Alice")));
    assert_eq!(catalog.get("broken"), None);
}

#[test]
fn load_all_lets_a_later_file_of_the_same_id_win() {
    let catalog = Character::load_all(vec![
        file("alice.json", Some(persona("Alice"))),
        file("alice.txt", Some(persona("Alicia"))),
    ]);
    assert_eq!(catalog.len(), 1);
    assert_eq!(catalog.get("alice"), Some(&persona("Alicia")));
}

#[test]
fn load_all_of_nothing_is_empty() {
    assert_eq!(Character::load_all(Vec::new()).len(), 0);
}
