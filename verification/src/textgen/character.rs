//! Personas and the catalog that holds them.

use crate::text::{before_first, take_before_first};
use crate::textgen::api::{message_views, Message, MessageView};
use vstd::prelude::*;
use vstd::string::*;

verus! {

/// A persona: the character profile that a prompt is rendered from.
#[derive(Clone, Debug, PartialEq, Eq)]
pub struct Character {
    /// Display name, also the name under which replies are posted.
    pub char_name: String,
    /// One-line description, shown when personas are listed.
    pub char_description: String,
    /// The persona text proper.
    pub char_persona: String,
    /// Example turns that show how the character talks.
    pub example_dialogue: Vec<Message>,
    /// Where the avatar picture is found.
    pub avatar_url: String,
}

/// The mathematical value of a [`Character`].
pub struct CharacterView {
    pub char_name: Seq<char>,
    pub char_description: Seq<char>,
    pub char_persona: Seq<char>,
    pub example_dialogue: Seq<MessageView>,
    pub avatar_url: Seq<char>,
}

impl View for Character {
    type V = CharacterView;

    open spec fn view(&self) -> CharacterView {
        CharacterView {
            char_name: self.char_name@,
            char_description: self.char_description@,
            char_persona: self.char_persona@,
            example_dialogue: message_views(self.example_dialogue@),
            avatar_url: self.avatar_url@,
        }
    }
}

/// A persona record as it was found on disk: the file's name, and the persona
/// where the file could be read and parsed.
#[derive(Clone, Debug, PartialEq, Eq)]
pub struct PersonaFile {
    pub file_name: String,
    pub character: Option<Character>,
}

/// The mathematical value of a [`PersonaFile`].
pub struct PersonaFileView {
    pub file_name: Seq<char>,
    pub character: Option<CharacterView>,
}

impl View for PersonaFile {
    type V = PersonaFileView;

    open spec fn view(&self) -> PersonaFileView {
        PersonaFileView {
            file_name: self.file_name@,
            character: match self.character {
                Some(c) => Some(c@),
                None => None,
            },
        }
    }
}

/// The views of a list of persona files, in the same order.
pub open spec fn file_views(files: Seq<PersonaFile>) -> Seq<PersonaFileView> {
    files.map_values(|f: PersonaFile| f@)
}

/// One persona of the catalog under its id.
#[derive(Clone, Debug, PartialEq, Eq)]
pub struct CatalogEntry {
    pub id: String,
    pub character: Character,
}

/// The mathematical value of a [`CatalogEntry`].
pub struct CatalogEntryView {
    pub id: Seq<char>,
    pub character: CharacterView,
}

impl View for CatalogEntry {
    type V = CatalogEntryView;

    open spec fn view(&self) -> CatalogEntryView {
        CatalogEntryView { id: self.id@, character: self.character@ }
    }
}

/// The catalog as a mathematical value: its entries in the order in which
/// their ids first came in.
pub type Entries = Seq<CatalogEntryView>;

/// No id stands twice among the entries.
pub open spec fn ids_distinct(entries: Entries) -> bool {
    forall|i: int, j: int|
        0 <= i < j < entries.len() ==> (#[trigger] entries[i]).id != (#[trigger] entries[j]).id
}

/// The position of the entry with this id, or the number of entries where no
/// entry has it.
pub open spec fn position_of(entries: Entries, id: Seq<char>) -> nat
    decreases entries.len(),
{
    if entries.len() == 0 || entries[0].id == id {
        0
    } else {
        1 + position_of(entries.drop_first(), id)
    }
}

/// The persona that `id` resolves to, or `None` where the catalog lacks it.
pub open spec fn persona_of(entries: Entries, id: Seq<char>) -> Option<CharacterView> {
    if position_of(entries, id) < entries.len() {
        Some(entries[position_of(entries, id) as int].character)
    } else {
        None
    }
}

/// The entries after `character` came in under `id`: a known id keeps its
/// place and gets the new persona, a new id goes to the end.
pub open spec fn inserted(entries: Entries, id: Seq<char>, character: CharacterView) -> Entries {
    if position_of(entries, id) < entries.len() {
        entries.update(position_of(entries, id) as int, CatalogEntryView { id, character })
    } else {
        entries.push(CatalogEntryView { id, character })
    }
}

/// The id under which a persona file is catalogued: its name up to the first dot.
pub open spec fn id_of_file_name(file_name: Seq<char>) -> Seq<char> {
    before_first(file_name, '.')
}

/// The catalog that a list of persona files gives: each file that holds a
/// persona is inserted under the id of its name, in the order of the list;
/// files without a persona are passed over.
pub open spec fn loaded(files: Seq<PersonaFileView>) -> Entries
    decreases files.len(),
{
    if files.len() == 0 {
        Seq::empty()
    } else {
        let earlier = loaded(files.drop_last());
        match files.last().character {
            Some(character) => inserted(earlier, id_of_file_name(files.last().file_name), character),
            None => earlier,
        }
    }
}

/// `position_of` finds the entry: nothing in front of it has the id.
pub proof fn lemma_position_of_is(entries: Entries, id: Seq<char>, at: nat)
    requires
        at <= entries.len(),
        forall|j: int| 0 <= j < at ==> (#[trigger] entries[j]).id != id,
        at == entries.len() || entries[at as int].id == id,
    ensures
        position_of(entries, id) == at,
    decreases at,
{
    if at > 0 {
        let rest = entries.drop_first();
        assert forall|j: int| 0 <= j < at - 1 implies (#[trigger] rest[j]).id != id by {
            assert(rest[j] == entries[j + 1]);
        }
        if at < entries.len() {
            assert(rest[at - 1] == entries[at as int]);
        }
        lemma_position_of_is(rest, id, (at - 1) as nat);
    }
}

/// What `position_of` returns: a position within bounds or the length, with
/// no entry of that id in front of it.
pub proof fn lemma_position_of_bounds(entries: Entries, id: Seq<char>)
    ensures
        position_of(entries, id) <= entries.len(),
        forall|j: int| 0 <= j < position_of(entries, id) ==> (#[trigger] entries[j]).id != id,
        position_of(entries, id) < entries.len() ==> entries[position_of(entries, id) as int].id
            == id,
    decreases entries.len(),
{
    if !(entries.len() == 0 || entries[0].id == id) {
        let rest = entries.drop_first();
        lemma_position_of_bounds(rest, id);
        let n = position_of(rest, id);
        assert forall|j: int| 0 <= j < n + 1 implies (#[trigger] entries[j]).id != id by {
            if j > 0 {
                assert(rest[j - 1] == entries[j]);
            }
        }
        if n < rest.len() {
            assert(rest[n as int] == entries[n as int + 1]);
        }
    }
}

/// Inserting makes the id resolve to the persona just inserted, leaves every
/// other id as it was, and keeps the ids distinct. The catalog never shrinks.
pub proof fn lemma_inserted(
    entries: Entries,
    id: Seq<char>,
    character: CharacterView,
    other: Seq<char>,
)
    ensures
        persona_of(inserted(entries, id, character), id) == Some(character),
        other != id ==> persona_of(inserted(entries, id, character), other) == persona_of(
            entries,
            other,
        ),
        ids_distinct(entries) ==> ids_distinct(inserted(entries, id, character)),
        inserted(entries, id, character).len() >= entries.len(),
{
    let after = inserted(entries, id, character);
    lemma_position_of_bounds(entries, id);
    lemma_position_of_bounds(entries, other);
    let at = position_of(entries, id);
    let at_other = position_of(entries, other);
    assert forall|j: int| 0 <= j < at implies (#[trigger] after[j]).id != id by {
        assert(after[j] == entries[j]);
    }
    lemma_position_of_is(after, id, at);
    if other != id {
        assert forall|j: int| 0 <= j < at_other implies (#[trigger] after[j]).id != other by {
            if j != at {
                assert(after[j] == entries[j]);
            }
        }
        if at_other < entries.len() {
            assert(after[at_other as int] == entries[at_other as int]);
            lemma_position_of_is(after, other, at_other);
        } else {
            lemma_position_of_is(after, other, after.len());
        }
    }
    if ids_distinct(entries) {
        assert forall|i: int, j: int| 0 <= i < j < after.len() implies (#[trigger] after[i]).id != (
        #[trigger] after[j]).id by {
            if j < entries.len() {
                assert(after[i].id == entries[i].id);
                assert(after[j].id == entries[j].id);
            } else {
                assert(after[i] == entries[i]);
            }
        }
    }
}

/// The persona catalog: a mapping from persona id to persona, filled once and
/// read from then on. A catalog that starts empty keeps its ids distinct
/// ([`ids_distinct`]), and there is no way to remove a persona.
pub struct PersonaCatalog {
    entries: Vec<CatalogEntry>,
}

impl View for PersonaCatalog {
    type V = Entries;

    closed spec fn view(&self) -> Entries {
        self.entries@.map_values(|e: CatalogEntry| e@)
    }
}

impl PersonaCatalog {
    /// A catalog without personas.
    pub fn new() -> (catalog: PersonaCatalog)
        ensures
            catalog@ == Seq::<CatalogEntryView>::empty(),
            ids_distinct(catalog@),
    {
        let entries: Vec<CatalogEntry> = Vec::new();
        assert(entries@.map_values(|e: CatalogEntry| e@) =~= Seq::<CatalogEntryView>::empty());
        PersonaCatalog { entries }
    }

    /// The number of personas.
    pub fn len(&self) -> (count: usize)
        ensures
            count == self@.len(),
    {
        self.entries.len()
    }

    /// The entry at `index`, in the catalog's order.
    pub fn entry(&self, index: usize) -> (entry: &CatalogEntry)
        requires
            index < self@.len(),
        ensures
            entry@ == self@[index as int],
    {
        &self.entries[index]
    }

    fn find(&self, id: &str) -> (at: usize)
        ensures
            at == position_of(self@, id@),
            at <= self@.len(),
    {
        let wanted = String::from_str(id);
        let mut at: usize = 0;
        while at < self.entries.len() && !(self.entries[at].id == wanted)
            invariant
                at <= self.entries.len(),
                wanted@ == id@,
                forall|j: int| 0 <= j < at ==> (#[trigger] self@[j]).id != id@,
            decreases self.entries.len() - at,
        {
            at = at + 1;
        }
        proof {
            lemma_position_of_is(self@, id@, at as nat);
        }
        at
    }

    /// The persona that `id` resolves to, or `None` where the catalog lacks it.
    pub fn get(&self, id: &str) -> (found: Option<&Character>)
        ensures
            match found {
                Some(character) => persona_of(self@, id@) == Some(character@),
                None => persona_of(self@, id@) is None,
            },
    {
        let at = self.find(id);
        if at < self.entries.len() {
            Some(&self.entries[at].character)
        } else {
            None
        }
    }

    /// Puts `character` into the catalog under `id`. A persona that was there
    /// under the same id is replaced.
    pub fn insert(&mut self, id: String, character: Character)
        ensures
            final(self)@ == inserted(old(self)@, id@, character@),
            ids_distinct(old(self)@) ==> ids_distinct(final(self)@),
    {
        proof {
            lemma_inserted(self@, id@, character@, id@);
        }
        let at = self.find(id.as_str());
        let ghost after = inserted(self@, id@, character@);
        if at < self.entries.len() {
            self.entries.set(at, CatalogEntry { id, character });
        } else {
            self.entries.push(CatalogEntry { id, character });
        }
        assert(self@ =~= after);
    }
}

impl Character {
    /// Builds the catalog from the persona files that were found. A file that
    /// holds a persona is catalogued under its name up to the first dot; a
    /// file that could not be loaded is passed over.
    pub fn load_all(files: Vec<PersonaFile>) -> (catalog: PersonaCatalog)
        ensures
            catalog@ == loaded(file_views(files@)),
            ids_distinct(catalog@),
    {
        let ghost listed = files@;
        let ghost mut done: int = 0;
        let mut catalog = PersonaCatalog::new();
        for file in it: files.into_iter()
            invariant
                it.seq() == listed,
                done == it.index(),
                catalog@ == loaded(file_views(listed.take(done))),
                ids_distinct(catalog@),
        {
            proof {
                let now = file_views(listed.take(done + 1));
                assert(now.drop_last() =~= file_views(listed.take(done)));
                assert(now.last() == file@);
                done = done + 1;
            }
            let PersonaFile { file_name, character } = file;
            match character {
                Some(persona) => {
                    let id = take_before_first(file_name.as_str(), '.');
                    catalog.insert(id, persona);
                },
                None => {},
            }
        }
        assert(listed.take(done) =~= listed);
        catalog
    }
}

} // verus!
