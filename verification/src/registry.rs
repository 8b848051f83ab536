//! The session registry: which persona, if any, is bound to each channel.

use std::collections::HashMap;
use vstd::prelude::*;
use vstd::string::*;

verus! {

broadcast use vstd::std_specs::hash::group_hash_axioms;

/// The binding table as a mathematical map from channel id to persona id.
pub type Bindings = Map<u64, Seq<char>>;

/// The table after `persona` is bound to `channel`.
pub open spec fn bound(table: Bindings, channel: u64, persona: Seq<char>) -> Bindings {
    table.insert(channel, persona)
}

/// The table after the binding of `channel`, if any, is removed.
pub open spec fn unbound(table: Bindings, channel: u64) -> Bindings {
    table.remove(channel)
}

/// The persona bound to `channel`, or `None` where there is no binding.
pub open spec fn binding_of(table: Bindings, channel: u64) -> Option<Seq<char>> {
    if table.contains_key(channel) {
        Some(table[channel])
    } else {
        None
    }
}

/// Looking a channel up right after binding it gives the persona just bound.
pub proof fn lemma_bind_then_lookup(table: Bindings, channel: u64, persona: Seq<char>)
    ensures
        binding_of(bound(table, channel, persona), channel) == Some(persona),
{
}

/// After a channel is unbound, looking it up finds no binding.
pub proof fn lemma_unbind_then_lookup(table: Bindings, channel: u64)
    ensures
        binding_of(unbound(table, channel), channel) is None,
{
}

/// Binding a channel again overwrites: the table is the one that the last
/// binding alone would have given, and the lookup finds the last persona.
pub proof fn lemma_rebind_overwrites(
    table: Bindings,
    channel: u64,
    earlier: Seq<char>,
    later: Seq<char>,
)
    ensures
        bound(bound(table, channel, earlier), channel, later) == bound(table, channel, later),
        binding_of(bound(bound(table, channel, earlier), channel, later), channel) == Some(later),
{
    assert(bound(bound(table, channel, earlier), channel, later) =~= bound(table, channel, later));
}

/// Binding or unbinding one channel leaves every other channel as it was.
pub proof fn lemma_other_channels_untouched(
    table: Bindings,
    channel: u64,
    persona: Seq<char>,
    other: u64,
)
    requires
        other != channel,
    ensures
        binding_of(bound(table, channel, persona), other) == binding_of(table, other),
        binding_of(unbound(table, channel), other) == binding_of(table, other),
{
}

/// The channel-to-persona binding table. Each channel has at most one entry.
pub struct SessionRegistry {
    bindings: HashMap<u64, String>,
}

impl View for SessionRegistry {
    type V = Bindings;

    closed spec fn view(&self) -> Bindings {
        self.bindings@.map_values(|persona: String| persona@)
    }
}

impl SessionRegistry {
    /// A registry without bindings.
    pub fn new() -> (registry: SessionRegistry)
        ensures
            registry@ == Map::<u64, Seq<char>>::empty(),
    {
        let registry = SessionRegistry { bindings: HashMap::new() };
        assert(registry@ =~= Map::<u64, Seq<char>>::empty());
        registry
    }

    /// Binds `persona` to `channel`, replacing whatever was bound before. The
    /// persona id is not checked against any catalog.
    pub fn bind(&mut self, channel: u64, persona: String)
        ensures
            final(self)@ == bound(old(self)@, channel, persona@),
    {
        self.bindings.insert(channel, persona);
        assert(self@ =~= bound(old(self)@, channel, persona@));
    }

    /// Removes the binding of `channel` and tells whether there was one.
    pub fn unbind(&mut self, channel: u64) -> (existed: bool)
        ensures
            existed == old(self)@.contains_key(channel),
            final(self)@ == unbound(old(self)@, channel),
    {
        let removed = self.bindings.remove(&channel);
        assert(self@ =~= unbound(old(self)@, channel));
        removed.is_some()
    }

    /// The persona bound to `channel`, or `None` where there is no binding.
    pub fn lookup(&self, channel: u64) -> (persona: Option<String>)
        ensures
            match persona {
                Some(id) => binding_of(self@, channel) == Some(id@),
                None => binding_of(self@, channel) is None,
            },
    {
        match self.bindings.get(&channel) {
            Some(id) => Some(id.clone()),
            None => None,
        }
    }
}

} // verus!
