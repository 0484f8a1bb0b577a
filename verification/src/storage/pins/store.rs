//! The collection of pins, with case-insensitive unique aliases.

use vstd::prelude::*;
use crate::storage::pins::pin::Pin;
use crate::storage::pins::resource_type::ResourceType;
use crate::storage::scoring::{is_pin_match, pin_match, PinMatch};
use crate::text::{lowercase, owned, push_str, to_lower};

verus! {

#[derive(Debug)]
pub enum PinError {
    NotFound(String),
    AlreadyExists(String),
}

impl PinError {
    /// The error's message.
    pub fn message(&self) -> (m: String)
        ensures
            m@ == match self {
                PinError::NotFound(x) => "Pin not found: "@ + x@,
                PinError::AlreadyExists(x) => "Pin already exists with alias: "@ + x@,
            },
    {
        match self {
            PinError::NotFound(x) => {
                let mut m = owned("Pin not found: ");
                push_str(&mut m, x.as_str());
                m
            },
            PinError::AlreadyExists(x) => {
                let mut m = owned("Pin already exists with alias: ");
                push_str(&mut m, x.as_str());
                m
            },
        }
    }
}

/// Pins in the order they were added.
#[derive(Debug)]
pub struct PinStore {
    pins: Vec<Pin>,
}

impl View for PinStore {
    type V = Seq<Pin>;

    closed spec fn view(&self) -> Seq<Pin> {
        self.pins@
    }
}

/// The key under which aliases are compared: their lowercase form.
pub open spec fn alias_key(p: Pin) -> Seq<char> {
    lowercase(p.alias@)
}

/// No two pins share an alias, ignoring case.
pub open spec fn aliases_unique(s: Seq<Pin>) -> bool {
    forall|i: int, j: int|
        0 <= i < s.len() && 0 <= j < s.len() && i != j ==> alias_key(s[i]) != alias_key(s[j])
}

/// Some pin of `s` has the alias key `key`.
pub open spec fn has_alias_key(s: Seq<Pin>, key: Seq<char>) -> bool {
    exists|i: int| 0 <= i < s.len() && alias_key(s[i]) == key
}

/// `p` is addressed by `q`: by its alias, ignoring case, or by its id.
pub open spec fn pin_matches(p: Pin, q: Seq<char>) -> bool {
    alias_key(p) == lowercase(q) || p.id@ == q
}

/// Index of the first pin addressed by `q`, or `s.len()`.
pub open spec fn first_match(s: Seq<Pin>, q: Seq<char>) -> int
    decreases s.len(),
{
    if s.len() == 0 {
        0
    } else if pin_matches(s[0], q) {
        0
    } else {
        1 + first_match(s.drop_first(), q)
    }
}

/// Index of the first pin whose alias key is `key`, or `s.len()`.
pub open spec fn first_alias(s: Seq<Pin>, key: Seq<char>) -> int
    decreases s.len(),
{
    if s.len() == 0 {
        0
    } else if alias_key(s[0]) == key {
        0
    } else {
        1 + first_alias(s.drop_first(), key)
    }
}

/// The pin passes the kind filter.
pub open spec fn keeps(p: Pin, f: Option<ResourceType>) -> bool {
    match f {
        None => true,
        Some(t) => p.resource_type == t,
    }
}

/// The pins of `s` that pass the kind filter, in order.
pub open spec fn filter_pins(s: Seq<Pin>, f: Option<ResourceType>) -> Seq<Pin>
    decreases s.len(),
{
    if s.len() == 0 {
        Seq::empty()
    } else {
        let r = filter_pins(s.drop_last(), f);
        if keeps(s.last(), f) {
            r.push(s.last())
        } else {
            r
        }
    }
}

pub proof fn lemma_first_match_bounds(s: Seq<Pin>, q: Seq<char>)
    ensures
        0 <= first_match(s, q) <= s.len(),
        first_match(s, q) < s.len() ==> pin_matches(s[first_match(s, q)], q),
        forall|k: int| 0 <= k < first_match(s, q) ==> !pin_matches(#[trigger] s[k], q),
    decreases s.len(),
{
    if s.len() > 0 && !pin_matches(s[0], q) {
        lemma_first_match_bounds(s.drop_first(), q);
        assert forall|k: int| 0 <= k < first_match(s, q) implies !pin_matches(#[trigger] s[k], q) by {
            if k > 0 {
                assert(s.drop_first()[k - 1] == s[k]);
            }
        }
    }
}

pub proof fn lemma_first_alias_bounds(s: Seq<Pin>, key: Seq<char>)
    ensures
        0 <= first_alias(s, key) <= s.len(),
        first_alias(s, key) < s.len() ==> alias_key(s[first_alias(s, key)]) == key,
        forall|k: int| 0 <= k < first_alias(s, key) ==> alias_key(#[trigger] s[k]) != key,
    decreases s.len(),
{
    if s.len() > 0 && alias_key(s[0]) != key {
        lemma_first_alias_bounds(s.drop_first(), key);
        assert forall|k: int| 0 <= k < first_alias(s, key) implies alias_key(#[trigger] s[k]) != key by {
            if k > 0 {
                assert(s.drop_first()[k - 1] == s[k]);
            }
        }
    }
}

/// A pin just added is what a lookup of its alias finds: after a
/// successful `add(p)` (no pin had its alias), `find_by_alias(p.alias)`
/// gives `p`.
pub proof fn lemma_add_then_find(s: Seq<Pin>, p: Pin)
    requires
        !has_alias_key(s, alias_key(p)),
    ensures
        first_alias(s.push(p), alias_key(p)) == s.len(),
        s.push(p)[s.len() as int] == p,
{
    lemma_first_alias_bounds(s.push(p), alias_key(p));
    let k = first_alias(s.push(p), alias_key(p));
    if k < s.len() {
        assert(s.push(p)[k] == s[k]);
        assert(alias_key(s[k]) == alias_key(p));
        assert(has_alias_key(s, alias_key(p)));
    }
}

/// With unique aliases, a pin removed by its alias is gone: no pin left
/// has that alias.
pub proof fn lemma_remove_then_absent(s: Seq<Pin>, k: int)
    requires
        aliases_unique(s),
        0 <= k < s.len(),
    ensures
        !has_alias_key(s.remove(k), alias_key(s[k])),
        aliases_unique(s.remove(k)),
{
    let r = s.remove(k);
    assert forall|i: int| 0 <= i < r.len() implies alias_key(#[trigger] r[i]) != alias_key(s[k]) by {
        if i < k {
            assert(r[i] == s[i]);
        } else {
            assert(r[i] == s[i + 1]);
        }
    }
    assert forall|i: int, j: int|
        0 <= i < r.len() && 0 <= j < r.len() && i != j implies alias_key(r[i]) != alias_key(r[j]) by {
        let si = if i < k { i } else { i + 1 };
        let sj = if j < k { j } else { j + 1 };
        assert(r[i] == s[si]);
        assert(r[j] == s[sj]);
    }
}

impl Default for PinStore {
    fn default() -> (r: Self)
        ensures
            r@ == Seq::<Pin>::empty(),
    {
        PinStore { pins: Vec::new() }
    }
}

impl PinStore {
    /// A store holding the given pins, in order (as read from disk).
    pub fn from_pins(pins: Vec<Pin>) -> (r: Self)
        ensures
            r@ == pins@,
    {
        PinStore { pins }
    }

    /// Index of the first pin whose alias key is `key`.
    fn position_of_alias(&self, key: &String) -> (r: usize)
        ensures
            r == first_alias(self@, key@),
    {
        let mut i: usize = 0;
        proof { lemma_first_alias_bounds(self@, key@); }
        while i < self.pins.len()
            invariant
                i <= self@.len(),
                self@ == self.pins@,
                first_alias(self@, key@) >= i,
                forall|k: int| 0 <= k < i ==> alias_key(#[trigger] self@[k]) != key@,
                0 <= first_alias(self@, key@) <= self@.len(),
                first_alias(self@, key@) < self@.len() ==> alias_key(self@[first_alias(self@, key@)]) == key@,
                forall|k: int| 0 <= k < first_alias(self@, key@) ==> alias_key(#[trigger] self@[k]) != key@,
            decreases self.pins.len() - i,
        {
            let l = to_lower(self.pins[i].alias.as_str());
            if l == *key {
                return i;
            }
            i = i + 1;
        }
        i
    }

    /// Adds a pin; refused when another pin has the same alias, ignoring case.
    pub fn add(&mut self, pin: Pin) -> (r: Result<(), PinError>)
        ensures
            r is Ok <==> !has_alias_key(old(self)@, alias_key(pin)),
            r is Ok ==> final(self)@ == old(self)@.push(pin),
            r matches Err(e) ==> final(self)@ == old(self)@,
            r matches Err(e) ==> (e matches PinError::AlreadyExists(a) && a@ == pin.alias@),
            aliases_unique(old(self)@) ==> aliases_unique(final(self)@),
    {
        let key = to_lower(pin.alias.as_str());
        let idx = self.position_of_alias(&key);
        proof { lemma_first_alias_bounds(self@, key@); }
        if idx < self.pins.len() {
            return Err(PinError::AlreadyExists(pin.alias));
        }
        let ghost before = self@;
        self.pins.push(pin);
        proof {
            assert(self@ == before.push(pin));
            if aliases_unique(before) {
                assert forall|i: int, j: int|
                    0 <= i < self@.len() && 0 <= j < self@.len() && i != j implies alias_key(
                    self@[i],
                ) != alias_key(self@[j]) by {
                    if i < before.len() && j < before.len() {
                        assert(self@[i] == before[i]);
                        assert(self@[j] == before[j]);
                    } else if i == before.len() {
                        assert(self@[j] == before[j]);
                    } else {
                        assert(self@[i] == before[i]);
                    }
                }
            }
        }
        Ok(())
    }

    /// Removes the first pin addressed by alias (ignoring case) or by id.
    pub fn remove(&mut self, alias_or_id: &str) -> (r: Result<Pin, PinError>)
        ensures
            match r {
                Ok(p) => {
                    let k = first_match(old(self)@, alias_or_id@);
                    &&& k < old(self)@.len()
                    &&& p == old(self)@[k]
                    &&& final(self)@ == old(self)@.remove(k)
                },
                Err(e) => {
                    &&& forall|k: int|
                        0 <= k < old(self)@.len() ==> !pin_matches(#[trigger] old(self)@[k], alias_or_id@)
                    &&& final(self)@ == old(self)@
                    &&& (e matches PinError::NotFound(q) && q@ == alias_or_id@)
                },
            },
    {
        let lower = to_lower(alias_or_id);
        let target = owned(alias_or_id);
        let mut i: usize = 0;
        proof { lemma_first_match_bounds(self@, alias_or_id@); }
        while i < self.pins.len()
            invariant
                i <= self@.len(),
                self@ == self.pins@,
                self@ == old(self)@,
                lower@ == lowercase(alias_or_id@),
                target@ == alias_or_id@,
                forall|k: int| 0 <= k < i ==> !pin_matches(#[trigger] self@[k], alias_or_id@),
            decreases self.pins.len() - i,
        {
            let l = to_lower(self.pins[i].alias.as_str());
            if l == lower || self.pins[i].id == target {
                proof {
                    lemma_first_match_bounds(self@, alias_or_id@);
                    assert(pin_matches(self@[i as int], alias_or_id@));
                }
                let removed = self.pins.remove(i);
                return Ok(removed);
            }
            i = i + 1;
        }
        Err(PinError::NotFound(owned(alias_or_id)))
    }

    /// The pins of the given kind (all pins when no kind is given), in order.
    pub fn list(&self, filter_type: Option<ResourceType>) -> (r: Vec<&Pin>)
        ensures
            r@.map_values(|p: &Pin| *p) == filter_pins(self@, filter_type),
    {
        let mut out: Vec<&Pin> = Vec::new();
        let mut i: usize = 0;
        while i < self.pins.len()
            invariant
                i <= self@.len(),
                self@ == self.pins@,
                out@.map_values(|p: &Pin| *p) == filter_pins(self@.take(i as int), filter_type),
            decreases self.pins.len() - i,
        {
            let p = &self.pins[i];
            let keep = match filter_type {
                None => true,
                Some(t) => p.resource_type == t,
            };
            assert(self@.take(i + 1).drop_last() == self@.take(i as int));
            if keep {
                out.push(p);
            }
            i = i + 1;
        }
        assert(self@.take(self@.len() as int) == self@);
        out
    }

    /// The first pin whose alias matches, ignoring case.
    pub fn find_by_alias(&self, alias: &str) -> (r: Option<&Pin>)
        ensures
            ({
                let k = first_alias(self@, lowercase(alias@));
                match r {
                    Some(p) => k < self@.len() && *p == self@[k],
                    None => !has_alias_key(self@, lowercase(alias@)),
                }
            }),
    {
        let key = to_lower(alias);
        let idx = self.position_of_alias(&key);
        proof { lemma_first_alias_bounds(self@, key@); }
        if idx < self.pins.len() {
            Some(&self.pins[idx])
        } else {
            None
        }
    }

    /// All pins, in order.
    pub fn all(&self) -> (r: &[Pin])
        ensures
            r@ == self@,
    {
        self.pins.as_slice()
    }

    /// The facts each pin, in order, holds against `query`: its lowercased
    /// alias against the lowercased query, and its lowercased tags against
    /// the query's words. Scores are weighed from these by the caller.
    pub fn fuzzy_facts(&self, query: &str) -> (r: Vec<PinMatch>)
        ensures
            r@.len() == self@.len(),
            forall|i: int|
                0 <= i < self@.len() ==> is_pin_match(
                    #[trigger] r@[i],
                    self@[i].alias@,
                    self@[i].tags@,
                    lowercase(query@),
                ),
    {
        let q = to_lower(query);
        let mut r: Vec<PinMatch> = Vec::new();
        let mut i: usize = 0;
        while i < self.pins.len()
            invariant
                i <= self@.len(),
                self@ == self.pins@,
                q@ == lowercase(query@),
                r@.len() == i,
                forall|k: int|
                    0 <= k < i ==> is_pin_match(#[trigger] r@[k], self@[k].alias@, self@[k].tags@, q@),
            decreases self.pins.len() - i,
        {
            let m = pin_match(self.pins[i].alias.as_str(), &self.pins[i].tags, q.as_str());
            r.push(m);
            i = i + 1;
        }
        r
    }
}

} // verus!
