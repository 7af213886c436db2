// MockRuntime: a deterministic in-memory engine.
//
// Records every DuelScriptRuntime method call into a log so tests can
// assert on what compiled effects did, and holds a minimal mutable game
// state (LP, hand/deck/graveyard/field per player, bindings, flags,
// counters) that effects read and write through the trait.
//
// Selection is deterministic: the first N candidates are picked.

use vstd::prelude::*;
use super::runtime::{option_texts, CardFilter, DamageType, Duration, DuelScriptRuntime, EngineCall, Stat, TokenSpec};
use super::text::{
    contains_seq, decimal, digits, id_list, push_char, push_digits, push_i64, push_id_list, push_str, str_contains, str_eq,
    string_from,
};

verus! {

// ── Recorded calls ───────────────────────────────────────────

/// One method call recorded by the MockRuntime.
#[derive(Debug, Clone, PartialEq)]
pub struct RuntimeCall {
    pub method: String,
    pub args: String,
}

// ── Card snapshots ───────────────────────────────────────────

/// A stand-in for a real card: enough to answer stat, filter and
/// predicate queries.
#[derive(Debug)]
pub struct CardSnapshot {
    pub id: u32,
    pub name: String,
    pub atk: i32,
    pub def: i32,
    pub level: u32,
    pub is_monster: bool,
    pub is_spell: bool,
    pub is_trap: bool,
    /// RACE_* bitmask, 0 when unknown.
    pub race: u64,
    /// ATTRIBUTE_* bitmask, 0 when unknown.
    pub attribute: u64,
    /// TYPE_* bitmask.
    pub type_bits: u64,
    /// Archetype names of the card.
    pub archetypes: Vec<String>,
}

fn clone_strings(v: &Vec<String>) -> (r: Vec<String>)
    ensures
        r@ == v@,
{
    let mut r: Vec<String> = Vec::new();
    let mut i: usize = 0;
    while i < v.len()
        invariant
            i <= v@.len(),
            r@ == v@.take(i as int),
        decreases v.len() - i,
    {
        r.push(v[i].clone());
        i += 1;
        proof {
            assert(r@ =~= v@.take(i as int));
        }
    }
    proof {
        assert(v@.take(v@.len() as int) =~= v@);
    }
    r
}

impl Clone for CardSnapshot {
    fn clone(&self) -> (r: Self)
        ensures
            r.id == self.id,
            r.name@ == self.name@,
            r.atk == self.atk,
            r.def == self.def,
            r.level == self.level,
            r.is_monster == self.is_monster,
            r.is_spell == self.is_spell,
            r.is_trap == self.is_trap,
            r.race == self.race,
            r.attribute == self.attribute,
            r.type_bits == self.type_bits,
            r.archetypes@ == self.archetypes@,
    {
        CardSnapshot {
            id: self.id,
            name: self.name.clone(),
            atk: self.atk,
            def: self.def,
            level: self.level,
            is_monster: self.is_monster,
            is_spell: self.is_spell,
            is_trap: self.is_trap,
            race: self.race,
            attribute: self.attribute,
            type_bits: self.type_bits,
            archetypes: clone_strings(&self.archetypes),
        }
    }
}

impl CardSnapshot {
    /// An effect monster (TYPE_MONSTER | TYPE_EFFECT).
    pub fn monster(id: u32, name: &str, atk: i32, def: i32, level: u32) -> (r: Self)
        ensures
            r.id == id,
            r.name@ == name@,
            r.atk == atk,
            r.def == def,
            r.level == level,
            r.is_monster && !r.is_spell && !r.is_trap,
            r.race == 0 && r.attribute == 0,
            r.type_bits == 0x21,
            r.archetypes@.len() == 0,
    {
        CardSnapshot {
            id,
            name: name.to_owned(),
            atk,
            def,
            level,
            is_monster: true,
            is_spell: false,
            is_trap: false,
            race: 0,
            attribute: 0,
            type_bits: 0x21,
            archetypes: Vec::new(),
        }
    }

    /// A spell card (TYPE_SPELL).
    pub fn spell(id: u32, name: &str) -> (r: Self)
        ensures
            r.id == id,
            r.name@ == name@,
            r.atk == 0 && r.def == 0 && r.level == 0,
            !r.is_monster && r.is_spell && !r.is_trap,
            r.race == 0 && r.attribute == 0,
            r.type_bits == 0x2,
            r.archetypes@.len() == 0,
    {
        CardSnapshot {
            id,
            name: name.to_owned(),
            atk: 0,
            def: 0,
            level: 0,
            is_monster: false,
            is_spell: true,
            is_trap: false,
            race: 0,
            attribute: 0,
            type_bits: 0x2,
            archetypes: Vec::new(),
        }
    }

    /// A trap card (TYPE_TRAP).
    pub fn trap(id: u32, name: &str) -> (r: Self)
        ensures
            r.id == id,
            r.name@ == name@,
            r.atk == 0 && r.def == 0 && r.level == 0,
            !r.is_monster && !r.is_spell && r.is_trap,
            r.race == 0 && r.attribute == 0,
            r.type_bits == 0x4,
            r.archetypes@.len() == 0,
    {
        CardSnapshot {
            id,
            name: name.to_owned(),
            atk: 0,
            def: 0,
            level: 0,
            is_monster: false,
            is_spell: false,
            is_trap: true,
            race: 0,
            attribute: 0,
            type_bits: 0x4,
            archetypes: Vec::new(),
        }
    }

    /// The same card with the given RACE_* bitmask.
    pub fn with_race(self, race_bits: u64) -> (r: Self)
        ensures
            r == (CardSnapshot { race: race_bits, ..self }),
    {
        let mut s = self;
        s.race = race_bits;
        s
    }

    /// The same card with the given ATTRIBUTE_* bitmask.
    pub fn with_attribute(self, attr_bits: u64) -> (r: Self)
        ensures
            r == (CardSnapshot { attribute: attr_bits, ..self }),
    {
        let mut s = self;
        s.attribute = attr_bits;
        s
    }

    /// The same card with one more archetype.
    pub fn with_archetype(self, name: &str) -> (r: Self)
        ensures
            r.archetypes@.len() == self.archetypes@.len() + 1,
            r.archetypes@.drop_last() == self.archetypes@,
            r.archetypes@.last()@ == name@,
            r == (CardSnapshot { archetypes: r.archetypes, ..self }),
    {
        let mut s = self;
        s.archetypes.push(name.to_owned());
        proof {
            assert(s.archetypes@.drop_last() =~= self.archetypes@);
        }
        s
    }

    /// The same card with its TYPE_* bitmask replaced.
    pub fn with_type(self, type_bits: u64) -> (r: Self)
        ensures
            r == (CardSnapshot { type_bits: type_bits, ..self }),
    {
        let mut s = self;
        s.type_bits = type_bits;
        s
    }
}

// ── Player state ─────────────────────────────────────────────

#[derive(Debug)]
pub struct PlayerState {
    pub lp: i32,
    pub hand: Vec<u32>,
    pub deck: Vec<u32>,
    pub graveyard: Vec<u32>,
    pub banished: Vec<u32>,
    pub field_monsters: Vec<u32>,
    pub field_spells: Vec<u32>,
}

impl Clone for PlayerState {
    fn clone(&self) -> (r: Self)
        ensures
            r.lp == self.lp,
            r.hand@ == self.hand@,
            r.deck@ == self.deck@,
            r.graveyard@ == self.graveyard@,
            r.banished@ == self.banished@,
            r.field_monsters@ == self.field_monsters@,
            r.field_spells@ == self.field_spells@,
    {
        PlayerState {
            lp: self.lp,
            hand: self.hand.clone(),
            deck: self.deck.clone(),
            graveyard: self.graveyard.clone(),
            banished: self.banished.clone(),
            field_monsters: self.field_monsters.clone(),
            field_spells: self.field_spells.clone(),
        }
    }
}

/// 8000 LP and every zone empty.
pub open spec fn is_fresh_player(ps: PlayerState) -> bool {
    &&& ps.lp == 8000
    &&& ps.hand@.len() == 0
    &&& ps.deck@.len() == 0
    &&& ps.graveyard@.len() == 0
    &&& ps.banished@.len() == 0
    &&& ps.field_monsters@.len() == 0
    &&& ps.field_spells@.len() == 0
}

impl PlayerState {
    /// 8000 LP and every zone empty.
    pub fn fresh() -> (r: Self)
        ensures
            is_fresh_player(r),
    {
        PlayerState {
            lp: 8000,
            hand: Vec::new(),
            deck: Vec::new(),
            graveyard: Vec::new(),
            banished: Vec::new(),
            field_monsters: Vec::new(),
            field_spells: Vec::new(),
        }
    }
}

// ── Mock game state ──────────────────────────────────────────

/// The first snapshot in `cards` with the given id.
pub open spec fn find_card(cards: Seq<CardSnapshot>, id: u32) -> Option<CardSnapshot>
    decreases cards.len(),
{
    if cards.len() == 0 {
        None
    } else if cards[0].id == id {
        Some(cards[0])
    } else {
        find_card(cards.drop_first(), id)
    }
}

/// The state of a mock duel.
#[derive(Debug)]
pub struct MockState {
    pub players: [PlayerState; 2],
    /// Registered cards; at most one per id (`add_card` replaces).
    pub cards: Vec<CardSnapshot>,
    /// Flag log: (card id, flag name, set); the latest entry wins.
    pub flags: Vec<(u32, String, bool)>,
    /// Counter log: (card id, counter name, count); the latest entry wins.
    pub counters: Vec<(u32, String, u32)>,
    /// Binding log of the resolving effect; the latest entry of a name wins.
    pub bindings: Vec<(String, Vec<u32>)>,
    /// The last selected group, used by `bind_last_selection`.
    pub last_selection: Vec<u32>,
}

fn card_index(cards: &Vec<CardSnapshot>, id: u32) -> (r: Option<usize>)
    ensures
        match r {
            Some(i) => i < cards@.len() && cards@[i as int].id == id && find_card(cards@, id) == Some(
                cards@[i as int],
            ) && forall|j: int| 0 <= j < i ==> cards@[j].id != id,
            None => find_card(cards@, id) is None,
        },
{
    let mut i: usize = 0;
    proof {
        assert(cards@.skip(0) =~= cards@);
    }
    while i < cards.len()
        invariant
            i <= cards@.len(),
            find_card(cards@, id) == find_card(cards@.skip(i as int), id),
            forall|j: int| 0 <= j < i ==> cards@[j].id != id,
        decreases cards.len() - i,
    {
        proof {
            assert(cards@.skip(i as int).drop_first() =~= cards@.skip(i + 1));
        }
        if cards[i].id == id {
            return Some(i);
        }
        i += 1;
    }
    None
}

/// Both players fresh and nothing registered, flagged, counted or bound.
pub open spec fn is_fresh_state(st: MockState) -> bool {
    &&& is_fresh_player(st.players[0])
    &&& is_fresh_player(st.players[1])
    &&& st.cards@.len() == 0
    &&& st.flags@.len() == 0
    &&& st.counters@.len() == 0
    &&& st.bindings@.len() == 0
    &&& st.last_selection@.len() == 0
}

impl MockState {
    /// Both players fresh, nothing registered.
    pub fn new() -> (r: Self)
        ensures
            is_fresh_state(r),
    {
        MockState {
            players: [PlayerState::fresh(), PlayerState::fresh()],
            cards: Vec::new(),
            flags: Vec::new(),
            counters: Vec::new(),
            bindings: Vec::new(),
            last_selection: Vec::new(),
        }
    }

    /// Register a card; a card already registered under the same id is
    /// replaced.
    pub fn add_card(&mut self, snap: CardSnapshot)
        ensures
            find_card(final(self).cards@, snap.id) == Some(snap),
            forall|id: u32| id != snap.id ==> find_card(final(self).cards@, id) == find_card(old(self).cards@, id),
            final(self).players == old(self).players,
            final(self).flags == old(self).flags,
            final(self).counters == old(self).counters,
            final(self).bindings == old(self).bindings,
            final(self).last_selection == old(self).last_selection,
    {
        let id = snap.id;
        match card_index(&self.cards, id) {
            Some(i) => {
                let ghost before = self.cards@;
                self.cards.set(i, snap);
                proof {
                    lemma_find_card_update(before, i as int, self.cards@[i as int]);
                }
            },
            None => {
                let ghost before = self.cards@;
                self.cards.push(snap);
                proof {
                    lemma_find_card_push(before, self.cards@.last());
                }
            },
        }
    }
}

proof fn lemma_find_card_update(cards: Seq<CardSnapshot>, i: int, c: CardSnapshot)
    requires
        0 <= i < cards.len(),
        cards[i].id == c.id,
        forall|j: int| 0 <= j < i ==> cards[j].id != c.id,
    ensures
        find_card(cards.update(i, c), c.id) == Some(c),
        forall|id: u32| id != c.id ==> find_card(cards.update(i, c), id) == find_card(cards, id),
    decreases cards.len(),
{
    let u = cards.update(i, c);
    if i == 0 {
        assert(u.drop_first() =~= cards.drop_first());
        assert forall|id: u32| id != c.id implies find_card(u, id) == find_card(cards, id) by {
            assert(u[0].id != id);
            assert(cards[0].id != id);
        }
    } else {
        assert(u.drop_first() =~= cards.drop_first().update(i - 1, c));
        assert(u[0] == cards[0]);
        lemma_find_card_update(cards.drop_first(), i - 1, c);
        assert forall|id: u32| id != c.id implies find_card(u, id) == find_card(cards, id) by {
            if cards[0].id != id {
                assert(find_card(u, id) == find_card(u.drop_first(), id));
                assert(find_card(cards.drop_first().update(i - 1, c), id) == find_card(cards.drop_first(), id));
            }
        }
    }
}

proof fn lemma_find_card_push(cards: Seq<CardSnapshot>, c: CardSnapshot)
    requires
        find_card(cards, c.id) is None,
    ensures
        find_card(cards.push(c), c.id) == Some(c),
        forall|id: u32| id != c.id ==> find_card(cards.push(c), id) == find_card(cards, id),
    decreases cards.len(),
{
    let p = cards.push(c);
    if cards.len() == 0 {
        assert(p.drop_first() =~= Seq::<CardSnapshot>::empty());
        assert(p[0] == c);
        assert forall|id: u32| id != c.id implies find_card(p, id) == find_card(cards, id) by {
            assert(find_card(p, id) == find_card(p.drop_first(), id));
        }
    } else {
        assert(p.drop_first() =~= cards.drop_first().push(c));
        assert(p[0] == cards[0]);
        lemma_find_card_push(cards.drop_first(), c);
        assert forall|id: u32| id != c.id implies find_card(p, id) == find_card(cards, id) by {
            if cards[0].id != id {
                assert(find_card(p, id) == find_card(p.drop_first(), id));
                assert(find_card(cards.drop_first().push(c), id) == find_card(cards.drop_first(), id));
            }
        }
    }
}

// ── Lookups in the latest-wins logs ──────────────────────────

/// The card list bound under `name` by the latest binding of that name.
pub open spec fn binding_lookup(bs: Seq<(String, Vec<u32>)>, name: Seq<char>) -> Option<Seq<u32>>
    decreases bs.len(),
{
    if bs.len() == 0 {
        None
    } else if bs.last().0@ == name {
        Some(bs.last().1@)
    } else {
        binding_lookup(bs.drop_last(), name)
    }
}

/// Whether the latest flag entry of (`id`, `name`) sets the flag.
pub open spec fn flag_lookup(fs: Seq<(u32, String, bool)>, id: u32, name: Seq<char>) -> bool
    decreases fs.len(),
{
    if fs.len() == 0 {
        false
    } else if fs.last().0 == id && fs.last().1@ == name {
        fs.last().2
    } else {
        flag_lookup(fs.drop_last(), id, name)
    }
}

/// The latest recorded count of counter `name` on `id` (0 when none).
pub open spec fn counter_lookup(cs: Seq<(u32, String, u32)>, id: u32, name: Seq<char>) -> u32
    decreases cs.len(),
{
    if cs.len() == 0 {
        0
    } else if cs.last().0 == id && cs.last().1@ == name {
        cs.last().2
    } else {
        counter_lookup(cs.drop_last(), id, name)
    }
}

fn find_binding(bs: &Vec<(String, Vec<u32>)>, name: &str) -> (r: Option<usize>)
    ensures
        match r {
            Some(i) => i < bs@.len() && binding_lookup(bs@, name@) == Some(bs@[i as int].1@),
            None => binding_lookup(bs@, name@) is None,
        },
{
    let mut i: usize = bs.len();
    proof {
        assert(bs@.take(bs@.len() as int) =~= bs@);
    }
    while i > 0
        invariant
            i <= bs@.len(),
            binding_lookup(bs@, name@) == binding_lookup(bs@.take(i as int), name@),
        decreases i,
    {
        proof {
            assert(bs@.take(i as int).drop_last() =~= bs@.take(i - 1));
        }
        if str_eq(bs[i - 1].0.as_str(), name) {
            return Some(i - 1);
        }
        i -= 1;
    }
    None
}

fn find_flag(fs: &Vec<(u32, String, bool)>, id: u32, name: &str) -> (r: bool)
    ensures
        r == flag_lookup(fs@, id, name@),
{
    let mut i: usize = fs.len();
    proof {
        assert(fs@.take(fs@.len() as int) =~= fs@);
    }
    while i > 0
        invariant
            i <= fs@.len(),
            flag_lookup(fs@, id, name@) == flag_lookup(fs@.take(i as int), id, name@),
        decreases i,
    {
        proof {
            assert(fs@.take(i as int).drop_last() =~= fs@.take(i - 1));
        }
        if fs[i - 1].0 == id && str_eq(fs[i - 1].1.as_str(), name) {
            return fs[i - 1].2;
        }
        i -= 1;
    }
    false
}

fn find_counter(cs: &Vec<(u32, String, u32)>, id: u32, name: &str) -> (r: u32)
    ensures
        r == counter_lookup(cs@, id, name@),
{
    let mut i: usize = cs.len();
    proof {
        assert(cs@.take(cs@.len() as int) =~= cs@);
    }
    while i > 0
        invariant
            i <= cs@.len(),
            counter_lookup(cs@, id, name@) == counter_lookup(cs@.take(i as int), id, name@),
        decreases i,
    {
        proof {
            assert(cs@.take(i as int).drop_last() =~= cs@.take(i - 1));
        }
        if cs[i - 1].0 == id && str_eq(cs[i - 1].1.as_str(), name) {
            return cs[i - 1].2;
        }
        i -= 1;
    }
    0
}

// ── Spec of the mock's zones ─────────────────────────────────

/// The cards of `p` in the LOCATION_* mask `loc`, in the order the mock
/// lists them: monsters, spells, graveyard, banished, hand, deck; with
/// mask 0 meaning the field.
pub open spec fn zone_cards(p: PlayerState, loc: u32) -> Seq<u32> {
    let m = if loc & 0x4 != 0 { p.field_monsters@ } else { Seq::empty() };
    let s = if loc & 0x8 != 0 { p.field_spells@ } else { Seq::empty() };
    let g = if loc & 0x10 != 0 { p.graveyard@ } else { Seq::empty() };
    let b = if loc & 0x20 != 0 { p.banished@ } else { Seq::empty() };
    let h = if loc & 0x2 != 0 { p.hand@ } else { Seq::empty() };
    let d = if loc & 0x1 != 0 { p.deck@ } else { Seq::empty() };
    let f = if loc == 0 { p.field_monsters@ + p.field_spells@ } else { Seq::empty() };
    m + s + g + b + h + d + f
}

fn append_all(out: &mut Vec<u32>, v: &Vec<u32>)
    ensures
        final(out)@ == old(out)@ + v@,
{
    let mut i: usize = 0;
    while i < v.len()
        invariant
            i <= v@.len(),
            out@ == old(out)@ + v@.take(i as int),
        decreases v.len() - i,
    {
        out.push(v[i]);
        i += 1;
        proof {
            assert(out@ =~= old(out)@ + v@.take(i as int));
        }
    }
    proof {
        assert(v@.take(v@.len() as int) =~= v@);
    }
}

// ── Argument rendering ───────────────────────────────────────

/// `key=v` in decimal.
pub open spec fn num_arg(key: Seq<char>, v: int) -> Seq<char> {
    key + seq!['='] + decimal(v)
}

/// `key=0x..` in hexadecimal.
pub open spec fn hex_arg(key: Seq<char>, v: nat) -> Seq<char> {
    key + seq!['=', '0', 'x'] + digits(v, 16)
}

/// `key=[a, b, ...]`.
pub open spec fn ids_arg(key: Seq<char>, ids: Seq<u32>) -> Seq<char> {
    key + seq!['='] + id_list(ids)
}

/// A character as it appears inside a quoted string: `"`, `\`, line
/// feed, tab and carriage return get a backslash escape.
pub open spec fn escaped(c: char) -> Seq<char> {
    if c == '"' {
        seq!['\\', '"']
    } else if c == '\\' {
        seq!['\\', '\\']
    } else if c == '\n' {
        seq!['\\', 'n']
    } else if c == '\t' {
        seq!['\\', 't']
    } else if c == '\r' {
        seq!['\\', 'r']
    } else {
        seq![c]
    }
}

/// The characters of `t`, each escaped.
pub open spec fn escape_all(t: Seq<char>) -> Seq<char>
    decreases t.len(),
{
    if t.len() == 0 {
        Seq::empty()
    } else {
        escape_all(t.drop_last()) + escaped(t.last())
    }
}

/// `key="t"` with `t` escaped.
pub open spec fn quoted_arg(key: Seq<char>, t: Seq<char>) -> Seq<char> {
    key + seq!['=', '"'] + escape_all(t) + seq!['"']
}

fn arg_num(s: &mut String, key: &str, v: i64)
    ensures
        final(s)@ == old(s)@ + num_arg(key@, v as int),
{
    push_str(s, key);
    push_char(s, '=');
    push_i64(s, v);
    proof {
        assert(s@ =~= old(s)@ + num_arg(key@, v as int));
    }
}

fn arg_hex(s: &mut String, key: &str, v: u64)
    ensures
        final(s)@ == old(s)@ + hex_arg(key@, v as nat),
{
    push_str(s, key);
    push_char(s, '=');
    push_char(s, '0');
    push_char(s, 'x');
    push_digits(s, v, 16);
    proof {
        assert(s@ =~= old(s)@ + hex_arg(key@, v as nat));
    }
}

fn arg_ids(s: &mut String, key: &str, ids: &[u32])
    ensures
        final(s)@ == old(s)@ + ids_arg(key@, ids@),
{
    push_str(s, key);
    push_char(s, '=');
    push_id_list(s, ids);
    proof {
        assert(s@ =~= old(s)@ + ids_arg(key@, ids@));
    }
}

/// Appends `t` quoted and escaped, as `{:?}` renders a string.
fn push_quoted(s: &mut String, t: &str)
    ensures
        final(s)@ == old(s)@ + seq!['"'] + escape_all(t@) + seq!['"'],
{
    let cs = super::text::chars_of(t);
    push_char(s, '"');
    let ghost start = s@;
    let mut i: usize = 0;
    proof {
        assert(cs@.take(0) =~= Seq::<char>::empty());
    }
    while i < cs.len()
        invariant
            i <= cs@.len(),
            cs@ == t@,
            start == old(s)@.push('"'),
            s@ == start + escape_all(cs@.take(i as int)),
        decreases cs.len() - i,
    {
        let c = cs[i];
        let ghost before = s@;
        proof {
            assert(cs@.take(i + 1).drop_last() =~= cs@.take(i as int));
            assert(cs@.take(i + 1).last() == c);
        }
        if c == '"' {
            push_char(s, '\\');
            push_char(s, '"');
        } else if c == '\\' {
            push_char(s, '\\');
            push_char(s, '\\');
        } else if c == '\n' {
            push_char(s, '\\');
            push_char(s, 'n');
        } else if c == '\t' {
            push_char(s, '\\');
            push_char(s, 't');
        } else if c == '\r' {
            push_char(s, '\\');
            push_char(s, 'r');
        } else {
            push_char(s, c);
        }
        proof {
            assert(s@ =~= before + escaped(c));
            assert(s@ =~= start + escape_all(cs@.take(i + 1)));
        }
        i += 1;
    }
    push_char(s, '"');
    proof {
        assert(cs@.take(cs@.len() as int) =~= cs@);
        assert(s@ =~= old(s)@ + seq!['"'] + escape_all(t@) + seq!['"']);
    }
}

fn arg_quoted(s: &mut String, key: &str, t: &str)
    ensures
        final(s)@ == old(s)@ + quoted_arg(key@, t@),
{
    push_str(s, key);
    push_char(s, '=');
    push_quoted(s, t);
    proof {
        assert(s@ =~= old(s)@ + quoted_arg(key@, t@));
    }
}

fn sp(s: &mut String)
    ensures
        final(s)@ == old(s)@.push(' '),
{
    push_char(s, ' ');
}

/// `v` clamped to the range of `i32`.
pub open spec fn clamp_i32(v: int) -> i32 {
    if v > i32::MAX { i32::MAX } else if v < i32::MIN { i32::MIN } else { v as i32 }
}

fn add_clamped(a: i32, b: i64) -> (r: i32)
    requires
        -0x1_0000_0000 <= b <= 0x1_0000_0000,
    ensures
        r == clamp_i32(a + b),
{
    let v: i64 = a as i64 + b;
    if v > i32::MAX as i64 {
        i32::MAX
    } else if v < i32::MIN as i64 {
        i32::MIN
    } else {
        v as i32
    }
}

// ── MockRuntime ──────────────────────────────────────────────

/// The number of recorded calls of `method`.
pub open spec fn count_calls(calls: Seq<RuntimeCall>, method: Seq<char>) -> nat
    decreases calls.len(),
{
    if calls.len() == 0 {
        0
    } else {
        count_calls(calls.drop_last(), method) + (if calls.last().method@ == method { 1nat } else { 0nat })
    }
}

/// The effect player as the mock reports it: its field, with anything
/// beyond player 1 read as player 1.
pub open spec fn clamp_player(p: u8) -> u8 {
    if p < 2 { p } else { 1 }
}

/// Records all DuelScriptRuntime calls and updates a MockState.
pub struct MockRuntime {
    pub state: MockState,
    pub calls: Vec<RuntimeCall>,
    /// The player who activated the resolving effect.
    pub effect_player: u8,
    /// The card the resolving effect belongs to.
    pub effect_card_id: u32,
    /// Categories on the chain link being responded to.
    pub event_categories: u32,
    /// The core engine operations asked of the mock so far.
    pub trace: Ghost<Seq<EngineCall>>,
}

impl MockRuntime {
    /// 8000 LP each, empty zones, no calls; player 0 activates card 0.
    pub fn new() -> (r: Self)
        ensures
            is_fresh_state(r.state),
            r.calls@.len() == 0,
            r.trace@ == Seq::<EngineCall>::empty(),
            r.effect_player == 0,
            r.effect_card_id == 0,
            r.event_categories == 0,
    {
        MockRuntime {
            state: MockState::new(),
            calls: Vec::new(),
            effect_player: 0,
            effect_card_id: 0,
            event_categories: 0,
            trace: Ghost(Seq::empty()),
        }
    }

    /// Same as `new`.
    pub fn fresh() -> (r: Self)
        ensures
            is_fresh_state(r.state),
            r.calls@.len() == 0,
            r.trace@ == Seq::<EngineCall>::empty(),
            r.effect_player == 0,
            r.effect_card_id == 0,
            r.event_categories == 0,
    {
        Self::new()
    }

    fn record(&mut self, method: &str, args: String)
        ensures
            final(self).trace == old(self).trace,
            final(self).calls@.len() == old(self).calls@.len() + 1,
            final(self).calls@.drop_last() == old(self).calls@,
            final(self).calls@.last().method@ == method@,
            final(self).calls@.last().args@ == args@,
            final(self).state == old(self).state,
            final(self).effect_player == old(self).effect_player,
            final(self).effect_card_id == old(self).effect_card_id,
            final(self).event_categories == old(self).event_categories,
    {
        self.calls.push(RuntimeCall { method: method.to_owned(), args });
        proof {
            assert(self.calls@.drop_last() =~= old(self).calls@);
        }
    }

    /// Number of recorded calls of `method`.
    pub fn call_count(&self, method: &str) -> (r: usize)
        ensures
            r == count_calls(self.calls@, method@),
    {
        let mut n: usize = 0;
        let mut i: usize = 0;
        while i < self.calls.len()
            invariant
                i <= self.calls@.len(),
                n == count_calls(self.calls@.take(i as int), method@),
                n <= i,
            decreases self.calls.len() - i,
        {
            proof {
                assert(self.calls@.take(i + 1).drop_last() =~= self.calls@.take(i as int));
            }
            if str_eq(self.calls[i].method.as_str(), method) {
                n += 1;
            }
            i += 1;
        }
        proof {
            assert(self.calls@.take(self.calls@.len() as int) =~= self.calls@);
        }
        n
    }

    /// Whether some recorded call of `method` has `args_contains` in its
    /// arguments.
    pub fn was_called_with(&self, method: &str, args_contains: &str) -> (r: bool)
        ensures
            r == exists|i: int|
                0 <= i < self.calls@.len() && (#[trigger] self.calls@[i]).method@ == method@ && contains_seq(
                    self.calls@[i].args@,
                    args_contains@,
                ),
    {
        let mut i: usize = 0;
        while i < self.calls.len()
            invariant
                i <= self.calls@.len(),
                forall|j: int|
                    0 <= j < i ==> !((#[trigger] self.calls@[j]).method@ == method@ && contains_seq(
                        self.calls@[j].args@,
                        args_contains@,
                    )),
            decreases self.calls.len() - i,
        {
            if str_eq(self.calls[i].method.as_str(), method) && str_contains(
                self.calls[i].args.as_str(),
                args_contains,
            ) {
                return true;
            }
            i += 1;
        }
        false
    }

    /// The call log, one call per line: `  <n>. <method>(<args>)`, the
    /// number right-aligned in three columns and counted from 1.
    pub fn dump_calls(&self) -> (out: String)
        ensures
            out@ == dump_lines(self.calls@),
    {
        let mut out = String::new();
        let mut i: usize = 0;
        while i < self.calls.len()
            invariant
                i <= self.calls@.len(),
                out@ == dump_lines(self.calls@.take(i as int)),
            decreases self.calls.len() - i,
        {
            proof {
                assert(self.calls@.take(i + 1).drop_last() =~= self.calls@.take(i as int));
            }
            let n: u64 = i as u64 + 1;
            push_char(&mut out, ' ');
            push_char(&mut out, ' ');
            if n < 10 {
                push_char(&mut out, ' ');
                push_char(&mut out, ' ');
            } else if n < 100 {
                push_char(&mut out, ' ');
            }
            push_digits(&mut out, n, 10);
            push_char(&mut out, '.');
            push_char(&mut out, ' ');
            push_str(&mut out, self.calls[i].method.as_str());
            push_char(&mut out, '(');
            push_str(&mut out, self.calls[i].args.as_str());
            push_char(&mut out, ')');
            push_char(&mut out, '\n');
            i += 1;
            proof {
                assert(out@ =~= dump_lines(self.calls@.take(i as int)));
            }
        }
        proof {
            assert(self.calls@.take(self.calls@.len() as int) =~= self.calls@);
        }
        out
    }
}

/// `n` right-aligned in three columns.
pub open spec fn pad3(n: nat) -> Seq<char> {
    if n < 10 {
        seq![' ', ' '] + super::text::digits(n, 10)
    } else if n < 100 {
        seq![' '] + super::text::digits(n, 10)
    } else {
        super::text::digits(n, 10)
    }
}

/// The dump of a call log.
pub open spec fn dump_lines(calls: Seq<RuntimeCall>) -> Seq<char>
    decreases calls.len(),
{
    if calls.len() == 0 {
        Seq::empty()
    } else {
        dump_lines(calls.drop_last()) + seq![' ', ' '] + pad3(calls.len()) + seq!['.', ' ']
            + calls.last().method@ + seq!['('] + calls.last().args@ + seq![')', '\n']
    }
}

impl Default for MockRuntime {
    fn default() -> (r: Self)
        ensures
            r.state.players[0].lp == 8000,
            r.state.players[1].lp == 8000,
            r.calls@.len() == 0,
            r.trace@ == Seq::<EngineCall>::empty(),
            r.effect_player == 0,
            r.effect_card_id == 0,
            r.event_categories == 0,
    {
        Self::new()
    }
}

} // verus!

verus! {

// ── DuelScriptRuntime impl ───────────────────────────────────

/// A player's zones as plain values: LP, hand, deck, graveyard, banished
/// cards, monsters, spells and traps.
pub type Zones = (i32, Seq<u32>, Seq<u32>, Seq<u32>, Seq<u32>, Seq<u32>, Seq<u32>);

pub open spec fn zones(ps: PlayerState) -> Zones {
    (ps.lp, ps.hand@, ps.deck@, ps.graveyard@, ps.banished@, ps.field_monsters@, ps.field_spells@)
}

/// Whether `id` occurs in `s`.
pub open spec fn holds_id(s: Seq<u32>, id: u32) -> bool
    decreases s.len(),
{
    if s.len() == 0 {
        false
    } else {
        s.last() == id || holds_id(s.drop_last(), id)
    }
}

/// `s` without the occurrences of `id`.
pub open spec fn without(s: Seq<u32>, id: u32) -> Seq<u32>
    decreases s.len(),
{
    if s.len() == 0 {
        s
    } else if s.last() == id {
        without(s.drop_last(), id)
    } else {
        without(s.drop_last(), id).push(s.last())
    }
}

/// `s` without its first occurrence of `id`.
pub open spec fn without_first(s: Seq<u32>, id: u32) -> Seq<u32>
    decreases s.len(),
{
    if s.len() == 0 {
        s
    } else if s[0] == id {
        s.drop_first()
    } else {
        seq![s[0]] + without_first(s.drop_first(), id)
    }
}

/// Destroying `id` on a player's field: it leaves the monsters and the
/// spells and traps, and goes to the graveyard if it was there.
pub open spec fn destroy_in(z: Zones, id: u32) -> (Zones, bool) {
    let hit = holds_id(z.5, id) || holds_id(z.6, id);
    ((z.0, z.1, z.2, if hit { z.3.push(id) } else { z.3 }, z.4, without(z.5, id), without(z.6, id)), hit)
}

/// Destroying `ids` in order, on player 0's field and then player 1's for
/// each: both players' zones and how many times a card went to a graveyard.
pub open spec fn destroy_all(z0: Zones, z1: Zones, ids: Seq<u32>) -> (Zones, Zones, nat)
    decreases ids.len(),
{
    if ids.len() == 0 {
        (z0, z1, 0)
    } else {
        let prev = destroy_all(z0, z1, ids.drop_last());
        let a = destroy_in(prev.0, ids.last());
        let b = destroy_in(prev.1, ids.last());
        (a.0, b.0, prev.2 + (if a.1 { 1nat } else { 0nat }) + (if b.1 { 1nat } else { 0nat }))
    }
}

/// Moving `id` from the first hand holding it (player 0's, then player
/// 1's) to that player's graveyard; whether it moved.
pub open spec fn hand_to_grave_in(z0: Zones, z1: Zones, id: u32) -> (Zones, Zones, bool) {
    if holds_id(z0.1, id) {
        ((z0.0, without_first(z0.1, id), z0.2, z0.3.push(id), z0.4, z0.5, z0.6), z1, true)
    } else if holds_id(z1.1, id) {
        (z0, (z1.0, without_first(z1.1, id), z1.2, z1.3.push(id), z1.4, z1.5, z1.6), true)
    } else {
        (z0, z1, false)
    }
}

/// Moving each of `ids` in order from a hand to the graveyard: both
/// players' zones and how many moved.
pub open spec fn hands_to_grave(z0: Zones, z1: Zones, ids: Seq<u32>) -> (Zones, Zones, nat)
    decreases ids.len(),
{
    if ids.len() == 0 {
        (z0, z1, 0)
    } else {
        let prev = hands_to_grave(z0, z1, ids.drop_last());
        let m = hand_to_grave_in(prev.0, prev.1, ids.last());
        (m.0, m.1, prev.2 + (if m.2 { 1nat } else { 0nat }))
    }
}

/// `n` capped at the largest `u32`.
pub open spec fn cap_u32(n: nat) -> u32 {
    if n > u32::MAX { u32::MAX } else { n as u32 }
}

/// `b` is `a` with one more recorded call, of `method`, and the players'
/// zones `z0` and `z1`; nothing else changes.
pub open spec fn zones_moved(a: MockRuntime, b: MockRuntime, method: Seq<char>, z0: Zones, z1: Zones) -> bool {
    &&& b.calls@.len() == a.calls@.len() + 1
    &&& b.calls@.drop_last() == a.calls@
    &&& b.calls@.last().method@ == method
    &&& zones(b.state.players[0]) == z0
    &&& zones(b.state.players[1]) == z1
    &&& b.state.cards == a.state.cards
    &&& b.state.flags == a.state.flags
    &&& b.state.counters == a.state.counters
    &&& b.state.bindings == a.state.bindings
    &&& b.state.last_selection == a.state.last_selection
    &&& b.effect_player == a.effect_player
    &&& b.effect_card_id == a.effect_card_id
    &&& b.event_categories == a.event_categories
}

proof fn lemma_remove_first(s: Seq<u32>, id: u32, i: int)
    requires
        0 <= i < s.len(),
        s[i] == id,
        forall|j: int| 0 <= j < i ==> s[j] != id,
    ensures
        s.remove(i) == without_first(s, id),
        holds_id(s, id),
    decreases s.len(),
{
    if i > 0 {
        lemma_remove_first(s.drop_first(), id, i - 1);
        assert(s.remove(i) =~= seq![s[0]] + s.drop_first().remove(i - 1));
        lemma_has_at(s, id, i);
    } else {
        assert(s.remove(0) =~= s.drop_first());
        lemma_has_at(s, id, 0);
    }
}

proof fn lemma_has_at(s: Seq<u32>, id: u32, i: int)
    requires
        0 <= i < s.len(),
        s[i] == id,
    ensures
        holds_id(s, id),
    decreases s.len(),
{
    if i < s.len() - 1 {
        lemma_has_at(s.drop_last(), id, i);
    }
}

proof fn lemma_has_none(s: Seq<u32>, id: u32)
    requires
        forall|j: int| 0 <= j < s.len() ==> s[j] != id,
    ensures
        !holds_id(s, id),
    decreases s.len(),
{
    if s.len() > 0 {
        lemma_has_none(s.drop_last(), id);
    }
}

fn remove_from(v: &mut Vec<u32>, id: u32) -> (removed: bool)
    ensures
        final(v)@ == without(old(v)@, id),
        removed == holds_id(old(v)@, id),
{
    let mut out: Vec<u32> = Vec::new();
    let mut removed = false;
    let mut i: usize = 0;
    proof {
        assert(v@.take(0) =~= Seq::<u32>::empty());
    }
    while i < v.len()
        invariant
            i <= v@.len(),
            out@ == without(v@.take(i as int), id),
            removed == holds_id(v@.take(i as int), id),
        decreases v.len() - i,
    {
        proof {
            assert(v@.take(i + 1).drop_last() =~= v@.take(i as int));
            assert(v@.take(i + 1).last() == v@[i as int]);
        }
        if v[i] == id {
            removed = true;
        } else {
            out.push(v[i]);
        }
        i += 1;
    }
    proof {
        assert(v@.take(v@.len() as int) =~= v@);
    }
    *v = out;
    removed
}

fn position_of(v: &Vec<u32>, id: u32) -> (r: Option<usize>)
    ensures
        match r {
            Some(i) => i < v@.len() && v@[i as int] == id && forall|j: int| 0 <= j < i ==> v@[j] != id,
            None => forall|j: int| 0 <= j < v@.len() ==> v@[j] != id,
        },
{
    let mut i: usize = 0;
    while i < v.len()
        invariant
            i <= v@.len(),
            forall|j: int| 0 <= j < i ==> v@[j] != id,
        decreases v.len() - i,
    {
        if v[i] == id {
            return Some(i);
        }
        i += 1;
    }
    None
}

impl MockRuntime {
    /// Move `id` from a hand to the same player's graveyard; the first
    /// player holding it wins. Returns whether it moved.
    fn hand_to_grave(&mut self, id: u32) -> (r: bool)
        ensures
            final(self).trace == old(self).trace,
            ({
                let m = hand_to_grave_in(zones(old(self).state.players[0]), zones(old(self).state.players[1]), id);
                &&& zones(final(self).state.players[0]) == m.0
                &&& zones(final(self).state.players[1]) == m.1
                &&& r == m.2
            }),
            final(self).calls == old(self).calls,
            final(self).state.cards == old(self).state.cards,
            final(self).state.flags == old(self).state.flags,
            final(self).state.counters == old(self).state.counters,
            final(self).state.bindings == old(self).state.bindings,
            final(self).state.last_selection == old(self).state.last_selection,
            final(self).effect_player == old(self).effect_player,
            final(self).effect_card_id == old(self).effect_card_id,
            final(self).event_categories == old(self).event_categories,
    {
        match position_of(&self.state.players[0].hand, id) {
            Some(pos) => {
                proof {
                    lemma_remove_first(self.state.players[0].hand@, id, pos as int);
                }
                self.state.players[0].hand.remove(pos);
                self.state.players[0].graveyard.push(id);
                return true;
            },
            None => {
                proof {
                    lemma_has_none(self.state.players[0].hand@, id);
                }
            },
        }
        match position_of(&self.state.players[1].hand, id) {
            Some(pos) => {
                proof {
                    lemma_remove_first(self.state.players[1].hand@, id, pos as int);
                }
                self.state.players[1].hand.remove(pos);
                self.state.players[1].graveyard.push(id);
                true
            },
            None => {
                proof {
                    lemma_has_none(self.state.players[1].hand@, id);
                }
                false
            },
        }
    }

    /// Destroy `id` on player `p`'s field.
    fn destroy_on(&mut self, p: usize, id: u32) -> (r: bool)
        requires
            p < 2,
        ensures
            final(self).trace == old(self).trace,
            zones(final(self).state.players[p as int]) == destroy_in(zones(old(self).state.players[p as int]), id).0,
            r == destroy_in(zones(old(self).state.players[p as int]), id).1,
            final(self).state.players[1 - p] == old(self).state.players[1 - p],
            final(self).calls == old(self).calls,
            final(self).state.cards == old(self).state.cards,
            final(self).state.flags == old(self).state.flags,
            final(self).state.counters == old(self).state.counters,
            final(self).state.bindings == old(self).state.bindings,
            final(self).state.last_selection == old(self).state.last_selection,
            final(self).effect_player == old(self).effect_player,
            final(self).effect_card_id == old(self).effect_card_id,
            final(self).event_categories == old(self).event_categories,
    {
        let a = remove_from(&mut self.state.players[p].field_monsters, id);
        let b = remove_from(&mut self.state.players[p].field_spells, id);
        if a || b {
            self.state.players[p].graveyard.push(id);
        }
        a || b
    }

    fn copy_ids(ids: &[u32]) -> (r: Vec<u32>)
        ensures
            r@ == ids@,
    {
        let mut r: Vec<u32> = Vec::new();
        let mut i: usize = 0;
        while i < ids.len()
            invariant
                i <= ids@.len(),
                r@ == ids@.take(i as int),
            decreases ids.len() - i,
        {
            r.push(ids[i]);
            i += 1;
            proof {
                assert(r@ =~= ids@.take(i as int));
            }
        }
        proof {
            assert(ids@.take(ids@.len() as int) =~= ids@);
        }
        r
    }

    fn record_ids(&mut self, method: &str, ids: &[u32])
        ensures
            final(self).trace == old(self).trace,
            final(self).calls@.last().args@ == ids_arg("ids"@, ids@),
            recorded(*old(self), *final(self), method@),
    {
        let mut a = String::new();
        arg_ids(&mut a, "ids", ids);
        proof {
            assert(a@ =~= ids_arg("ids"@, ids@));
        }
        self.record(method, a);
    }

    fn record_card(&mut self, method: &str, card_id: u32)
        ensures
            final(self).trace == old(self).trace,
            final(self).calls@.last().args@ == num_arg("card"@, card_id as int),
            recorded(*old(self), *final(self), method@),
    {
        let mut a = String::new();
        arg_num(&mut a, "card", card_id as i64);
        proof {
            assert(a@ =~= num_arg("card"@, card_id as int));
        }
        self.record(method, a);
    }

    fn record_card_player(&mut self, method: &str, card_id: u32, player: u8)
        ensures
            final(self).trace == old(self).trace,
            final(self).calls@.last().args@ == num_arg("card"@, card_id as int) + seq![' '] + num_arg("player"@, player as int),
            recorded(*old(self), *final(self), method@),
    {
        let mut a = String::new();
        arg_num(&mut a, "card", card_id as i64);
        sp(&mut a);
        arg_num(&mut a, "player", player as i64);
        proof {
            assert(a@ =~= num_arg("card"@, card_id as int) + seq![' '] + num_arg("player"@, player as int));
        }
        self.record(method, a);
    }

    fn record_player(&mut self, method: &str, player: u8)
        ensures
            final(self).trace == old(self).trace,
            final(self).calls@.last().args@ == num_arg("player"@, player as int),
            recorded(*old(self), *final(self), method@),
    {
        let mut a = String::new();
        arg_num(&mut a, "player", player as i64);
        proof {
            assert(a@ =~= num_arg("player"@, player as int));
        }
        self.record(method, a);
    }

    fn record_extra_summon(&mut self, method: &str, card_id: u32, player: u8, material_ids: &[u32])
        requires
            player < 2,
        ensures
            final(self).trace == old(self).trace,
            final(self).calls@.last().args@ == num_arg("card"@, card_id as int) + seq![' '] + num_arg("player"@, player as int) + seq![' '] + ids_arg("materials"@, material_ids@),
            summoned_to_field(*old(self), *final(self), method@, player as int, card_id),
    {
        let mut a = String::new();
        arg_num(&mut a, "card", card_id as i64);
        sp(&mut a);
        arg_num(&mut a, "player", player as i64);
        sp(&mut a);
        arg_ids(&mut a, "materials", material_ids);
        proof {
            assert(a@ =~= num_arg("card"@, card_id as int) + seq![' '] + num_arg("player"@, player as int) + seq![' '] + ids_arg("materials"@, material_ids@));
        }
        self.record(method, a);
        self.state.players[player as usize].field_monsters.push(card_id);
    }
}

/// The name a card statistic is known by: its variant's name.
pub open spec fn spec_stat_name_key(stat: Stat) -> Seq<char> {
    match stat {
        Stat::Atk => "Atk"@,
        Stat::Def => "Def"@,
        Stat::Level => "Level"@,
        Stat::Rank => "Rank"@,
        Stat::BaseAtk => "BaseAtk"@,
        Stat::BaseDef => "BaseDef"@,
        Stat::OriginalAtk => "OriginalAtk"@,
        Stat::OriginalDef => "OriginalDef"@,
    }
}

fn stat_name_key(stat: Stat) -> (r: &'static str)
    ensures
        r@ == spec_stat_name_key(stat),
{
    match stat {
        Stat::Atk => "Atk",
        Stat::Def => "Def",
        Stat::Level => "Level",
        Stat::Rank => "Rank",
        Stat::BaseAtk => "BaseAtk",
        Stat::BaseDef => "BaseDef",
        Stat::OriginalAtk => "OriginalAtk",
        Stat::OriginalDef => "OriginalDef",
    }
}

/// The name a damage type is logged under.
pub open spec fn spec_damage_type_name(t: DamageType) -> Seq<char> {
    match t {
        DamageType::Effect => "Effect"@,
        DamageType::Cost => "Cost"@,
        DamageType::Battle => "Battle"@,
    }
}

/// The options of a selection as logged: each quoted, separated by `, `.
pub open spec fn quoted_list(options: Seq<String>) -> Seq<char>
    decreases options.len(),
{
    if options.len() == 0 {
        Seq::empty()
    } else if options.len() == 1 {
        seq!['"'] + escape_all(options[0]@) + seq!['"']
    } else {
        quoted_list(options.drop_last()) + seq![',', ' '] + seq!['"'] + escape_all(options.last()@) + seq!['"']
    }
}

fn damage_type_name(t: DamageType) -> (r: &'static str)
    ensures
        r@ == spec_damage_type_name(t),
{
    match t {
        DamageType::Effect => "Effect",
        DamageType::Cost => "Cost",
        DamageType::Battle => "Battle",
    }
}

/// What the mock answers for a binding field of a bound card.
pub open spec fn binding_field_value(c: Option<CardSnapshot>, field: Seq<char>) -> i32 {
    match c {
        None => 0,
        Some(c) => if field == "atk"@ {
            c.atk
        } else if field == "def"@ {
            c.def
        } else if field == "level"@ {
            c.level as i32
        } else if field == "code"@ {
            c.id as i32
        } else {
            0
        },
    }
}

/// `d` is the card `c` with at most its stats (ATK, DEF, level, race,
/// attribute) changed.
pub open spec fn same_card_but_stats(c: CardSnapshot, d: CardSnapshot) -> bool {
    &&& d.id == c.id
    &&& d.name@ == c.name@
    &&& d.is_monster == c.is_monster
    &&& d.is_spell == c.is_spell
    &&& d.is_trap == c.is_trap
    &&& d.type_bits == c.type_bits
    &&& d.archetypes@ == c.archetypes@
}

/// `b` is `a` with one more recorded call, of `method`, and card `id`
/// (registered in `a`) holding the given stats; no other card and nothing
/// else changes.
pub open spec fn card_restated(
    a: MockRuntime,
    b: MockRuntime,
    method: Seq<char>,
    id: u32,
    atk: i32,
    def: i32,
    level: u32,
    race: u64,
    attribute: u64,
) -> bool {
    &&& b.calls@.len() == a.calls@.len() + 1
    &&& b.calls@.drop_last() == a.calls@
    &&& b.calls@.last().method@ == method
    &&& b.state.players == a.state.players
    &&& b.state.flags == a.state.flags
    &&& b.state.counters == a.state.counters
    &&& b.state.bindings == a.state.bindings
    &&& b.state.last_selection == a.state.last_selection
    &&& b.effect_player == a.effect_player
    &&& b.effect_card_id == a.effect_card_id
    &&& b.event_categories == a.event_categories
    &&& find_card(b.state.cards@, id) matches Some(d) && find_card(a.state.cards@, id) matches Some(c)
        && same_card_but_stats(c, d) && d.atk == atk && d.def == def && d.level == level && d.race == race
        && d.attribute == attribute
    &&& forall|id2: u32| id2 != id ==> #[trigger] find_card(b.state.cards@, id2) == find_card(a.state.cards@, id2)
}

/// `b` is `a` with one more recorded call, of `method`; nothing else
/// changes.
pub open spec fn recorded(a: MockRuntime, b: MockRuntime, method: Seq<char>) -> bool {
    &&& b.calls@.len() == a.calls@.len() + 1
    &&& b.calls@.drop_last() == a.calls@
    &&& b.calls@.last().method@ == method
    &&& b.state == a.state
    &&& b.effect_player == a.effect_player
    &&& b.effect_card_id == a.effect_card_id
    &&& b.event_categories == a.event_categories
}

/// `b` is `a` with one more recorded call, of `method`, and `card_id`
/// placed last among player `p`'s monsters; nothing else changes.
pub open spec fn summoned_to_field(a: MockRuntime, b: MockRuntime, method: Seq<char>, p: int, card_id: u32) -> bool {
    &&& b.calls@.len() == a.calls@.len() + 1
    &&& b.calls@.drop_last() == a.calls@
    &&& b.calls@.last().method@ == method
    &&& b.state.players[p].field_monsters@ == a.state.players[p].field_monsters@.push(card_id)
    &&& b.state.players[p].lp == a.state.players[p].lp
    &&& b.state.players[p].hand == a.state.players[p].hand
    &&& b.state.players[p].deck == a.state.players[p].deck
    &&& b.state.players[p].graveyard == a.state.players[p].graveyard
    &&& b.state.players[p].banished == a.state.players[p].banished
    &&& b.state.players[p].field_spells == a.state.players[p].field_spells
    &&& b.state.players[1 - p] == a.state.players[1 - p]
    &&& b.state.cards == a.state.cards
    &&& b.state.flags == a.state.flags
    &&& b.state.counters == a.state.counters
    &&& b.state.bindings == a.state.bindings
    &&& b.effect_player == a.effect_player
    &&& b.effect_card_id == a.effect_card_id
    &&& b.event_categories == a.event_categories
}

/// `b` is `a` with one more recorded call and player `p`'s state replaced
/// by `ps`; nothing else changes.
pub open spec fn one_call_with_player(a: MockRuntime, b: MockRuntime, p: int, ps: PlayerState) -> bool {
    &&& b.calls@.len() == a.calls@.len() + 1
    &&& b.calls@.drop_last() == a.calls@
    &&& b.state.players[p] == ps
    &&& b.state.players[1 - p] == a.state.players[1 - p]
    &&& b.state.cards == a.state.cards
    &&& b.state.flags == a.state.flags
    &&& b.state.counters == a.state.counters
    &&& b.state.bindings == a.state.bindings
    &&& b.state.last_selection == a.state.last_selection
    &&& b.effect_player == a.effect_player
    &&& b.effect_card_id == a.effect_card_id
    &&& b.event_categories == a.event_categories
}

/// The flag log of `b` is that of `a` with `(id, name, set)` appended, and
/// nothing but the call log changes besides.
pub open spec fn flag_logged(a: MockRuntime, b: MockRuntime, id: u32, name: Seq<char>, set: bool) -> bool {
    &&& b.state.flags@.len() == a.state.flags@.len() + 1
    &&& b.state.flags@.drop_last() == a.state.flags@
    &&& b.state.flags@.last().0 == id
    &&& b.state.flags@.last().1@ == name
    &&& b.state.flags@.last().2 == set
    &&& b.state.players == a.state.players
    &&& b.state.cards == a.state.cards
    &&& b.state.counters == a.state.counters
    &&& b.state.bindings == a.state.bindings
    &&& b.state.last_selection == a.state.last_selection
    &&& b.calls@.len() == a.calls@.len() + 1
    &&& b.calls@.drop_last() == a.calls@
    &&& b.effect_player == a.effect_player
    &&& b.effect_card_id == a.effect_card_id
    &&& b.event_categories == a.event_categories
}

/// The cards drawn from the top of `deck` (its end), first drawn first.
pub open spec fn drawn_from(deck: Seq<u32>, k: nat) -> Seq<u32> {
    Seq::new(k, |i: int| deck[deck.len() - 1 - i])
}

/// How many of `min..=max` (clamped to the candidates) the mock picks.
pub open spec fn pick_count(len: nat, min: nat, max: nat) -> nat {
    let hi = if max < len { max } else { len };
    let lo = if min < len { min } else { len };
    if hi > lo { hi } else { lo }
}

/// The counter log of `b` is that of `a` with `(id, name, value)`
/// appended, and nothing but the call log changes besides.
pub open spec fn counter_logged(a: MockRuntime, b: MockRuntime, id: u32, name: Seq<char>, value: u32) -> bool {
    &&& b.state.counters@.len() == a.state.counters@.len() + 1
    &&& b.state.counters@.drop_last() == a.state.counters@
    &&& b.state.counters@.last().0 == id
    &&& b.state.counters@.last().1@ == name
    &&& b.state.counters@.last().2 == value
    &&& b.state.players == a.state.players
    &&& b.state.cards == a.state.cards
    &&& b.state.flags == a.state.flags
    &&& b.state.bindings == a.state.bindings
    &&& b.state.last_selection == a.state.last_selection
    &&& b.calls@.len() == a.calls@.len() + 1
    &&& b.calls@.drop_last() == a.calls@
    &&& b.effect_player == a.effect_player
    &&& b.effect_card_id == a.effect_card_id
    &&& b.event_categories == a.event_categories
}

/// The binding log of `b` is that of `a` with `name` bound to `ids`, and
/// nothing but the call log changes besides.
pub open spec fn binding_logged(a: MockRuntime, b: MockRuntime, name: Seq<char>, ids: Seq<u32>) -> bool {
    &&& b.state.bindings@.len() == a.state.bindings@.len() + 1
    &&& b.state.bindings@.drop_last() == a.state.bindings@
    &&& b.state.bindings@.last().0@ == name
    &&& b.state.bindings@.last().1@ == ids
    &&& b.state.players == a.state.players
    &&& b.state.cards == a.state.cards
    &&& b.state.flags == a.state.flags
    &&& b.state.counters == a.state.counters
    &&& b.state.last_selection == a.state.last_selection
    &&& b.calls@.len() == a.calls@.len() + 1
    &&& b.calls@.drop_last() == a.calls@
    &&& b.effect_player == a.effect_player
    &&& b.effect_card_id == a.effect_card_id
    &&& b.event_categories == a.event_categories
}

/// A counter reads back as written: after `place_counter` or
/// `remove_counter` the card's counter holds the logged value, and every
/// other counter keeps its count.
pub proof fn law_counter_read_back(a: MockRuntime, b: MockRuntime, id: u32, name: Seq<char>, value: u32)
    requires
        counter_logged(a, b, id, name, value),
    ensures
        b.counter_count_of(id, name) == value,
        forall|id2: u32, name2: Seq<char>|
            !(id2 == id && name2 == name) ==> #[trigger] b.counter_count_of(id2, name2) == a.counter_count_of(
                id2,
                name2,
            ),
{
}

/// A binding reads back as written: after `set_binding` or
/// `bind_last_selection` the name designates the first of the bound cards
/// (none when none was bound), and every other name keeps its card.
pub proof fn law_binding_read_back(a: MockRuntime, b: MockRuntime, name: Seq<char>, ids: Seq<u32>)
    requires
        binding_logged(a, b, name, ids),
    ensures
        b.binding_card_of(name) == (if ids.len() > 0 { Some(ids[0]) } else { None }),
        forall|name2: Seq<char>| name2 != name ==> #[trigger] b.binding_card_of(name2) == a.binding_card_of(name2),
{
}

/// A flag reads back as written: after `register_flag` the card's flag is
/// set, after `clear_flag` it is clear, and every other flag keeps its
/// state.
pub proof fn law_flag_read_back(a: MockRuntime, b: MockRuntime, id: u32, name: Seq<char>, set: bool)
    requires
        flag_logged(a, b, id, name, set),
    ensures
        b.flag_set(id, name) == set,
        forall|id2: u32, name2: Seq<char>|
            !(id2 == id && name2 == name) ==> #[trigger] b.flag_set(id2, name2) == a.flag_set(id2, name2),
{
    assert(b.state.flags@.drop_last() == a.state.flags@);
}

impl DuelScriptRuntime for MockRuntime {
    open spec fn lp_of(&self, player: u8) -> i32 {
        self.state.players[player as int].lp
    }

    open spec fn hand_count_of(&self, player: u8) -> usize {
        self.state.players[player as int].hand@.len() as usize
    }

    open spec fn gy_count_of(&self, player: u8) -> usize {
        self.state.players[player as int].graveyard@.len() as usize
    }

    open spec fn banished_count_of(&self, player: u8) -> usize {
        self.state.players[player as int].banished@.len() as usize
    }

    open spec fn field_count_of(&self, player: u8, location: u32) -> usize {
        zone_cards(self.state.players[player as int], location).len() as usize
    }

    open spec fn field_cards_of(&self, player: u8, location: u32) -> Seq<u32> {
        zone_cards(self.state.players[player as int], location)
    }

    open spec fn matches_filter(&self, card_id: u32, filter: CardFilter) -> bool {
        match find_card(self.state.cards@, card_id) {
            None => false,
            Some(c) => match filter {
                CardFilter::Monster => c.is_monster,
                CardFilter::Spell => c.is_spell,
                CardFilter::Trap => c.is_trap,
                CardFilter::EffectMonster => c.is_monster,
                _ => true,
            },
        }
    }

    open spec fn stat_of(&self, card_id: u32, stat: Stat) -> i32 {
        match find_card(self.state.cards@, card_id) {
            None => 0,
            Some(c) => match stat {
                Stat::Atk | Stat::BaseAtk | Stat::OriginalAtk => c.atk,
                Stat::Def | Stat::BaseDef | Stat::OriginalDef => c.def,
                Stat::Level | Stat::Rank => c.level as i32,
            },
        }
    }

    open spec fn race_of(&self, card_id: u32) -> u64 {
        match find_card(self.state.cards@, card_id) {
            None => 0,
            Some(c) => c.race,
        }
    }

    open spec fn attribute_of(&self, card_id: u32) -> u64 {
        match find_card(self.state.cards@, card_id) {
            None => 0,
            Some(c) => c.attribute,
        }
    }

    open spec fn type_of(&self, card_id: u32) -> u64 {
        match find_card(self.state.cards@, card_id) {
            None => 0,
            Some(c) => c.type_bits,
        }
    }

    open spec fn name_of(&self, card_id: u32) -> Seq<char> {
        match find_card(self.state.cards@, card_id) {
            None => Seq::empty(),
            Some(c) => c.name@,
        }
    }

    open spec fn archetypes_of(&self, card_id: u32) -> Seq<Seq<char>> {
        match find_card(self.state.cards@, card_id) {
            None => Seq::empty(),
            Some(c) => c.archetypes@.map_values(|a: String| a@),
        }
    }

    open spec fn effect_card(&self) -> u32 {
        self.effect_card_id
    }

    open spec fn effect_player_of(&self) -> u8 {
        clamp_player(self.effect_player)
    }

    open spec fn event_categories_of(&self) -> u32 {
        self.event_categories
    }

    open spec fn binding_card_of(&self, name: Seq<char>) -> Option<u32> {
        match binding_lookup(self.state.bindings@, name) {
            Some(ids) => if ids.len() > 0 { Some(ids[0]) } else { None },
            None => None,
        }
    }

    open spec fn binding_field_of(&self, name: Seq<char>, field: Seq<char>) -> i32 {
        match self.binding_card_of(name) {
            None => 0,
            Some(id) => binding_field_value(find_card(self.state.cards@, id), field),
        }
    }

    open spec fn current_phase(&self) -> u32 {
        0
    }

    open spec fn face_up(&self, card_id: u32) -> bool {
        true
    }

    open spec fn face_down(&self, card_id: u32) -> bool {
        false
    }

    open spec fn attack_position(&self, card_id: u32) -> bool {
        true
    }

    open spec fn defense_position(&self, card_id: u32) -> bool {
        false
    }

    open spec fn attacked_this_turn(&self, card_id: u32) -> bool {
        false
    }

    open spec fn summoned_this_turn(&self, card_id: u32) -> bool {
        false
    }

    open spec fn flipped_this_turn(&self, card_id: u32) -> bool {
        false
    }

    open spec fn counter_count_of(&self, card_id: u32, name: Seq<char>) -> u32 {
        counter_lookup(self.state.counters@, card_id, name)
    }

    open spec fn chain_has_category(&self, category: u32) -> bool {
        false
    }

    open spec fn flag_set(&self, card_id: u32, name: Seq<char>) -> bool {
        flag_lookup(self.state.flags@, card_id, name)
    }

    open spec fn calls_of(&self) -> Seq<EngineCall> {
        self.trace@
    }

    open spec fn selection_of(&self, player: u8, candidates: Seq<u32>, min: usize, max: usize) -> Seq<u32> {
        candidates.take(pick_count(candidates.len(), min as nat, max as nat) as int)
    }

    // ── Queries ──────────────────────────────────────────────
    fn get_lp(&self, player: u8) -> (r: i32) {
        self.state.players[player as usize].lp
    }

    fn get_hand_count(&self, player: u8) -> (r: usize) {
        self.state.players[player as usize].hand.len()
    }

    fn get_deck_count(&self, player: u8) -> (r: usize)
        ensures
            r == self.state.players[player as int].deck@.len(),
    {
        self.state.players[player as usize].deck.len()
    }

    fn get_gy_count(&self, player: u8) -> (r: usize) {
        self.state.players[player as usize].graveyard.len()
    }

    fn get_banished_count(&self, player: u8) -> (r: usize) {
        self.state.players[player as usize].banished.len()
    }

    fn get_field_card_count(&self, player: u8, location: u32) -> (r: usize) {
        let v = self.get_field_cards(player, location);
        v.len()
    }

    fn get_field_cards(&self, player: u8, location: u32) -> (r: Vec<u32>) {
        let p = &self.state.players[player as usize];
        let mut out: Vec<u32> = Vec::new();
        if location & 0x4 != 0 {
            append_all(&mut out, &p.field_monsters);
        }
        if location & 0x8 != 0 {
            append_all(&mut out, &p.field_spells);
        }
        if location & 0x10 != 0 {
            append_all(&mut out, &p.graveyard);
        }
        if location & 0x20 != 0 {
            append_all(&mut out, &p.banished);
        }
        if location & 0x2 != 0 {
            append_all(&mut out, &p.hand);
        }
        if location & 0x1 != 0 {
            append_all(&mut out, &p.deck);
        }
        if location == 0 {
            append_all(&mut out, &p.field_monsters);
            append_all(&mut out, &p.field_spells);
        }
        proof {
            assert(out@ =~= zone_cards(*p, location));
        }
        out
    }

    fn card_matches_filter(&self, card_id: u32, filter: &CardFilter) -> (r: bool) {
        match card_index(&self.state.cards, card_id) {
            None => false,
            Some(i) => {
                let c = &self.state.cards[i];
                match filter {
                    CardFilter::Monster => c.is_monster,
                    CardFilter::Spell => c.is_spell,
                    CardFilter::Trap => c.is_trap,
                    CardFilter::EffectMonster => c.is_monster,
                    _ => true,
                }
            },
        }
    }

    fn get_card_stat(&self, card_id: u32, stat: &Stat) -> (r: i32) {
        match card_index(&self.state.cards, card_id) {
            None => 0,
            Some(i) => {
                let c = &self.state.cards[i];
                match stat {
                    Stat::Atk | Stat::BaseAtk | Stat::OriginalAtk => c.atk,
                    Stat::Def | Stat::BaseDef | Stat::OriginalDef => c.def,
                    Stat::Level | Stat::Rank => c.level as i32,
                }
            },
        }
    }

    fn get_card_race(&self, card_id: u32) -> (r: u64) {
        match card_index(&self.state.cards, card_id) {
            None => 0,
            Some(i) => self.state.cards[i].race,
        }
    }

    fn get_card_attribute(&self, card_id: u32) -> (r: u64) {
        match card_index(&self.state.cards, card_id) {
            None => 0,
            Some(i) => self.state.cards[i].attribute,
        }
    }

    fn get_card_type(&self, card_id: u32) -> (r: u64) {
        match card_index(&self.state.cards, card_id) {
            None => 0,
            Some(i) => self.state.cards[i].type_bits,
        }
    }

    fn get_card_code(&self, card_id: u32) -> (r: u32)
        ensures
            r == card_id,
    {
        card_id
    }

    fn get_card_name(&self, card_id: u32) -> (r: String) {
        match card_index(&self.state.cards, card_id) {
            None => String::new(),
            Some(i) => self.state.cards[i].name.clone(),
        }
    }

    fn get_card_archetypes(&self, card_id: u32) -> (r: Vec<String>) {
        match card_index(&self.state.cards, card_id) {
            None => Vec::new(),
            Some(i) => clone_strings(&self.state.cards[i].archetypes),
        }
    }

    fn effect_card_id(&self) -> (r: u32) {
        self.effect_card_id
    }

    fn effect_player(&self) -> (r: u8) {
        if self.effect_player < 2 {
            self.effect_player
        } else {
            1
        }
    }

    fn event_categories(&self) -> (r: u32) {
        self.event_categories
    }

    // ── Card movement ────────────────────────────────────────
    fn draw(&mut self, player: u8, count: u32) -> (r: u32)
        ensures
            final(self).calls@.last().method@ == "draw"@,
            final(self).calls@.last().args@ == num_arg("player"@, player as int) + seq![' '] + num_arg("count"@, count as int),
            r == (if count < old(self).state.players[player as int].deck@.len() {
                count as nat
            } else {
                old(self).state.players[player as int].deck@.len()
            }),
            one_call_with_player(
                *old(self),
                *final(self),
                player as int,
                final(self).state.players[player as int],
            ),
            final(self).state.players[player as int].deck@ == old(self).state.players[player as int].deck@.take(
                old(self).state.players[player as int].deck@.len() - r,
            ),
            final(self).state.players[player as int].hand@ == old(self).state.players[player as int].hand@
                + drawn_from(old(self).state.players[player as int].deck@, r as nat),
            final(self).state.players[player as int].lp == old(self).state.players[player as int].lp,
            final(self).state.players[player as int].graveyard == old(self).state.players[player as int].graveyard,
            final(self).state.players[player as int].banished == old(self).state.players[player as int].banished,
            final(self).state.players[player as int].field_monsters == old(
                self,
            ).state.players[player as int].field_monsters,
            final(self).state.players[player as int].field_spells == old(self).state.players[player as int].field_spells,
    {
        self.trace = Ghost(self.trace@.push(EngineCall::Draw(player, count)));
        let mut a = String::new();
        arg_num(&mut a, "player", player as i64);
        sp(&mut a);
        arg_num(&mut a, "count", count as i64);
        proof {
            assert(a@ =~= num_arg("player"@, player as int) + seq![' '] + num_arg("count"@, count as int));
        }
        self.record("draw", a);
        let p = player as usize;
        let ghost mid = *self;
        let ghost deck0 = mid.state.players[p as int].deck@;
        let ghost hand0 = mid.state.players[p as int].hand@;
        let mut drawn: u32 = 0;
        let mut k: u32 = 0;
        while k < count
            invariant
                self.trace@ == old(self).trace@.push(EngineCall::Draw(player, count)),
                p < 2,
                p == player,
                drawn <= k <= count,
                drawn == (if k < deck0.len() { k as nat } else { deck0.len() }),
                self.state.players[p as int].deck@ == deck0.take(deck0.len() - drawn),
                self.state.players[p as int].hand@ == hand0 + drawn_from(deck0, drawn as nat),
                self.state.players[p as int].lp == mid.state.players[p as int].lp,
                self.state.players[p as int].graveyard == mid.state.players[p as int].graveyard,
                self.state.players[p as int].banished == mid.state.players[p as int].banished,
                self.state.players[p as int].field_monsters == mid.state.players[p as int].field_monsters,
                self.state.players[p as int].field_spells == mid.state.players[p as int].field_spells,
                self.state.players[1 - p] == mid.state.players[1 - p],
                self.state.cards == mid.state.cards,
                self.state.flags == mid.state.flags,
                self.state.counters == mid.state.counters,
                self.state.bindings == mid.state.bindings,
                self.state.last_selection == mid.state.last_selection,
                self.calls == mid.calls,
                self.effect_player == mid.effect_player,
                self.effect_card_id == mid.effect_card_id,
                self.event_categories == mid.event_categories,
            decreases count - k,
        {
            let ghost before_deck = self.state.players[p as int].deck@;
            let ghost before_hand = self.state.players[p as int].hand@;
            match self.state.players[p].deck.pop() {
                Some(card) => {
                    self.state.players[p].hand.push(card);
                    proof {
                        assert(card == deck0[deck0.len() - 1 - drawn]);
                        assert(self.state.players[p as int].deck@ =~= deck0.take(deck0.len() - (drawn + 1)));
                        assert(self.state.players[p as int].hand@ =~= hand0 + drawn_from(deck0, (drawn + 1) as nat));
                    }
                    drawn += 1;
                },
                None => {},
            }
            k += 1;
        }
        drawn
    }

    fn destroy(&mut self, card_ids: &[u32]) -> (r: u32)
        ensures
            final(self).calls@.last().method@ == "destroy"@,
            final(self).calls@.last().args@ == ids_arg("ids"@, card_ids@),
            ({
                let d = destroy_all(zones(old(self).state.players[0]), zones(old(self).state.players[1]), card_ids@);
                &&& zones_moved(*old(self), *final(self), "destroy"@, d.0, d.1)
                &&& r == cap_u32(d.2)
            }),
    {
        self.trace = Ghost(self.trace@.push(EngineCall::Destroy(card_ids@)));
        self.record_ids("destroy", card_ids);
        let ghost z0 = zones(self.state.players[0]);
        let ghost z1 = zones(self.state.players[1]);
        let ghost mid = *self;
        let mut destroyed: u32 = 0;
        let mut i: usize = 0;
        while i < card_ids.len()
            invariant
                self.trace@ == old(self).trace@.push(EngineCall::Destroy(card_ids@)),
                i <= card_ids@.len(),
                ({
                    let d = destroy_all(z0, z1, card_ids@.take(i as int));
                    &&& zones(self.state.players[0]) == d.0
                    &&& zones(self.state.players[1]) == d.1
                    &&& destroyed == cap_u32(d.2)
                }),
                self.calls == mid.calls,
                self.state.cards == mid.state.cards,
                self.state.flags == mid.state.flags,
                self.state.counters == mid.state.counters,
                self.state.bindings == mid.state.bindings,
                self.state.last_selection == mid.state.last_selection,
                self.effect_player == mid.effect_player,
                self.effect_card_id == mid.effect_card_id,
                self.event_categories == mid.event_categories,
            decreases card_ids.len() - i,
        {
            let id = card_ids[i];
            proof {
                assert(card_ids@.take(i + 1).drop_last() =~= card_ids@.take(i as int));
                assert(card_ids@.take(i + 1).last() == id);
            }
            if self.destroy_on(0, id) && destroyed < u32::MAX {
                destroyed += 1;
            }
            if self.destroy_on(1, id) && destroyed < u32::MAX {
                destroyed += 1;
            }
            i += 1;
        }
        proof {
            assert(card_ids@.take(card_ids@.len() as int) =~= card_ids@);
        }
        destroyed
    }

    fn send_to_grave(&mut self, card_ids: &[u32]) -> (r: u32)
        ensures
            final(self).calls@.last().method@ == "send_to_grave"@,
            final(self).calls@.last().args@ == ids_arg("ids"@, card_ids@),
            ({
                let d = hands_to_grave(zones(old(self).state.players[0]), zones(old(self).state.players[1]), card_ids@);
                &&& zones_moved(*old(self), *final(self), "send_to_grave"@, d.0, d.1)
                &&& r == cap_u32(d.2)
            }),
    {
        self.trace = Ghost(self.trace@.push(EngineCall::SendToGrave(card_ids@)));
        self.record_ids("send_to_grave", card_ids);
        let ghost z0 = zones(self.state.players[0]);
        let ghost z1 = zones(self.state.players[1]);
        let ghost mid = *self;
        let mut moved: u32 = 0;
        let mut i: usize = 0;
        while i < card_ids.len()
            invariant
                self.trace@ == old(self).trace@.push(EngineCall::SendToGrave(card_ids@)),
                i <= card_ids@.len(),
                ({
                    let d = hands_to_grave(z0, z1, card_ids@.take(i as int));
                    &&& zones(self.state.players[0]) == d.0
                    &&& zones(self.state.players[1]) == d.1
                    &&& moved == cap_u32(d.2)
                }),
                self.calls == mid.calls,
                self.state.cards == mid.state.cards,
                self.state.flags == mid.state.flags,
                self.state.counters == mid.state.counters,
                self.state.bindings == mid.state.bindings,
                self.state.last_selection == mid.state.last_selection,
                self.effect_player == mid.effect_player,
                self.effect_card_id == mid.effect_card_id,
                self.event_categories == mid.event_categories,
            decreases card_ids.len() - i,
        {
            proof {
                assert(card_ids@.take(i + 1).drop_last() =~= card_ids@.take(i as int));
                assert(card_ids@.take(i + 1).last() == card_ids@[i as int]);
            }
            if self.hand_to_grave(card_ids[i]) && moved < u32::MAX {
                moved += 1;
            }
            i += 1;
        }
        proof {
            assert(card_ids@.take(card_ids@.len() as int) =~= card_ids@);
        }
        moved
    }

    fn send_to_hand(&mut self, card_ids: &[u32]) -> (r: u32)
        ensures
            final(self).calls@.last().args@ == ids_arg("ids"@, card_ids@),
            recorded(*old(self), *final(self), "send_to_hand"@),
            r == card_ids@.len() as u32,
    {
        self.trace = Ghost(self.trace@.push(EngineCall::SendToHand(card_ids@)));
        self.record_ids("send_to_hand", card_ids);
        card_ids.len() as u32
    }

    fn banish(&mut self, card_ids: &[u32]) -> (r: u32)
        ensures
            final(self).calls@.last().args@ == ids_arg("ids"@, card_ids@),
            recorded(*old(self), *final(self), "banish"@),
            r == card_ids@.len() as u32,
    {
        self.trace = Ghost(self.trace@.push(EngineCall::Banish(card_ids@)));
        self.record_ids("banish", card_ids);
        card_ids.len() as u32
    }

    fn discard(&mut self, card_ids: &[u32]) -> (r: u32)
        ensures
            final(self).calls@.last().method@ == "discard"@,
            final(self).calls@.last().args@ == ids_arg("ids"@, card_ids@),
            ({
                let d = hands_to_grave(zones(old(self).state.players[0]), zones(old(self).state.players[1]), card_ids@);
                &&& zones_moved(*old(self), *final(self), "discard"@, d.0, d.1)
                &&& r == cap_u32(d.2)
            }),
    {
        self.trace = Ghost(self.trace@.push(EngineCall::Discard(card_ids@)));
        self.record_ids("discard", card_ids);
        let ghost z0 = zones(self.state.players[0]);
        let ghost z1 = zones(self.state.players[1]);
        let ghost mid = *self;
        let mut moved: u32 = 0;
        let mut i: usize = 0;
        while i < card_ids.len()
            invariant
                self.trace@ == old(self).trace@.push(EngineCall::Discard(card_ids@)),
                i <= card_ids@.len(),
                ({
                    let d = hands_to_grave(z0, z1, card_ids@.take(i as int));
                    &&& zones(self.state.players[0]) == d.0
                    &&& zones(self.state.players[1]) == d.1
                    &&& moved == cap_u32(d.2)
                }),
                self.calls == mid.calls,
                self.state.cards == mid.state.cards,
                self.state.flags == mid.state.flags,
                self.state.counters == mid.state.counters,
                self.state.bindings == mid.state.bindings,
                self.state.last_selection == mid.state.last_selection,
                self.effect_player == mid.effect_player,
                self.effect_card_id == mid.effect_card_id,
                self.event_categories == mid.event_categories,
            decreases card_ids.len() - i,
        {
            proof {
                assert(card_ids@.take(i + 1).drop_last() =~= card_ids@.take(i as int));
                assert(card_ids@.take(i + 1).last() == card_ids@[i as int]);
            }
            if self.hand_to_grave(card_ids[i]) && moved < u32::MAX {
                moved += 1;
            }
            i += 1;
        }
        proof {
            assert(card_ids@.take(card_ids@.len() as int) =~= card_ids@);
        }
        moved
    }

    fn special_summon(&mut self, card_id: u32, player: u8, position: u32) -> (r: bool)
        ensures
            final(self).calls@.last().args@ == num_arg("card"@, card_id as int) + seq![' '] + num_arg("player"@, player as int) + seq![' '] + num_arg("position"@, position as int),
            r,
            summoned_to_field(*old(self), *final(self), "special_summon"@, player as int, card_id),
            final(self).state.last_selection@ == seq![card_id],
    {
        self.trace = Ghost(self.trace@.push(EngineCall::SpecialSummon(card_id, player, position)));
        let mut a = String::new();
        arg_num(&mut a, "card", card_id as i64);
        sp(&mut a);
        arg_num(&mut a, "player", player as i64);
        sp(&mut a);
        arg_num(&mut a, "position", position as i64);
        proof {
            assert(a@ =~= num_arg("card"@, card_id as int) + seq![' '] + num_arg("player"@, player as int) + seq![' '] + num_arg("position"@, position as int));
        }
        self.record("special_summon", a);
        self.state.players[player as usize].field_monsters.push(card_id);
        let mut sel: Vec<u32> = Vec::new();
        sel.push(card_id);
        self.state.last_selection = sel;
        proof {
            assert(self.state.last_selection@ =~= seq![card_id]);
        }
        true
    }

    // ── Life points ──────────────────────────────────────────
    fn damage(&mut self, player: u8, amount: i32, damage_type: DamageType) -> (r: bool)
        ensures
            final(self).calls@.last().method@ == "damage"@,
            final(self).calls@.last().args@ == num_arg("player"@, player as int) + seq![' '] + num_arg("amount"@, amount as int) + seq![' '] + "type="@ + spec_damage_type_name(damage_type),
            r,
            one_call_with_player(
                *old(self),
                *final(self),
                player as int,
                PlayerState {
                    lp: clamp_i32(old(self).state.players[player as int].lp - amount),
                    ..old(self).state.players[player as int]
                },
            ),
    {
        self.trace = Ghost(self.trace@.push(EngineCall::Damage(player, amount, damage_type)));
        let mut a = String::new();
        arg_num(&mut a, "player", player as i64);
        sp(&mut a);
        arg_num(&mut a, "amount", amount as i64);
        sp(&mut a);
        push_str(&mut a, "type=");
        push_str(&mut a, damage_type_name(damage_type));
        proof {
            assert(a@ =~= num_arg("player"@, player as int) + seq![' '] + num_arg("amount"@, amount as int) + seq![' '] + "type="@ + spec_damage_type_name(damage_type));
        }
        self.record("damage", a);
        let lp = self.state.players[player as usize].lp;
        self.state.players[player as usize].lp = add_clamped(lp, -(amount as i64));
        true
    }

    fn recover(&mut self, player: u8, amount: i32) -> (r: bool)
        ensures
            final(self).calls@.last().method@ == "recover"@,
            final(self).calls@.last().args@ == num_arg("player"@, player as int) + seq![' '] + num_arg("amount"@, amount as int),
            r,
            one_call_with_player(
                *old(self),
                *final(self),
                player as int,
                PlayerState {
                    lp: clamp_i32(old(self).state.players[player as int].lp + amount),
                    ..old(self).state.players[player as int]
                },
            ),
    {
        self.trace = Ghost(self.trace@.push(EngineCall::Recover(player, amount)));
        let mut a = String::new();
        arg_num(&mut a, "player", player as i64);
        sp(&mut a);
        arg_num(&mut a, "amount", amount as i64);
        proof {
            assert(a@ =~= num_arg("player"@, player as int) + seq![' '] + num_arg("amount"@, amount as int));
        }
        self.record("recover", a);
        let lp = self.state.players[player as usize].lp;
        self.state.players[player as usize].lp = add_clamped(lp, amount as i64);
        true
    }

    // ── Selection ────────────────────────────────────────────
    fn select_cards(&mut self, player: u8, candidates: &[u32], min: usize, max: usize) -> (r: Vec<u32>)
        ensures
            final(self).calls@.last().method@ == "select_cards"@,
            final(self).calls@.last().args@ == num_arg("player"@, player as int) + seq![' '] + ids_arg("candidates"@, candidates@) + seq![' '] + num_arg("min"@, (min as i64) as int) + seq![' '] + num_arg("max"@, (max as i64) as int),
            r@ == candidates@.take(pick_count(candidates@.len(), min as nat, max as nat) as int),
            final(self).state.last_selection@ == r@,
            final(self).state.players == old(self).state.players,
            final(self).state.cards == old(self).state.cards,
            final(self).state.flags == old(self).state.flags,
            final(self).state.counters == old(self).state.counters,
            final(self).state.bindings == old(self).state.bindings,
            final(self).calls@.len() == old(self).calls@.len() + 1,
            final(self).calls@.drop_last() == old(self).calls@,
    {
        self.trace = Ghost(self.trace@.push(EngineCall::SelectCards(player, candidates@, min, max)));
        let mut a = String::new();
        arg_num(&mut a, "player", player as i64);
        sp(&mut a);
        arg_ids(&mut a, "candidates", candidates);
        sp(&mut a);
        arg_num(&mut a, "min", min as i64);
        sp(&mut a);
        arg_num(&mut a, "max", max as i64);
        proof {
            assert(a@ =~= num_arg("player"@, player as int) + seq![' '] + ids_arg("candidates"@, candidates@) + seq![' '] + num_arg("min"@, (min as i64) as int) + seq![' '] + num_arg("max"@, (max as i64) as int));
        }
        self.record("select_cards", a);
        let len = candidates.len();
        let hi = if max < len { max } else { len };
        let lo = if min < len { min } else { len };
        let n = if hi > lo { hi } else { lo };
        let mut picked: Vec<u32> = Vec::new();
        let mut i: usize = 0;
        while i < n
            invariant
                i <= n,
                n <= candidates@.len(),
                picked@ == candidates@.take(i as int),
            decreases n - i,
        {
            picked.push(candidates[i]);
            i += 1;
            proof {
                assert(picked@ =~= candidates@.take(i as int));
            }
        }
        proof {
            assert forall|k: int| 0 <= k < picked@.len() implies candidates@.contains(#[trigger] picked@[k]) by {
                assert(picked@[k] == candidates@[k]);
            }
        }
        self.state.last_selection = picked.clone();
        picked
    }

    fn select_option(&mut self, player: u8, options: &[String]) -> (r: usize)
        ensures
            recorded(*old(self), *final(self), "select_option"@),
            final(self).calls@.last().args@ == num_arg("player"@, player as int) + seq![' '] + "options=["@
                + quoted_list(options@) + seq![']'],
            r == 0,
    {
        self.trace = Ghost(self.trace@.push(EngineCall::SelectOption(player, option_texts(options@))));
        let mut a = String::new();
        arg_num(&mut a, "player", player as i64);
        sp(&mut a);
        push_str(&mut a, "options=[");
        let ghost start = a@;
        let mut i: usize = 0;
        proof {
            reveal_strlit(", ");
            assert(options@.take(0) =~= Seq::<String>::empty());
        }
        while i < options.len()
            invariant
                i <= options@.len(),
                a@ == start + quoted_list(options@.take(i as int)),
            decreases options.len() - i,
        {
            let ghost before = a@;
            if i > 0 {
                push_str(&mut a, ", ");
            }
            push_quoted(&mut a, options[i].as_str());
            proof {
                let t = options@.take(i + 1);
                assert(t.drop_last() =~= options@.take(i as int));
                assert(t.last() == options@[i as int]);
                let q = seq!['"'] + escape_all(options@[i as int]@) + seq!['"'];
                if i == 0 {
                    assert(t.len() == 1);
                    assert(t[0] == options@[0]);
                    assert(quoted_list(t) == q);
                    assert(before =~= start);
                    assert(a@ =~= start + quoted_list(t));
                } else {
                    assert(", "@ =~= seq![',', ' ']) by {
                        reveal_strlit(", ");
                    }
                    assert(quoted_list(t) == quoted_list(options@.take(i as int)) + seq![',', ' '] + q);
                    assert(a@ =~= before + seq![',', ' '] + q);
                    assert(a@ =~= start + quoted_list(t));
                }
            }
            i += 1;
        }
        push_char(&mut a, ']');
        proof {
            assert(options@.take(options@.len() as int) =~= options@);
            assert(a@ =~= num_arg("player"@, player as int) + seq![' '] + "options=["@ + quoted_list(options@)
                + seq![']']);
        }
        self.record("select_option", a);
        0
    }

    fn set_targets(&mut self, card_ids: &[u32])
        ensures
            final(self).calls@.last().args@ == ids_arg("ids"@, card_ids@),
            final(self).calls@.len() == old(self).calls@.len() + 1,
            final(self).calls@.drop_last() == old(self).calls@,
            final(self).calls@.last().method@ == "set_targets"@,
            final(self).state.last_selection@ == card_ids@,
            final(self).state.players == old(self).state.players,
            final(self).state.cards == old(self).state.cards,
            final(self).state.flags == old(self).state.flags,
            final(self).state.counters == old(self).state.counters,
            final(self).state.bindings == old(self).state.bindings,
    {
        self.trace = Ghost(self.trace@.push(EngineCall::SetTargets(card_ids@)));
        self.record_ids("set_targets", card_ids);
        self.state.last_selection = Self::copy_ids(card_ids);
    }

    // ── Negation ─────────────────────────────────────────────
    fn negate_activation(&mut self) -> (r: bool)
        ensures
            final(self).calls@.last().args@ == Seq::<char>::empty(),
            recorded(*old(self), *final(self), "negate_activation"@),
            r,
    {
        self.trace = Ghost(self.trace@.push(EngineCall::NegateActivation));
        self.record("negate_activation", String::new());
        true
    }

    fn negate_effect(&mut self) -> (r: bool)
        ensures
            final(self).calls@.last().args@ == Seq::<char>::empty(),
            recorded(*old(self), *final(self), "negate_effect"@),
            r,
    {
        self.trace = Ghost(self.trace@.push(EngineCall::NegateEffect));
        self.record("negate_effect", String::new());
        true
    }

    // ── More movement ────────────────────────────────────────
    fn send_to_deck(&mut self, card_ids: &[u32], top: bool) -> (r: u32)
        ensures
            recorded(*old(self), *final(self), "send_to_deck"@),
            final(self).calls@.last().args@ == ids_arg("ids"@, card_ids@) + seq![' '] + (if top {
                "top=true"@
            } else {
                "top=false"@
            }),
            r == card_ids@.len() as u32,
    {
        self.trace = Ghost(self.trace@.push(EngineCall::SendToDeck(card_ids@, top)));
        let mut a = String::new();
        arg_ids(&mut a, "ids", card_ids);
        sp(&mut a);
        push_str(&mut a, if top { "top=true" } else { "top=false" });
        proof {
            assert(a@ =~= ids_arg("ids"@, card_ids@) + seq![' '] + (if top { "top=true"@ } else { "top=false"@ }));
        }
        self.record("send_to_deck", a);
        card_ids.len() as u32
    }

    fn return_to_hand(&mut self, card_ids: &[u32]) -> (r: u32)
        ensures
            final(self).calls@.last().args@ == ids_arg("ids"@, card_ids@),
            recorded(*old(self), *final(self), "return_to_hand"@),
            r == card_ids@.len() as u32,
    {
        self.trace = Ghost(self.trace@.push(EngineCall::ReturnToHand(card_ids@)));
        self.record_ids("return_to_hand", card_ids);
        card_ids.len() as u32
    }

    fn return_to_owner(&mut self, card_ids: &[u32]) -> (r: u32)
        ensures
            final(self).calls@.last().args@ == ids_arg("ids"@, card_ids@),
            recorded(*old(self), *final(self), "return_to_owner"@),
            r == card_ids@.len() as u32,
    {
        self.trace = Ghost(self.trace@.push(EngineCall::ReturnToOwner(card_ids@)));
        self.record_ids("return_to_owner", card_ids);
        card_ids.len() as u32
    }

    fn tribute(&mut self, card_ids: &[u32]) -> (r: u32)
        ensures
            final(self).calls@.last().args@ == ids_arg("ids"@, card_ids@),
            recorded(*old(self), *final(self), "tribute"@),
            r == card_ids@.len() as u32,
    {
        self.trace = Ghost(self.trace@.push(EngineCall::Tribute(card_ids@)));
        self.record_ids("tribute", card_ids);
        card_ids.len() as u32
    }

    fn shuffle_deck(&mut self, player: u8)
        ensures
            final(self).calls@.last().args@ == num_arg("player"@, player as int),
            recorded(*old(self), *final(self), "shuffle_deck"@),
    {
        self.trace = Ghost(self.trace@.push(EngineCall::ShuffleDeck(player)));
        self.record_player("shuffle_deck", player);
    }

    // ── Stat modification ────────────────────────────────────
    fn modify_atk(&mut self, card_id: u32, delta: i32, duration: Duration)
        ensures
            final(self).calls@.last().method@ == "modify_atk"@,
            final(self).calls@.last().args@ == num_arg("card"@, card_id as int) + seq![' '] + num_arg("delta"@, delta as int),
            match find_card(old(self).state.cards@, card_id) {
                Some(c) => card_restated(*old(self), *final(self), "modify_atk"@, card_id, clamp_i32(c.atk + delta), c.def, c.level, c.race, c.attribute),
                None => recorded(*old(self), *final(self), "modify_atk"@),
            },
    {
        self.trace = Ghost(self.trace@.push(EngineCall::ModifyAtk(card_id, delta, duration)));
        let mut a = String::new();
        arg_num(&mut a, "card", card_id as i64);
        sp(&mut a);
        arg_num(&mut a, "delta", delta as i64);
        proof {
            assert(a@ =~= num_arg("card"@, card_id as int) + seq![' '] + num_arg("delta"@, delta as int));
        }
        self.record("modify_atk", a);
        match card_index(&self.state.cards, card_id) {
            Some(i) => {
                let mut c = self.state.cards[i].clone();
                c.atk = add_clamped(c.atk, delta as i64);
                let ghost before = self.state.cards@;
                self.state.cards.set(i, c);
                proof {
                    lemma_find_card_update(before, i as int, self.state.cards@[i as int]);
                }
            },
            None => {},
        }
    }

    fn modify_def(&mut self, card_id: u32, delta: i32, duration: Duration)
        ensures
            final(self).calls@.last().method@ == "modify_def"@,
            final(self).calls@.last().args@ == num_arg("card"@, card_id as int) + seq![' '] + num_arg("delta"@, delta as int),
            match find_card(old(self).state.cards@, card_id) {
                Some(c) => card_restated(*old(self), *final(self), "modify_def"@, card_id, c.atk, clamp_i32(c.def + delta), c.level, c.race, c.attribute),
                None => recorded(*old(self), *final(self), "modify_def"@),
            },
    {
        self.trace = Ghost(self.trace@.push(EngineCall::ModifyDef(card_id, delta, duration)));
        let mut a = String::new();
        arg_num(&mut a, "card", card_id as i64);
        sp(&mut a);
        arg_num(&mut a, "delta", delta as i64);
        proof {
            assert(a@ =~= num_arg("card"@, card_id as int) + seq![' '] + num_arg("delta"@, delta as int));
        }
        self.record("modify_def", a);
        match card_index(&self.state.cards, card_id) {
            Some(i) => {
                let mut c = self.state.cards[i].clone();
                c.def = add_clamped(c.def, delta as i64);
                let ghost before = self.state.cards@;
                self.state.cards.set(i, c);
                proof {
                    lemma_find_card_update(before, i as int, self.state.cards@[i as int]);
                }
            },
            None => {},
        }
    }

    fn set_atk(&mut self, card_id: u32, value: i32)
        ensures
            final(self).calls@.last().method@ == "set_atk"@,
            final(self).calls@.last().args@ == num_arg("card"@, card_id as int) + seq![' '] + num_arg("value"@, value as int),
            match find_card(old(self).state.cards@, card_id) {
                Some(c) => card_restated(*old(self), *final(self), "set_atk"@, card_id, value, c.def, c.level, c.race, c.attribute),
                None => recorded(*old(self), *final(self), "set_atk"@),
            },
    {
        self.trace = Ghost(self.trace@.push(EngineCall::SetAtk(card_id, value)));
        let mut a = String::new();
        arg_num(&mut a, "card", card_id as i64);
        sp(&mut a);
        arg_num(&mut a, "value", value as i64);
        proof {
            assert(a@ =~= num_arg("card"@, card_id as int) + seq![' '] + num_arg("value"@, value as int));
        }
        self.record("set_atk", a);
        match card_index(&self.state.cards, card_id) {
            Some(i) => {
                let mut c = self.state.cards[i].clone();
                c.atk = value;
                let ghost before = self.state.cards@;
                self.state.cards.set(i, c);
                proof {
                    lemma_find_card_update(before, i as int, self.state.cards@[i as int]);
                }
            },
            None => {},
        }
    }

    fn set_def(&mut self, card_id: u32, value: i32)
        ensures
            final(self).calls@.last().method@ == "set_def"@,
            final(self).calls@.last().args@ == num_arg("card"@, card_id as int) + seq![' '] + num_arg("value"@, value as int),
            match find_card(old(self).state.cards@, card_id) {
                Some(c) => card_restated(*old(self), *final(self), "set_def"@, card_id, c.atk, value, c.level, c.race, c.attribute),
                None => recorded(*old(self), *final(self), "set_def"@),
            },
    {
        self.trace = Ghost(self.trace@.push(EngineCall::SetDef(card_id, value)));
        let mut a = String::new();
        arg_num(&mut a, "card", card_id as i64);
        sp(&mut a);
        arg_num(&mut a, "value", value as i64);
        proof {
            assert(a@ =~= num_arg("card"@, card_id as int) + seq![' '] + num_arg("value"@, value as int));
        }
        self.record("set_def", a);
        match card_index(&self.state.cards, card_id) {
            Some(i) => {
                let mut c = self.state.cards[i].clone();
                c.def = value;
                let ghost before = self.state.cards@;
                self.state.cards.set(i, c);
                proof {
                    lemma_find_card_update(before, i as int, self.state.cards@[i as int]);
                }
            },
            None => {},
        }
    }

    fn change_position(&mut self, card_id: u32)
        ensures
            final(self).calls@.last().args@ == num_arg("card"@, card_id as int),
            recorded(*old(self), *final(self), "change_position"@),
    {
        self.trace = Ghost(self.trace@.push(EngineCall::ChangePosition(card_id)));
        self.record_card("change_position", card_id);
    }

    // ── Xyz materials ────────────────────────────────────────
    fn detach_material(&mut self, card_id: u32, count: u32) -> (r: u32)
        ensures
            final(self).calls@.last().args@ == num_arg("card"@, card_id as int) + seq![' '] + num_arg("count"@, count as int),
            recorded(*old(self), *final(self), "detach_material"@),
            r == count,
    {
        self.trace = Ghost(self.trace@.push(EngineCall::DetachMaterial(card_id, count)));
        let mut a = String::new();
        arg_num(&mut a, "card", card_id as i64);
        sp(&mut a);
        arg_num(&mut a, "count", count as i64);
        proof {
            assert(a@ =~= num_arg("card"@, card_id as int) + seq![' '] + num_arg("count"@, count as int));
        }
        self.record("detach_material", a);
        count
    }

    fn attach_material(&mut self, material_id: u32, target_id: u32)
        ensures
            final(self).calls@.last().args@ == num_arg("material"@, material_id as int) + seq![' '] + num_arg("target"@, target_id as int),
            recorded(*old(self), *final(self), "attach_material"@),
    {
        self.trace = Ghost(self.trace@.push(EngineCall::AttachMaterial(material_id, target_id)));
        let mut a = String::new();
        arg_num(&mut a, "material", material_id as i64);
        sp(&mut a);
        arg_num(&mut a, "target", target_id as i64);
        proof {
            assert(a@ =~= num_arg("material"@, material_id as int) + seq![' '] + num_arg("target"@, target_id as int));
        }
        self.record("attach_material", a);
    }

    // ── Counters ─────────────────────────────────────────────
    fn place_counter(&mut self, card_id: u32, counter_name: &str, count: u32)
        ensures
            final(self).calls@.last().args@ == num_arg("card"@, card_id as int) + seq![' '] + "name="@ + counter_name@ + seq![' '] + num_arg("count"@, count as int),
            counter_logged(
                *old(self),
                *final(self),
                card_id,
                counter_name@,
                (if old(self).counter_count_of(card_id, counter_name@) + count > u32::MAX {
                    u32::MAX as int
                } else {
                    old(self).counter_count_of(card_id, counter_name@) + count
                }) as u32,
            ),
    {
        self.trace = Ghost(self.trace@.push(EngineCall::PlaceCounter(card_id, counter_name@, count)));
        let mut a = String::new();
        arg_num(&mut a, "card", card_id as i64);
        sp(&mut a);
        push_str(&mut a, "name=");
        push_str(&mut a, counter_name);
        sp(&mut a);
        arg_num(&mut a, "count", count as i64);
        proof {
            assert(a@ =~= num_arg("card"@, card_id as int) + seq![' '] + "name="@ + counter_name@ + seq![' '] + num_arg("count"@, count as int));
        }
        self.record("place_counter", a);
        let current = find_counter(&self.state.counters, card_id, counter_name);
        let entry = (card_id, string_from(counter_name), current.saturating_add(count));
        let ghost before = self.state.counters@;
        self.state.counters.push(entry);
        proof {
            assert(self.state.counters@.drop_last() =~= before);
        }
    }

    fn remove_counter(&mut self, card_id: u32, counter_name: &str, count: u32)
        ensures
            final(self).calls@.last().args@ == num_arg("card"@, card_id as int) + seq![' '] + "name="@ + counter_name@ + seq![' '] + num_arg("count"@, count as int),
            counter_logged(
                *old(self),
                *final(self),
                card_id,
                counter_name@,
                (if old(self).counter_count_of(card_id, counter_name@) < count {
                    0
                } else {
                    old(self).counter_count_of(card_id, counter_name@) - count
                }) as u32,
            ),
    {
        self.trace = Ghost(self.trace@.push(EngineCall::RemoveCounter(card_id, counter_name@, count)));
        let mut a = String::new();
        arg_num(&mut a, "card", card_id as i64);
        sp(&mut a);
        push_str(&mut a, "name=");
        push_str(&mut a, counter_name);
        sp(&mut a);
        arg_num(&mut a, "count", count as i64);
        proof {
            assert(a@ =~= num_arg("card"@, card_id as int) + seq![' '] + "name="@ + counter_name@ + seq![' '] + num_arg("count"@, count as int));
        }
        self.record("remove_counter", a);
        let current = find_counter(&self.state.counters, card_id, counter_name);
        let entry = (card_id, string_from(counter_name), current.saturating_sub(count));
        let ghost before = self.state.counters@;
        self.state.counters.push(entry);
        proof {
            assert(self.state.counters@.drop_last() =~= before);
        }
    }

    fn get_counter_count(&self, card_id: u32, counter_name: &str) -> (r: u32) {
        find_counter(&self.state.counters, card_id, counter_name)
    }

    // ── Deck operations ──────────────────────────────────────
    fn mill(&mut self, player: u8, count: u32) -> (r: u32)
        ensures
            final(self).calls@.last().method@ == "mill"@,
            final(self).calls@.last().args@ == num_arg("player"@, player as int) + seq![' '] + num_arg("count"@, count as int),
            r == (if count < old(self).state.players[player as int].deck@.len() {
                count as nat
            } else {
                old(self).state.players[player as int].deck@.len()
            }),
            one_call_with_player(
                *old(self),
                *final(self),
                player as int,
                final(self).state.players[player as int],
            ),
            final(self).state.players[player as int].deck@ == old(self).state.players[player as int].deck@.take(
                old(self).state.players[player as int].deck@.len() - r,
            ),
            final(self).state.players[player as int].graveyard@ == old(self).state.players[player as int].graveyard@
                + drawn_from(old(self).state.players[player as int].deck@, r as nat),
            final(self).state.players[player as int].lp == old(self).state.players[player as int].lp,
            final(self).state.players[player as int].hand == old(self).state.players[player as int].hand,
            final(self).state.players[player as int].banished == old(self).state.players[player as int].banished,
            final(self).state.players[player as int].field_monsters == old(
                self,
            ).state.players[player as int].field_monsters,
            final(self).state.players[player as int].field_spells == old(self).state.players[player as int].field_spells,
    {
        self.trace = Ghost(self.trace@.push(EngineCall::Mill(player, count)));
        let mut a = String::new();
        arg_num(&mut a, "player", player as i64);
        sp(&mut a);
        arg_num(&mut a, "count", count as i64);
        proof {
            assert(a@ =~= num_arg("player"@, player as int) + seq![' '] + num_arg("count"@, count as int));
        }
        self.record("mill", a);
        let p = player as usize;
        let ghost mid = *self;
        let ghost deck0 = mid.state.players[p as int].deck@;
        let ghost gy0 = mid.state.players[p as int].graveyard@;
        let mut milled: u32 = 0;
        let mut k: u32 = 0;
        while k < count
            invariant
                self.trace@ == old(self).trace@.push(EngineCall::Mill(player, count)),
                p < 2,
                p == player,
                milled <= k <= count,
                milled == (if k < deck0.len() { k as nat } else { deck0.len() }),
                self.state.players[p as int].deck@ == deck0.take(deck0.len() - milled),
                self.state.players[p as int].graveyard@ == gy0 + drawn_from(deck0, milled as nat),
                self.state.players[p as int].lp == mid.state.players[p as int].lp,
                self.state.players[p as int].hand == mid.state.players[p as int].hand,
                self.state.players[p as int].banished == mid.state.players[p as int].banished,
                self.state.players[p as int].field_monsters == mid.state.players[p as int].field_monsters,
                self.state.players[p as int].field_spells == mid.state.players[p as int].field_spells,
                self.state.players[1 - p] == mid.state.players[1 - p],
                self.state.cards == mid.state.cards,
                self.state.flags == mid.state.flags,
                self.state.counters == mid.state.counters,
                self.state.bindings == mid.state.bindings,
                self.state.last_selection == mid.state.last_selection,
                self.calls == mid.calls,
                self.effect_player == mid.effect_player,
                self.effect_card_id == mid.effect_card_id,
                self.event_categories == mid.event_categories,
            decreases count - k,
        {
            match self.state.players[p].deck.pop() {
                Some(card) => {
                    self.state.players[p].graveyard.push(card);
                    proof {
                        assert(card == deck0[deck0.len() - 1 - milled]);
                        assert(self.state.players[p as int].deck@ =~= deck0.take(deck0.len() - (milled + 1)));
                        assert(self.state.players[p as int].graveyard@ =~= gy0 + drawn_from(deck0, (milled + 1) as nat));
                    }
                    milled += 1;
                },
                None => {},
            }
            k += 1;
        }
        milled
    }

    fn excavate(&mut self, player: u8, count: u32) -> (r: Vec<u32>)
        ensures
            final(self).calls@.last().args@ == num_arg("player"@, player as int) + seq![' '] + num_arg("count"@, count as int),
            recorded(*old(self), *final(self), "excavate"@),
            r@ == old(self).state.players[player as int].deck@.skip(
                old(self).state.players[player as int].deck@.len() - (if count
                    < old(self).state.players[player as int].deck@.len() {
                    count as int
                } else {
                    old(self).state.players[player as int].deck@.len() as int
                }),
            ),
    {
        self.trace = Ghost(self.trace@.push(EngineCall::Excavate(player, count)));
        let mut a = String::new();
        arg_num(&mut a, "player", player as i64);
        sp(&mut a);
        arg_num(&mut a, "count", count as i64);
        proof {
            assert(a@ =~= num_arg("player"@, player as int) + seq![' '] + num_arg("count"@, count as int));
        }
        self.record("excavate", a);
        let deck = &self.state.players[player as usize].deck;
        let n: usize = if (count as usize) < deck.len() { count as usize } else { deck.len() };
        let mut out: Vec<u32> = Vec::new();
        let start: usize = deck.len() - n;
        let mut i: usize = start;
        while i < deck.len()
            invariant
                start <= i <= deck@.len(),
                out@ == deck@.subrange(start as int, i as int),
            decreases deck.len() - i,
        {
            out.push(deck[i]);
            i += 1;
            proof {
                assert(out@ =~= deck@.subrange(start as int, i as int));
            }
        }
        proof {
            assert(deck@.subrange(start as int, deck@.len() as int) =~= deck@.skip(start as int));
        }
        out
    }

    // ── Custom events, confirm, announce ─────────────────────
    fn raise_custom_event(&mut self, name: &str, cards: &[u32])
        ensures
            final(self).calls@.last().args@ == quoted_arg("name"@, name@) + seq![' '] + ids_arg("cards"@, cards@),
            recorded(*old(self), *final(self), "raise_custom_event"@),
    {
        self.trace = Ghost(self.trace@.push(EngineCall::RaiseCustomEvent(name@, cards@)));
        let mut a = String::new();
        arg_quoted(&mut a, "name", name);
        sp(&mut a);
        arg_ids(&mut a, "cards", cards);
        proof {
            assert(a@ =~= quoted_arg("name"@, name@) + seq![' '] + ids_arg("cards"@, cards@));
        }
        self.record("raise_custom_event", a);
    }

    fn confirm_cards(&mut self, owner: u8, audience: u8, cards: &[u32])
        ensures
            final(self).calls@.last().args@ == num_arg("owner"@, owner as int) + seq![' '] + num_arg("audience"@, audience as int) + seq![' '] + ids_arg("cards"@, cards@),
            recorded(*old(self), *final(self), "confirm_cards"@),
    {
        self.trace = Ghost(self.trace@.push(EngineCall::ConfirmCards(owner, audience, cards@)));
        let mut a = String::new();
        arg_num(&mut a, "owner", owner as i64);
        sp(&mut a);
        arg_num(&mut a, "audience", audience as i64);
        sp(&mut a);
        arg_ids(&mut a, "cards", cards);
        proof {
            assert(a@ =~= num_arg("owner"@, owner as int) + seq![' '] + num_arg("audience"@, audience as int) + seq![' '] + ids_arg("cards"@, cards@));
        }
        self.record("confirm_cards", a);
    }

    fn announce(&mut self, player: u8, kind: u8, filter_mask: u32) -> (r: u32)
        ensures
            final(self).calls@.last().args@ == num_arg("player"@, player as int) + seq![' '] + num_arg("kind"@, kind as int) + seq![' '] + hex_arg("mask"@, filter_mask as nat),
            recorded(*old(self), *final(self), "announce"@),
            r == 0xA55E_2700,
    {
        self.trace = Ghost(self.trace@.push(EngineCall::Announce(player, kind, filter_mask)));
        let mut a = String::new();
        arg_num(&mut a, "player", player as i64);
        sp(&mut a);
        arg_num(&mut a, "kind", kind as i64);
        sp(&mut a);
        arg_hex(&mut a, "mask", filter_mask as u64);
        proof {
            assert(a@ =~= num_arg("player"@, player as int) + seq![' '] + num_arg("kind"@, kind as int) + seq![' '] + hex_arg("mask"@, filter_mask as nat));
        }
        self.record("announce", a);
        0xA55E_2700
    }

    fn get_announcement(&self, token: u32) -> (r: u32)
        ensures
            r == 0,
    {
        0
    }

    // ── Flags ────────────────────────────────────────────────
    fn register_flag(&mut self, card_id: u32, name: &str, survives_mask: u32, resets_mask: u32)
        ensures
            final(self).calls@.last().args@ == num_arg("card"@, card_id as int) + seq![' '] + quoted_arg("name"@, name@) + seq![' '] + hex_arg("survives"@, survives_mask as nat) + seq![' '] + hex_arg("resets"@, resets_mask as nat),
            flag_logged(*old(self), *final(self), card_id, name@, true),
    {
        self.trace = Ghost(self.trace@.push(EngineCall::RegisterFlag(card_id, name@, survives_mask, resets_mask)));
        let mut a = String::new();
        arg_num(&mut a, "card", card_id as i64);
        sp(&mut a);
        arg_quoted(&mut a, "name", name);
        sp(&mut a);
        arg_hex(&mut a, "survives", survives_mask as u64);
        sp(&mut a);
        arg_hex(&mut a, "resets", resets_mask as u64);
        proof {
            assert(a@ =~= num_arg("card"@, card_id as int) + seq![' '] + quoted_arg("name"@, name@) + seq![' '] + hex_arg("survives"@, survives_mask as nat) + seq![' '] + hex_arg("resets"@, resets_mask as nat));
        }
        self.record("register_flag", a);
        let entry = (card_id, string_from(name), true);
        let ghost before = self.state.flags@;
        self.state.flags.push(entry);
        proof {
            assert(self.state.flags@.drop_last() =~= before);
        }
    }

    fn clear_flag(&mut self, card_id: u32, name: &str)
        ensures
            final(self).calls@.last().args@ == num_arg("card"@, card_id as int) + seq![' '] + quoted_arg("name"@, name@),
            flag_logged(*old(self), *final(self), card_id, name@, false),
    {
        self.trace = Ghost(self.trace@.push(EngineCall::ClearFlag(card_id, name@)));
        let mut a = String::new();
        arg_num(&mut a, "card", card_id as i64);
        sp(&mut a);
        arg_quoted(&mut a, "name", name);
        proof {
            assert(a@ =~= num_arg("card"@, card_id as int) + seq![' '] + quoted_arg("name"@, name@));
        }
        self.record("clear_flag", a);
        let entry = (card_id, string_from(name), false);
        let ghost before = self.state.flags@;
        self.state.flags.push(entry);
        proof {
            assert(self.state.flags@.drop_last() =~= before);
        }
    }

    fn has_flag(&self, card_id: u32, name: &str) -> (r: bool) {
        find_flag(&self.state.flags, card_id, name)
    }

    // ── Bindings ─────────────────────────────────────────────
    fn set_binding(&mut self, name: &str, card_id: u32)
        ensures
            final(self).calls@.last().args@ == quoted_arg("name"@, name@) + seq![' '] + num_arg("card"@, card_id as int),
            binding_logged(*old(self), *final(self), name@, seq![card_id]),
    {
        self.trace = Ghost(self.trace@.push(EngineCall::SetBinding(name@, card_id)));
        let mut a = String::new();
        arg_quoted(&mut a, "name", name);
        sp(&mut a);
        arg_num(&mut a, "card", card_id as i64);
        proof {
            assert(a@ =~= quoted_arg("name"@, name@) + seq![' '] + num_arg("card"@, card_id as int));
        }
        self.record("set_binding", a);
        let mut ids: Vec<u32> = Vec::new();
        ids.push(card_id);
        let entry = (string_from(name), ids);
        let ghost before = self.state.bindings@;
        self.state.bindings.push(entry);
        proof {
            assert(self.state.bindings@.drop_last() =~= before);
            assert(self.state.bindings@.last().1@ =~= seq![card_id]);
        }
    }

    fn bind_last_selection(&mut self, name: &str)
        ensures
            final(self).calls@.last().args@ == quoted_arg("name"@, name@),
            binding_logged(*old(self), *final(self), name@, old(self).state.last_selection@),
    {
        self.trace = Ghost(self.trace@.push(EngineCall::BindLastSelection(name@)));
        let mut a = String::new();
        arg_quoted(&mut a, "name", name);
        proof {
            assert(a@ =~= quoted_arg("name"@, name@));
        }
        self.record("bind_last_selection", a);
        let last = self.state.last_selection.clone();
        let entry = (string_from(name), last);
        let ghost before = self.state.bindings@;
        self.state.bindings.push(entry);
        proof {
            assert(self.state.bindings@.drop_last() =~= before);
        }
    }

    fn get_binding_card(&self, name: &str) -> (r: Option<u32>) {
        match find_binding(&self.state.bindings, name) {
            Some(i) => {
                let ids = &self.state.bindings[i].1;
                if ids.len() > 0 {
                    Some(ids[0])
                } else {
                    None
                }
            },
            None => None,
        }
    }

    fn get_binding_field(&self, name: &str, field: &str) -> (r: i32) {
        match self.get_binding_card(name) {
            None => 0,
            Some(card_id) => match card_index(&self.state.cards, card_id) {
                None => 0,
                Some(i) => {
                    let c = &self.state.cards[i];
                    proof {
                        reveal_strlit("atk");
                        reveal_strlit("def");
                        reveal_strlit("level");
                        reveal_strlit("code");
                    }
                    if str_eq(field, "atk") {
                        c.atk
                    } else if str_eq(field, "def") {
                        c.def
                    } else if str_eq(field, "level") {
                        c.level as i32
                    } else if str_eq(field, "code") {
                        c.id as i32
                    } else {
                        0
                    }
                },
            },
        }
    }

    fn change_card_code(&mut self, card_id: u32, code: u32, duration_mask: u32)
        ensures
            final(self).calls@.last().args@ == num_arg("card"@, card_id as int) + seq![' '] + num_arg("code"@, code as int) + seq![' '] + hex_arg("duration"@, duration_mask as nat),
            recorded(*old(self), *final(self), "change_card_code"@),
    {
        self.trace = Ghost(self.trace@.push(EngineCall::ChangeCardCode(card_id, code, duration_mask)));
        let mut a = String::new();
        arg_num(&mut a, "card", card_id as i64);
        sp(&mut a);
        arg_num(&mut a, "code", code as i64);
        sp(&mut a);
        arg_hex(&mut a, "duration", duration_mask as u64);
        proof {
            assert(a@ =~= num_arg("card"@, card_id as int) + seq![' '] + num_arg("code"@, code as int) + seq![' '] + hex_arg("duration"@, duration_mask as nat));
        }
        self.record("change_card_code", a);
    }

    // ── Phase and card state ─────────────────────────────────
    fn get_current_phase(&self) -> (r: u32) {
        0
    }

    fn is_face_up(&self, card_id: u32) -> (r: bool) {
        true
    }

    fn is_face_down(&self, card_id: u32) -> (r: bool) {
        false
    }

    fn is_attack_position(&self, card_id: u32) -> (r: bool) {
        true
    }

    fn is_defense_position(&self, card_id: u32) -> (r: bool) {
        false
    }

    fn has_attacked_this_turn(&self, card_id: u32) -> (r: bool) {
        false
    }

    fn was_summoned_this_turn(&self, card_id: u32) -> (r: bool) {
        false
    }

    fn was_flipped_this_turn(&self, card_id: u32) -> (r: bool) {
        false
    }

    fn chain_includes_category(&self, category: u32) -> (r: bool) {
        false
    }

    // ── Information and chance ───────────────────────────────
    fn reveal_cards(&mut self, card_ids: &[u32])
        ensures
            final(self).calls@.last().args@ == ids_arg("ids"@, card_ids@),
            recorded(*old(self), *final(self), "reveal"@),
    {
        self.trace = Ghost(self.trace@.push(EngineCall::RevealCards(card_ids@)));
        self.record_ids("reveal", card_ids);
    }

    fn look_at(&mut self, player: u8, card_ids: &[u32])
        ensures
            final(self).calls@.last().args@ == num_arg("player"@, player as int) + seq![' '] + ids_arg("ids"@, card_ids@),
            recorded(*old(self), *final(self), "look_at"@),
    {
        self.trace = Ghost(self.trace@.push(EngineCall::LookAt(player, card_ids@)));
        let mut a = String::new();
        arg_num(&mut a, "player", player as i64);
        sp(&mut a);
        arg_ids(&mut a, "ids", card_ids);
        proof {
            assert(a@ =~= num_arg("player"@, player as int) + seq![' '] + ids_arg("ids"@, card_ids@));
        }
        self.record("look_at", a);
    }

    fn coin_flip(&mut self, player: u8) -> (r: bool)
        ensures
            final(self).calls@.last().args@ == num_arg("player"@, player as int),
            recorded(*old(self), *final(self), "coin_flip"@),
            r,
    {
        self.trace = Ghost(self.trace@.push(EngineCall::CoinFlip(player)));
        self.record_player("coin_flip", player);
        true
    }

    fn dice_roll(&mut self, player: u8) -> (r: u32)
        ensures
            final(self).calls@.last().args@ == num_arg("player"@, player as int),
            recorded(*old(self), *final(self), "dice_roll"@),
            r == 1,
    {
        self.trace = Ghost(self.trace@.push(EngineCall::DiceRoll(player)));
        self.record_player("dice_roll", player);
        1
    }

    // ── Summons ──────────────────────────────────────────────
    fn normal_summon(&mut self, card_id: u32, player: u8) -> (r: bool)
        ensures
            final(self).calls@.last().args@ == num_arg("card"@, card_id as int) + seq![' '] + num_arg("player"@, player as int),
            r,
            summoned_to_field(*old(self), *final(self), "normal_summon"@, player as int, card_id),
            final(self).state.last_selection == old(self).state.last_selection,
    {
        self.trace = Ghost(self.trace@.push(EngineCall::NormalSummon(card_id, player)));
        self.record_card_player("normal_summon", card_id, player);
        self.state.players[player as usize].field_monsters.push(card_id);
        true
    }

    fn set_card(&mut self, card_id: u32, player: u8) -> (r: bool)
        ensures
            final(self).calls@.last().args@ == num_arg("card"@, card_id as int) + seq![' '] + num_arg("player"@, player as int),
            r,
            one_call_with_player(
                *old(self),
                *final(self),
                player as int,
                final(self).state.players[player as int],
            ),
            final(self).calls@.last().method@ == "set_card"@,
            final(self).state.players[player as int].field_spells@ == old(
                self,
            ).state.players[player as int].field_spells@.push(card_id),
            final(self).state.players[player as int].field_monsters == old(
                self,
            ).state.players[player as int].field_monsters,
            final(self).state.players[player as int].lp == old(self).state.players[player as int].lp,
            final(self).state.players[player as int].hand == old(self).state.players[player as int].hand,
            final(self).state.players[player as int].deck == old(self).state.players[player as int].deck,
            final(self).state.players[player as int].graveyard == old(self).state.players[player as int].graveyard,
            final(self).state.players[player as int].banished == old(self).state.players[player as int].banished,
    {
        self.trace = Ghost(self.trace@.push(EngineCall::SetCard(card_id, player)));
        self.record_card_player("set_card", card_id, player);
        self.state.players[player as usize].field_spells.push(card_id);
        true
    }

    fn ritual_summon(&mut self, card_id: u32, player: u8, material_ids: &[u32]) -> (r: bool)
        ensures
            final(self).calls@.last().args@ == num_arg("card"@, card_id as int) + seq![' '] + num_arg("player"@, player as int) + seq![' '] + ids_arg("materials"@, material_ids@),
            r,
            summoned_to_field(*old(self), *final(self), "ritual_summon"@, player as int, card_id),
    {
        self.trace = Ghost(self.trace@.push(EngineCall::RitualSummon(card_id, player, material_ids@)));
        self.record_extra_summon("ritual_summon", card_id, player, material_ids);
        true
    }

    fn fusion_summon(&mut self, card_id: u32, player: u8, material_ids: &[u32]) -> (r: bool)
        ensures
            final(self).calls@.last().args@ == num_arg("card"@, card_id as int) + seq![' '] + num_arg("player"@, player as int) + seq![' '] + ids_arg("materials"@, material_ids@),
            r,
            summoned_to_field(*old(self), *final(self), "fusion_summon"@, player as int, card_id),
    {
        self.trace = Ghost(self.trace@.push(EngineCall::FusionSummon(card_id, player, material_ids@)));
        self.record_extra_summon("fusion_summon", card_id, player, material_ids);
        true
    }

    fn synchro_summon(&mut self, card_id: u32, player: u8, material_ids: &[u32]) -> (r: bool)
        ensures
            final(self).calls@.last().args@ == num_arg("card"@, card_id as int) + seq![' '] + num_arg("player"@, player as int) + seq![' '] + ids_arg("materials"@, material_ids@),
            r,
            summoned_to_field(*old(self), *final(self), "synchro_summon"@, player as int, card_id),
    {
        self.trace = Ghost(self.trace@.push(EngineCall::SynchroSummon(card_id, player, material_ids@)));
        self.record_extra_summon("synchro_summon", card_id, player, material_ids);
        true
    }

    fn xyz_summon(&mut self, card_id: u32, player: u8, material_ids: &[u32]) -> (r: bool)
        ensures
            final(self).calls@.last().args@ == num_arg("card"@, card_id as int) + seq![' '] + num_arg("player"@, player as int) + seq![' '] + ids_arg("materials"@, material_ids@),
            r,
            summoned_to_field(*old(self), *final(self), "xyz_summon"@, player as int, card_id),
    {
        self.trace = Ghost(self.trace@.push(EngineCall::XyzSummon(card_id, player, material_ids@)));
        self.record_extra_summon("xyz_summon", card_id, player, material_ids);
        true
    }

    fn equip_card(&mut self, equip_id: u32, target_id: u32)
        ensures
            final(self).calls@.last().args@ == num_arg("equip"@, equip_id as int) + seq![' '] + num_arg("target"@, target_id as int),
            recorded(*old(self), *final(self), "equip_card"@),
    {
        self.trace = Ghost(self.trace@.push(EngineCall::EquipCard(equip_id, target_id)));
        let mut a = String::new();
        arg_num(&mut a, "equip", equip_id as i64);
        sp(&mut a);
        arg_num(&mut a, "target", target_id as i64);
        proof {
            assert(a@ =~= num_arg("equip"@, equip_id as int) + seq![' '] + num_arg("target"@, target_id as int));
        }
        self.record("equip_card", a);
    }

    fn swap_control(&mut self, card_a: u32, card_b: u32)
        ensures
            final(self).calls@.last().args@ == num_arg("a"@, card_a as int) + seq![' '] + num_arg("b"@, card_b as int),
            recorded(*old(self), *final(self), "swap_control"@),
    {
        self.trace = Ghost(self.trace@.push(EngineCall::SwapControl(card_a, card_b)));
        let mut a = String::new();
        arg_num(&mut a, "a", card_a as i64);
        sp(&mut a);
        arg_num(&mut a, "b", card_b as i64);
        proof {
            assert(a@ =~= num_arg("a"@, card_a as int) + seq![' '] + num_arg("b"@, card_b as int));
        }
        self.record("swap_control", a);
    }

    fn swap_stats(&mut self, card_id: u32)
        ensures
            final(self).calls@.last().args@ == num_arg("card"@, card_id as int),
            recorded(*old(self), *final(self), "swap_stats"@),
    {
        self.trace = Ghost(self.trace@.push(EngineCall::SwapStats(card_id)));
        self.record_card("swap_stats", card_id);
    }

    fn register_grant(&mut self, card_id: u32, grant_code: u32, duration: u32)
        ensures
            final(self).calls@.last().args@ == num_arg("card"@, card_id as int) + seq![' '] + hex_arg("grant"@, grant_code as nat) + seq![' '] + num_arg("duration"@, duration as int),
            recorded(*old(self), *final(self), "register_grant"@),
    {
        self.trace = Ghost(self.trace@.push(EngineCall::RegisterGrant(card_id, grant_code, duration)));
        let mut a = String::new();
        arg_num(&mut a, "card", card_id as i64);
        sp(&mut a);
        arg_hex(&mut a, "grant", grant_code as u64);
        sp(&mut a);
        arg_num(&mut a, "duration", duration as i64);
        proof {
            assert(a@ =~= num_arg("card"@, card_id as int) + seq![' '] + hex_arg("grant"@, grant_code as nat) + seq![' '] + num_arg("duration"@, duration as int));
        }
        self.record("register_grant", a);
    }

    // ── Card identity changes ────────────────────────────────
    fn take_control(&mut self, card_id: u32, new_controller: u8, duration: Duration) {
        self.trace = Ghost(self.trace@.push(EngineCall::TakeControl(card_id, new_controller, duration)));
    }

    fn create_token(&mut self, player: u8, spec: &TokenSpec) {
        self.trace = Ghost(self.trace@.push(EngineCall::CreateToken(player, *spec)));
    }

    fn store_value(&mut self, label: &str, value: i32) {
        self.trace = Ghost(self.trace@.push(EngineCall::StoreValue(label@, value)));
    }

    fn register_delayed(&mut self, phase: u32, card_id: u32) {
        self.trace = Ghost(self.trace@.push(EngineCall::RegisterDelayed(phase, card_id)));
    }

    fn change_level(&mut self, card_id: u32, level: u32)
        ensures
            final(self).calls@.last().method@ == "change_level"@,
            final(self).calls@.last().args@ == num_arg("card"@, card_id as int) + seq![' '] + num_arg("level"@, level as int),
            match find_card(old(self).state.cards@, card_id) {
                Some(c) => card_restated(*old(self), *final(self), "change_level"@, card_id, c.atk, c.def, level, c.race, c.attribute),
                None => recorded(*old(self), *final(self), "change_level"@),
            },
    {
        self.trace = Ghost(self.trace@.push(EngineCall::ChangeLevel(card_id, level)));
        let mut a = String::new();
        arg_num(&mut a, "card", card_id as i64);
        sp(&mut a);
        arg_num(&mut a, "level", level as i64);
        proof {
            assert(a@ =~= num_arg("card"@, card_id as int) + seq![' '] + num_arg("level"@, level as int));
        }
        self.record("change_level", a);
        match card_index(&self.state.cards, card_id) {
            Some(i) => {
                let mut c = self.state.cards[i].clone();
                c.level = level;
                let ghost before = self.state.cards@;
                self.state.cards.set(i, c);
                proof {
                    lemma_find_card_update(before, i as int, self.state.cards@[i as int]);
                }
            },
            None => {},
        }
    }

    fn change_attribute(&mut self, card_id: u32, attribute: u32)
        ensures
            final(self).calls@.last().method@ == "change_attribute"@,
            final(self).calls@.last().args@ == num_arg("card"@, card_id as int) + seq![' '] + hex_arg("attribute"@, attribute as nat),
            match find_card(old(self).state.cards@, card_id) {
                Some(c) => card_restated(*old(self), *final(self), "change_attribute"@, card_id, c.atk, c.def, c.level, c.race, attribute as u64),
                None => recorded(*old(self), *final(self), "change_attribute"@),
            },
    {
        self.trace = Ghost(self.trace@.push(EngineCall::ChangeAttribute(card_id, attribute)));
        let mut a = String::new();
        arg_num(&mut a, "card", card_id as i64);
        sp(&mut a);
        arg_hex(&mut a, "attribute", attribute as u64);
        proof {
            assert(a@ =~= num_arg("card"@, card_id as int) + seq![' '] + hex_arg("attribute"@, attribute as nat));
        }
        self.record("change_attribute", a);
        match card_index(&self.state.cards, card_id) {
            Some(i) => {
                let mut c = self.state.cards[i].clone();
                c.attribute = attribute as u64;
                let ghost before = self.state.cards@;
                self.state.cards.set(i, c);
                proof {
                    lemma_find_card_update(before, i as int, self.state.cards@[i as int]);
                }
            },
            None => {},
        }
    }

    fn change_race(&mut self, card_id: u32, race: u32)
        ensures
            final(self).calls@.last().method@ == "change_race"@,
            final(self).calls@.last().args@ == num_arg("card"@, card_id as int) + seq![' '] + hex_arg("race"@, race as nat),
            match find_card(old(self).state.cards@, card_id) {
                Some(c) => card_restated(*old(self), *final(self), "change_race"@, card_id, c.atk, c.def, c.level, race as u64, c.attribute),
                None => recorded(*old(self), *final(self), "change_race"@),
            },
    {
        self.trace = Ghost(self.trace@.push(EngineCall::ChangeRace(card_id, race)));
        let mut a = String::new();
        arg_num(&mut a, "card", card_id as i64);
        sp(&mut a);
        arg_hex(&mut a, "race", race as u64);
        proof {
            assert(a@ =~= num_arg("card"@, card_id as int) + seq![' '] + hex_arg("race"@, race as nat));
        }
        self.record("change_race", a);
        match card_index(&self.state.cards, card_id) {
            Some(i) => {
                let mut c = self.state.cards[i].clone();
                c.race = race as u64;
                let ghost before = self.state.cards@;
                self.state.cards.set(i, c);
                proof {
                    lemma_find_card_update(before, i as int, self.state.cards@[i as int]);
                }
            },
            None => {},
        }
    }

    fn change_name(&mut self, card_id: u32, name: &str, duration: u32)
        ensures
            final(self).calls@.last().args@ == num_arg("card"@, card_id as int) + seq![' '] + quoted_arg("name"@, name@) + seq![' '] + num_arg("duration"@, duration as int),
            recorded(*old(self), *final(self), "change_name"@),
    {
        self.trace = Ghost(self.trace@.push(EngineCall::ChangeName(card_id, name@, duration)));
        let mut a = String::new();
        arg_num(&mut a, "card", card_id as i64);
        sp(&mut a);
        arg_quoted(&mut a, "name", name);
        sp(&mut a);
        arg_num(&mut a, "duration", duration as i64);
        proof {
            assert(a@ =~= num_arg("card"@, card_id as int) + seq![' '] + quoted_arg("name"@, name@) + seq![' '] + num_arg("duration"@, duration as int));
        }
        self.record("change_name", a);
    }

    fn set_scale(&mut self, card_id: u32, scale: u32)
        ensures
            final(self).calls@.last().args@ == num_arg("card"@, card_id as int) + seq![' '] + num_arg("scale"@, scale as int),
            recorded(*old(self), *final(self), "set_scale"@),
    {
        self.trace = Ghost(self.trace@.push(EngineCall::SetScale(card_id, scale)));
        let mut a = String::new();
        arg_num(&mut a, "card", card_id as i64);
        sp(&mut a);
        arg_num(&mut a, "scale", scale as i64);
        proof {
            assert(a@ =~= num_arg("card"@, card_id as int) + seq![' '] + num_arg("scale"@, scale as int));
        }
        self.record("set_scale", a);
    }
}

} // verus!

verus! {

// ── DuelScenario ─────────────────────────────────────────────

/// `b` is `a` with player `p`'s state replaced by `ps`.
pub open spec fn with_player(a: MockRuntime, b: MockRuntime, p: int, ps: PlayerState) -> bool {
    &&& b.state.players[p] == ps
    &&& b.state.players[1 - p] == a.state.players[1 - p]
    &&& b.state.cards == a.state.cards
    &&& b.state.flags == a.state.flags
    &&& b.state.counters == a.state.counters
    &&& b.state.bindings == a.state.bindings
    &&& b.state.last_selection == a.state.last_selection
    &&& b.calls == a.calls
    &&& b.effect_player == a.effect_player
    &&& b.effect_card_id == a.effect_card_id
    &&& b.event_categories == a.event_categories
}

/// `b` is `a` with its registered cards replaced by `cards`.
pub open spec fn with_cards(a: MockRuntime, b: MockRuntime, cards: Vec<CardSnapshot>) -> bool {
    &&& b.state.cards == cards
    &&& b.state.players == a.state.players
    &&& b.state.flags == a.state.flags
    &&& b.state.counters == a.state.counters
    &&& b.state.bindings == a.state.bindings
    &&& b.state.last_selection == a.state.last_selection
    &&& b.calls == a.calls
    &&& b.effect_player == a.effect_player
    &&& b.effect_card_id == a.effect_card_id
    &&& b.event_categories == a.event_categories
}

/// The last snapshot in `snaps` with the given id.
pub open spec fn find_last(snaps: Seq<CardSnapshot>, id: u32) -> Option<CardSnapshot>
    decreases snaps.len(),
{
    if snaps.len() == 0 {
        None
    } else if snaps.last().id == id {
        Some(snaps.last())
    } else {
        find_last(snaps.drop_last(), id)
    }
}

/// Fluent builder for a MockRuntime's state. Zone setters apply to the
/// player last chosen with `player` (player 0 at first).
pub struct DuelScenario {
    rt: MockRuntime,
    current_player: u8,
}

impl DuelScenario {
    /// The runtime being built.
    pub closed spec fn runtime(&self) -> MockRuntime {
        self.rt
    }

    /// The player the zone setters apply to.
    pub closed spec fn current(&self) -> u8 {
        self.current_player
    }

    /// A fresh runtime, player 0 current.
    pub fn new() -> (r: Self)
        ensures
            r.current() == 0,
            is_fresh_state(r.runtime().state),
            r.runtime().calls@.len() == 0,
            r.runtime().effect_player == 0,
            r.runtime().effect_card_id == 0,
            r.runtime().event_categories == 0,
    {
        DuelScenario { rt: MockRuntime::new(), current_player: 0 }
    }

    /// Make `p` (0 or 1) the player the zone setters apply to.
    pub fn player(self, p: u8) -> (r: Self)
        requires
            p < 2,
        ensures
            r.current() == p,
            r.runtime() == self.runtime(),
    {
        DuelScenario { rt: self.rt, current_player: p }
    }

    /// Set the current player's LP.
    pub fn lp(self, amount: i32) -> (r: Self)
        requires
            self.current() < 2,
        ensures
            r.current() == self.current(),
            with_player(
                self.runtime(),
                r.runtime(),
                self.current() as int,
                PlayerState { lp: amount, ..self.runtime().state.players[self.current() as int] },
            ),
    {
        let mut s = self;
        let p = s.current_player as usize;
        s.rt.state.players[p].lp = amount;
        s
    }

    /// Set the current player's hand.
    pub fn hand(self, ids: Vec<u32>) -> (r: Self)
        requires
            self.current() < 2,
        ensures
            r.current() == self.current(),
            with_player(
                self.runtime(),
                r.runtime(),
                self.current() as int,
                PlayerState { hand: ids, ..self.runtime().state.players[self.current() as int] },
            ),
    {
        let mut s = self;
        let p = s.current_player as usize;
        s.rt.state.players[p].hand = ids;
        s
    }

    /// Set the current player's deck (top of deck is the last id).
    pub fn deck(self, ids: Vec<u32>) -> (r: Self)
        requires
            self.current() < 2,
        ensures
            r.current() == self.current(),
            with_player(
                self.runtime(),
                r.runtime(),
                self.current() as int,
                PlayerState { deck: ids, ..self.runtime().state.players[self.current() as int] },
            ),
    {
        let mut s = self;
        let p = s.current_player as usize;
        s.rt.state.players[p].deck = ids;
        s
    }

    /// Set the current player's graveyard.
    pub fn graveyard(self, ids: Vec<u32>) -> (r: Self)
        requires
            self.current() < 2,
        ensures
            r.current() == self.current(),
            with_player(
                self.runtime(),
                r.runtime(),
                self.current() as int,
                PlayerState { graveyard: ids, ..self.runtime().state.players[self.current() as int] },
            ),
    {
        let mut s = self;
        let p = s.current_player as usize;
        s.rt.state.players[p].graveyard = ids;
        s
    }

    /// Set the monsters on the current player's field.
    pub fn monsters(self, ids: Vec<u32>) -> (r: Self)
        requires
            self.current() < 2,
        ensures
            r.current() == self.current(),
            with_player(
                self.runtime(),
                r.runtime(),
                self.current() as int,
                PlayerState { field_monsters: ids, ..self.runtime().state.players[self.current() as int] },
            ),
    {
        let mut s = self;
        let p = s.current_player as usize;
        s.rt.state.players[p].field_monsters = ids;
        s
    }

    /// Reset player `p` to 8000 LP and empty zones.
    pub fn reset(self, p: u8) -> (r: Self)
        requires
            p < 2,
        ensures
            r.current() == self.current(),
            is_fresh_player(r.runtime().state.players[p as int]),
            with_player(self.runtime(), r.runtime(), p as int, r.runtime().state.players[p as int]),
    {
        let mut s = self;
        s.rt.state.players[p as usize] = PlayerState::fresh();
        s
    }

    /// Register a card snapshot.
    pub fn card(self, snap: CardSnapshot) -> (r: Self)
        ensures
            r.current() == self.current(),
            with_cards(self.runtime(), r.runtime(), r.runtime().state.cards),
            find_card(r.runtime().state.cards@, snap.id) == Some(snap),
            forall|id: u32|
                id != snap.id ==> find_card(r.runtime().state.cards@, id) == find_card(
                    self.runtime().state.cards@,
                    id,
                ),
    {
        let mut s = self;
        s.rt.state.add_card(snap);
        s
    }

    /// Register several card snapshots, in order.
    pub fn cards(self, snaps: Vec<CardSnapshot>) -> (r: Self)
        ensures
            r.current() == self.current(),
            with_cards(self.runtime(), r.runtime(), r.runtime().state.cards),
            forall|id: u32|
                #[trigger] find_card(r.runtime().state.cards@, id) == match find_last(snaps@, id) {
                    Some(c) => Some(c),
                    None => find_card(self.runtime().state.cards@, id),
                },
    {
        let mut s = self;
        let ghost orig = snaps@;
        let ghost mut k: int = 0;
        let mut rest = snaps;
        while rest.len() > 0
            invariant
                0 <= k <= orig.len(),
                rest@ == orig.skip(k),
                s.current_player == self.current_player,
                with_cards(self.rt, s.rt, s.rt.state.cards),
                forall|id: u32|
                    #[trigger] find_card(s.rt.state.cards@, id) == match find_last(orig.take(k), id) {
                        Some(c) => Some(c),
                        None => find_card(self.rt.state.cards@, id),
                    },
            decreases rest.len(),
        {
            let snap = rest.remove(0);
            proof {
                assert(snap == orig[k]);
                assert(orig.take(k + 1).drop_last() =~= orig.take(k));
                assert(orig.take(k + 1).last() == orig[k]);
                assert(rest@ =~= orig.skip(k + 1));
            }
            s.rt.state.add_card(snap);
            proof {
                k = k + 1;
            }
        }
        proof {
            assert(orig.take(k) =~= orig);
        }
        s
    }

    /// Set who activated the effect and which card it belongs to.
    pub fn activated_by(self, player: u8, card_id: u32) -> (r: Self)
        ensures
            r.current() == self.current(),
            r.runtime() == (MockRuntime { effect_player: player, effect_card_id: card_id, ..self.runtime() }),
    {
        let mut s = self;
        s.rt.effect_player = player;
        s.rt.effect_card_id = card_id;
        s
    }

    /// Set the chain-link event categories.
    pub fn event_categories(self, mask: u32) -> (r: Self)
        ensures
            r.current() == self.current(),
            r.runtime() == (MockRuntime { event_categories: mask, ..self.runtime() }),
    {
        let mut s = self;
        s.rt.event_categories = mask;
        s
    }

    /// The runtime built so far.
    pub fn build(self) -> (r: MockRuntime)
        ensures
            r == self.runtime(),
    {
        self.rt
    }
}

impl Default for DuelScenario {
    fn default() -> (r: Self)
        ensures
            r.current() == 0,
            r.runtime().calls@.len() == 0,
    {
        Self::new()
    }
}

} // verus!
