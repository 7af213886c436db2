// The DuelScript v2 validator: semantic checks on parsed cards. Each rule
// adds an error or a warning; the report lists them card by card, rule by
// rule, in a fixed order.

use vstd::prelude::*;
use super::ast::{
    Action, Arrow, Card, CardType, ChooseOption, Condition, ConditionAtom, Effect, File, Passive,
    RedirectScope, Redirect, Replacement, Restriction, Selector, StatVal, Zone,
};
use super::text::{decimal, push_digits, push_i64, push_str};

verus! {

// ── Report types ─────────────────────────────────────────────

/// How serious a finding is.
#[derive(Debug, Clone, Copy, PartialEq, Eq, Structural)]
pub enum Severity {
    Error,
    Warning,
}

/// One finding on one card.
#[derive(Debug, Clone)]
pub struct ValidationError {
    pub card: String,
    pub message: String,
    pub severity: Severity,
}

/// A finding as plain values: the card's name, the severity, the message.
pub type Diag = (Seq<char>, Severity, Seq<char>);

impl View for ValidationError {
    type V = Diag;

    open spec fn view(&self) -> Diag {
        (self.card@, self.severity, self.message@)
    }
}

impl ValidationError {
    /// `[ERROR] card: message` or `[WARN] card: message`.
    pub fn to_text(&self) -> (r: String)
        ensures
            r@ == (if self.severity == Severity::Error { "[ERROR] "@ } else { "[WARN] "@ }) + self.card@
                + ": "@ + self.message@,
    {
        let mut s = String::new();
        match self.severity {
            Severity::Error => push_str(&mut s, "[ERROR] "),
            Severity::Warning => push_str(&mut s, "[WARN] "),
        }
        push_str(&mut s, self.card.as_str());
        push_str(&mut s, ": ");
        push_str(&mut s, self.message.as_str());
        s
    }
}

/// All findings on a file.
#[derive(Debug, Clone)]
pub struct ValidationReport {
    pub errors: Vec<ValidationError>,
}

/// The findings of a list as plain values.
pub open spec fn views(v: Seq<ValidationError>) -> Seq<Diag> {
    v.map_values(|e: ValidationError| e@)
}

/// How many findings of `s` have severity `sev`.
pub open spec fn count_severity(s: Seq<Diag>, sev: Severity) -> nat
    decreases s.len(),
{
    if s.len() == 0 {
        0
    } else {
        count_severity(s.drop_last(), sev) + if s.last().1 == sev { 1nat } else { 0nat }
    }
}

proof fn lemma_count_severity_bound(s: Seq<Diag>, sev: Severity)
    ensures
        count_severity(s, sev) <= s.len(),
    decreases s.len(),
{
    if s.len() > 0 {
        lemma_count_severity_bound(s.drop_last(), sev);
    }
}

impl ValidationReport {
    /// Whether any finding is an error.
    pub fn has_errors(&self) -> (r: bool)
        ensures
            r == (count_severity(views(self.errors@), Severity::Error) > 0),
    {
        self.error_count() > 0
    }

    /// The number of errors.
    pub fn error_count(&self) -> (r: usize)
        ensures
            r == count_severity(views(self.errors@), Severity::Error),
    {
        self.count_of(Severity::Error)
    }

    /// The number of warnings.
    pub fn warning_count(&self) -> (r: usize)
        ensures
            r == count_severity(views(self.errors@), Severity::Warning),
    {
        self.count_of(Severity::Warning)
    }

    fn count_of(&self, sev: Severity) -> (r: usize)
        ensures
            r == count_severity(views(self.errors@), sev),
    {
        let mut n: usize = 0;
        let mut i: usize = 0;
        while i < self.errors.len()
            invariant
                i <= self.errors@.len(),
                n == count_severity(views(self.errors@).take(i as int), sev),
            decreases self.errors.len() - i,
        {
            proof {
                let v = views(self.errors@);
                assert(v.take(i + 1).drop_last() =~= v.take(i as int));
                lemma_count_severity_bound(v.take(i as int), sev);
            }
            if self.errors[i].severity == sev {
                n = n + 1;
            }
            i += 1;
        }
        proof {
            assert(views(self.errors@).take(self.errors@.len() as int) =~= views(self.errors@));
        }
        n
    }
}

// ── Building blocks of the rules ─────────────────────────────

/// One finding if `c` holds, none otherwise.
pub open spec fn when(c: bool, d: Diag) -> Seq<Diag> {
    if c { seq![d] } else { Seq::empty() }
}

pub open spec fn error_on(card: Card, msg: Seq<char>) -> Diag {
    (card.name@, Severity::Error, msg)
}

pub open spec fn warning_on(card: Card, msg: Seq<char>) -> Diag {
    (card.name@, Severity::Warning, msg)
}

/// The findings of `f` on each item of `s`, in order.
pub open spec fn concat_map<T>(s: Seq<T>, f: spec_fn(T) -> Seq<Diag>) -> Seq<Diag>
    decreases s.len(),
{
    if s.len() == 0 {
        Seq::empty()
    } else {
        concat_map(s.drop_last(), f) + f(s.last())
    }
}

proof fn lemma_concat_map_step<T>(s: Seq<T>, f: spec_fn(T) -> Seq<Diag>, i: int)
    requires
        0 <= i < s.len(),
    ensures
        concat_map(s.take(i + 1), f) == concat_map(s.take(i), f) + f(s[i]),
{
    assert(s.take(i + 1).drop_last() =~= s.take(i));
}

proof fn lemma_take_all<T>(s: Seq<T>)
    ensures
        s.take(s.len() as int) == s,
{
    assert(s.take(s.len() as int) =~= s);
}

fn push_diag(errors: &mut Vec<ValidationError>, card: &Card, severity: Severity, message: String)
    ensures
        views(final(errors)@) == views(old(errors)@).push((card.name@, severity, message@)),
{
    let e = ValidationError { card: card.name.clone(), message, severity };
    errors.push(e);
    proof {
        assert(views(final(errors)@) =~= views(old(errors)@).push((card.name@, severity, message@)));
    }
}

/// Adds the finding when `c` holds; `acc` tracks what was added since `base`.
fn report_if(
    errors: &mut Vec<ValidationError>,
    Ghost(base): Ghost<Seq<Diag>>,
    Ghost(acc): Ghost<Seq<Diag>>,
    c: bool,
    card: &Card,
    severity: Severity,
    message: String,
) -> (r: Ghost<Seq<Diag>>)
    requires
        views(old(errors)@) == base + acc,
    ensures
        r@ == acc + when(c, (card.name@, severity, message@)),
        views(final(errors)@) == base + r@,
{
    if c {
        push_diag(errors, card, severity, message);
        proof {
            assert(base + (acc + seq![(card.name@, severity, message@)]) =~= (base + acc).push(
                (card.name@, severity, message@),
            ));
        }
    } else {
        proof {
            assert(acc + Seq::<Diag>::empty() =~= acc);
        }
    }
    Ghost(acc + when(c, (card.name@, severity, message@)))
}

fn text(s: &str) -> (r: String)
    ensures
        r@ == s@,
{
    super::text::string_from(s)
}

/// `pre` + `name` + `post`.
fn named(pre: &str, name: &String, post: &str) -> (r: String)
    ensures
        r@ == pre@ + name@ + post@,
{
    let mut s = String::new();
    push_str(&mut s, pre);
    push_str(&mut s, name.as_str());
    push_str(&mut s, post);
    s
}

/// `pre` + decimal(`n`) + `post`.
fn numbered(pre: &str, n: i64, post: &str) -> (r: String)
    ensures
        r@ == pre@ + decimal(n as int) + post@,
{
    let mut s = String::new();
    push_str(&mut s, pre);
    push_i64(&mut s, n);
    push_str(&mut s, post);
    s
}

/// `a` + decimal(`x`) + `b` + decimal(`y`) + `c` + decimal(`z`).
fn numbered3(a: &str, x: i64, b: &str, y: i64, c: &str, z: i64) -> (r: String)
    ensures
        r@ == a@ + decimal(x as int) + b@ + decimal(y as int) + c@ + decimal(z as int),
{
    let mut s = String::new();
    push_str(&mut s, a);
    push_i64(&mut s, x);
    push_str(&mut s, b);
    push_i64(&mut s, y);
    push_str(&mut s, c);
    push_i64(&mut s, z);
    s
}

/// `a` + decimal(`x`) + `b` + decimal(`y`) + `c` + decimal(`z`), for counts.
fn counted3(a: &str, x: u64, b: &str, y: u64, c: &str, z: u64) -> (r: String)
    ensures
        r@ == a@ + decimal(x as int) + b@ + decimal(y as int) + c@ + decimal(z as int),
{
    let mut s = String::new();
    push_str(&mut s, a);
    push_digits(&mut s, x, 10);
    push_str(&mut s, b);
    push_digits(&mut s, y, 10);
    push_str(&mut s, c);
    push_digits(&mut s, z, 10);
    s
}

// ── Card kinds ───────────────────────────────────────────────

pub open spec fn is_monster_kind(t: CardType) -> bool {
    t == CardType::NormalMonster || t == CardType::EffectMonster || t == CardType::RitualMonster
        || t == CardType::FusionMonster || t == CardType::SynchroMonster || t == CardType::XyzMonster
        || t == CardType::LinkMonster || t == CardType::PendulumMonster
}

pub open spec fn is_spell_kind(t: CardType) -> bool {
    t == CardType::NormalSpell || t == CardType::QuickPlaySpell || t == CardType::ContinuousSpell
        || t == CardType::EquipSpell || t == CardType::FieldSpell || t == CardType::RitualSpell
}

pub open spec fn is_trap_kind(t: CardType) -> bool {
    t == CardType::NormalTrap || t == CardType::CounterTrap || t == CardType::ContinuousTrap
}

pub open spec fn is_extra_deck_kind(t: CardType) -> bool {
    t == CardType::FusionMonster || t == CardType::SynchroMonster || t == CardType::XyzMonster
        || t == CardType::LinkMonster
}

/// Continuous Spell, Continuous Trap, Field Spell, Equip Spell: activating
/// one only places it; its passives do the work.
pub open spec fn is_permanent_kind(t: CardType) -> bool {
    t == CardType::ContinuousSpell || t == CardType::FieldSpell || t == CardType::EquipSpell
        || t == CardType::ContinuousTrap
}

/// The base monster types a Pendulum Monster must also carry.
pub open spec fn is_pendulum_base_kind(t: CardType) -> bool {
    t == CardType::NormalMonster || t == CardType::EffectMonster || t == CardType::FusionMonster
        || t == CardType::SynchroMonster || t == CardType::XyzMonster || t == CardType::RitualMonster
}

/// A family of card types.
#[derive(Clone, Copy, PartialEq, Eq, Structural)]
pub enum Kind {
    Monster,
    Spell,
    Trap,
    ExtraDeck,
    Permanent,
    PendulumBase,
}

pub open spec fn in_kind(t: CardType, k: Kind) -> bool {
    match k {
        Kind::Monster => is_monster_kind(t),
        Kind::Spell => is_spell_kind(t),
        Kind::Trap => is_trap_kind(t),
        Kind::ExtraDeck => is_extra_deck_kind(t),
        Kind::Permanent => is_permanent_kind(t),
        Kind::PendulumBase => is_pendulum_base_kind(t),
    }
}

/// Whether some declared type of the card is of kind `k`.
pub open spec fn of_kind(card: Card, k: Kind) -> bool {
    exists|i: int| 0 <= i < card.fields.card_types@.len() && in_kind(#[trigger] card.fields.card_types@[i], k)
}

/// Whether the card declares type `t`.
pub open spec fn declares(card: Card, t: CardType) -> bool {
    card.fields.card_types@.contains(t)
}

fn kind_of(t: CardType, k: Kind) -> (r: bool)
    ensures
        r == in_kind(t, k),
{
    match k {
        Kind::Monster => match t {
            CardType::NormalMonster | CardType::EffectMonster | CardType::RitualMonster
            | CardType::FusionMonster | CardType::SynchroMonster | CardType::XyzMonster
            | CardType::LinkMonster | CardType::PendulumMonster => true,
            _ => false,
        },
        Kind::Spell => match t {
            CardType::NormalSpell | CardType::QuickPlaySpell | CardType::ContinuousSpell
            | CardType::EquipSpell | CardType::FieldSpell | CardType::RitualSpell => true,
            _ => false,
        },
        Kind::Trap => match t {
            CardType::NormalTrap | CardType::CounterTrap | CardType::ContinuousTrap => true,
            _ => false,
        },
        Kind::ExtraDeck => match t {
            CardType::FusionMonster | CardType::SynchroMonster | CardType::XyzMonster
            | CardType::LinkMonster => true,
            _ => false,
        },
        Kind::Permanent => match t {
            CardType::ContinuousSpell | CardType::FieldSpell | CardType::EquipSpell
            | CardType::ContinuousTrap => true,
            _ => false,
        },
        Kind::PendulumBase => match t {
            CardType::NormalMonster | CardType::EffectMonster | CardType::FusionMonster
            | CardType::SynchroMonster | CardType::XyzMonster | CardType::RitualMonster => true,
            _ => false,
        },
    }
}

fn card_of_kind(card: &Card, k: Kind) -> (r: bool)
    ensures
        r == of_kind(*card, k),
{
    let types = &card.fields.card_types;
    let mut i: usize = 0;
    while i < types.len()
        invariant
            i <= types@.len(),
            types == &card.fields.card_types,
            forall|j: int| 0 <= j < i ==> !in_kind(#[trigger] types@[j], k),
        decreases types.len() - i,
    {
        if kind_of(types[i], k) {
            return true;
        }
        i += 1;
    }
    false
}

fn card_declares(card: &Card, t: CardType) -> (r: bool)
    ensures
        r == declares(*card, t),
{
    let types = &card.fields.card_types;
    let mut i: usize = 0;
    while i < types.len()
        invariant
            i <= types@.len(),
            types == &card.fields.card_types,
            forall|j: int| 0 <= j < i ==> types@[j] != t,
        decreases types.len() - i,
    {
        if types[i] == t {
            proof {
                assert(types@[i as int] == t);
            }
            return true;
        }
        i += 1;
    }
    false
}

fn report_first(
    errors: &mut Vec<ValidationError>,
    Ghost(base): Ghost<Seq<Diag>>,
    c: bool,
    card: &Card,
    severity: Severity,
    message: String,
) -> (r: Ghost<Seq<Diag>>)
    requires
        views(old(errors)@) == base,
    ensures
        r@ == when(c, (card.name@, severity, message@)),
        views(final(errors)@) == base + r@,
{
    proof {
        assert(base + Seq::<Diag>::empty() =~= base);
    }
    let r = report_if(errors, Ghost(base), Ghost(Seq::empty()), c, card, severity, message);
    proof {
        assert(Seq::<Diag>::empty() + when(c, (card.name@, severity, message@)) =~= when(
            c,
            (card.name@, severity, message@),
        ));
    }
    Ghost(when(c, (card.name@, severity, message@)))
}

/// Adds `extra` (already appended to `errors` after `base + acc`) to the
/// tracked additions.
proof fn lemma_extend(base: Seq<Diag>, acc: Seq<Diag>, extra: Seq<Diag>)
    ensures
        (base + acc) + extra == base + (acc + extra),
{
    vstd::seq_lib::lemma_concat_associative(base, acc, extra);
}

// ── Required fields, ranges, type consistency ────────────────

pub open spec fn required_fields_diags(card: Card) -> Seq<Diag> {
    let f = card.fields;
    let mon = of_kind(card, Kind::Monster);
    let link = declares(card, CardType::LinkMonster);
    let xyz = declares(card, CardType::XyzMonster);
    let extra = of_kind(card, Kind::ExtraDeck);
    let pend = declares(card, CardType::PendulumMonster);
    when(f.card_types@.len() == 0, error_on(card, "Card must declare at least one type"@))
        + when(mon && f.atk is None, error_on(card, "Monster must declare 'atk'"@))
        + when(mon && !link && f.def is None, error_on(card, "Non-Link monster must declare 'def'"@))
        + when(mon && link && f.def is Some, error_on(card, "Link monsters do not have DEF"@))
        + when(mon && f.race is None, error_on(card, "Monster must declare 'race'"@))
        + when(mon && f.attribute is None, error_on(card, "Monster must declare 'attribute'"@))
        + when(mon && !xyz && !link && !extra && f.level is None, error_on(card, "Monster must declare 'level'"@))
        + when(mon && xyz && f.rank is None, error_on(card, "Xyz monster must declare 'rank'"@))
        + when(mon && xyz && f.level is Some, error_on(card, "Xyz monsters use 'rank', not 'level'"@))
        + when(mon && link && f.link is None, error_on(card, "Link monster must declare 'link' rating"@))
        + when(mon && link && f.level is Some, error_on(card, "Link monsters use 'link', not 'level'"@))
        + when(mon && pend && f.scale is None, error_on(card, "Pendulum monster must declare 'scale'"@))
        + when(
            declares(card, CardType::NormalMonster) && card.effects@.len() > 0,
            error_on(card, "Normal monsters cannot have effect blocks"@),
        )
}

fn check_required_fields(card: &Card, errors: &mut Vec<ValidationError>)
    ensures
        views(final(errors)@) == views(old(errors)@) + required_fields_diags(*card),
{
    let f = &card.fields;
    let mon = card_of_kind(card, Kind::Monster);
    let link = card_declares(card, CardType::LinkMonster);
    let xyz = card_declares(card, CardType::XyzMonster);
    let extra = card_of_kind(card, Kind::ExtraDeck);
    let pend = card_declares(card, CardType::PendulumMonster);
    let normal = card_declares(card, CardType::NormalMonster);
    let ghost base = views(errors@);
    let Ghost(a) = report_first(errors, Ghost(base), f.card_types.len() == 0, card, Severity::Error,
        text("Card must declare at least one type"));
    let Ghost(a) = report_if(errors, Ghost(base), Ghost(a), mon && f.atk.is_none(), card, Severity::Error,
        text("Monster must declare 'atk'"));
    let Ghost(a) = report_if(errors, Ghost(base), Ghost(a), mon && !link && f.def.is_none(), card,
        Severity::Error, text("Non-Link monster must declare 'def'"));
    let Ghost(a) = report_if(errors, Ghost(base), Ghost(a), mon && link && f.def.is_some(), card,
        Severity::Error, text("Link monsters do not have DEF"));
    let Ghost(a) = report_if(errors, Ghost(base), Ghost(a), mon && f.race.is_none(), card, Severity::Error,
        text("Monster must declare 'race'"));
    let Ghost(a) = report_if(errors, Ghost(base), Ghost(a), mon && f.attribute.is_none(), card,
        Severity::Error, text("Monster must declare 'attribute'"));
    let Ghost(a) = report_if(errors, Ghost(base), Ghost(a), mon && !xyz && !link && !extra && f.level.is_none(),
        card, Severity::Error, text("Monster must declare 'level'"));
    let Ghost(a) = report_if(errors, Ghost(base), Ghost(a), mon && xyz && f.rank.is_none(), card,
        Severity::Error, text("Xyz monster must declare 'rank'"));
    let Ghost(a) = report_if(errors, Ghost(base), Ghost(a), mon && xyz && f.level.is_some(), card,
        Severity::Error, text("Xyz monsters use 'rank', not 'level'"));
    let Ghost(a) = report_if(errors, Ghost(base), Ghost(a), mon && link && f.link.is_none(), card,
        Severity::Error, text("Link monster must declare 'link' rating"));
    let Ghost(a) = report_if(errors, Ghost(base), Ghost(a), mon && link && f.level.is_some(), card,
        Severity::Error, text("Link monsters use 'link', not 'level'"));
    let Ghost(a) = report_if(errors, Ghost(base), Ghost(a), mon && pend && f.scale.is_none(), card,
        Severity::Error, text("Pendulum monster must declare 'scale'"));
    let Ghost(_a) = report_if(errors, Ghost(base), Ghost(a), normal && card.effects.len() > 0, card,
        Severity::Error, text("Normal monsters cannot have effect blocks"));
}

/// The ATK the card declares as a number, if any.
pub open spec fn numeric(v: Option<StatVal>) -> Option<i32> {
    match v {
        Some(StatVal::Number(n)) => Some(n),
        _ => None,
    }
}

fn numeric_of(v: &Option<StatVal>) -> (r: Option<i32>)
    ensures
        r == numeric(*v),
{
    match v {
        Some(StatVal::Number(n)) => Some(*n),
        _ => None,
    }
}

pub open spec fn stat_range_diags(card: Card) -> Seq<Diag> {
    let f = card.fields;
    let atk = numeric(f.atk);
    let def = numeric(f.def);
    when(atk is Some && atk.unwrap() < 0, error_on(card, "ATK cannot be negative"@))
        + when(
            atk is Some && atk.unwrap() > 5000,
            warning_on(card, "ATK "@ + decimal(atk.unwrap() as int) + " is unusually high"@),
        )
        + when(def is Some && def.unwrap() < 0, error_on(card, "DEF cannot be negative"@))
        + when(f.level is Some && f.level.unwrap() == 0, error_on(card, "Level cannot be 0"@))
        + when(
            f.level is Some && f.level.unwrap() > 12,
            warning_on(card, "Level "@ + decimal(f.level.unwrap() as int) + " is unusually high"@),
        )
        + when(
            f.rank is Some && f.rank.unwrap() > 13,
            warning_on(card, "Rank "@ + decimal(f.rank.unwrap() as int) + " exceeds known Xyz ranks"@),
        )
        + when(f.link is Some && f.link.unwrap() == 0, error_on(card, "Link rating cannot be 0"@))
        + when(
            f.link is Some && f.link.unwrap() > 8,
            warning_on(card, "Link rating "@ + decimal(f.link.unwrap() as int) + " is unusually high"@),
        )
}

fn check_stat_ranges(card: &Card, errors: &mut Vec<ValidationError>)
    ensures
        views(final(errors)@) == views(old(errors)@) + stat_range_diags(*card),
{
    let f = &card.fields;
    let atk = numeric_of(&f.atk);
    let def = numeric_of(&f.def);
    let atk_v: i32 = match atk { Some(v) => v, None => 0 };
    let def_v: i32 = match def { Some(v) => v, None => 0 };
    let level: u32 = match f.level { Some(v) => v, None => 0 };
    let rank: u32 = match f.rank { Some(v) => v, None => 0 };
    let link: u32 = match f.link { Some(v) => v, None => 0 };
    let ghost base = views(errors@);
    let Ghost(a) = report_first(errors, Ghost(base), atk.is_some() && atk_v < 0, card, Severity::Error,
        text("ATK cannot be negative"));
    let Ghost(a) = report_if(errors, Ghost(base), Ghost(a), atk.is_some() && atk_v > 5000, card,
        Severity::Warning, numbered("ATK ", atk_v as i64, " is unusually high"));
    let Ghost(a) = report_if(errors, Ghost(base), Ghost(a), def.is_some() && def_v < 0, card,
        Severity::Error, text("DEF cannot be negative"));
    let Ghost(a) = report_if(errors, Ghost(base), Ghost(a), f.level.is_some() && level == 0, card,
        Severity::Error, text("Level cannot be 0"));
    let Ghost(a) = report_if(errors, Ghost(base), Ghost(a), f.level.is_some() && level > 12, card,
        Severity::Warning, numbered("Level ", level as i64, " is unusually high"));
    let Ghost(a) = report_if(errors, Ghost(base), Ghost(a), f.rank.is_some() && rank > 13, card,
        Severity::Warning, numbered("Rank ", rank as i64, " exceeds known Xyz ranks"));
    let Ghost(a) = report_if(errors, Ghost(base), Ghost(a), f.link.is_some() && link == 0, card,
        Severity::Error, text("Link rating cannot be 0"));
    let Ghost(_a) = report_if(errors, Ghost(base), Ghost(a), f.link.is_some() && link > 8, card,
        Severity::Warning, numbered("Link rating ", link as i64, " is unusually high"));
}

pub open spec fn type_consistency_diags(card: Card) -> Seq<Diag> {
    let mon = of_kind(card, Kind::Monster);
    let spell = of_kind(card, Kind::Spell);
    let trap = of_kind(card, Kind::Trap);
    when(mon && spell, error_on(card, "Card cannot be both Monster and Spell"@))
        + when(mon && trap, error_on(card, "Card cannot be both Monster and Trap"@))
        + when(spell && trap, error_on(card, "Card cannot be both Spell and Trap"@))
        + when(declares(card, CardType::Tuner) && !mon, error_on(card, "'Tuner' requires a monster type"@))
        + when(
            declares(card, CardType::PendulumMonster) && !of_kind(card, Kind::PendulumBase),
            error_on(card, "Pendulum Monster must also declare a base monster type"@),
        )
}

fn check_type_consistency(card: &Card, errors: &mut Vec<ValidationError>)
    ensures
        views(final(errors)@) == views(old(errors)@) + type_consistency_diags(*card),
{
    let mon = card_of_kind(card, Kind::Monster);
    let spell = card_of_kind(card, Kind::Spell);
    let trap = card_of_kind(card, Kind::Trap);
    let tuner = card_declares(card, CardType::Tuner);
    let pend = card_declares(card, CardType::PendulumMonster);
    let pend_base = card_of_kind(card, Kind::PendulumBase);
    let ghost base = views(errors@);
    let Ghost(a) = report_first(errors, Ghost(base), mon && spell, card, Severity::Error,
        text("Card cannot be both Monster and Spell"));
    let Ghost(a) = report_if(errors, Ghost(base), Ghost(a), mon && trap, card, Severity::Error,
        text("Card cannot be both Monster and Trap"));
    let Ghost(a) = report_if(errors, Ghost(base), Ghost(a), spell && trap, card, Severity::Error,
        text("Card cannot be both Spell and Trap"));
    let Ghost(a) = report_if(errors, Ghost(base), Ghost(a), tuner && !mon, card, Severity::Error,
        text("'Tuner' requires a monster type"));
    let Ghost(_a) = report_if(errors, Ghost(base), Ghost(a), pend && !pend_base, card, Severity::Error,
        text("Pendulum Monster must also declare a base monster type"));
}

// ── Levels and tributes ──────────────────────────────────────

/// Tributes a Normal Summon of this level takes: 1 for levels 5-6, 2 for
/// levels 7-12, no rule otherwise.
pub open spec fn expected_tributes(level: u32) -> Option<u32> {
    if 5 <= level <= 6 {
        Some(1)
    } else if 7 <= level <= 12 {
        Some(2)
    } else {
        None
    }
}

/// The tribute count suggested for a level of 5 or more.
pub open spec fn suggested_tributes(level: u32) -> int {
    if level <= 6 { 1 } else { 2 }
}

pub open spec fn level_tribute_diags(card: Card) -> Seq<Diag> {
    if !of_kind(card, Kind::Monster) || of_kind(card, Kind::ExtraDeck) || card.fields.level is None {
        Seq::empty()
    } else {
        let l = card.fields.level.unwrap();
        match card.summon {
            None => when(
                l >= 5,
                warning_on(
                    card,
                    "Level "@ + decimal(l as int) + " monster should declare a summon block with tributes: "@
                        + decimal(suggested_tributes(l)),
                ),
            ),
            Some(s) => if s.cannot_normal_summon {
                Seq::empty()
            } else {
                match s.tributes {
                    Some(t) => match expected_tributes(l) {
                        Some(e) => when(
                            t != e,
                            error_on(
                                card,
                                "Level "@ + decimal(l as int) + " needs "@ + decimal(e as int)
                                    + " tribute(s), declared "@ + decimal(t as int),
                            ),
                        ),
                        None => Seq::empty(),
                    },
                    None => when(
                        l >= 5,
                        warning_on(
                            card,
                            "Level "@ + decimal(l as int) + " monster should declare tributes: "@
                                + decimal(suggested_tributes(l)),
                        ),
                    ),
                }
            },
        }
    }
}

fn report_one(errors: &mut Vec<ValidationError>, card: &Card, severity: Severity, message: String)
    ensures
        views(final(errors)@) == views(old(errors)@) + seq![(card.name@, severity, message@)],
{
    push_diag(errors, card, severity, message);
    proof {
        assert(views(old(errors)@) + seq![(card.name@, severity, message@)] =~= views(old(errors)@).push(
            (card.name@, severity, message@),
        ));
    }
}

proof fn lemma_add_empty(s: Seq<Diag>)
    ensures
        s + Seq::<Diag>::empty() == s,
{
    assert(s + Seq::<Diag>::empty() =~= s);
}

fn check_level_tribute_consistency(card: &Card, errors: &mut Vec<ValidationError>)
    ensures
        views(final(errors)@) == views(old(errors)@) + level_tribute_diags(*card),
{
    proof {
        lemma_add_empty(views(errors@));
    }
    let mon = card_of_kind(card, Kind::Monster);
    let extra = card_of_kind(card, Kind::ExtraDeck);
    if !mon || extra {
        return;
    }
    let level = match card.fields.level {
        Some(l) => l,
        None => {
            return;
        },
    };
    let hint: i64 = if level <= 6 { 1 } else { 2 };
    match &card.summon {
        None => {
            if level >= 5 {
                let mut m = numbered("Level ", level as i64, " monster should declare a summon block with tributes: ");
                push_i64(&mut m, hint);
                report_one(errors, card, Severity::Warning, m);
            }
        },
        Some(s) => {
            if s.cannot_normal_summon {
                return;
            }
            match s.tributes {
                Some(t) => {
                    let expected: Option<u32> = if 5 <= level && level <= 6 {
                        Some(1)
                    } else if 7 <= level && level <= 12 {
                        Some(2)
                    } else {
                        None
                    };
                    if let Some(e) = expected {
                        if t != e {
                            let m = numbered3("Level ", level as i64, " needs ", e as i64,
                                " tribute(s), declared ", t as i64);
                            report_one(errors, card, Severity::Error, m);
                        }
                    }
                },
                None => {
                    if level >= 5 {
                        let mut m = numbered("Level ", level as i64, " monster should declare tributes: ");
                        push_i64(&mut m, hint);
                        report_one(errors, card, Severity::Warning, m);
                    }
                },
            }
        },
    }
}

/// A finding of `f` on one item of `s` is among the findings on the list.
proof fn lemma_concat_map_contains<T>(s: Seq<T>, f: spec_fn(T) -> Seq<Diag>, k: int, d: Diag)
    requires
        0 <= k < s.len(),
        f(s[k]).contains(d),
    ensures
        concat_map(s, f).contains(d),
    decreases s.len(),
{
    let head = concat_map(s.drop_last(), f);
    let j = choose|j: int| 0 <= j < f(s[k]).len() && #[trigger] f(s[k])[j] == d;
    if k == s.len() - 1 {
        assert((head + f(s.last()))[head.len() + j] == d);
    } else {
        assert(s.drop_last()[k] == s[k]);
        lemma_concat_map_contains(s.drop_last(), f, k, d);
        let i = choose|i: int| 0 <= i < head.len() && #[trigger] head[i] == d;
        assert((head + f(s.last()))[i] == d);
    }
}

proof fn lemma_contains_append(s: Seq<Diag>, t: Seq<Diag>, d: Diag)
    requires
        s.contains(d),
    ensures
        (s + t).contains(d),
        (t + s).contains(d),
{
    let i = choose|i: int| 0 <= i < s.len() && #[trigger] s[i] == d;
    assert((s + t)[i] == d);
    assert((t + s)[t.len() + i] == d);
}

/// What the tribute rule finds is among the card's findings.
proof fn lemma_tribute_finding_in_card(card: Card, d: Diag)
    requires
        level_tribute_diags(card).contains(d),
    ensures
        card_diags(card).contains(d),
{
    let a = required_fields_diags(card) + stat_range_diags(card) + type_consistency_diags(card);
    let mut x = level_tribute_diags(card);
    lemma_contains_append(x, a, d);
    x = a + x;
    lemma_contains_append(x, link_arrow_diags(card), d);
    x = x + link_arrow_diags(card);
    lemma_contains_append(x, summon_block_diags(card), d);
    x = x + summon_block_diags(card);
    lemma_contains_append(x, effect_block_diags(card), d);
    x = x + effect_block_diags(card);
    lemma_contains_append(x, target_reference_diags(card), d);
    x = x + target_reference_diags(card);
    lemma_contains_append(x, spell_speed_diags(card), d);
    x = x + spell_speed_diags(card);
    lemma_contains_append(x, passive_block_diags(card), d);
    x = x + passive_block_diags(card);
    lemma_contains_append(x, restriction_block_diags(card), d);
    x = x + restriction_block_diags(card);
    lemma_contains_append(x, replacement_block_diags(card), d);
    x = x + replacement_block_diags(card);
    lemma_contains_append(x, redirect_block_diags(card), d);
    x = x + redirect_block_diags(card);
    assert(x == card_diags(card));
}

/// A Normal Summon of a main-deck monster of level 5 to 12 takes one
/// tribute up to level 6 and two from level 7. When the card's summon block
/// allows a Normal Summon and declares `t` tributes, the tribute rule reports
/// exactly one error, "Level L needs E tribute(s), declared T", if `t` is not
/// that count, and nothing if it is; validating a file that holds the card
/// reports that error among its findings.
#[verifier::rlimit(30)]
pub proof fn law_tribute_count_checked(file: File, k: int, l: u32, t: u32)
    requires
        0 <= k < file.cards@.len(),
        of_kind(file.cards@[k], Kind::Monster),
        !of_kind(file.cards@[k], Kind::ExtraDeck),
        file.cards@[k].fields.level == Some(l),
        5 <= l <= 12,
        file.cards@[k].summon matches Some(s) && !s.cannot_normal_summon && s.tributes == Some(t),
    ensures
        ({
            let card = file.cards@[k];
            let e: int = if l <= 6 { 1 } else { 2 };
            let d = (card.name@, Severity::Error, "Level "@ + decimal(l as int) + " needs "@ + decimal(e)
                + " tribute(s), declared "@ + decimal(t as int));
            &&& t != e ==> level_tribute_diags(card) == seq![d]
            &&& t == e ==> level_tribute_diags(card) == Seq::<Diag>::empty()
            &&& t != e ==> file_diags(file).contains(d)
        }),
{
    let card = file.cards@[k];
    let e: int = if l <= 6 { 1 } else { 2 };
    let d = (card.name@, Severity::Error, "Level "@ + decimal(l as int) + " needs "@ + decimal(e)
        + " tribute(s), declared "@ + decimal(t as int));
    if t != e {
        assert(level_tribute_diags(card) == seq![d]);
        assert(level_tribute_diags(card)[0] == d);
        lemma_tribute_finding_in_card(card, d);
        assert(card_rule()(file.cards@[k]) == card_diags(card));
        lemma_concat_map_contains(file.cards@, card_rule(), k, d);
    }
}

/// A main-deck monster of level 5 or more that says nothing of its
/// tributes is warned to declare them, with the count for its level (1 up
/// to level 6, 2 from level 7): "Level L monster should declare a summon
/// block with tributes: E" without a summon block, "Level L monster should
/// declare tributes: E" with one that allows a Normal Summon. Below level 5
/// nothing is asked, a tribute count declared for a level outside 5 to 12
/// is not judged, and a monster that cannot be Normal Summoned draws no
/// finding from this rule.
pub proof fn law_tribute_hint(card: Card, l: u32)
    requires
        of_kind(card, Kind::Monster),
        !of_kind(card, Kind::ExtraDeck),
        card.fields.level == Some(l),
    ensures
        ({
            let e: int = if l <= 6 { 1 } else { 2 };
            &&& card.summon is None && l >= 5 ==> level_tribute_diags(card) == seq![(card.name@, Severity::Warning,
                "Level "@ + decimal(l as int) + " monster should declare a summon block with tributes: "@ + decimal(e))]
            &&& (card.summon matches Some(s) && !s.cannot_normal_summon && s.tributes is None) && l >= 5
                ==> level_tribute_diags(card) == seq![(card.name@, Severity::Warning,
                "Level "@ + decimal(l as int) + " monster should declare tributes: "@ + decimal(e))]
            &&& (card.summon is None || (card.summon matches Some(s) && s.tributes is None)) && l < 5
                ==> level_tribute_diags(card) == Seq::<Diag>::empty()
            &&& (card.summon matches Some(s) && s.cannot_normal_summon) ==> level_tribute_diags(card) == Seq::<Diag>::empty()
            &&& (card.summon matches Some(s) && s.tributes is Some) && (l < 5 || l > 12)
                ==> level_tribute_diags(card) == Seq::<Diag>::empty()
        }),
{
}

// ── Link arrows ──────────────────────────────────────────────

/// How `{:?}` writes an arrow.
pub open spec fn arrow_debug(a: Arrow) -> Seq<char> {
    match a {
        Arrow::TopLeft => "TopLeft"@,
        Arrow::Top => "Top"@,
        Arrow::TopRight => "TopRight"@,
        Arrow::Left => "Left"@,
        Arrow::Right => "Right"@,
        Arrow::BottomLeft => "BottomLeft"@,
        Arrow::Bottom => "Bottom"@,
        Arrow::BottomRight => "BottomRight"@,
    }
}

fn arrow_debug_exec(a: Arrow) -> (r: &'static str)
    ensures
        r@ == arrow_debug(a),
{
    match a {
        Arrow::TopLeft => "TopLeft",
        Arrow::Top => "Top",
        Arrow::TopRight => "TopRight",
        Arrow::Left => "Left",
        Arrow::Right => "Right",
        Arrow::BottomLeft => "BottomLeft",
        Arrow::Bottom => "Bottom",
        Arrow::BottomRight => "BottomRight",
    }
}

/// An error for each arrow that repeats an earlier one, in order.
pub open spec fn duplicate_arrow_diags(card: Card, arrows: Seq<Arrow>) -> Seq<Diag>
    decreases arrows.len(),
{
    if arrows.len() == 0 {
        Seq::empty()
    } else {
        duplicate_arrow_diags(card, arrows.drop_last()) + when(
            arrows.drop_last().contains(arrows.last()),
            error_on(card, "Duplicate link arrow: "@ + arrow_debug(arrows.last())),
        )
    }
}

pub open spec fn link_arrow_diags(card: Card) -> Seq<Diag> {
    let arrows = card.fields.link_arrows@;
    let rating: int = match card.fields.link {
        Some(k) => k as int,
        None => 0,
    };
    if !declares(card, CardType::LinkMonster) {
        Seq::empty()
    } else if arrows.len() == 0 {
        seq![error_on(card, "Link monster must declare link_arrows"@)]
    } else {
        when(
            arrows.len() != rating,
            error_on(
                card,
                "Link "@ + decimal(rating) + " needs "@ + decimal(rating) + " arrow(s), found "@ + decimal(
                    arrows.len() as int,
                ),
            ),
        ) + duplicate_arrow_diags(card, arrows)
    }
}

fn check_link_arrows(card: &Card, errors: &mut Vec<ValidationError>)
    ensures
        views(final(errors)@) == views(old(errors)@) + link_arrow_diags(*card),
{
    proof {
        lemma_add_empty(views(errors@));
    }
    if !card_declares(card, CardType::LinkMonster) {
        return;
    }
    let arrows = &card.fields.link_arrows;
    if arrows.len() == 0 {
        report_one(errors, card, Severity::Error, text("Link monster must declare link_arrows"));
        return;
    }
    let rating: u32 = match card.fields.link { Some(k) => k, None => 0 };
    let n = arrows.len();
    let ghost base = views(errors@);
    let count_ok = (n as u64) == (rating as u64);
    let m = counted3("Link ", rating as u64, " needs ", rating as u64, " arrow(s), found ", n as u64);
    let Ghost(a) = report_first(errors, Ghost(base), !count_ok, card, Severity::Error, m);
    let mut i: usize = 0;
    while i < n
        invariant
            arrows == &card.fields.link_arrows,
            n == arrows@.len(),
            i <= n,
            views(errors@) == base + (a + duplicate_arrow_diags(*card, arrows@.take(i as int))),
        decreases n - i,
    {
        let x = arrows[i];
        let mut seen = false;
        let mut j: usize = 0;
        while j < i
            invariant
                arrows == &card.fields.link_arrows,
                n == arrows@.len(),
                j <= i < n,
                seen == arrows@.take(j as int).contains(x),
                x == arrows@[i as int],
            decreases i - j,
        {
            proof {
                assert(arrows@.take(j + 1) =~= arrows@.take(j as int).push(arrows@[j as int]));
            }
            if arrows[j] == x {
                seen = true;
            }
            proof {
                let t0 = arrows@.take(j as int);
                let t1 = arrows@.take(j + 1);
                if arrows@[j as int] == x {
                    assert(t1[j as int] == x);
                }
                if t0.contains(x) {
                    let k = choose|k: int| 0 <= k < t0.len() && t0[k] == x;
                    assert(t1[k] == x);
                }
                if t1.contains(x) {
                    let k = choose|k: int| 0 <= k < t1.len() && t1[k] == x;
                    if k < j {
                        assert(t0[k] == x);
                    }
                }
            }
            j += 1;
        }
        proof {
            let t = arrows@.take(i + 1);
            assert(t.drop_last() =~= arrows@.take(i as int));
            assert(t.last() == x);
            lemma_extend(base + a, duplicate_arrow_diags(*card, arrows@.take(i as int)), Seq::empty());
            vstd::seq_lib::lemma_concat_associative(base, a, duplicate_arrow_diags(*card, arrows@.take(i as int)));
        }
        let mut m = text("Duplicate link arrow: ");
        push_str(&mut m, arrow_debug_exec(x));
        let ghost before = views(errors@);
        let Ghost(_b) = report_if(errors, Ghost(before), Ghost(Seq::empty()), seen, card, Severity::Error, m);
        proof {
            let prev = duplicate_arrow_diags(*card, arrows@.take(i as int));
            let w = when(seen, (card.name@, Severity::Error, m@));
            assert(Seq::<Diag>::empty() + w =~= w);
            vstd::seq_lib::lemma_concat_associative(base, a + prev, w);
            vstd::seq_lib::lemma_concat_associative(a, prev, w);
            assert(before + Seq::<Diag>::empty() =~= before);
        }
        i += 1;
    }
    proof {
        lemma_take_all(arrows@);
        vstd::seq_lib::lemma_concat_associative(base, a, duplicate_arrow_diags(*card, arrows@));
    }
}

// ── Summon block ─────────────────────────────────────────────

pub open spec fn summon_block_diags(card: Card) -> Seq<Diag> {
    match card.summon {
        None => Seq::empty(),
        Some(s) => {
            let has_materials = s.fusion_materials is Some || s.synchro_materials is Some
                || s.xyz_materials is Some || s.link_materials is Some;
            when(!of_kind(card, Kind::Monster), error_on(card, "Summon block only applies to monsters"@))
                + when(
                    s.fusion_materials is Some && !declares(card, CardType::FusionMonster),
                    error_on(card, "Fusion materials declared on non-Fusion monster"@),
                )
                + when(
                    s.synchro_materials is Some && !declares(card, CardType::SynchroMonster),
                    error_on(card, "Synchro materials declared on non-Synchro monster"@),
                )
                + when(
                    s.xyz_materials is Some && !declares(card, CardType::XyzMonster),
                    error_on(card, "Xyz materials declared on non-Xyz monster"@),
                )
                + when(
                    s.link_materials is Some && !declares(card, CardType::LinkMonster),
                    error_on(card, "Link materials declared on non-Link monster"@),
                )
                + when(
                    s.ritual_materials is Some && !declares(card, CardType::RitualMonster),
                    warning_on(card, "Ritual materials on non-Ritual card — usually the Ritual Spell defines these"@),
                )
                + when(
                    of_kind(card, Kind::ExtraDeck) && !has_materials && s.special_summon_procedure is None,
                    warning_on(card, "Extra deck monster should declare materials or a special summon procedure"@),
                )
        },
    }
}

fn check_summon_block(card: &Card, errors: &mut Vec<ValidationError>)
    ensures
        views(final(errors)@) == views(old(errors)@) + summon_block_diags(*card),
{
    proof {
        lemma_add_empty(views(errors@));
    }
    let s = match &card.summon {
        Some(s) => s,
        None => {
            return;
        },
    };
    let mon = card_of_kind(card, Kind::Monster);
    let fusion = card_declares(card, CardType::FusionMonster);
    let synchro = card_declares(card, CardType::SynchroMonster);
    let xyz = card_declares(card, CardType::XyzMonster);
    let link = card_declares(card, CardType::LinkMonster);
    let ritual = card_declares(card, CardType::RitualMonster);
    let extra = card_of_kind(card, Kind::ExtraDeck);
    let has_materials = s.fusion_materials.is_some() || s.synchro_materials.is_some()
        || s.xyz_materials.is_some() || s.link_materials.is_some();
    let ghost base = views(errors@);
    let Ghost(a) = report_first(errors, Ghost(base), !mon, card, Severity::Error,
        text("Summon block only applies to monsters"));
    let Ghost(a) = report_if(errors, Ghost(base), Ghost(a), s.fusion_materials.is_some() && !fusion, card,
        Severity::Error, text("Fusion materials declared on non-Fusion monster"));
    let Ghost(a) = report_if(errors, Ghost(base), Ghost(a), s.synchro_materials.is_some() && !synchro, card,
        Severity::Error, text("Synchro materials declared on non-Synchro monster"));
    let Ghost(a) = report_if(errors, Ghost(base), Ghost(a), s.xyz_materials.is_some() && !xyz, card,
        Severity::Error, text("Xyz materials declared on non-Xyz monster"));
    let Ghost(a) = report_if(errors, Ghost(base), Ghost(a), s.link_materials.is_some() && !link, card,
        Severity::Error, text("Link materials declared on non-Link monster"));
    let Ghost(a) = report_if(errors, Ghost(base), Ghost(a), s.ritual_materials.is_some() && !ritual, card,
        Severity::Warning, text("Ritual materials on non-Ritual card — usually the Ritual Spell defines these"));
    let Ghost(_a) = report_if(errors, Ghost(base), Ghost(a),
        extra && !has_materials && s.special_summon_procedure.is_none(), card, Severity::Warning,
        text("Extra deck monster should declare materials or a special summon procedure"));
}

// ── Effect blocks ────────────────────────────────────────────

pub open spec fn effect_label(e: Effect, post: Seq<char>) -> Seq<char> {
    "Effect '"@ + e.name@ + post
}

pub open spec fn effect_diags(card: Card, e: Effect) -> Seq<Diag> {
    let no_body = e.resolve@.len() == 0 && e.choose is None;
    let passive_activation = of_kind(card, Kind::Permanent) && e.trigger is None && e.cost@.len() == 0;
    when(no_body && !passive_activation, error_on(card, effect_label(e, "' must have a resolve or choose block"@)))
        + when(
            e.resolve@.len() > 0 && e.choose is Some,
            error_on(card, effect_label(e, "' cannot have both resolve and choose blocks"@)),
        )
        + when(
            e.speed is Some && (e.speed.unwrap() < 1 || e.speed.unwrap() > 3),
            error_on(card, effect_label(e, "': speed must be 1, 2, or 3"@)),
        )
        + when(e.cost@.len() > 0 && no_body, warning_on(card, effect_label(e, "' has a cost but no resolve/choose"@)))
}

pub open spec fn effect_rule(card: Card) -> spec_fn(Effect) -> Seq<Diag> {
    |e: Effect| effect_diags(card, e)
}

pub open spec fn effect_block_diags(card: Card) -> Seq<Diag> {
    concat_map(card.effects@, effect_rule(card))
}

fn check_effect(card: &Card, e: &Effect, permanent: bool, errors: &mut Vec<ValidationError>)
    requires
        permanent == of_kind(*card, Kind::Permanent),
    ensures
        views(final(errors)@) == views(old(errors)@) + effect_diags(*card, *e),
{
    let no_body = e.resolve.len() == 0 && e.choose.is_none();
    let passive_activation = permanent && e.trigger.is_none() && e.cost.len() == 0;
    let bad_speed = match e.speed {
        Some(sp) => sp < 1 || sp > 3,
        None => false,
    };
    let ghost base = views(errors@);
    let Ghost(a) = report_first(errors, Ghost(base), no_body && !passive_activation, card, Severity::Error,
        named("Effect '", &e.name, "' must have a resolve or choose block"));
    let Ghost(a) = report_if(errors, Ghost(base), Ghost(a), e.resolve.len() > 0 && e.choose.is_some(), card,
        Severity::Error, named("Effect '", &e.name, "' cannot have both resolve and choose blocks"));
    let Ghost(a) = report_if(errors, Ghost(base), Ghost(a), bad_speed, card, Severity::Error,
        named("Effect '", &e.name, "': speed must be 1, 2, or 3"));
    let Ghost(_a) = report_if(errors, Ghost(base), Ghost(a), e.cost.len() > 0 && no_body, card,
        Severity::Warning, named("Effect '", &e.name, "' has a cost but no resolve/choose"));
}

fn check_effect_blocks(card: &Card, errors: &mut Vec<ValidationError>)
    ensures
        views(final(errors)@) == views(old(errors)@) + effect_block_diags(*card),
{
    let permanent = card_of_kind(card, Kind::Permanent);
    let ghost base = views(errors@);
    proof {
        lemma_add_empty(base);
    }
    let mut i: usize = 0;
    while i < card.effects.len()
        invariant
            i <= card.effects@.len(),
            permanent == of_kind(*card, Kind::Permanent),
            views(errors@) == base + concat_map(card.effects@.take(i as int), effect_rule(*card)),
        decreases card.effects.len() - i,
    {
        proof {
            lemma_concat_map_step(card.effects@, effect_rule(*card), i as int);
            lemma_extend(base, concat_map(card.effects@.take(i as int), effect_rule(*card)),
                effect_diags(*card, card.effects@[i as int]));
        }
        check_effect(card, &card.effects[i], permanent, errors);
        i += 1;
    }
    proof {
        lemma_take_all(card.effects@);
    }
}

// ── Bare `target` references ─────────────────────────────────

pub open spec fn atom_uses_target(a: ConditionAtom) -> bool
    decreases a,
{
    match a {
        ConditionAtom::Not(inner) => atom_uses_target(*inner),
        ConditionAtom::Controls(_, sel) => sel is Target,
        _ => false,
    }
}

pub open spec fn atoms_use_target(s: Seq<ConditionAtom>) -> bool
    decreases s.len(),
{
    if s.len() == 0 {
        false
    } else {
        atoms_use_target(s.drop_last()) || atom_uses_target(s.last())
    }
}

pub open spec fn condition_uses_target(c: Condition) -> bool {
    match c {
        Condition::And(v) => atoms_use_target(v@),
        Condition::Or(v) => atoms_use_target(v@),
        Condition::Single(a) => atom_uses_target(a),
    }
}

/// Whether an action names the bare `target` selector, looking through
/// nested action lists (not through inline `choose` blocks, which bind
/// their own selection).
pub open spec fn action_uses_target(a: Action) -> bool
    decreases a,
{
    match a {
        Action::Discard(s) | Action::Destroy(s) | Action::Banish(s, _, _) | Action::Send(s, _)
        | Action::Return(s, _) | Action::Search(s, _) | Action::AddToHand(s, _)
        | Action::SpecialSummon(s, _, _) | Action::NormalSummon(s) | Action::SetCard(s, _)
        | Action::FlipDown(s) | Action::ChangePosition(s, _) | Action::TakeControl(s, _)
        | Action::NegateEffects(s, _) | Action::ModifyStat(_, s, _, _, _) | Action::SetStat(_, s, _, _)
        | Action::ChangeLevel(s, _) | Action::ChangeAttribute(s, _) | Action::ChangeRace(s, _)
        | Action::ChangeName(s, _, _) | Action::SetScale(s, _) | Action::Detach(_, s)
        | Action::PlaceCounter(_, _, s) | Action::RemoveCounter(_, _, s) | Action::Reveal(s)
        | Action::LookAt(s, _) | Action::Grant(s, _, _) | Action::SwapStats(s) => s is Target,
        Action::RitualSummon { target, materials, .. } => target is Target || (materials matches Some(m) && m is Target),
        Action::FusionSummon { target, materials } => target is Target || (materials matches Some(m) && m is Target),
        Action::SynchroSummon { target, materials } => target is Target || (materials matches Some(m) && m is Target),
        Action::XyzSummon { target, materials } => target is Target || (materials matches Some(m) && m is Target),
        Action::Equip(x, y) | Action::Attach(x, y) | Action::LinkTo(x, y) | Action::SwapControl(x, y) =>
            x is Target || y is Target,
        Action::CoinFlip { heads, tails } => actions_use_target(heads@) || actions_use_target(tails@),
        Action::DiceRoll(b) => actions_use_target(b@),
        Action::Delayed { body, .. } => actions_use_target(body@),
        Action::AndIfYouDo(b) => actions_use_target(b@),
        Action::Then(b) => actions_use_target(b@),
        Action::Also(b) => actions_use_target(b@),
        Action::If { condition, then, otherwise } => condition_uses_target(condition)
            || actions_use_target(then@) || actions_use_target(otherwise@),
        Action::ForEach { selector, body, .. } => selector is Target || actions_use_target(body@),
        Action::InstallWatcher { check, .. } => actions_use_target(check@),
        _ => false,
    }
}

pub open spec fn actions_use_target(s: Seq<Action>) -> bool
    decreases s,
{
    if s.len() == 0 {
        false
    } else {
        actions_use_target(s.subrange(0, s.len() - 1)) || action_uses_target(s[s.len() - 1])
    }
}

/// Whether an inline `choose` action appears, looking through nested action
/// lists.
pub open spec fn action_has_choose(a: Action) -> bool
    decreases a,
{
    match a {
        Action::Choose(_) => true,
        Action::CoinFlip { heads, tails } => actions_have_choose(heads@) || actions_have_choose(tails@),
        Action::DiceRoll(b) => actions_have_choose(b@),
        Action::Delayed { body, .. } => actions_have_choose(body@),
        Action::AndIfYouDo(b) => actions_have_choose(b@),
        Action::Then(b) => actions_have_choose(b@),
        Action::Also(b) => actions_have_choose(b@),
        Action::If { then, otherwise, .. } => actions_have_choose(then@) || actions_have_choose(otherwise@),
        Action::ForEach { body, .. } => actions_have_choose(body@),
        Action::InstallWatcher { check, .. } => actions_have_choose(check@),
        _ => false,
    }
}

pub open spec fn actions_have_choose(s: Seq<Action>) -> bool
    decreases s,
{
    if s.len() == 0 {
        false
    } else {
        actions_have_choose(s.subrange(0, s.len() - 1)) || action_has_choose(s[s.len() - 1])
    }
}

fn selector_is_target(s: &Selector) -> (r: bool)
    ensures
        r == (*s is Target),
{
    match s {
        Selector::Target => true,
        _ => false,
    }
}

fn optional_is_target(s: &Option<Selector>) -> (r: bool)
    ensures
        r == (*s matches Some(m) && m is Target),
{
    match s {
        Some(m) => selector_is_target(m),
        None => false,
    }
}

fn atom_uses_target_exec(a: &ConditionAtom) -> (r: bool)
    ensures
        r == atom_uses_target(*a),
    decreases a,
{
    match a {
        ConditionAtom::Not(inner) => atom_uses_target_exec(inner),
        ConditionAtom::Controls(_, sel) => selector_is_target(sel),
        _ => false,
    }
}

fn atoms_use_target_exec(v: &Vec<ConditionAtom>) -> (r: bool)
    ensures
        r == atoms_use_target(v@),
{
    let mut found = false;
    let mut i: usize = 0;
    while i < v.len()
        invariant
            i <= v@.len(),
            found == atoms_use_target(v@.take(i as int)),
        decreases v.len() - i,
    {
        proof {
            assert(v@.take(i + 1).drop_last() =~= v@.take(i as int));
        }
        found = found || atom_uses_target_exec(&v[i]);
        i += 1;
    }
    proof {
        lemma_take_all(v@);
    }
    found
}

fn condition_uses_target_exec(c: &Condition) -> (r: bool)
    ensures
        r == condition_uses_target(*c),
{
    match c {
        Condition::And(v) => atoms_use_target_exec(v),
        Condition::Or(v) => atoms_use_target_exec(v),
        Condition::Single(a) => atom_uses_target_exec(a),
    }
}

fn action_uses_target_exec(a: &Action) -> (r: bool)
    ensures
        r == action_uses_target(*a),
    decreases a,
{
    match a {
        Action::Discard(s) | Action::Destroy(s) | Action::Banish(s, _, _) | Action::Send(s, _)
        | Action::Return(s, _) | Action::Search(s, _) | Action::AddToHand(s, _)
        | Action::SpecialSummon(s, _, _) | Action::NormalSummon(s) | Action::SetCard(s, _)
        | Action::FlipDown(s) | Action::ChangePosition(s, _) | Action::TakeControl(s, _)
        | Action::NegateEffects(s, _) | Action::ModifyStat(_, s, _, _, _) | Action::SetStat(_, s, _, _)
        | Action::ChangeLevel(s, _) | Action::ChangeAttribute(s, _) | Action::ChangeRace(s, _)
        | Action::ChangeName(s, _, _) | Action::SetScale(s, _) | Action::Detach(_, s)
        | Action::PlaceCounter(_, _, s) | Action::RemoveCounter(_, _, s) | Action::Reveal(s)
        | Action::LookAt(s, _) | Action::Grant(s, _, _) | Action::SwapStats(s) => selector_is_target(s),
        Action::RitualSummon { target, materials, .. } => selector_is_target(target) || optional_is_target(materials),
        Action::FusionSummon { target, materials } => selector_is_target(target) || optional_is_target(materials),
        Action::SynchroSummon { target, materials } => selector_is_target(target) || optional_is_target(materials),
        Action::XyzSummon { target, materials } => selector_is_target(target) || optional_is_target(materials),
        Action::Equip(x, y) | Action::Attach(x, y) | Action::LinkTo(x, y) | Action::SwapControl(x, y) =>
            selector_is_target(x) || selector_is_target(y),
        Action::CoinFlip { heads, tails } => actions_use_target_exec(heads) || actions_use_target_exec(tails),
        Action::DiceRoll(b) => actions_use_target_exec(b),
        Action::Delayed { body, .. } => actions_use_target_exec(body),
        Action::AndIfYouDo(b) => actions_use_target_exec(b),
        Action::Then(b) => actions_use_target_exec(b),
        Action::Also(b) => actions_use_target_exec(b),
        Action::If { condition, then, otherwise } => condition_uses_target_exec(condition)
            || actions_use_target_exec(then) || actions_use_target_exec(otherwise),
        Action::ForEach { selector, body, .. } => selector_is_target(selector) || actions_use_target_exec(body),
        Action::InstallWatcher { check, .. } => actions_use_target_exec(check),
        _ => false,
    }
}

fn actions_use_target_exec(v: &Vec<Action>) -> (r: bool)
    ensures
        r == actions_use_target(v@),
    decreases v,
{
    let mut found = false;
    let mut i: usize = 0;
    while i < v.len()
        invariant
            i <= v@.len(),
            found == actions_use_target(v@.subrange(0, i as int)),
        decreases v.len() - i,
    {
        proof {
            assert(v@.subrange(0, i + 1).subrange(0, i as int) =~= v@.subrange(0, i as int));
        }
        found = found || action_uses_target_exec(&v[i]);
        i += 1;
    }
    proof {
        assert(v@.subrange(0, v@.len() as int) =~= v@);
    }
    found
}

fn action_has_choose_exec(a: &Action) -> (r: bool)
    ensures
        r == action_has_choose(*a),
    decreases a,
{
    match a {
        Action::Choose(_) => true,
        Action::CoinFlip { heads, tails } => actions_have_choose_exec(heads) || actions_have_choose_exec(tails),
        Action::DiceRoll(b) => actions_have_choose_exec(b),
        Action::Delayed { body, .. } => actions_have_choose_exec(body),
        Action::AndIfYouDo(b) => actions_have_choose_exec(b),
        Action::Then(b) => actions_have_choose_exec(b),
        Action::Also(b) => actions_have_choose_exec(b),
        Action::If { then, otherwise, .. } => actions_have_choose_exec(then) || actions_have_choose_exec(otherwise),
        Action::ForEach { body, .. } => actions_have_choose_exec(body),
        Action::InstallWatcher { check, .. } => actions_have_choose_exec(check),
        _ => false,
    }
}

fn actions_have_choose_exec(v: &Vec<Action>) -> (r: bool)
    ensures
        r == actions_have_choose(v@),
    decreases v,
{
    let mut found = false;
    let mut i: usize = 0;
    while i < v.len()
        invariant
            i <= v@.len(),
            found == actions_have_choose(v@.subrange(0, i as int)),
        decreases v.len() - i,
    {
        proof {
            assert(v@.subrange(0, i + 1).subrange(0, i as int) =~= v@.subrange(0, i as int));
        }
        found = found || action_has_choose_exec(&v[i]);
        i += 1;
    }
    proof {
        assert(v@.subrange(0, v@.len() as int) =~= v@);
    }
    found
}

/// What a scan of a resolve list finds: whether it names the bare `target`
/// selector, and whether it holds an inline `choose`.
pub struct TargetScan {
    pub uses_target: bool,
    pub has_choose: bool,
}

/// Scans a resolve list for bare `target` references and inline choices.
pub fn scan_actions(actions: &Vec<Action>) -> (r: TargetScan)
    ensures
        r.uses_target == actions_use_target(actions@),
        r.has_choose == actions_have_choose(actions@),
{
    TargetScan { uses_target: actions_use_target_exec(actions), has_choose: actions_have_choose_exec(actions) }
}

pub open spec fn target_ref_diags(card: Card, e: Effect) -> Seq<Diag> {
    when(
        e.target is None && e.choose is None && actions_use_target(e.resolve@) && !actions_have_choose(e.resolve@),
        warning_on(card, effect_label(e, "' references `target` but declares no target/choose block"@)),
    )
}

pub open spec fn target_rule(card: Card) -> spec_fn(Effect) -> Seq<Diag> {
    |e: Effect| target_ref_diags(card, e)
}

pub open spec fn target_reference_diags(card: Card) -> Seq<Diag> {
    concat_map(card.effects@, target_rule(card))
}

fn check_target_reference(card: &Card, e: &Effect, errors: &mut Vec<ValidationError>)
    ensures
        views(final(errors)@) == views(old(errors)@) + target_ref_diags(*card, *e),
{
    let mut warn = false;
    if e.target.is_none() && e.choose.is_none() {
        let scan = scan_actions(&e.resolve);
        warn = scan.uses_target && !scan.has_choose;
    }
    let ghost base = views(errors@);
    let Ghost(_a) = report_first(errors, Ghost(base), warn, card, Severity::Warning,
        named("Effect '", &e.name, "' references `target` but declares no target/choose block"));
}

fn check_target_references(card: &Card, errors: &mut Vec<ValidationError>)
    ensures
        views(final(errors)@) == views(old(errors)@) + target_reference_diags(*card),
{
    let ghost base = views(errors@);
    proof {
        lemma_add_empty(base);
    }
    let mut i: usize = 0;
    while i < card.effects.len()
        invariant
            i <= card.effects@.len(),
            views(errors@) == base + concat_map(card.effects@.take(i as int), target_rule(*card)),
        decreases card.effects.len() - i,
    {
        proof {
            lemma_concat_map_step(card.effects@, target_rule(*card), i as int);
            lemma_extend(base, concat_map(card.effects@.take(i as int), target_rule(*card)),
                target_ref_diags(*card, card.effects@[i as int]));
        }
        check_target_reference(card, &card.effects[i], errors);
        i += 1;
    }
    proof {
        lemma_take_all(card.effects@);
    }
}

// ── Spell speeds ─────────────────────────────────────────────

pub open spec fn negate_rule(card: Card, e: Effect) -> spec_fn(Action) -> Seq<Diag> {
    |a: Action| when(a is Negate, warning_on(card, effect_label(e, "': negate at speed 1 — should be speed 2+"@)))
}

pub open spec fn speed_diags(card: Card, e: Effect) -> Seq<Diag> {
    let counter = declares(card, CardType::CounterTrap);
    let trap = of_kind(card, Kind::Trap);
    let spell = of_kind(card, Kind::Spell);
    let quick = declares(card, CardType::QuickPlaySpell);
    match e.speed {
        None => Seq::empty(),
        Some(sp) => when(counter && sp != 3, error_on(card, effect_label(e, "': Counter Trap must use speed: 3"@)))
            + when(trap && sp < 2, error_on(card, effect_label(e, "': Trap effects must be speed 2 or higher"@)))
            + when(
                spell && !quick && sp > 1,
                error_on(card, effect_label(e, "': Non-Quick-Play Spells must use speed: 1"@)),
            )
            + when(sp == 3 && !counter, error_on(card, effect_label(e, "': speed 3 is only for Counter Traps"@)))
            + (if (!spell || quick) && sp == 1 {
                concat_map(e.resolve@, negate_rule(card, e))
            } else {
                Seq::empty()
            })
            + when(
                !e.mandatory && e.trigger is Some && sp == 1 && e.timing is None,
                warning_on(card, effect_label(e, "': optional trigger should declare timing: when or if"@)),
            ),
    }
}

pub open spec fn speed_rule(card: Card) -> spec_fn(Effect) -> Seq<Diag> {
    |e: Effect| speed_diags(card, e)
}

pub open spec fn spell_speed_diags(card: Card) -> Seq<Diag> {
    concat_map(card.effects@, speed_rule(card))
}

fn check_negates(card: &Card, e: &Effect, errors: &mut Vec<ValidationError>)
    ensures
        views(final(errors)@) == views(old(errors)@) + concat_map(e.resolve@, negate_rule(*card, *e)),
{
    let ghost base = views(errors@);
    proof {
        lemma_add_empty(base);
    }
    let mut i: usize = 0;
    while i < e.resolve.len()
        invariant
            i <= e.resolve@.len(),
            views(errors@) == base + concat_map(e.resolve@.take(i as int), negate_rule(*card, *e)),
        decreases e.resolve.len() - i,
    {
        let is_negate = match &e.resolve[i] {
            Action::Negate(_) => true,
            _ => false,
        };
        let m = named("Effect '", &e.name, "': negate at speed 1 — should be speed 2+");
        proof {
            lemma_concat_map_step(e.resolve@, negate_rule(*card, *e), i as int);
        }
        let ghost before = views(errors@);
        let Ghost(_a) = report_first(errors, Ghost(before), is_negate, card, Severity::Warning, m);
        proof {
            lemma_extend(base, concat_map(e.resolve@.take(i as int), negate_rule(*card, *e)),
                when(is_negate, (card.name@, Severity::Warning, m@)));
        }
        i += 1;
    }
    proof {
        lemma_take_all(e.resolve@);
    }
}

fn check_speed(card: &Card, e: &Effect, errors: &mut Vec<ValidationError>)
    ensures
        views(final(errors)@) == views(old(errors)@) + speed_diags(*card, *e),
{
    proof {
        lemma_add_empty(views(errors@));
    }
    let sp = match e.speed {
        Some(sp) => sp,
        None => {
            return;
        },
    };
    let counter = card_declares(card, CardType::CounterTrap);
    let trap = card_of_kind(card, Kind::Trap);
    let spell = card_of_kind(card, Kind::Spell);
    let quick = card_declares(card, CardType::QuickPlaySpell);
    let ghost base = views(errors@);
    let Ghost(a) = report_first(errors, Ghost(base), counter && sp != 3, card, Severity::Error,
        named("Effect '", &e.name, "': Counter Trap must use speed: 3"));
    let Ghost(a) = report_if(errors, Ghost(base), Ghost(a), trap && sp < 2, card, Severity::Error,
        named("Effect '", &e.name, "': Trap effects must be speed 2 or higher"));
    let Ghost(a) = report_if(errors, Ghost(base), Ghost(a), spell && !quick && sp > 1, card, Severity::Error,
        named("Effect '", &e.name, "': Non-Quick-Play Spells must use speed: 1"));
    let Ghost(a) = report_if(errors, Ghost(base), Ghost(a), sp == 3 && !counter, card, Severity::Error,
        named("Effect '", &e.name, "': speed 3 is only for Counter Traps"));
    let ghost negs = if (!spell || quick) && sp == 1 {
        concat_map(e.resolve@, negate_rule(*card, *e))
    } else {
        Seq::empty()
    };
    if (!spell || quick) && sp == 1 {
        check_negates(card, e, errors);
    } else {
        proof {
            lemma_add_empty(views(errors@));
        }
    }
    proof {
        lemma_extend(base, a, negs);
    }
    let Ghost(_a) = report_if(errors, Ghost(base), Ghost(a + negs),
        !e.mandatory && e.trigger.is_some() && sp == 1 && e.timing.is_none(), card, Severity::Warning,
        named("Effect '", &e.name, "': optional trigger should declare timing: when or if"));
}

fn check_spell_speeds(card: &Card, errors: &mut Vec<ValidationError>)
    ensures
        views(final(errors)@) == views(old(errors)@) + spell_speed_diags(*card),
{
    let ghost base = views(errors@);
    proof {
        lemma_add_empty(base);
    }
    let mut i: usize = 0;
    while i < card.effects.len()
        invariant
            i <= card.effects@.len(),
            views(errors@) == base + concat_map(card.effects@.take(i as int), speed_rule(*card)),
        decreases card.effects.len() - i,
    {
        proof {
            lemma_concat_map_step(card.effects@, speed_rule(*card), i as int);
            lemma_extend(base, concat_map(card.effects@.take(i as int), speed_rule(*card)),
                speed_diags(*card, card.effects@[i as int]));
        }
        check_speed(card, &card.effects[i], errors);
        i += 1;
    }
    proof {
        lemma_take_all(card.effects@);
    }
}

// ── Passives, restrictions, replacements ─────────────────────

pub open spec fn passive_has_content(p: Passive) -> bool {
    p.modifiers@.len() > 0 || p.grants@.len() > 0 || p.negate_effects || p.set_atk is Some || p.set_def is Some
}

pub open spec fn passive_rule(card: Card) -> spec_fn(Passive) -> Seq<Diag> {
    |p: Passive| when(
        !passive_has_content(p),
        error_on(card, "Passive '"@ + p.name@ + "' has no modifiers, grants, or effects"@),
    )
}

pub open spec fn passive_block_diags(card: Card) -> Seq<Diag> {
    concat_map(card.passives@, passive_rule(card))
}

fn check_passive_blocks(card: &Card, errors: &mut Vec<ValidationError>)
    ensures
        views(final(errors)@) == views(old(errors)@) + passive_block_diags(*card),
{
    let ghost base = views(errors@);
    proof {
        lemma_add_empty(base);
    }
    let mut i: usize = 0;
    while i < card.passives.len()
        invariant
            i <= card.passives@.len(),
            views(errors@) == base + concat_map(card.passives@.take(i as int), passive_rule(*card)),
        decreases card.passives.len() - i,
    {
        let p = &card.passives[i];
        let content = p.modifiers.len() > 0 || p.grants.len() > 0 || p.negate_effects || p.set_atk.is_some()
            || p.set_def.is_some();
        let m = named("Passive '", &p.name, "' has no modifiers, grants, or effects");
        proof {
            lemma_concat_map_step(card.passives@, passive_rule(*card), i as int);
        }
        let ghost before = views(errors@);
        let Ghost(_a) = report_first(errors, Ghost(before), !content, card, Severity::Error, m);
        proof {
            lemma_extend(base, concat_map(card.passives@.take(i as int), passive_rule(*card)),
                when(!content, (card.name@, Severity::Error, m@)));
        }
        i += 1;
    }
    proof {
        lemma_take_all(card.passives@);
    }
}

/// The block's name, or `default` when it has none.
pub open spec fn name_or(name: Option<String>, default: Seq<char>) -> Seq<char> {
    match name {
        Some(n) => n@,
        None => default,
    }
}

fn name_or_exec<'a>(name: &'a Option<String>, default: &'a str) -> (r: &'a str)
    ensures
        r@ == name_or(*name, default@),
{
    match name {
        Some(n) => n.as_str(),
        None => default,
    }
}

/// `a` + `x` + `b`.
fn joined3(a: &str, x: &str, b: &str) -> (r: String)
    ensures
        r@ == a@ + x@ + b@,
{
    let mut s = String::new();
    push_str(&mut s, a);
    push_str(&mut s, x);
    push_str(&mut s, b);
    s
}

pub open spec fn restriction_rule(card: Card) -> spec_fn(Restriction) -> Seq<Diag> {
    |r: Restriction| when(
        r.abilities@.len() == 0,
        error_on(card, "Restriction '"@ + name_or(r.name, "unnamed"@) + "' declares no abilities"@),
    )
}

pub open spec fn restriction_block_diags(card: Card) -> Seq<Diag> {
    concat_map(card.restrictions@, restriction_rule(card))
}

fn check_restriction_blocks(card: &Card, errors: &mut Vec<ValidationError>)
    ensures
        views(final(errors)@) == views(old(errors)@) + restriction_block_diags(*card),
{
    let ghost base = views(errors@);
    proof {
        lemma_add_empty(base);
    }
    let mut i: usize = 0;
    while i < card.restrictions.len()
        invariant
            i <= card.restrictions@.len(),
            views(errors@) == base + concat_map(card.restrictions@.take(i as int), restriction_rule(*card)),
        decreases card.restrictions.len() - i,
    {
        let r = &card.restrictions[i];
        let m = joined3("Restriction '", name_or_exec(&r.name, "unnamed"), "' declares no abilities");
        proof {
            lemma_concat_map_step(card.restrictions@, restriction_rule(*card), i as int);
        }
        let ghost before = views(errors@);
        let Ghost(_a) = report_first(errors, Ghost(before), r.abilities.len() == 0, card, Severity::Error, m);
        proof {
            lemma_extend(base, concat_map(card.restrictions@.take(i as int), restriction_rule(*card)),
                when(r.abilities@.len() == 0, (card.name@, Severity::Error, m@)));
        }
        i += 1;
    }
    proof {
        lemma_take_all(card.restrictions@);
    }
}

pub open spec fn replacement_rule(card: Card) -> spec_fn(Replacement) -> Seq<Diag> {
    |r: Replacement| when(
        r.actions@.len() == 0,
        warning_on(card, "Replacement '"@ + name_or(r.name, "unnamed"@) + "' has no actions in do block"@),
    )
}

pub open spec fn replacement_block_diags(card: Card) -> Seq<Diag> {
    concat_map(card.replacements@, replacement_rule(card))
}

fn check_replacement_blocks(card: &Card, errors: &mut Vec<ValidationError>)
    ensures
        views(final(errors)@) == views(old(errors)@) + replacement_block_diags(*card),
{
    let ghost base = views(errors@);
    proof {
        lemma_add_empty(base);
    }
    let mut i: usize = 0;
    while i < card.replacements.len()
        invariant
            i <= card.replacements@.len(),
            views(errors@) == base + concat_map(card.replacements@.take(i as int), replacement_rule(*card)),
        decreases card.replacements.len() - i,
    {
        let r = &card.replacements[i];
        let m = joined3("Replacement '", name_or_exec(&r.name, "unnamed"), "' has no actions in do block");
        proof {
            lemma_concat_map_step(card.replacements@, replacement_rule(*card), i as int);
        }
        let ghost before = views(errors@);
        let Ghost(_a) = report_first(errors, Ghost(before), r.actions.len() == 0, card, Severity::Warning, m);
        proof {
            lemma_extend(base, concat_map(card.replacements@.take(i as int), replacement_rule(*card)),
                when(r.actions@.len() == 0, (card.name@, Severity::Warning, m@)));
        }
        i += 1;
    }
    proof {
        lemma_take_all(card.replacements@);
    }
}

// ── Redirect blocks ──────────────────────────────────────────

/// How `{:?}` writes a zone.
pub open spec fn zone_debug(z: Zone) -> Seq<char> {
    match z {
        Zone::Hand => "Hand"@,
        Zone::Field => "Field"@,
        Zone::Deck => "Deck"@,
        Zone::ExtraDeck => "ExtraDeck"@,
        Zone::ExtraDeckFaceUp => "ExtraDeckFaceUp"@,
        Zone::Gy => "Gy"@,
        Zone::Banished => "Banished"@,
        Zone::MonsterZone => "MonsterZone"@,
        Zone::SpellTrapZone => "SpellTrapZone"@,
        Zone::FieldZone => "FieldZone"@,
        Zone::PendulumZone => "PendulumZone"@,
        Zone::ExtraMonsterZone => "ExtraMonsterZone"@,
        Zone::Overlay => "Overlay"@,
        Zone::Equipped => "Equipped"@,
        Zone::TopOfDeck => "TopOfDeck"@,
        Zone::BottomOfDeck => "BottomOfDeck"@,
    }
}

fn zone_debug_exec(z: Zone) -> (r: &'static str)
    ensures
        r@ == zone_debug(z),
{
    match z {
        Zone::Hand => "Hand",
        Zone::Field => "Field",
        Zone::Deck => "Deck",
        Zone::ExtraDeck => "ExtraDeck",
        Zone::ExtraDeckFaceUp => "ExtraDeckFaceUp",
        Zone::Gy => "Gy",
        Zone::Banished => "Banished",
        Zone::MonsterZone => "MonsterZone",
        Zone::SpellTrapZone => "SpellTrapZone",
        Zone::FieldZone => "FieldZone",
        Zone::PendulumZone => "PendulumZone",
        Zone::ExtraMonsterZone => "ExtraMonsterZone",
        Zone::Overlay => "Overlay",
        Zone::Equipped => "Equipped",
        Zone::TopOfDeck => "TopOfDeck",
        Zone::BottomOfDeck => "BottomOfDeck",
    }
}

/// The zones a redirect can route between: where a card rests once moved.
pub open spec fn is_terminal_zone(z: Zone) -> bool {
    z == Zone::Hand || z == Zone::Deck || z == Zone::Gy || z == Zone::Banished || z == Zone::ExtraDeck
        || z == Zone::ExtraDeckFaceUp
}

pub open spec fn redirect_label(r: Redirect, post: Seq<char>) -> Seq<char> {
    "Redirect '"@ + name_or(r.name, "unnamed"@) + post
}

pub open spec fn redirect_diags(card: Card, r: Redirect) -> Seq<Diag> {
    when(
        r.from == r.to,
        error_on(card, redirect_label(r, "' has identical from/to zones ("@ + zone_debug(r.from) + ") — no-op"@)),
    ) + when(
        r.scope == RedirectScope::Self_ && r.from == Zone::Field,
        warning_on(
            card,
            redirect_label(
                r,
                "' uses `scope: self` with `from: field` — use a `replacement` block for per-card leave-field events"@,
            ),
        ),
    ) + when(
        !is_terminal_zone(r.from),
        error_on(
            card,
            redirect_label(r, "' has non-terminal `from:` zone ("@ + zone_debug(r.from)
                + ") — must be one of hand/deck/gy/banished/extra_deck"@),
        ),
    ) + when(
        !is_terminal_zone(r.to),
        error_on(
            card,
            redirect_label(r, "' has non-terminal `to:` zone ("@ + zone_debug(r.to)
                + ") — must be one of hand/deck/gy/banished/extra_deck"@),
        ),
    )
}

pub open spec fn redirect_rule(card: Card) -> spec_fn(Redirect) -> Seq<Diag> {
    |r: Redirect| redirect_diags(card, r)
}

pub open spec fn redirect_block_diags(card: Card) -> Seq<Diag> {
    concat_map(card.redirects@, redirect_rule(card))
}

fn terminal(z: Zone) -> (r: bool)
    ensures
        r == is_terminal_zone(z),
{
    match z {
        Zone::Hand | Zone::Deck | Zone::Gy | Zone::Banished | Zone::ExtraDeck | Zone::ExtraDeckFaceUp => true,
        _ => false,
    }
}

/// `Redirect '<name>` + `a` + `x` + `b`.
fn redirect_message(r: &Redirect, a: &str, x: &str, b: &str) -> (m: String)
    ensures
        m@ == "Redirect '"@ + name_or(r.name, "unnamed"@) + (a@ + x@ + b@),
{
    let mut s = String::new();
    push_str(&mut s, "Redirect '");
    push_str(&mut s, name_or_exec(&r.name, "unnamed"));
    push_str(&mut s, a);
    push_str(&mut s, x);
    push_str(&mut s, b);
    proof {
        assert(s@ =~= "Redirect '"@ + name_or(r.name, "unnamed"@) + (a@ + x@ + b@));
    }
    s
}

fn check_redirect(card: &Card, r: &Redirect, errors: &mut Vec<ValidationError>)
    ensures
        views(final(errors)@) == views(old(errors)@) + redirect_diags(*card, *r),
{
    let self_scope = match r.scope {
        RedirectScope::Self_ => true,
        _ => false,
    };
    let from_field = match r.from {
        Zone::Field => true,
        _ => false,
    };
    let m1 = redirect_message(r, "' has identical from/to zones (", zone_debug_exec(r.from), ") — no-op");
    let m2 = joined3("Redirect '", name_or_exec(&r.name, "unnamed"), "' uses `scope: self` with `from: field` — use a `replacement` block for per-card leave-field events");
    let m3 = redirect_message(r, "' has non-terminal `from:` zone (", zone_debug_exec(r.from), ") — must be one of hand/deck/gy/banished/extra_deck");
    let m4 = redirect_message(r, "' has non-terminal `to:` zone (", zone_debug_exec(r.to), ") — must be one of hand/deck/gy/banished/extra_deck");
    proof {
        assert(m2@ =~= redirect_label(*r, "' uses `scope: self` with `from: field` — use a `replacement` block for per-card leave-field events"@));
        assert(m1@ =~= redirect_label(*r, "' has identical from/to zones ("@ + zone_debug(r.from) + ") — no-op"@));
        assert(m3@ =~= redirect_label(*r, "' has non-terminal `from:` zone ("@ + zone_debug(r.from)
                + ") — must be one of hand/deck/gy/banished/extra_deck"@));
        assert(m4@ =~= redirect_label(*r, "' has non-terminal `to:` zone ("@ + zone_debug(r.to)
                + ") — must be one of hand/deck/gy/banished/extra_deck"@));
    }
    let ghost base = views(errors@);
    let Ghost(a) = report_first(errors, Ghost(base), r.from == r.to, card, Severity::Error, m1);
    let Ghost(a) = report_if(errors, Ghost(base), Ghost(a), self_scope && from_field, card, Severity::Warning, m2);
    let Ghost(a) = report_if(errors, Ghost(base), Ghost(a), !terminal(r.from), card, Severity::Error, m3);
    let Ghost(_a) = report_if(errors, Ghost(base), Ghost(a), !terminal(r.to), card, Severity::Error, m4);
}

fn check_redirect_blocks(card: &Card, errors: &mut Vec<ValidationError>)
    ensures
        views(final(errors)@) == views(old(errors)@) + redirect_block_diags(*card),
{
    let ghost base = views(errors@);
    proof {
        lemma_add_empty(base);
    }
    let mut i: usize = 0;
    while i < card.redirects.len()
        invariant
            i <= card.redirects@.len(),
            views(errors@) == base + concat_map(card.redirects@.take(i as int), redirect_rule(*card)),
        decreases card.redirects.len() - i,
    {
        proof {
            lemma_concat_map_step(card.redirects@, redirect_rule(*card), i as int);
            lemma_extend(base, concat_map(card.redirects@.take(i as int), redirect_rule(*card)),
                redirect_diags(*card, card.redirects@[i as int]));
        }
        check_redirect(card, &card.redirects[i], errors);
        i += 1;
    }
    proof {
        lemma_take_all(card.redirects@);
    }
}

// ── Whole cards and files ────────────────────────────────────

/// Every finding on a card, rule by rule.
pub open spec fn card_diags(card: Card) -> Seq<Diag> {
    required_fields_diags(card) + stat_range_diags(card) + type_consistency_diags(card)
        + level_tribute_diags(card) + link_arrow_diags(card) + summon_block_diags(card)
        + effect_block_diags(card) + target_reference_diags(card) + spell_speed_diags(card)
        + passive_block_diags(card) + restriction_block_diags(card) + replacement_block_diags(card)
        + redirect_block_diags(card)
}

pub open spec fn card_rule() -> spec_fn(Card) -> Seq<Diag> {
    |c: Card| card_diags(c)
}

/// Every finding on a file, card by card.
pub open spec fn file_diags(file: File) -> Seq<Diag> {
    concat_map(file.cards@, card_rule())
}

/// Checks one card and appends its findings to `errors`.
pub fn validate_card(card: &Card, errors: &mut Vec<ValidationError>)
    ensures
        views(final(errors)@) == views(old(errors)@) + card_diags(*card),
{
    let ghost base = views(errors@);
    check_required_fields(card, errors);
    let ghost a = required_fields_diags(*card);
    check_stat_ranges(card, errors);
    proof { lemma_extend(base, a, stat_range_diags(*card)); }
    let ghost a = a + stat_range_diags(*card);
    check_type_consistency(card, errors);
    proof { lemma_extend(base, a, type_consistency_diags(*card)); }
    let ghost a = a + type_consistency_diags(*card);
    check_level_tribute_consistency(card, errors);
    proof { lemma_extend(base, a, level_tribute_diags(*card)); }
    let ghost a = a + level_tribute_diags(*card);
    check_link_arrows(card, errors);
    proof { lemma_extend(base, a, link_arrow_diags(*card)); }
    let ghost a = a + link_arrow_diags(*card);
    check_summon_block(card, errors);
    proof { lemma_extend(base, a, summon_block_diags(*card)); }
    let ghost a = a + summon_block_diags(*card);
    check_effect_blocks(card, errors);
    proof { lemma_extend(base, a, effect_block_diags(*card)); }
    let ghost a = a + effect_block_diags(*card);
    check_target_references(card, errors);
    proof { lemma_extend(base, a, target_reference_diags(*card)); }
    let ghost a = a + target_reference_diags(*card);
    check_spell_speeds(card, errors);
    proof { lemma_extend(base, a, spell_speed_diags(*card)); }
    let ghost a = a + spell_speed_diags(*card);
    check_passive_blocks(card, errors);
    proof { lemma_extend(base, a, passive_block_diags(*card)); }
    let ghost a = a + passive_block_diags(*card);
    check_restriction_blocks(card, errors);
    proof { lemma_extend(base, a, restriction_block_diags(*card)); }
    let ghost a = a + restriction_block_diags(*card);
    check_replacement_blocks(card, errors);
    proof { lemma_extend(base, a, replacement_block_diags(*card)); }
    let ghost a = a + replacement_block_diags(*card);
    check_redirect_blocks(card, errors);
    proof { lemma_extend(base, a, redirect_block_diags(*card)); }
}

/// Checks every card of a file.
pub fn validate_v2(file: &File) -> (r: ValidationReport)
    ensures
        views(r.errors@) == file_diags(*file),
{
    let mut errors: Vec<ValidationError> = Vec::new();
    let mut i: usize = 0;
    proof {
        assert(views(errors@) =~= Seq::<Diag>::empty());
    }
    while i < file.cards.len()
        invariant
            i <= file.cards@.len(),
            views(errors@) == concat_map(file.cards@.take(i as int), card_rule()),
        decreases file.cards.len() - i,
    {
        proof {
            lemma_concat_map_step(file.cards@, card_rule(), i as int);
        }
        validate_card(&file.cards[i], &mut errors);
        i += 1;
    }
    proof {
        lemma_take_all(file.cards@);
    }
    ValidationReport { errors }
}

} // verus!
