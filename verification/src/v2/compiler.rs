// DuelScript v2 compiler: turns a card's AST into the effect metadata an
// engine registers (effect type, category, event code, range, count
// limit) together with the callbacks the engine invokes (condition,
// cost, target, operation). A callback is data: it names the AST block
// it runs, and the interpreter in `interp` runs it against a runtime.

use vstd::prelude::*;
use super::ast::{
    Action, Attribute, AnnounceWhat, BattlePosition, Card, CardFilterKind, CardType, Category,
    Condition, CostAction, DestroyBy, Duration, Effect, FieldTarget, Frequency, GrantAbility,
    OptKind, Passive, PhaseName, Race, ReplaceableEvent, Replacement, Restriction, ReturnDest,
    Scope, StatField, StatName, SummonBlock, TargetDecl, Trigger, UnaffectedSource, Zone,
    ChooseOption,
};
use super::constants as tm;
use super::runtime::{CardFilter as RuntimeCardFilter, Duration as RuntimeDuration};

verus! {

// ── Output types ─────────────────────────────────────────────

/// A compiled card: its id, name and the effects to register.
#[derive(Debug)]
pub struct CompiledCardV2<'a> {
    pub card_id: u64,
    pub name: String,
    pub effects: Vec<CompiledEffectV2<'a>>,
}

/// The condition callback of an effect.
#[derive(Debug, Clone, Copy)]
pub enum CompiledCondition<'a> {
    /// A bare condition (passives, restrictions, replacements, procedures).
    Check(&'a Condition),
    /// An activated effect: its condition, then the category filter of an
    /// `opponent_activates` trigger.
    Effect(&'a Effect),
}

/// The cost callback of an effect: the costs it pays, in order.
#[derive(Debug, Clone, Copy)]
pub struct CompiledCost<'a> {
    pub costs: &'a Vec<CostAction>,
}

/// The target callback of an effect.
#[derive(Debug, Clone, Copy)]
pub struct CompiledTarget<'a> {
    pub decl: &'a TargetDecl,
}

/// The operation callback of an effect.
#[derive(Debug, Clone, Copy)]
pub enum CompiledOperation<'a> {
    /// Resolve these actions in order.
    Actions(&'a Vec<Action>),
    /// Apply a passive block to the card with this id.
    Passive(&'a Passive, u32),
    /// Register these grants on the card with this id, with this duration code.
    Grants(&'a Vec<GrantAbility>, u32, u32),
    /// Fusion-summon the card with this id (also used for Link monsters).
    FusionSummon(u32),
    /// Synchro-summon the card with this id.
    SynchroSummon(u32),
    /// Xyz-summon the card with this id.
    XyzSummon(u32),
    /// Ritual-summon the card with this id.
    RitualSummon(u32),
    /// Special-summon the card with this id, to the opponent's field when
    /// the flag is set.
    SpecialSummonProcedure(u32, bool),
}

/// One effect as the engine registers it.
#[derive(Debug)]
pub struct CompiledEffectV2<'a> {
    pub label: String,
    pub effect_type: u32,
    pub category: u32,
    pub code: u32,
    pub property: u32,
    pub range: u32,
    pub count_limit: Option<(u32, u32)>,
    /// Whether the trigger takes part in SEGOC collection.
    pub simultaneous: bool,
    pub condition: Option<CompiledCondition<'a>>,
    pub cost: Option<CompiledCost<'a>>,
    pub target: Option<CompiledTarget<'a>>,
    pub operation: Option<CompiledOperation<'a>>,
}

/// A compiled effect with its label as a character sequence.
pub struct EffectView<'a> {
    pub label: Seq<char>,
    pub effect_type: u32,
    pub category: u32,
    pub code: u32,
    pub property: u32,
    pub range: u32,
    pub count_limit: Option<(u32, u32)>,
    pub simultaneous: bool,
    pub condition: Option<CompiledCondition<'a>>,
    pub cost: Option<CompiledCost<'a>>,
    pub target: Option<CompiledTarget<'a>>,
    pub operation: Option<CompiledOperation<'a>>,
}

impl<'a> View for CompiledEffectV2<'a> {
    type V = EffectView<'a>;

    open spec fn view(&self) -> EffectView<'a> {
        EffectView {
            label: self.label@,
            effect_type: self.effect_type,
            category: self.category,
            code: self.code,
            property: self.property,
            range: self.range,
            count_limit: self.count_limit,
            simultaneous: self.simultaneous,
            condition: self.condition,
            cost: self.cost,
            target: self.target,
            operation: self.operation,
        }
    }
}

/// The views of a list of compiled effects.
pub open spec fn effect_views<'a>(s: Seq<CompiledEffectV2<'a>>) -> Seq<EffectView<'a>>
    decreases s.len(),
{
    if s.len() == 0 {
        Seq::empty()
    } else {
        effect_views(s.drop_last()).push(s.last()@)
    }
}

proof fn lemma_effect_views_push<'a>(s: Seq<CompiledEffectV2<'a>>, e: CompiledEffectV2<'a>)
    ensures
        effect_views(s.push(e)) == effect_views(s).push(e@),
{
    assert(s.push(e).drop_last() =~= s);
}

proof fn lemma_effect_views_append<'a>(s: Seq<CompiledEffectV2<'a>>, t: Seq<CompiledEffectV2<'a>>)
    ensures
        effect_views(s + t) == effect_views(s) + effect_views(t),
    decreases t.len(),
{
    if t.len() == 0 {
        assert(s + t =~= s);
        assert(effect_views(s) + effect_views(t) =~= effect_views(s));
    } else {
        lemma_effect_views_append(s, t.drop_last());
        assert((s + t).drop_last() =~= s + t.drop_last());
        assert(effect_views(s) + effect_views(t.drop_last()).push(t.last()@) =~= (effect_views(s)
            + effect_views(t.drop_last())).push(t.last()@));
    }
}

fn push_effect<'a>(v: &mut Vec<CompiledEffectV2<'a>>, e: CompiledEffectV2<'a>)
    ensures
        effect_views(final(v)@) == effect_views(old(v)@).push(e@),
        final(v)@.len() == old(v)@.len() + 1,
{
    let ghost e_view = e@;
    v.push(e);
    proof {
        lemma_effect_views_push(old(v)@, final(v)@.last());
    }
}

fn append_effects<'a>(v: &mut Vec<CompiledEffectV2<'a>>, other: Vec<CompiledEffectV2<'a>>)
    ensures
        effect_views(final(v)@) == effect_views(old(v)@) + effect_views(other@),
{
    let mut other = other;
    let ghost o = other@;
    v.append(&mut other);
    proof {
        lemma_effect_views_append(old(v)@, o);
    }
}

// ── Card classification ──────────────────────────────────────

/// Whether a card type is a monster type.
pub open spec fn is_monster_type(t: CardType) -> bool {
    match t {
        CardType::NormalMonster | CardType::EffectMonster | CardType::RitualMonster
        | CardType::FusionMonster | CardType::SynchroMonster | CardType::XyzMonster
        | CardType::LinkMonster | CardType::PendulumMonster => true,
        _ => false,
    }
}

/// Whether a card type is an Extra Deck monster type.
pub open spec fn is_extra_deck_type(t: CardType) -> bool {
    match t {
        CardType::FusionMonster | CardType::SynchroMonster | CardType::XyzMonster
        | CardType::LinkMonster => true,
        _ => false,
    }
}

/// Whether a card type is a Spell or Trap type other than Field Spell.
pub open spec fn is_szone_type(t: CardType) -> bool {
    match t {
        CardType::NormalSpell | CardType::QuickPlaySpell | CardType::ContinuousSpell
        | CardType::EquipSpell | CardType::RitualSpell | CardType::NormalTrap
        | CardType::CounterTrap | CardType::ContinuousTrap => true,
        _ => false,
    }
}

/// Whether some type of `types` is a monster type.
pub open spec fn spec_is_monster(card: Card) -> bool {
    exists|i: int| 0 <= i < card.fields.card_types@.len() && is_monster_type(#[trigger] card.fields.card_types@[i])
}

/// Whether some type of `types` is an Extra Deck monster type.
pub open spec fn spec_is_extra_deck(card: Card) -> bool {
    exists|i: int| 0 <= i < card.fields.card_types@.len() && is_extra_deck_type(#[trigger] card.fields.card_types@[i])
}

/// Whether the card lists `t` among its types.
pub open spec fn has_type(card: Card, t: CardType) -> bool {
    card.fields.card_types@.contains(t)
}

fn is_monster(card: &Card) -> (r: bool)
    ensures
        r == spec_is_monster(*card),
{
    let types = &card.fields.card_types;
    let mut i: usize = 0;
    while i < types.len()
        invariant
            i <= types@.len(),
            types == &card.fields.card_types,
            forall|j: int| 0 <= j < i ==> !is_monster_type(#[trigger] types@[j]),
        decreases types.len() - i,
    {
        match types[i] {
            CardType::NormalMonster | CardType::EffectMonster | CardType::RitualMonster
            | CardType::FusionMonster | CardType::SynchroMonster | CardType::XyzMonster
            | CardType::LinkMonster | CardType::PendulumMonster => {
                return true;
            },
            _ => {},
        }
        i += 1;
    }
    false
}

fn is_spell_trap(card: &Card) -> (r: bool)
    ensures
        r == !spec_is_monster(*card),
{
    !is_monster(card)
}

fn is_extra_deck(card: &Card) -> (r: bool)
    ensures
        r == spec_is_extra_deck(*card),
{
    let types = &card.fields.card_types;
    let mut i: usize = 0;
    while i < types.len()
        invariant
            i <= types@.len(),
            types == &card.fields.card_types,
            forall|j: int| 0 <= j < i ==> !is_extra_deck_type(#[trigger] types@[j]),
        decreases types.len() - i,
    {
        match types[i] {
            CardType::FusionMonster | CardType::SynchroMonster | CardType::XyzMonster
            | CardType::LinkMonster => {
                return true;
            },
            _ => {},
        }
        i += 1;
    }
    false
}

fn has_szone_type(types: &Vec<CardType>) -> (r: bool)
    ensures
        r == exists|i: int| 0 <= i < types@.len() && is_szone_type(#[trigger] types@[i]),
{
    let mut i: usize = 0;
    while i < types.len()
        invariant
            i <= types@.len(),
            forall|j: int| 0 <= j < i ==> !is_szone_type(#[trigger] types@[j]),
        decreases types.len() - i,
    {
        match types[i] {
            CardType::NormalSpell | CardType::QuickPlaySpell | CardType::ContinuousSpell
            | CardType::EquipSpell | CardType::RitualSpell | CardType::NormalTrap
            | CardType::CounterTrap | CardType::ContinuousTrap => {
                return true;
            },
            _ => {},
        }
        i += 1;
    }
    false
}

fn contains_type(types: &Vec<CardType>, t: CardType) -> (r: bool)
    ensures
        r == types@.contains(t),
{
    let mut i: usize = 0;
    while i < types.len()
        invariant
            i <= types@.len(),
            forall|j: int| 0 <= j < i ==> types@[j] != t,
        decreases types.len() - i,
    {
        if types[i] == t {
            return true;
        }
        i += 1;
    }
    false
}

/// The location an activated effect of the card is used from.
pub open spec fn spec_activation_range(card: Card) -> u32 {
    if has_type(card, CardType::FieldSpell) {
        tm::LOCATION_FZONE
    } else if exists|i: int| 0 <= i < card.fields.card_types@.len() && is_szone_type(#[trigger] card.fields.card_types@[i]) {
        tm::LOCATION_SZONE
    } else if spec_is_monster(card) {
        tm::LOCATION_MZONE
    } else {
        0
    }
}

fn activation_range(card: &Card) -> (r: u32)
    ensures
        r == spec_activation_range(*card),
{
    if contains_type(&card.fields.card_types, CardType::FieldSpell) {
        tm::LOCATION_FZONE
    } else if has_szone_type(&card.fields.card_types) {
        tm::LOCATION_SZONE
    } else if is_monster(card) {
        tm::LOCATION_MZONE
    } else {
        0
    }
}

/// The range of a continuous effect of the card: the monster zone for a
/// monster, the spell/trap zone otherwise.
pub open spec fn spec_continuous_range(card: Card) -> u32 {
    if spec_is_monster(card) { tm::LOCATION_MZONE } else { tm::LOCATION_SZONE }
}

/// The card id, 0 when the card has none.
pub open spec fn spec_card_id(card: Card) -> u64 {
    match card.fields.id {
        Some(id) => id,
        None => 0,
    }
}

// ── Count limits ─────────────────────────────────────────────

/// The count limit (count, code) of an activation frequency.
pub open spec fn spec_frequency_to_count_limit(freq: Option<Frequency>, card_id: u64) -> Option<(u32, u32)> {
    match freq {
        None => None,
        Some(Frequency::OncePerTurn(OptKind::Hard)) => Some((1, card_id as u32)),
        Some(Frequency::OncePerTurn(OptKind::Soft)) => Some((1, 0)),
        Some(Frequency::TwicePerTurn) => Some((2, card_id as u32)),
        Some(Frequency::OncePerDuel) => Some((1, card_id as u32 | 0x10000000)),
    }
}

pub fn frequency_to_count_limit(freq: &Option<Frequency>, card_id: u64) -> (r: Option<(u32, u32)>)
    ensures
        r == spec_frequency_to_count_limit(*freq, card_id),
{
    match freq {
        None => None,
        Some(Frequency::OncePerTurn(OptKind::Hard)) => Some((1, card_id as u32)),
        Some(Frequency::OncePerTurn(OptKind::Soft)) => Some((1, 0)),
        Some(Frequency::TwicePerTurn) => Some((2, card_id as u32)),
        Some(Frequency::OncePerDuel) => Some((1, card_id as u32 | 0x10000000)),
    }
}

/// The LOCATION_* mask of a zone.
pub open spec fn spec_zone_to_location(zone: Zone) -> u32 {
    match zone {
        Zone::Hand => tm::LOCATION_HAND,
        Zone::Field => tm::LOCATION_ONFIELD,
        Zone::Deck => tm::LOCATION_DECK,
        Zone::ExtraDeck | Zone::ExtraDeckFaceUp => tm::LOCATION_EXTRA,
        Zone::Gy => tm::LOCATION_GRAVE,
        Zone::Banished => tm::LOCATION_REMOVED,
        Zone::MonsterZone => tm::LOCATION_MZONE,
        Zone::SpellTrapZone => tm::LOCATION_SZONE,
        Zone::FieldZone => tm::LOCATION_FZONE,
        Zone::PendulumZone => tm::LOCATION_PZONE,
        Zone::ExtraMonsterZone => tm::LOCATION_MZONE,
        Zone::Overlay => 0,
        Zone::Equipped => tm::LOCATION_SZONE,
        Zone::TopOfDeck | Zone::BottomOfDeck => tm::LOCATION_DECK,
    }
}

pub fn zone_to_location(zone: &Zone) -> (r: u32)
    ensures
        r == spec_zone_to_location(*zone),
{
    match zone {
        Zone::Hand => tm::LOCATION_HAND,
        Zone::Field => tm::LOCATION_ONFIELD,
        Zone::Deck => tm::LOCATION_DECK,
        Zone::ExtraDeck | Zone::ExtraDeckFaceUp => tm::LOCATION_EXTRA,
        Zone::Gy => tm::LOCATION_GRAVE,
        Zone::Banished => tm::LOCATION_REMOVED,
        Zone::MonsterZone => tm::LOCATION_MZONE,
        Zone::SpellTrapZone => tm::LOCATION_SZONE,
        Zone::FieldZone => tm::LOCATION_FZONE,
        Zone::PendulumZone => tm::LOCATION_PZONE,
        Zone::ExtraMonsterZone => tm::LOCATION_MZONE,
        Zone::Overlay => 0,
        Zone::Equipped => tm::LOCATION_SZONE,
        Zone::TopOfDeck | Zone::BottomOfDeck => tm::LOCATION_DECK,
    }
}

/// The ATTRIBUTE_* bit of an attribute.
pub open spec fn spec_attribute_to_engine(attr: Attribute) -> u32 {
    match attr {
        Attribute::Earth => 0x01,
        Attribute::Water => 0x02,
        Attribute::Fire => 0x04,
        Attribute::Wind => 0x08,
        Attribute::Light => 0x10,
        Attribute::Dark => 0x20,
        Attribute::Divine => 0x40,
    }
}

pub fn attribute_to_engine(attr: &Attribute) -> (r: u32)
    ensures
        r == spec_attribute_to_engine(*attr),
{
    match attr {
        Attribute::Earth => 0x01,
        Attribute::Water => 0x02,
        Attribute::Fire => 0x04,
        Attribute::Wind => 0x08,
        Attribute::Light => 0x10,
        Attribute::Dark => 0x20,
        Attribute::Divine => 0x40,
    }
}

/// The RACE_* bit of a race.
pub open spec fn spec_race_to_engine(race: Race) -> u32 {
    match race {
        Race::Warrior => 0x1,
        Race::Spellcaster => 0x2,
        Race::Fairy => 0x4,
        Race::Fiend => 0x8,
        Race::Zombie => 0x10,
        Race::Machine => 0x20,
        Race::Aqua => 0x40,
        Race::Pyro => 0x80,
        Race::Rock => 0x100,
        Race::WingedBeast => 0x200,
        Race::Plant => 0x400,
        Race::Insect => 0x800,
        Race::Thunder => 0x1000,
        Race::Dragon => 0x2000,
        Race::Beast => 0x4000,
        Race::BeastWarrior => 0x8000,
        Race::Dinosaur => 0x10000,
        Race::Fish => 0x20000,
        Race::SeaSerpent => 0x40000,
        Race::Reptile => 0x80000,
        Race::Psychic => 0x100000,
        Race::DivineBeast => 0x200000,
        Race::Wyrm => 0x800000,
        Race::Cyberse => 0x1000000,
        Race::Illusion => 0x2000000,
    }
}

pub fn race_to_engine(race: &Race) -> (r: u32)
    ensures
        r == spec_race_to_engine(*race),
{
    match race {
        Race::Warrior => 0x1,
        Race::Spellcaster => 0x2,
        Race::Fairy => 0x4,
        Race::Fiend => 0x8,
        Race::Zombie => 0x10,
        Race::Machine => 0x20,
        Race::Aqua => 0x40,
        Race::Pyro => 0x80,
        Race::Rock => 0x100,
        Race::WingedBeast => 0x200,
        Race::Plant => 0x400,
        Race::Insect => 0x800,
        Race::Thunder => 0x1000,
        Race::Dragon => 0x2000,
        Race::Beast => 0x4000,
        Race::BeastWarrior => 0x8000,
        Race::Dinosaur => 0x10000,
        Race::Fish => 0x20000,
        Race::SeaSerpent => 0x40000,
        Race::Reptile => 0x80000,
        Race::Psychic => 0x100000,
        Race::DivineBeast => 0x200000,
        Race::Wyrm => 0x800000,
        Race::Cyberse => 0x1000000,
        Race::Illusion => 0x2000000,
    }
}

/// The POS_* code of an optional battle position (face-up attack when absent).
pub open spec fn spec_position_to_code(pos: Option<BattlePosition>) -> u32 {
    match pos {
        Some(BattlePosition::Attack) => 0x1,
        Some(BattlePosition::Defense) => 0x4,
        Some(BattlePosition::FaceDownDefense) => 0x8,
        None => 0x1,
    }
}

pub fn position_to_code(pos: &Option<BattlePosition>) -> (r: u32)
    ensures
        r == spec_position_to_code(*pos),
{
    match pos {
        Some(BattlePosition::Attack) => 0x1,
        Some(BattlePosition::Defense) => 0x4,
        Some(BattlePosition::FaceDownDefense) => 0x8,
        None => 0x1,
    }
}

/// The PHASE_* code of a phase (damage steps are battle phase).
pub open spec fn spec_phase_name_to_code(phase: PhaseName) -> u32 {
    match phase {
        PhaseName::Draw => tm::PHASE_DRAW,
        PhaseName::Standby => tm::PHASE_STANDBY,
        PhaseName::Main1 => tm::PHASE_MAIN1,
        PhaseName::Battle => tm::PHASE_BATTLE,
        PhaseName::Main2 => tm::PHASE_MAIN2,
        PhaseName::End => tm::PHASE_END,
        PhaseName::Damage | PhaseName::DamageCalculation => tm::PHASE_BATTLE,
    }
}

pub fn phase_name_to_code(phase: &PhaseName) -> (r: u32)
    ensures
        r == spec_phase_name_to_code(*phase),
{
    match phase {
        PhaseName::Draw => tm::PHASE_DRAW,
        PhaseName::Standby => tm::PHASE_STANDBY,
        PhaseName::Main1 => tm::PHASE_MAIN1,
        PhaseName::Battle => tm::PHASE_BATTLE,
        PhaseName::Main2 => tm::PHASE_MAIN2,
        PhaseName::End => tm::PHASE_END,
        PhaseName::Damage | PhaseName::DamageCalculation => tm::PHASE_BATTLE,
    }
}

/// The engine code of an optional duration.
pub open spec fn spec_duration_to_code(dur: Option<Duration>) -> u32 {
    match dur {
        Some(Duration::ThisTurn) | Some(Duration::EndOfTurn) => 1,
        Some(Duration::EndPhase) => 2,
        Some(Duration::WhileOnField) | Some(Duration::WhileFaceUp) => 3,
        Some(Duration::Permanently) => 0,
        None => 0,
        _ => 1,
    }
}

pub fn duration_to_code(dur: &Option<Duration>) -> (r: u32)
    ensures
        r == spec_duration_to_code(*dur),
{
    match dur {
        Some(Duration::ThisTurn) | Some(Duration::EndOfTurn) => 1,
        Some(Duration::EndPhase) => 2,
        Some(Duration::WhileOnField) | Some(Duration::WhileFaceUp) => 3,
        Some(Duration::Permanently) => 0,
        None => 0,
        _ => 1,
    }
}

/// The runtime duration of a DuelScript duration.
pub open spec fn spec_ast_duration_to_runtime(d: Duration) -> RuntimeDuration {
    match d {
        Duration::Permanently => RuntimeDuration::Permanently,
        Duration::ThisTurn => RuntimeDuration::ThisTurn,
        Duration::EndOfTurn => RuntimeDuration::EndOfTurn,
        Duration::EndPhase => RuntimeDuration::EndPhase,
        Duration::EndOfDamageStep => RuntimeDuration::EndOfDamageStep,
        Duration::NextStandbyPhase => RuntimeDuration::NextStandbyPhase,
        Duration::WhileOnField => RuntimeDuration::WhileOnField,
        Duration::WhileFaceUp => RuntimeDuration::WhileFaceUp,
        Duration::NTurns(n) => RuntimeDuration::NTurns(n),
    }
}

pub fn ast_duration_to_runtime(d: &Duration) -> (r: RuntimeDuration)
    ensures
        r == spec_ast_duration_to_runtime(*d),
{
    match d {
        Duration::Permanently => RuntimeDuration::Permanently,
        Duration::ThisTurn => RuntimeDuration::ThisTurn,
        Duration::EndOfTurn => RuntimeDuration::EndOfTurn,
        Duration::EndPhase => RuntimeDuration::EndPhase,
        Duration::EndOfDamageStep => RuntimeDuration::EndOfDamageStep,
        Duration::NextStandbyPhase => RuntimeDuration::NextStandbyPhase,
        Duration::WhileOnField => RuntimeDuration::WhileOnField,
        Duration::WhileFaceUp => RuntimeDuration::WhileFaceUp,
        Duration::NTurns(n) => RuntimeDuration::NTurns(*n),
    }
}

/// The CATEGORY_* bits of a chain category.
pub open spec fn spec_category_to_engine(cat: Category) -> u32 {
    match cat {
        Category::Search => tm::CATEGORY_SEARCH,
        Category::SpecialSummon => tm::CATEGORY_SPECIAL_SUMMON,
        Category::SendToGy => tm::CATEGORY_TOGRAVE,
        Category::AddToHand => tm::CATEGORY_TOHAND,
        Category::Draw => tm::CATEGORY_DRAW,
        Category::Banish => tm::CATEGORY_REMOVE,
        Category::Destroy => tm::CATEGORY_DESTROY,
        Category::Negate => tm::CATEGORY_NEGATE,
        Category::Mill => tm::CATEGORY_DECKDES,
        Category::ActivateSpell => 0,
        Category::ActivateTrap => 0,
        Category::ActivateMonsterEffect => 0,
        Category::NormalSummon => tm::CATEGORY_SUMMON,
        Category::FusionSummon | Category::SynchroSummon | Category::XyzSummon | Category::LinkSummon | Category::RitualSummon => tm::CATEGORY_SPECIAL_SUMMON,
        Category::AttackDeclared => 0,
    }
}

pub fn category_to_engine(cat: &Category) -> (r: u32)
    ensures
        r == spec_category_to_engine(*cat),
{
    match cat {
        Category::Search => tm::CATEGORY_SEARCH,
        Category::SpecialSummon => tm::CATEGORY_SPECIAL_SUMMON,
        Category::SendToGy => tm::CATEGORY_TOGRAVE,
        Category::AddToHand => tm::CATEGORY_TOHAND,
        Category::Draw => tm::CATEGORY_DRAW,
        Category::Banish => tm::CATEGORY_REMOVE,
        Category::Destroy => tm::CATEGORY_DESTROY,
        Category::Negate => tm::CATEGORY_NEGATE,
        Category::Mill => tm::CATEGORY_DECKDES,
        Category::ActivateSpell => 0,
        Category::ActivateTrap => 0,
        Category::ActivateMonsterEffect => 0,
        Category::NormalSummon => tm::CATEGORY_SUMMON,
        Category::FusionSummon | Category::SynchroSummon | Category::XyzSummon | Category::LinkSummon | Category::RitualSummon => tm::CATEGORY_SPECIAL_SUMMON,
        Category::AttackDeclared => 0,
    }
}

/// The TYPE_* bits of a card type (sub-type markers have none).
pub open spec fn spec_card_type_to_bits(ctype: CardType) -> u64 {
    match ctype {
        CardType::NormalMonster => 0x11,
        CardType::EffectMonster => 0x21,
        CardType::RitualMonster => 0x81,
        CardType::FusionMonster => 0x41,
        CardType::SynchroMonster => 0x2001,
        CardType::XyzMonster => 0x800000,
        CardType::LinkMonster => 0x4000000,
        CardType::PendulumMonster => 0x1000001,
        CardType::NormalSpell => 0x2,
        CardType::QuickPlaySpell => 0x2,
        CardType::ContinuousSpell => 0x2,
        CardType::EquipSpell => 0x2,
        CardType::FieldSpell => 0x2,
        CardType::RitualSpell => 0x2,
        CardType::NormalTrap => 0x4,
        CardType::CounterTrap => 0x4,
        CardType::ContinuousTrap => 0x4,
        CardType::Tuner | CardType::SynchroTuner | CardType::Flip | CardType::Gemini | CardType::Union | CardType::Spirit | CardType::Toon => 0,
    }
}

pub fn card_type_to_bits(ctype: &CardType) -> (r: u64)
    ensures
        r == spec_card_type_to_bits(*ctype),
{
    match ctype {
        CardType::NormalMonster => 0x11,
        CardType::EffectMonster => 0x21,
        CardType::RitualMonster => 0x81,
        CardType::FusionMonster => 0x41,
        CardType::SynchroMonster => 0x2001,
        CardType::XyzMonster => 0x800000,
        CardType::LinkMonster => 0x4000000,
        CardType::PendulumMonster => 0x1000001,
        CardType::NormalSpell => 0x2,
        CardType::QuickPlaySpell => 0x2,
        CardType::ContinuousSpell => 0x2,
        CardType::EquipSpell => 0x2,
        CardType::FieldSpell => 0x2,
        CardType::RitualSpell => 0x2,
        CardType::NormalTrap => 0x4,
        CardType::CounterTrap => 0x4,
        CardType::ContinuousTrap => 0x4,
        CardType::Tuner | CardType::SynchroTuner | CardType::Flip | CardType::Gemini | CardType::Union | CardType::Spirit | CardType::Toon => 0,
    }
}

/// The engine effect code of a granted ability.
pub open spec fn spec_grant_to_code(grant: GrantAbility) -> u32 {
    match grant {
        GrantAbility::CannotBeDestroyed(Some(DestroyBy::Battle)) => 30,
        GrantAbility::CannotBeDestroyed(Some(DestroyBy::Effect)) => 31,
        GrantAbility::CannotBeDestroyed(Some(DestroyBy::CardEffect)) => 31,
        GrantAbility::CannotBeDestroyed(None) => 30,
        GrantAbility::CannotBeTargeted(_) => 8,
        GrantAbility::CannotAttack => 16,
        GrantAbility::CannotAttackDirectly => 18,
        GrantAbility::CannotChangePosition => 20,
        GrantAbility::CannotBeTributed => 24,
        GrantAbility::CannotBeUsedAsMaterial => 25,
        GrantAbility::CannotActivate(_) => 2,
        GrantAbility::CannotNormalSummon => 52,
        GrantAbility::CannotSpecialSummon => 56,
        GrantAbility::Piercing => 96,
        GrantAbility::DirectAttack => 17,
        GrantAbility::DoubleAttack => 19,
        GrantAbility::TripleAttack => 19,
        GrantAbility::AttackAllMonsters => 21,
        GrantAbility::MustAttack => 22,
        GrantAbility::ImmuneToTargeting => 8,
        GrantAbility::UnaffectedBy(UnaffectedSource::Spells) => 32,
        GrantAbility::UnaffectedBy(UnaffectedSource::Traps) => 33,
        GrantAbility::UnaffectedBy(UnaffectedSource::Monsters) => 34,
        GrantAbility::UnaffectedBy(UnaffectedSource::Effects) => 35,
        GrantAbility::UnaffectedBy(UnaffectedSource::OpponentEffects) => 36,
    }
}

pub fn grant_to_code(grant: &GrantAbility) -> (r: u32)
    ensures
        r == spec_grant_to_code(*grant),
{
    match grant {
        GrantAbility::CannotBeDestroyed(Some(DestroyBy::Battle)) => 30,
        GrantAbility::CannotBeDestroyed(Some(DestroyBy::Effect)) => 31,
        GrantAbility::CannotBeDestroyed(Some(DestroyBy::CardEffect)) => 31,
        GrantAbility::CannotBeDestroyed(None) => 30,
        GrantAbility::CannotBeTargeted(_) => 8,
        GrantAbility::CannotAttack => 16,
        GrantAbility::CannotAttackDirectly => 18,
        GrantAbility::CannotChangePosition => 20,
        GrantAbility::CannotBeTributed => 24,
        GrantAbility::CannotBeUsedAsMaterial => 25,
        GrantAbility::CannotActivate(_) => 2,
        GrantAbility::CannotNormalSummon => 52,
        GrantAbility::CannotSpecialSummon => 56,
        GrantAbility::Piercing => 96,
        GrantAbility::DirectAttack => 17,
        GrantAbility::DoubleAttack => 19,
        GrantAbility::TripleAttack => 19,
        GrantAbility::AttackAllMonsters => 21,
        GrantAbility::MustAttack => 22,
        GrantAbility::ImmuneToTargeting => 8,
        GrantAbility::UnaffectedBy(UnaffectedSource::Spells) => 32,
        GrantAbility::UnaffectedBy(UnaffectedSource::Traps) => 33,
        GrantAbility::UnaffectedBy(UnaffectedSource::Monsters) => 34,
        GrantAbility::UnaffectedBy(UnaffectedSource::Effects) => 35,
        GrantAbility::UnaffectedBy(UnaffectedSource::OpponentEffects) => 36,
    }
}

/// The runtime filter of a card filter kind (pendulum monsters filter as monsters).
pub open spec fn spec_filter_kind_to_runtime(kind: CardFilterKind) -> RuntimeCardFilter {
    match kind {
        CardFilterKind::Monster => RuntimeCardFilter::Monster,
        CardFilterKind::Spell => RuntimeCardFilter::Spell,
        CardFilterKind::Trap => RuntimeCardFilter::Trap,
        CardFilterKind::Card => RuntimeCardFilter::Card,
        CardFilterKind::EffectMonster => RuntimeCardFilter::EffectMonster,
        CardFilterKind::NormalMonster => RuntimeCardFilter::NormalMonster,
        CardFilterKind::FusionMonster => RuntimeCardFilter::FusionMonster,
        CardFilterKind::SynchroMonster => RuntimeCardFilter::SynchroMonster,
        CardFilterKind::XyzMonster => RuntimeCardFilter::XyzMonster,
        CardFilterKind::LinkMonster => RuntimeCardFilter::LinkMonster,
        CardFilterKind::RitualMonster => RuntimeCardFilter::RitualMonster,
        CardFilterKind::TunerMonster => RuntimeCardFilter::TunerMonster,
        CardFilterKind::NonTunerMonster => RuntimeCardFilter::NonTunerMonster,
        CardFilterKind::NonTokenMonster => RuntimeCardFilter::NonTokenMonster,
        CardFilterKind::PendulumMonster => RuntimeCardFilter::Monster,
    }
}

pub fn filter_kind_to_runtime(kind: &CardFilterKind) -> (r: RuntimeCardFilter)
    ensures
        r == spec_filter_kind_to_runtime(*kind),
{
    match kind {
        CardFilterKind::Monster => RuntimeCardFilter::Monster,
        CardFilterKind::Spell => RuntimeCardFilter::Spell,
        CardFilterKind::Trap => RuntimeCardFilter::Trap,
        CardFilterKind::Card => RuntimeCardFilter::Card,
        CardFilterKind::EffectMonster => RuntimeCardFilter::EffectMonster,
        CardFilterKind::NormalMonster => RuntimeCardFilter::NormalMonster,
        CardFilterKind::FusionMonster => RuntimeCardFilter::FusionMonster,
        CardFilterKind::SynchroMonster => RuntimeCardFilter::SynchroMonster,
        CardFilterKind::XyzMonster => RuntimeCardFilter::XyzMonster,
        CardFilterKind::LinkMonster => RuntimeCardFilter::LinkMonster,
        CardFilterKind::RitualMonster => RuntimeCardFilter::RitualMonster,
        CardFilterKind::TunerMonster => RuntimeCardFilter::TunerMonster,
        CardFilterKind::NonTunerMonster => RuntimeCardFilter::NonTunerMonster,
        CardFilterKind::NonTokenMonster => RuntimeCardFilter::NonTokenMonster,
        CardFilterKind::PendulumMonster => RuntimeCardFilter::Monster,
    }
}

/// The EFFECT_*_REPLACE code of a replaced event.
pub open spec fn spec_replacement_code(event: ReplaceableEvent) -> u32 {
    match event {
        ReplaceableEvent::DestroyedByBattle | ReplaceableEvent::DestroyedByEffect | ReplaceableEvent::Destroyed => 0x1000014,
        ReplaceableEvent::SentToGy => 0x1000015,
        ReplaceableEvent::Banished => 0x1000016,
        ReplaceableEvent::ReturnedToHand => 0x1000017,
        ReplaceableEvent::ReturnedToDeck => 0x1000018,
        ReplaceableEvent::LeavesField => 0x1000014,
    }
}

pub fn replacement_code(event: &ReplaceableEvent) -> (r: u32)
    ensures
        r == spec_replacement_code(*event),
{
    match event {
        ReplaceableEvent::DestroyedByBattle | ReplaceableEvent::DestroyedByEffect | ReplaceableEvent::Destroyed => 0x1000014,
        ReplaceableEvent::SentToGy => 0x1000015,
        ReplaceableEvent::Banished => 0x1000016,
        ReplaceableEvent::ReturnedToHand => 0x1000017,
        ReplaceableEvent::ReturnedToDeck => 0x1000018,
        ReplaceableEvent::LeavesField => 0x1000014,
    }
}

/// The announce kind code of what is announced.
pub open spec fn spec_announce_kind(what: AnnounceWhat) -> u8 {
    match what {
        AnnounceWhat::Type => 3,
        AnnounceWhat::Attribute => 1,
        AnnounceWhat::Race => 2,
        AnnounceWhat::Level => 4,
        AnnounceWhat::Card => 0,
    }
}

pub fn announce_kind(what: &AnnounceWhat) -> (r: u8)
    ensures
        r == spec_announce_kind(*what),
{
    match what {
        AnnounceWhat::Type => 3,
        AnnounceWhat::Attribute => 1,
        AnnounceWhat::Race => 2,
        AnnounceWhat::Level => 4,
        AnnounceWhat::Card => 0,
    }
}

/// The binding-field key of a stat field: its name in lower case.
pub open spec fn spec_stat_field_key(field: StatField) -> Seq<char> {
    match field {
        StatField::Atk => "atk"@,
        StatField::Def => "def"@,
        StatField::Level => "level"@,
        StatField::Rank => "rank"@,
        StatField::Link => "link"@,
        StatField::Scale => "scale"@,
        StatField::BaseAtk => "baseatk"@,
        StatField::BaseDef => "basedef"@,
        StatField::OriginalAtk => "originalatk"@,
        StatField::OriginalDef => "originaldef"@,
    }
}

pub fn stat_field_key(field: &StatField) -> (r: &'static str)
    ensures
        r@ == spec_stat_field_key(*field),
{
    proof {
        reveal_strlit("atk");
        reveal_strlit("def");
        reveal_strlit("level");
        reveal_strlit("rank");
        reveal_strlit("link");
        reveal_strlit("scale");
        reveal_strlit("baseatk");
        reveal_strlit("basedef");
        reveal_strlit("originalatk");
        reveal_strlit("originaldef");
    }
    match field {
        StatField::Atk => "atk",
        StatField::Def => "def",
        StatField::Level => "level",
        StatField::Rank => "rank",
        StatField::Link => "link",
        StatField::Scale => "scale",
        StatField::BaseAtk => "baseatk",
        StatField::BaseDef => "basedef",
        StatField::OriginalAtk => "originalatk",
        StatField::OriginalDef => "originaldef",
    }
}

/// The EVENT_* code an effect with this trigger waits for (free chain without one).
pub open spec fn spec_trigger_to_event_code(trigger: Option<Trigger>) -> u32 {
    match trigger {
        None => tm::EVENT_FREE_CHAIN,
        Some(Trigger::Summoned(_)) | Some(Trigger::SpecialSummoned(_)) => tm::EVENT_SPSUMMON_SUCCESS,
        Some(Trigger::NormalSummoned) | Some(Trigger::TributeSummoned) => tm::EVENT_SUMMON_SUCCESS,
        Some(Trigger::FlipSummoned) => tm::EVENT_FLIP_SUMMON_SUCCESS,
        Some(Trigger::Flipped) => tm::EVENT_FLIP,
        Some(Trigger::Destroyed(_)) | Some(Trigger::DestroyedByBattle) | Some(Trigger::DestroyedByEffect) => tm::EVENT_DESTROYED,
        Some(Trigger::DestroysByBattle) => tm::EVENT_ATTACK_ANNOUNCE,
        Some(Trigger::SentTo(Zone::Gy, _)) => tm::EVENT_TO_GRAVE,
        Some(Trigger::SentTo(_, _)) => 0,
        Some(Trigger::LeavesField) => tm::EVENT_TO_GRAVE,
        Some(Trigger::Banished) => tm::EVENT_REMOVE,
        Some(Trigger::ReturnedTo(_)) => tm::EVENT_TO_HAND,
        Some(Trigger::AttackDeclared) | Some(Trigger::OpponentAttackDeclared) => tm::EVENT_ATTACK_ANNOUNCE,
        Some(Trigger::Attacked) => tm::EVENT_BE_BATTLE_TARGET,
        Some(Trigger::BattleDamage(_)) | Some(Trigger::DirectAttackDamage) => 1132,
        Some(Trigger::DamageCalculation) => 1134,
        Some(Trigger::StandbyPhase(_)) => tm::EVENT_PHASE | tm::PHASE_STANDBY,
        Some(Trigger::EndPhase) => tm::EVENT_PHASE | tm::PHASE_END,
        Some(Trigger::DrawPhase) => tm::EVENT_PHASE | tm::PHASE_DRAW,
        Some(Trigger::MainPhase) => tm::EVENT_PHASE | tm::PHASE_MAIN1,
        Some(Trigger::BattlePhase) => tm::EVENT_PHASE | tm::PHASE_BATTLE,
        Some(Trigger::SummonAttempt) => tm::EVENT_SUMMON,
        Some(Trigger::SpellTrapActivated) | Some(Trigger::OpponentActivates(_)) | Some(Trigger::ChainLink) => tm::EVENT_CHAINING,
        Some(Trigger::Targeted) => 0,
        Some(Trigger::UsedAsMaterial(_)) => tm::EVENT_BE_MATERIAL,
        Some(Trigger::PositionChanged) | Some(Trigger::ControlChanged) | Some(Trigger::Equipped) | Some(Trigger::Unequipped) | Some(Trigger::Custom(_)) => 0,
    }
}

pub fn trigger_to_event_code(trigger: &Option<Trigger>) -> (r: u32)
    ensures
        r == spec_trigger_to_event_code(*trigger),
{
    match trigger {
        None => tm::EVENT_FREE_CHAIN,
        Some(Trigger::Summoned(_)) | Some(Trigger::SpecialSummoned(_)) => tm::EVENT_SPSUMMON_SUCCESS,
        Some(Trigger::NormalSummoned) | Some(Trigger::TributeSummoned) => tm::EVENT_SUMMON_SUCCESS,
        Some(Trigger::FlipSummoned) => tm::EVENT_FLIP_SUMMON_SUCCESS,
        Some(Trigger::Flipped) => tm::EVENT_FLIP,
        Some(Trigger::Destroyed(_)) | Some(Trigger::DestroyedByBattle) | Some(Trigger::DestroyedByEffect) => tm::EVENT_DESTROYED,
        Some(Trigger::DestroysByBattle) => tm::EVENT_ATTACK_ANNOUNCE,
        Some(Trigger::SentTo(Zone::Gy, _)) => tm::EVENT_TO_GRAVE,
        Some(Trigger::SentTo(_, _)) => 0,
        Some(Trigger::LeavesField) => tm::EVENT_TO_GRAVE,
        Some(Trigger::Banished) => tm::EVENT_REMOVE,
        Some(Trigger::ReturnedTo(_)) => tm::EVENT_TO_HAND,
        Some(Trigger::AttackDeclared) | Some(Trigger::OpponentAttackDeclared) => tm::EVENT_ATTACK_ANNOUNCE,
        Some(Trigger::Attacked) => tm::EVENT_BE_BATTLE_TARGET,
        Some(Trigger::BattleDamage(_)) | Some(Trigger::DirectAttackDamage) => 1132,
        Some(Trigger::DamageCalculation) => 1134,
        Some(Trigger::StandbyPhase(_)) => tm::EVENT_PHASE | tm::PHASE_STANDBY,
        Some(Trigger::EndPhase) => tm::EVENT_PHASE | tm::PHASE_END,
        Some(Trigger::DrawPhase) => tm::EVENT_PHASE | tm::PHASE_DRAW,
        Some(Trigger::MainPhase) => tm::EVENT_PHASE | tm::PHASE_MAIN1,
        Some(Trigger::BattlePhase) => tm::EVENT_PHASE | tm::PHASE_BATTLE,
        Some(Trigger::SummonAttempt) => tm::EVENT_SUMMON,
        Some(Trigger::SpellTrapActivated) | Some(Trigger::OpponentActivates(_)) | Some(Trigger::ChainLink) => tm::EVENT_CHAINING,
        Some(Trigger::Targeted) => 0,
        Some(Trigger::UsedAsMaterial(_)) => tm::EVENT_BE_MATERIAL,
        Some(Trigger::PositionChanged) | Some(Trigger::ControlChanged) | Some(Trigger::Equipped) | Some(Trigger::Unequipped) | Some(Trigger::Custom(_)) => 0,
    }
}

/// The engine event each trigger answers, by number: a summon (1100 normal
/// or tribute, 1101 flip, 1102 special or any), a flip (1001), being
/// destroyed (1029), being sent to the GY or leaving the field (1014), being
/// banished (1011), returning (1012), attacks (1130 declared, 1131 attacked),
/// battle damage (1132), damage calculation (1134), the phases (0x1000 with
/// the phase bit: draw 0x1, standby 0x2, main 0x4, battle 0x80, end 0x200),
/// a summon attempt (1103), activations and chain links (1027), being used
/// as material (1108), and no trigger at all a free chain (1002). Triggers
/// the engine has no standard event for answer 0.
pub proof fn law_trigger_event_codes(t: Option<Trigger>)
    ensures
        t is None ==> spec_trigger_to_event_code(t) == 1002,
        t matches Some(Trigger::Summoned(_)) ==> spec_trigger_to_event_code(t) == 1102,
        t matches Some(Trigger::SpecialSummoned(_)) ==> spec_trigger_to_event_code(t) == 1102,
        t matches Some(Trigger::NormalSummoned) ==> spec_trigger_to_event_code(t) == 1100,
        t matches Some(Trigger::TributeSummoned) ==> spec_trigger_to_event_code(t) == 1100,
        t matches Some(Trigger::FlipSummoned) ==> spec_trigger_to_event_code(t) == 1101,
        t matches Some(Trigger::Flipped) ==> spec_trigger_to_event_code(t) == 1001,
        t matches Some(Trigger::Destroyed(_)) ==> spec_trigger_to_event_code(t) == 1029,
        t matches Some(Trigger::DestroyedByBattle) ==> spec_trigger_to_event_code(t) == 1029,
        t matches Some(Trigger::DestroyedByEffect) ==> spec_trigger_to_event_code(t) == 1029,
        t matches Some(Trigger::DestroysByBattle) ==> spec_trigger_to_event_code(t) == 1130,
        t matches Some(Trigger::SentTo(Zone::Gy, _)) ==> spec_trigger_to_event_code(t) == 1014,
        t matches Some(Trigger::SentTo(z, _)) && z != Zone::Gy ==> spec_trigger_to_event_code(t) == 0,
        t matches Some(Trigger::LeavesField) ==> spec_trigger_to_event_code(t) == 1014,
        t matches Some(Trigger::Banished) ==> spec_trigger_to_event_code(t) == 1011,
        t matches Some(Trigger::ReturnedTo(_)) ==> spec_trigger_to_event_code(t) == 1012,
        t matches Some(Trigger::AttackDeclared) ==> spec_trigger_to_event_code(t) == 1130,
        t matches Some(Trigger::OpponentAttackDeclared) ==> spec_trigger_to_event_code(t) == 1130,
        t matches Some(Trigger::Attacked) ==> spec_trigger_to_event_code(t) == 1131,
        t matches Some(Trigger::BattleDamage(_)) ==> spec_trigger_to_event_code(t) == 1132,
        t matches Some(Trigger::DirectAttackDamage) ==> spec_trigger_to_event_code(t) == 1132,
        t matches Some(Trigger::DamageCalculation) ==> spec_trigger_to_event_code(t) == 1134,
        t matches Some(Trigger::DrawPhase) ==> spec_trigger_to_event_code(t) == 0x1001,
        t matches Some(Trigger::StandbyPhase(_)) ==> spec_trigger_to_event_code(t) == 0x1002,
        t matches Some(Trigger::MainPhase) ==> spec_trigger_to_event_code(t) == 0x1004,
        t matches Some(Trigger::BattlePhase) ==> spec_trigger_to_event_code(t) == 0x1080,
        t matches Some(Trigger::EndPhase) ==> spec_trigger_to_event_code(t) == 0x1200,
        t matches Some(Trigger::SummonAttempt) ==> spec_trigger_to_event_code(t) == 1103,
        t matches Some(Trigger::SpellTrapActivated) ==> spec_trigger_to_event_code(t) == 1027,
        t matches Some(Trigger::OpponentActivates(_)) ==> spec_trigger_to_event_code(t) == 1027,
        t matches Some(Trigger::ChainLink) ==> spec_trigger_to_event_code(t) == 1027,
        t matches Some(Trigger::UsedAsMaterial(_)) ==> spec_trigger_to_event_code(t) == 1108,
        t matches Some(Trigger::Targeted) ==> spec_trigger_to_event_code(t) == 0,
        t matches Some(Trigger::PositionChanged) ==> spec_trigger_to_event_code(t) == 0,
        t matches Some(Trigger::ControlChanged) ==> spec_trigger_to_event_code(t) == 0,
        t matches Some(Trigger::Equipped) ==> spec_trigger_to_event_code(t) == 0,
        t matches Some(Trigger::Unequipped) ==> spec_trigger_to_event_code(t) == 0,
        t matches Some(Trigger::Custom(_)) ==> spec_trigger_to_event_code(t) == 0,
{
    assert(0x1000u32 | 0x1u32 == 0x1001u32) by (bit_vector);
    assert(0x1000u32 | 0x2u32 == 0x1002u32) by (bit_vector);
    assert(0x1000u32 | 0x4u32 == 0x1004u32) by (bit_vector);
    assert(0x1000u32 | 0x80u32 == 0x1080u32) by (bit_vector);
    assert(0x1000u32 | 0x200u32 == 0x1200u32) by (bit_vector);
}

/// The CATEGORY_* bits an action sets on its effect; compound actions
/// collect the bits of the actions they hold.
pub open spec fn spec_action_category(action: Action) -> u32
    decreases action,
{
    match action {
        Action::Draw(_) => tm::CATEGORY_DRAW,
        Action::Discard(_) => tm::CATEGORY_HANDES,
        Action::Destroy(_) => tm::CATEGORY_DESTROY,
        Action::Banish(_, _, _) => tm::CATEGORY_REMOVE,
        Action::Send(_, Zone::Gy) => tm::CATEGORY_TOGRAVE,
        Action::Send(_, _) => 0,
        Action::Return(_, ReturnDest::Hand) | Action::Return(_, ReturnDest::Owner) => tm::CATEGORY_TOHAND,
        Action::Return(_, ReturnDest::Deck(_)) | Action::Return(_, ReturnDest::ExtraDeck) => tm::CATEGORY_TODECK,
        Action::Search(_, _) => tm::CATEGORY_SEARCH,
        Action::AddToHand(_, _) => tm::CATEGORY_TOHAND,
        Action::SpecialSummon(_, _, _) => tm::CATEGORY_SPECIAL_SUMMON,
        Action::NormalSummon(_) => tm::CATEGORY_SUMMON,
        Action::Damage(_, _) => tm::CATEGORY_DAMAGE,
        Action::GainLp(_) => tm::CATEGORY_RECOVER,
        Action::PayLp(_) => 0,
        Action::Negate(_) => tm::CATEGORY_NEGATE,
        Action::NegateEffects(_, _) => tm::CATEGORY_DISABLE,
        Action::CreateToken(_) => tm::CATEGORY_TOKEN,
        Action::TakeControl(_, _) => tm::CATEGORY_CONTROL,
        Action::ChangePosition(_, _) => tm::CATEGORY_POSITION,
        Action::Equip(_, _) => tm::CATEGORY_EQUIP,
        Action::ModifyStat(StatName::Atk, _, _, _, _) | Action::SetStat(StatName::Atk, _, _, _) => tm::CATEGORY_ATKCHANGE,
        Action::ModifyStat(StatName::Def, _, _, _, _) | Action::SetStat(StatName::Def, _, _, _) => tm::CATEGORY_DEFCHANGE,
        Action::PlaceCounter(_, _, _) | Action::RemoveCounter(_, _, _) => tm::CATEGORY_COUNTER,
        Action::Mill(_, _) => tm::CATEGORY_DECKDES,
        Action::If { then, otherwise, .. } => spec_categories(then@) | spec_categories(otherwise@),
        Action::Choose(block) => spec_option_categories(block.options@),
        Action::Then(actions) | Action::Also(actions) | Action::AndIfYouDo(actions) => spec_categories(actions@),
        Action::Grant(_, _, _) => 0,
        Action::ForEach { body, .. } | Action::Delayed { body, .. } => spec_categories(body@),
        Action::InstallWatcher { .. } | Action::SetCard(_, _) | Action::FlipDown(_) | Action::ChangeLevel(_, _) | Action::ChangeAttribute(_, _) | Action::ChangeRace(_, _) | Action::ChangeName(_, _, _) | Action::SetScale(_, _) | Action::Attach(_, _) | Action::Detach(_, _) | Action::LookAt(_, _) | Action::Excavate(_, _) | Action::ShuffleDeck(_) | Action::Reveal(_) | Action::Announce(_, _) | Action::LinkTo(_, _) => 0,
        Action::CoinFlip { heads, tails } => spec_categories(heads@) | spec_categories(tails@),
        Action::DiceRoll(branches) => spec_categories(branches@),
        Action::RitualSummon { .. } | Action::SynchroSummon { .. } | Action::XyzSummon { .. } => tm::CATEGORY_SPECIAL_SUMMON,
        Action::FusionSummon { .. } => tm::CATEGORY_SPECIAL_SUMMON | tm::CATEGORY_FUSION_SUMMON,
        Action::SwapControl(_, _) => tm::CATEGORY_CONTROL,
        Action::SwapStats(_) => tm::CATEGORY_ATKCHANGE | tm::CATEGORY_DEFCHANGE,
    }
}

fn action_category(action: &Action) -> (r: u32)
    ensures
        r == spec_action_category(*action),
    decreases action,
{
    match action {
        Action::Draw(_) => tm::CATEGORY_DRAW,
        Action::Discard(_) => tm::CATEGORY_HANDES,
        Action::Destroy(_) => tm::CATEGORY_DESTROY,
        Action::Banish(_, _, _) => tm::CATEGORY_REMOVE,
        Action::Send(_, Zone::Gy) => tm::CATEGORY_TOGRAVE,
        Action::Send(_, _) => 0,
        Action::Return(_, ReturnDest::Hand) | Action::Return(_, ReturnDest::Owner) => tm::CATEGORY_TOHAND,
        Action::Return(_, ReturnDest::Deck(_)) | Action::Return(_, ReturnDest::ExtraDeck) => tm::CATEGORY_TODECK,
        Action::Search(_, _) => tm::CATEGORY_SEARCH,
        Action::AddToHand(_, _) => tm::CATEGORY_TOHAND,
        Action::SpecialSummon(_, _, _) => tm::CATEGORY_SPECIAL_SUMMON,
        Action::NormalSummon(_) => tm::CATEGORY_SUMMON,
        Action::Damage(_, _) => tm::CATEGORY_DAMAGE,
        Action::GainLp(_) => tm::CATEGORY_RECOVER,
        Action::PayLp(_) => 0,
        Action::Negate(_) => tm::CATEGORY_NEGATE,
        Action::NegateEffects(_, _) => tm::CATEGORY_DISABLE,
        Action::CreateToken(_) => tm::CATEGORY_TOKEN,
        Action::TakeControl(_, _) => tm::CATEGORY_CONTROL,
        Action::ChangePosition(_, _) => tm::CATEGORY_POSITION,
        Action::Equip(_, _) => tm::CATEGORY_EQUIP,
        Action::ModifyStat(StatName::Atk, _, _, _, _) | Action::SetStat(StatName::Atk, _, _, _) => tm::CATEGORY_ATKCHANGE,
        Action::ModifyStat(StatName::Def, _, _, _, _) | Action::SetStat(StatName::Def, _, _, _) => tm::CATEGORY_DEFCHANGE,
        Action::PlaceCounter(_, _, _) | Action::RemoveCounter(_, _, _) => tm::CATEGORY_COUNTER,
        Action::Mill(_, _) => tm::CATEGORY_DECKDES,
        Action::If { then, otherwise, .. } => categories_from_actions(then) | categories_from_actions(otherwise),
        Action::Choose(block) => option_categories(&block.options),
        Action::Then(actions) | Action::Also(actions) | Action::AndIfYouDo(actions) => categories_from_actions(actions),
        Action::Grant(_, _, _) => 0,
        Action::ForEach { body, .. } | Action::Delayed { body, .. } => categories_from_actions(body),
        Action::InstallWatcher { .. } | Action::SetCard(_, _) | Action::FlipDown(_) | Action::ChangeLevel(_, _) | Action::ChangeAttribute(_, _) | Action::ChangeRace(_, _) | Action::ChangeName(_, _, _) | Action::SetScale(_, _) | Action::Attach(_, _) | Action::Detach(_, _) | Action::LookAt(_, _) | Action::Excavate(_, _) | Action::ShuffleDeck(_) | Action::Reveal(_) | Action::Announce(_, _) | Action::LinkTo(_, _) => 0,
        Action::CoinFlip { heads, tails } => categories_from_actions(heads) | categories_from_actions(tails),
        Action::DiceRoll(branches) => categories_from_actions(branches),
        Action::RitualSummon { .. } | Action::SynchroSummon { .. } | Action::XyzSummon { .. } => tm::CATEGORY_SPECIAL_SUMMON,
        Action::FusionSummon { .. } => tm::CATEGORY_SPECIAL_SUMMON | tm::CATEGORY_FUSION_SUMMON,
        Action::SwapControl(_, _) => tm::CATEGORY_CONTROL,
        Action::SwapStats(_) => tm::CATEGORY_ATKCHANGE | tm::CATEGORY_DEFCHANGE,
    }
}


/// The union of the CATEGORY_* bits of a list of actions.
pub open spec fn spec_categories(actions: Seq<Action>) -> u32
    decreases actions,
{
    if actions.len() == 0 {
        0
    } else {
        spec_categories(actions.subrange(0, actions.len() - 1)) | spec_action_category(actions[actions.len() - 1])
    }
}

/// The category bits of two action lists run one after the other are the
/// union of the bits of each.
pub proof fn law_categories_concat(a: Seq<Action>, b: Seq<Action>)
    ensures
        spec_categories(a + b) == spec_categories(a) | spec_categories(b),
    decreases b.len(),
{
    if b.len() == 0 {
        assert(a + b =~= a);
        let x = spec_categories(a);
        assert(x | 0u32 == x) by (bit_vector);
    } else {
        let b1 = b.subrange(0, b.len() - 1);
        law_categories_concat(a, b1);
        let ab = a + b;
        assert(ab.subrange(0, ab.len() - 1) =~= a + b1);
        assert(ab[ab.len() - 1] == b[b.len() - 1]);
        let x = spec_categories(a);
        let y = spec_categories(b1);
        let z = spec_action_category(b[b.len() - 1]);
        assert((x | y) | z == x | (y | z)) by (bit_vector);
    }
}

/// The union of the CATEGORY_* bits of the options of a choose block.
pub open spec fn spec_option_categories(options: Seq<ChooseOption>) -> u32
    decreases options,
{
    if options.len() == 0 {
        0
    } else {
        spec_option_categories(options.subrange(0, options.len() - 1)) | spec_categories(
            options[options.len() - 1].resolve@,
        )
    }
}

fn categories_from_actions(actions: &Vec<Action>) -> (r: u32)
    ensures
        r == spec_categories(actions@),
    decreases actions,
{
    let mut cat: u32 = 0;
    let mut i: usize = 0;
    while i < actions.len()
        invariant
            i <= actions@.len(),
            cat == spec_categories(actions@.subrange(0, i as int)),
        decreases actions.len() - i,
    {
        proof {
            assert(actions@.subrange(0, i + 1).subrange(0, i as int) =~= actions@.subrange(0, i as int));
        }
        cat = cat | action_category(&actions[i]);
        i += 1;
    }
    proof {
        assert(actions@.subrange(0, actions@.len() as int) =~= actions@);
    }
    cat
}

fn option_categories(options: &Vec<ChooseOption>) -> (r: u32)
    ensures
        r == spec_option_categories(options@),
    decreases options,
{
    let mut cat: u32 = 0;
    let mut i: usize = 0;
    while i < options.len()
        invariant
            i <= options@.len(),
            cat == spec_option_categories(options@.subrange(0, i as int)),
        decreases options.len() - i,
    {
        proof {
            assert(options@.subrange(0, i + 1).subrange(0, i as int) =~= options@.subrange(0, i as int));
        }
        cat = cat | categories_from_actions(&options[i].resolve);
        i += 1;
    }
    proof {
        assert(options@.subrange(0, options@.len() as int) =~= options@);
    }
    cat
}

// ── Callback generation ──────────────────────────────────────

/// The condition callback of a bare optional condition.
pub open spec fn spec_gen_condition_from_optional<'a>(cond: &'a Option<Condition>) -> Option<CompiledCondition<'a>> {
    match cond {
        Some(c) => Some(CompiledCondition::Check(c)),
        None => None,
    }
}

fn gen_condition_from_optional<'a>(cond: &'a Option<Condition>) -> (r: Option<CompiledCondition<'a>>)
    ensures
        r == spec_gen_condition_from_optional(cond),
{
    match cond {
        Some(c) => Some(CompiledCondition::Check(c)),
        None => None,
    }
}

/// The condition callback of an activated effect: present when the
/// effect has a condition or a trigger.
pub open spec fn spec_gen_condition<'a>(effect: &'a Effect) -> Option<CompiledCondition<'a>> {
    if effect.condition is None && effect.trigger is None {
        None
    } else {
        Some(CompiledCondition::Effect(effect))
    }
}

fn gen_condition<'a>(effect: &'a Effect) -> (r: Option<CompiledCondition<'a>>)
    ensures
        r == spec_gen_condition(effect),
{
    if effect.condition.is_none() && effect.trigger.is_none() {
        None
    } else {
        Some(CompiledCondition::Effect(effect))
    }
}

/// The cost callback of a list of costs: none when the list is empty.
pub open spec fn spec_gen_cost<'a>(costs: &'a Vec<CostAction>) -> Option<CompiledCost<'a>> {
    if costs@.len() == 0 {
        None
    } else {
        Some(CompiledCost { costs })
    }
}

fn gen_cost<'a>(costs: &'a Vec<CostAction>) -> (r: Option<CompiledCost<'a>>)
    ensures
        r == spec_gen_cost(costs),
{
    if costs.len() == 0 {
        None
    } else {
        Some(CompiledCost { costs })
    }
}

/// The target callback of an optional target declaration.
pub open spec fn spec_gen_target<'a>(target: &'a Option<TargetDecl>) -> Option<CompiledTarget<'a>> {
    match target {
        Some(decl) => Some(CompiledTarget { decl }),
        None => None,
    }
}

fn gen_target<'a>(target: &'a Option<TargetDecl>) -> (r: Option<CompiledTarget<'a>>)
    ensures
        r == spec_gen_target(target),
{
    match target {
        Some(decl) => Some(CompiledTarget { decl }),
        None => None,
    }
}

/// The operation callback of a list of actions: none when it is empty.
pub open spec fn spec_gen_operation<'a>(actions: &'a Vec<Action>) -> Option<CompiledOperation<'a>> {
    if actions@.len() == 0 {
        None
    } else {
        Some(CompiledOperation::Actions(actions))
    }
}

fn gen_operation<'a>(actions: &'a Vec<Action>) -> (r: Option<CompiledOperation<'a>>)
    ensures
        r == spec_gen_operation(actions),
{
    if actions.len() == 0 {
        None
    } else {
        Some(CompiledOperation::Actions(actions))
    }
}

/// The operation callback registering a list of grants: none when it is
/// empty.
pub open spec fn spec_gen_continuous_grants_op<'a>(
    grants: &'a Vec<GrantAbility>,
    card_id: u64,
    duration: Option<Duration>,
) -> Option<CompiledOperation<'a>> {
    if grants@.len() == 0 {
        None
    } else {
        Some(CompiledOperation::Grants(grants, card_id as u32, spec_duration_to_code(duration)))
    }
}

fn gen_continuous_grants_op<'a>(grants: &'a Vec<GrantAbility>, card_id: u64, duration: &Option<Duration>) -> (r: Option<
    CompiledOperation<'a>,
>)
    ensures
        r == spec_gen_continuous_grants_op(grants, card_id, *duration),
{
    if grants.len() == 0 {
        None
    } else {
        Some(CompiledOperation::Grants(grants, card_id as u32, duration_to_code(duration)))
    }
}

/// The operation callback of a passive: none when the passive modifies,
/// sets, grants and negates nothing.
pub open spec fn spec_gen_passive_op<'a>(passive: &'a Passive, card_id: u64) -> Option<CompiledOperation<'a>> {
    if passive.modifiers@.len() == 0 && passive.set_atk is None && passive.set_def is None
        && passive.grants@.len() == 0 && !passive.negate_effects {
        None
    } else {
        Some(CompiledOperation::Passive(passive, card_id as u32))
    }
}

fn gen_passive_op<'a>(passive: &'a Passive, card_id: u64) -> (r: Option<CompiledOperation<'a>>)
    ensures
        r == spec_gen_passive_op(passive, card_id),
{
    let has_modifiers = passive.modifiers.len() > 0;
    let has_set_atk = passive.set_atk.is_some();
    let has_set_def = passive.set_def.is_some();
    let has_grants = passive.grants.len() > 0;
    let has_negate = passive.negate_effects;
    if !has_modifiers && !has_set_atk && !has_set_def && !has_grants && !has_negate {
        None
    } else {
        Some(CompiledOperation::Passive(passive, card_id as u32))
    }
}

// ── Passive, restriction and replacement blocks ──────────────

/// The effect code of a passive: from its first modifier, else negation,
/// else its first grant, else its ATK or DEF setter.
pub open spec fn spec_passive_code(passive: Passive) -> u32 {
    if passive.modifiers@.len() > 0 {
        match passive.modifiers@[0].stat {
            StatName::Atk => 100,
            StatName::Def => 104,
        }
    } else if passive.negate_effects {
        2
    } else if passive.grants@.len() > 0 {
        spec_grant_to_code(passive.grants@[0])
    } else if passive.set_atk is Some {
        110
    } else if passive.set_def is Some {
        114
    } else {
        0
    }
}

/// What a passive block compiles to.
pub open spec fn spec_compile_passive<'a>(passive: &'a Passive, card: Card) -> EffectView<'a> {
    EffectView {
        label: passive.name@,
        effect_type: (match passive.scope {
            Some(Scope::Field) => tm::EFFECT_TYPE_FIELD,
            _ => tm::EFFECT_TYPE_SINGLE,
        }) | tm::EFFECT_TYPE_CONTINUOUS,
        category: if passive.negate_effects { tm::CATEGORY_DISABLE } else { 0 },
        code: spec_passive_code(*passive),
        property: 0,
        range: spec_continuous_range(card),
        count_limit: None,
        simultaneous: false,
        condition: spec_gen_condition_from_optional(&passive.condition),
        cost: None,
        target: None,
        operation: spec_gen_passive_op(passive, spec_card_id(card)),
    }
}

fn compile_passive<'a>(passive: &'a Passive, card: &'a Card) -> (r: CompiledEffectV2<'a>)
    ensures
        r@ == spec_compile_passive(passive, *card),
{
    let effect_type = match passive.scope {
        Some(Scope::Field) => tm::EFFECT_TYPE_FIELD,
        _ => tm::EFFECT_TYPE_SINGLE,
    };
    let code = if passive.modifiers.len() > 0 {
        match passive.modifiers[0].stat {
            StatName::Atk => 100,
            StatName::Def => 104,
        }
    } else if passive.negate_effects {
        2
    } else if passive.grants.len() > 0 {
        grant_to_code(&passive.grants[0])
    } else if passive.set_atk.is_some() {
        110
    } else if passive.set_def.is_some() {
        114
    } else {
        0
    };
    let range = if is_monster(card) { tm::LOCATION_MZONE } else { tm::LOCATION_SZONE };
    let category = if passive.negate_effects { tm::CATEGORY_DISABLE } else { 0 };
    let card_id = match card.fields.id {
        Some(id) => id,
        None => 0,
    };
    CompiledEffectV2 {
        label: passive.name.clone(),
        effect_type: effect_type | tm::EFFECT_TYPE_CONTINUOUS,
        category,
        code,
        property: 0,
        range,
        count_limit: None,
        simultaneous: false,
        condition: gen_condition_from_optional(&passive.condition),
        cost: None,
        target: None,
        operation: gen_passive_op(passive, card_id),
    }
}

/// The effect code of the first grant of a list, 0 when it is empty.
pub open spec fn spec_first_grant_code(grants: Seq<GrantAbility>) -> u32 {
    if grants.len() > 0 { spec_grant_to_code(grants[0]) } else { 0 }
}

/// A label, or a default when there is none.
pub open spec fn label_or(name: Option<String>, default: Seq<char>) -> Seq<char> {
    match name {
        Some(n) => n@,
        None => default,
    }
}

fn name_or(name: &Option<String>, default: &str) -> (r: String)
    ensures
        r@ == label_or(*name, default@),
{
    match name {
        Some(n) => n.clone(),
        None => default.to_owned(),
    }
}

/// What a restriction block compiles to.
pub open spec fn spec_compile_restriction<'a>(restriction: &'a Restriction, card: Card) -> EffectView<'a> {
    EffectView {
        label: label_or(restriction.name, "restriction"@),
        effect_type: tm::EFFECT_TYPE_SINGLE | tm::EFFECT_TYPE_CONTINUOUS,
        category: 0,
        code: spec_first_grant_code(restriction.abilities@),
        property: 0,
        range: spec_continuous_range(card),
        count_limit: None,
        simultaneous: false,
        condition: spec_gen_condition_from_optional(&restriction.condition),
        cost: None,
        target: None,
        operation: spec_gen_continuous_grants_op(&restriction.abilities, spec_card_id(card), restriction.duration),
    }
}

fn compile_restriction<'a>(restriction: &'a Restriction, card: &'a Card) -> (r: CompiledEffectV2<'a>)
    ensures
        r@ == spec_compile_restriction(restriction, *card),
{
    let code = if restriction.abilities.len() > 0 { grant_to_code(&restriction.abilities[0]) } else { 0 };
    let card_id = match card.fields.id {
        Some(id) => id,
        None => 0,
    };
    proof {
        reveal_strlit("restriction");
    }
    CompiledEffectV2 {
        label: name_or(&restriction.name, "restriction"),
        effect_type: tm::EFFECT_TYPE_SINGLE | tm::EFFECT_TYPE_CONTINUOUS,
        category: 0,
        code,
        property: 0,
        range: if is_monster(card) { tm::LOCATION_MZONE } else { tm::LOCATION_SZONE },
        count_limit: None,
        simultaneous: false,
        condition: gen_condition_from_optional(&restriction.condition),
        cost: None,
        target: None,
        operation: gen_continuous_grants_op(&restriction.abilities, card_id, &restriction.duration),
    }
}

/// What a replacement block compiles to.
pub open spec fn spec_compile_replacement<'a>(replacement: &'a Replacement, card: Card) -> EffectView<'a> {
    EffectView {
        label: label_or(replacement.name, "replacement"@),
        effect_type: tm::EFFECT_TYPE_SINGLE | tm::EFFECT_TYPE_CONTINUOUS,
        category: tm::CATEGORY_DESTROY,
        code: spec_replacement_code(replacement.instead_of),
        property: 0,
        range: spec_continuous_range(card),
        count_limit: None,
        simultaneous: false,
        condition: spec_gen_condition_from_optional(&replacement.condition),
        cost: None,
        target: None,
        operation: spec_gen_operation(&replacement.actions),
    }
}

/// The effect that a replacement block registers: a single continuous
/// effect whose operation runs the block's actions in place of the event.
pub fn compile_replacement<'a>(replacement: &'a Replacement, card: &'a Card) -> (r: CompiledEffectV2<'a>)
    ensures
        r@ == spec_compile_replacement(replacement, *card),
{
    proof {
        reveal_strlit("replacement");
    }
    CompiledEffectV2 {
        label: name_or(&replacement.name, "replacement"),
        effect_type: tm::EFFECT_TYPE_SINGLE | tm::EFFECT_TYPE_CONTINUOUS,
        category: tm::CATEGORY_DESTROY,
        code: replacement_code(&replacement.instead_of),
        property: 0,
        range: if is_monster(card) { tm::LOCATION_MZONE } else { tm::LOCATION_SZONE },
        count_limit: None,
        simultaneous: false,
        condition: gen_condition_from_optional(&replacement.condition),
        cost: None,
        target: None,
        operation: gen_operation(&replacement.actions),
    }
}


// ── Activated effects ────────────────────────────────────────

/// The effect type before the SINGLE/FIELD marker: activation for a Spell
/// or Trap, quick for speed 2 and above, trigger (mandatory or optional)
/// with a trigger, ignition otherwise.
pub open spec fn spec_base_effect_type(effect: Effect, card: Card) -> u32 {
    let speed: u8 = match effect.speed {
        Some(s) => s,
        None => 1,
    };
    if !spec_is_monster(card) {
        tm::EFFECT_TYPE_ACTIVATE
    } else if speed >= 2 {
        tm::EFFECT_TYPE_QUICK_O
    } else if effect.trigger is Some {
        if effect.mandatory { tm::EFFECT_TYPE_TRIGGER_F } else { tm::EFFECT_TYPE_TRIGGER_O }
    } else {
        tm::EFFECT_TYPE_IGNITION
    }
}

/// Whether a trigger fires on the card itself (rather than watching the
/// field).
pub open spec fn is_self_trigger(trigger: Option<Trigger>) -> bool {
    match trigger {
        Some(Trigger::DestroyedByBattle) | Some(Trigger::DestroyedByEffect) | Some(Trigger::Destroyed(_))
        | Some(Trigger::Targeted) | Some(Trigger::Flipped) | Some(Trigger::FlipSummoned)
        | Some(Trigger::TributeSummoned) | Some(Trigger::NormalSummoned) | Some(Trigger::SentTo(_, _))
        | Some(Trigger::LeavesField) | Some(Trigger::Banished) | Some(Trigger::DirectAttackDamage) => true,
        _ => false,
    }
}

/// The effect type of an activated effect: a monster's trigger effect is
/// marked SINGLE when it fires on the card itself, FIELD otherwise.
pub open spec fn spec_effect_type(effect: Effect, card: Card) -> u32 {
    let base = spec_base_effect_type(effect, card);
    if spec_is_monster(card) && base & (tm::EFFECT_TYPE_TRIGGER_O | tm::EFFECT_TYPE_TRIGGER_F) != 0
        && effect.trigger is Some {
        if is_self_trigger(effect.trigger) {
            base | tm::EFFECT_TYPE_SINGLE
        } else {
            base | tm::EFFECT_TYPE_FIELD
        }
    } else {
        base
    }
}

/// What an activated effect compiles to, with the given event code.
pub open spec fn spec_effect_with_code<'a>(effect: &'a Effect, card: Card, code: u32) -> EffectView<'a> {
    let et = spec_effect_type(*effect, card);
    EffectView {
        label: effect.name@,
        effect_type: et,
        category: if et == tm::EFFECT_TYPE_IGNITION { 0 } else { spec_categories(effect.resolve@) },
        code: code,
        property: if effect.target is Some { 0u32 | tm::EFFECT_FLAG_CARD_TARGET } else { 0u32 },
        range: if et & tm::EFFECT_TYPE_SINGLE != 0 && et & (tm::EFFECT_TYPE_TRIGGER_O
            | tm::EFFECT_TYPE_TRIGGER_F) != 0 {
            0
        } else {
            spec_activation_range(card)
        },
        count_limit: spec_frequency_to_count_limit(effect.frequency, spec_card_id(card)),
        simultaneous: effect.simultaneous || (et & tm::EFFECT_TYPE_TRIGGER_O != 0) || (et
            & tm::EFFECT_TYPE_TRIGGER_F != 0),
        condition: spec_gen_condition(effect),
        cost: spec_gen_cost(&effect.cost),
        target: spec_gen_target(&effect.target),
        operation: spec_gen_operation(&effect.resolve),
    }
}

/// What an activated effect compiles to: one entry, or, for a Spell/Trap
/// that answers a summon attempt, one entry per summon event (normal,
/// flip and special summon).
pub open spec fn spec_compile_effect<'a>(effect: &'a Effect, card: Card) -> Seq<EffectView<'a>> {
    let et = spec_effect_type(*effect, card);
    if !spec_is_monster(card) && effect.trigger matches Some(Trigger::SummonAttempt) {
        seq![
            spec_effect_with_code(effect, card, tm::EVENT_SUMMON),
            spec_effect_with_code(effect, card, tm::EVENT_FLIP_SUMMON),
            spec_effect_with_code(effect, card, tm::EVENT_SPSUMMON),
        ]
    } else {
        seq![
            spec_effect_with_code(
                effect,
                card,
                if et == tm::EFFECT_TYPE_IGNITION { 0 } else { spec_trigger_to_event_code(effect.trigger) },
            ),
        ]
    }
}

/// A monster's effect that waits for a trigger compiles to one engine
/// effect whose event code is the code of that trigger; one that waits for
/// its card's destruction answers event 1029.
pub proof fn law_trigger_effect_code<'a>(effect: &'a Effect, card: Card)
    requires
        spec_is_monster(card),
        effect.trigger is Some,
    ensures
        spec_compile_effect(effect, card).len() == 1,
        spec_compile_effect(effect, card)[0].code == spec_trigger_to_event_code(effect.trigger),
        effect.trigger matches Some(Trigger::Destroyed(_)) ==> spec_compile_effect(effect, card)[0].code == 1029,
        effect.trigger matches Some(Trigger::DestroyedByBattle) ==> spec_compile_effect(effect, card)[0].code == 1029,
        effect.trigger matches Some(Trigger::DestroyedByEffect) ==> spec_compile_effect(effect, card)[0].code == 1029,
{
    let base = spec_base_effect_type(*effect, card);
    assert(base == 0x100u32 || base == 0x200u32 || base == 0x80u32);
    let b = base;
    assert(b == 0x100u32 || b == 0x200u32 || b == 0x80u32 ==> (b | 0x1u32) != 0x40u32 && (b | 0x2u32) != 0x40u32 && b != 0x40u32)
        by (bit_vector);
    assert(spec_effect_type(*effect, card) != tm::EFFECT_TYPE_IGNITION);
    law_trigger_event_codes(effect.trigger);
}

fn compile_effect<'a>(effect: &'a Effect, card: &'a Card) -> (r: Vec<CompiledEffectV2<'a>>)
    ensures
        effect_views(r@) == spec_compile_effect(effect, *card),
{
    let speed: u8 = match effect.speed {
        Some(s) => s,
        None => 1,
    };
    let has_trigger = effect.trigger.is_some();
    let monster = is_monster(card);
    let base = if !monster {
        tm::EFFECT_TYPE_ACTIVATE
    } else if speed >= 2 {
        tm::EFFECT_TYPE_QUICK_O
    } else if has_trigger {
        if effect.mandatory { tm::EFFECT_TYPE_TRIGGER_F } else { tm::EFFECT_TYPE_TRIGGER_O }
    } else {
        tm::EFFECT_TYPE_IGNITION
    };
    let is_trigger_type = base & (tm::EFFECT_TYPE_TRIGGER_O | tm::EFFECT_TYPE_TRIGGER_F) != 0;
    let effect_type = if monster && is_trigger_type && has_trigger {
        let self_trigger = match &effect.trigger {
            Some(Trigger::DestroyedByBattle) | Some(Trigger::DestroyedByEffect) | Some(Trigger::Destroyed(_))
            | Some(Trigger::Targeted) | Some(Trigger::Flipped) | Some(Trigger::FlipSummoned)
            | Some(Trigger::TributeSummoned) | Some(Trigger::NormalSummoned) | Some(Trigger::SentTo(_, _))
            | Some(Trigger::LeavesField) | Some(Trigger::Banished) | Some(Trigger::DirectAttackDamage) => true,
            _ => false,
        };
        if self_trigger {
            base | tm::EFFECT_TYPE_SINGLE
        } else {
            base | tm::EFFECT_TYPE_FIELD
        }
    } else {
        base
    };
    let code = if effect_type == tm::EFFECT_TYPE_IGNITION {
        0
    } else {
        trigger_to_event_code(&effect.trigger)
    };
    let range = if effect_type & tm::EFFECT_TYPE_SINGLE != 0 && effect_type & (tm::EFFECT_TYPE_TRIGGER_O
        | tm::EFFECT_TYPE_TRIGGER_F) != 0 {
        0
    } else {
        activation_range(card)
    };
    let category = if effect_type == tm::EFFECT_TYPE_IGNITION {
        0
    } else {
        categories_from_actions(&effect.resolve)
    };
    let mut property: u32 = 0;
    if effect.target.is_some() {
        property = property | tm::EFFECT_FLAG_CARD_TARGET;
    }
    let card_id = match card.fields.id {
        Some(id) => id,
        None => 0,
    };
    let count_limit = frequency_to_count_limit(&effect.frequency, card_id);
    let condition = gen_condition(effect);
    let cost = gen_cost(&effect.cost);
    let target = gen_target(&effect.target);
    let operation = gen_operation(&effect.resolve);
    let simultaneous = effect.simultaneous || (effect_type & tm::EFFECT_TYPE_TRIGGER_O != 0) || (effect_type
        & tm::EFFECT_TYPE_TRIGGER_F != 0);
    let mut out: Vec<CompiledEffectV2<'a>> = Vec::new();
    let summon_attempt = match &effect.trigger {
        Some(Trigger::SummonAttempt) => true,
        _ => false,
    };
    if !monster && summon_attempt {
        let events: [u32; 3] = [tm::EVENT_SUMMON, tm::EVENT_FLIP_SUMMON, tm::EVENT_SPSUMMON];
        let mut k: usize = 0;
        while k < 3
            invariant
                k <= 3,
                events@ == seq![tm::EVENT_SUMMON, tm::EVENT_FLIP_SUMMON, tm::EVENT_SPSUMMON],
                effect_views(out@) == spec_compile_effect(effect, *card).subrange(0, k as int),
                !spec_is_monster(*card),
                effect.trigger matches Some(Trigger::SummonAttempt),
                effect_type == spec_effect_type(*effect, *card),
                category == (if effect_type == tm::EFFECT_TYPE_IGNITION { 0 } else { spec_categories(effect.resolve@) }),
                range == (if effect_type & tm::EFFECT_TYPE_SINGLE != 0 && effect_type & (tm::EFFECT_TYPE_TRIGGER_O
                    | tm::EFFECT_TYPE_TRIGGER_F) != 0 { 0 } else { spec_activation_range(*card) }),
                property == (if effect.target is Some { 0u32 | tm::EFFECT_FLAG_CARD_TARGET } else { 0u32 }),
                count_limit == spec_frequency_to_count_limit(effect.frequency, spec_card_id(*card)),
                condition == spec_gen_condition(effect),
                cost == spec_gen_cost(&effect.cost),
                target == spec_gen_target(&effect.target),
                operation == spec_gen_operation(&effect.resolve),
                simultaneous == (effect.simultaneous || (effect_type & tm::EFFECT_TYPE_TRIGGER_O != 0) || (effect_type
                    & tm::EFFECT_TYPE_TRIGGER_F != 0)),
            decreases 3 - k,
        {
            let e = CompiledEffectV2 {
                label: effect.name.clone(),
                effect_type,
                category,
                code: events[k],
                property,
                range,
                count_limit,
                simultaneous,
                condition,
                cost,
                target,
                operation,
            };
            push_effect(&mut out, e);
            k += 1;
            proof {
                assert(effect_views(out@) =~= spec_compile_effect(effect, *card).subrange(0, k as int));
            }
        }
        proof {
            assert(spec_compile_effect(effect, *card).subrange(0, 3) =~= spec_compile_effect(effect, *card));
        }
        return out;
    }
    let e = CompiledEffectV2 {
        label: effect.name.clone(),
        effect_type,
        category,
        code,
        property,
        range,
        count_limit,
        simultaneous,
        condition,
        cost,
        target,
        operation,
    };
    push_effect(&mut out, e);
    proof {
        assert(effect_views(out@) =~= spec_compile_effect(effect, *card));
    }
    out
}

// ── Summon block ─────────────────────────────────────────────

/// Whether the summon block lists Fusion, Synchro, Xyz or Link materials.
pub open spec fn spec_has_materials(summon: SummonBlock) -> bool {
    summon.fusion_materials is Some || summon.synchro_materials is Some || summon.xyz_materials is Some
        || summon.link_materials is Some
}

/// The operation of the summoning procedure: the summon that matches the
/// first material list present (Link monsters use the fusion path).
pub open spec fn spec_summon_op<'a>(summon: SummonBlock, card_id: u32) -> Option<CompiledOperation<'a>> {
    if summon.fusion_materials is Some || summon.link_materials is Some {
        Some(CompiledOperation::FusionSummon(card_id))
    } else if summon.synchro_materials is Some {
        Some(CompiledOperation::SynchroSummon(card_id))
    } else if summon.xyz_materials is Some {
        Some(CompiledOperation::XyzSummon(card_id))
    } else if summon.ritual_materials is Some {
        Some(CompiledOperation::RitualSummon(card_id))
    } else {
        None
    }
}

/// A metadata-only effect: no callbacks.
pub open spec fn flag_effect<'a>(label: Seq<char>, effect_type: u32, code: u32, range: u32) -> EffectView<'a> {
    EffectView {
        label,
        effect_type,
        category: 0,
        code,
        property: 0,
        range,
        count_limit: None,
        simultaneous: false,
        condition: None,
        cost: None,
        target: None,
        operation: None,
    }
}

/// The entries of the material-based summoning procedure.
pub open spec fn spec_material_part<'a>(summon: SummonBlock, card: Card) -> Seq<EffectView<'a>> {
    if spec_has_materials(summon) {
        let check: Seq<EffectView<'a>> = if has_type(card, CardType::XyzMonster) {
            seq![flag_effect("Xyz Check"@, tm::EFFECT_TYPE_SINGLE, 946, 0)]
        } else {
            Seq::empty()
        };
        check.push(
            EffectView {
                operation: spec_summon_op(summon, spec_card_id(card) as u32),
                ..flag_effect("Summon Procedure"@, tm::EFFECT_TYPE_FIELD, 34, tm::LOCATION_EXTRA)
            },
        )
    } else {
        Seq::empty()
    }
}

/// The entries of a special summon procedure: the procedure itself and
/// the restriction nested in it, if any.
pub open spec fn spec_procedure_part<'a>(summon: &'a SummonBlock, card: Card) -> Seq<EffectView<'a>> {
    match &summon.special_summon_procedure {
        Some(proc) => if spec_has_materials(*summon) {
            Seq::empty()
        } else {
            let main = EffectView {
                label: "Special Summon Procedure"@,
                effect_type: tm::EFFECT_TYPE_FIELD,
                category: tm::CATEGORY_SPECIAL_SUMMON,
                code: 34,
                property: 0,
                range: tm::LOCATION_HAND,
                count_limit: None,
                simultaneous: false,
                condition: spec_gen_condition_from_optional(&proc.condition),
                cost: spec_gen_cost(&proc.cost),
                target: None,
                operation: Some(
                    CompiledOperation::SpecialSummonProcedure(
                        spec_card_id(card) as u32,
                        proc.to matches Some(FieldTarget::OpponentField),
                    ),
                ),
            };
            match &proc.restriction {
                Some(nested) => seq![
                    main,
                    EffectView {
                        label: label_or(nested.name, "restriction"@),
                        effect_type: tm::EFFECT_TYPE_SINGLE | tm::EFFECT_TYPE_CONTINUOUS,
                        category: 0,
                        code: spec_first_grant_code(nested.abilities@),
                        property: 0,
                        range: 0,
                        count_limit: None,
                        simultaneous: false,
                        condition: spec_gen_condition_from_optional(&nested.condition),
                        cost: None,
                        target: None,
                        operation: spec_gen_continuous_grants_op(&nested.abilities, spec_card_id(card), nested.duration),
                    },
                ],
                None => seq![main],
            }
        },
        None => Seq::empty(),
    }
}

/// What a summon block compiles to.
pub open spec fn spec_compile_summon<'a>(summon: &'a SummonBlock, card: Card) -> Seq<EffectView<'a>> {
    spec_material_part(*summon, card) + spec_procedure_part(summon, card) + (if summon.cannot_normal_summon
        && !spec_is_extra_deck(card) {
        seq![flag_effect("Cannot Normal Summon"@, tm::EFFECT_TYPE_SINGLE, 42, 0)]
    } else {
        Seq::<EffectView<'a>>::empty()
    })
}

fn compile_summon<'a>(summon: &'a SummonBlock, card: &'a Card) -> (r: Vec<CompiledEffectV2<'a>>)
    ensures
        effect_views(r@) == spec_compile_summon(summon, *card),
{
    let mut effects: Vec<CompiledEffectV2<'a>> = Vec::new();
    let is_xyz = contains_type(&card.fields.card_types, CardType::XyzMonster);
    let has_materials = summon.fusion_materials.is_some() || summon.synchro_materials.is_some()
        || summon.xyz_materials.is_some() || summon.link_materials.is_some();
    let card_id: u64 = match card.fields.id {
        Some(id) => id,
        None => 0,
    };
    proof {
        reveal_strlit("Xyz Check");
        reveal_strlit("Summon Procedure");
        reveal_strlit("Special Summon Procedure");
        reveal_strlit("restriction");
        reveal_strlit("Cannot Normal Summon");
    }
    if has_materials {
        if is_xyz {
            push_effect(
                &mut effects,
                CompiledEffectV2 {
                    label: "Xyz Check".to_owned(),
                    effect_type: tm::EFFECT_TYPE_SINGLE,
                    category: 0,
                    code: 946,
                    property: 0,
                    range: 0,
                    count_limit: None,
                    simultaneous: false,
                    condition: None,
                    cost: None,
                    target: None,
                    operation: None,
                },
            );
        }
        let id32 = card_id as u32;
        let summon_op = if summon.fusion_materials.is_some() || summon.link_materials.is_some() {
            Some(CompiledOperation::FusionSummon(id32))
        } else if summon.synchro_materials.is_some() {
            Some(CompiledOperation::SynchroSummon(id32))
        } else if summon.xyz_materials.is_some() {
            Some(CompiledOperation::XyzSummon(id32))
        } else if summon.ritual_materials.is_some() {
            Some(CompiledOperation::RitualSummon(id32))
        } else {
            None
        };
        push_effect(
            &mut effects,
            CompiledEffectV2 {
                label: "Summon Procedure".to_owned(),
                effect_type: tm::EFFECT_TYPE_FIELD,
                category: 0,
                code: 34,
                property: 0,
                range: tm::LOCATION_EXTRA,
                count_limit: None,
                simultaneous: false,
                condition: None,
                cost: None,
                target: None,
                operation: summon_op,
            },
        );
    }
    proof {
        assert(effect_views(effects@) =~= spec_material_part(*summon, *card));
    }
    match &summon.special_summon_procedure {
        Some(proc) => {
            if !has_materials {
                let to_opponent = match proc.to {
                    Some(FieldTarget::OpponentField) => true,
                    _ => false,
                };
                push_effect(
                    &mut effects,
                    CompiledEffectV2 {
                        label: "Special Summon Procedure".to_owned(),
                        effect_type: tm::EFFECT_TYPE_FIELD,
                        category: tm::CATEGORY_SPECIAL_SUMMON,
                        code: 34,
                        property: 0,
                        range: tm::LOCATION_HAND,
                        count_limit: None,
                        simultaneous: false,
                        condition: gen_condition_from_optional(&proc.condition),
                        cost: gen_cost(&proc.cost),
                        target: None,
                        operation: Some(CompiledOperation::SpecialSummonProcedure(card_id as u32, to_opponent)),
                    },
                );
                match &proc.restriction {
                    Some(nested) => {
                        let code = if nested.abilities.len() > 0 {
                            grant_to_code(&nested.abilities[0])
                        } else {
                            0
                        };
                        push_effect(
                            &mut effects,
                            CompiledEffectV2 {
                                label: name_or(&nested.name, "restriction"),
                                effect_type: tm::EFFECT_TYPE_SINGLE | tm::EFFECT_TYPE_CONTINUOUS,
                                category: 0,
                                code,
                                property: 0,
                                range: 0,
                                count_limit: None,
                                simultaneous: false,
                                condition: gen_condition_from_optional(&nested.condition),
                                cost: None,
                                target: None,
                                operation: gen_continuous_grants_op(&nested.abilities, card_id, &nested.duration),
                            },
                        );
                    },
                    None => {},
                }
            }
        },
        None => {},
    }
    proof {
        assert(effect_views(effects@) =~= spec_material_part(*summon, *card) + spec_procedure_part(summon, *card));
    }
    if summon.cannot_normal_summon && !is_extra_deck(card) {
        push_effect(
            &mut effects,
            CompiledEffectV2 {
                label: "Cannot Normal Summon".to_owned(),
                effect_type: tm::EFFECT_TYPE_SINGLE,
                category: 0,
                code: 42,
                property: 0,
                range: 0,
                count_limit: None,
                simultaneous: false,
                condition: None,
                cost: None,
                target: None,
                operation: None,
            },
        );
    }
    proof {
        assert(effect_views(effects@) =~= spec_compile_summon(summon, *card));
    }
    effects
}

// ── Entry point ──────────────────────────────────────────────

/// What the first `n` passives of the card compile to.
pub open spec fn spec_passive_part<'a>(card: &'a Card, n: int) -> Seq<EffectView<'a>>
    decreases n,
{
    if n <= 0 {
        Seq::empty()
    } else {
        spec_passive_part(card, n - 1).push(spec_compile_passive(&card.passives@[n - 1], *card))
    }
}

/// What the first `n` activated effects of the card compile to.
pub open spec fn spec_effect_part<'a>(card: &'a Card, n: int) -> Seq<EffectView<'a>>
    decreases n,
{
    if n <= 0 {
        Seq::empty()
    } else {
        spec_effect_part(card, n - 1) + spec_compile_effect(&card.effects@[n - 1], *card)
    }
}

/// What the first `n` restrictions of the card compile to.
pub open spec fn spec_restriction_part<'a>(card: &'a Card, n: int) -> Seq<EffectView<'a>>
    decreases n,
{
    if n <= 0 {
        Seq::empty()
    } else {
        spec_restriction_part(card, n - 1).push(spec_compile_restriction(&card.restrictions@[n - 1], *card))
    }
}

/// What the first `n` replacements of the card compile to.
pub open spec fn spec_replacement_part<'a>(card: &'a Card, n: int) -> Seq<EffectView<'a>>
    decreases n,
{
    if n <= 0 {
        Seq::empty()
    } else {
        spec_replacement_part(card, n - 1).push(spec_compile_replacement(&card.replacements@[n - 1], *card))
    }
}

/// What a card compiles to: its summon block, then its passives, its
/// activated effects, its restrictions and its replacements, each in
/// source order.
pub open spec fn spec_compile_card<'a>(card: &'a Card) -> Seq<EffectView<'a>> {
    (match &card.summon {
        Some(s) => spec_compile_summon(s, *card),
        None => Seq::empty(),
    }) + spec_passive_part(card, card.passives@.len() as int) + spec_effect_part(card, card.effects@.len() as int)
        + spec_restriction_part(card, card.restrictions@.len() as int) + spec_replacement_part(
        card,
        card.replacements@.len() as int,
    )
}

/// Compile a card into the effects an engine registers.
pub fn compile_card_v2<'a>(card: &'a Card) -> (r: CompiledCardV2<'a>)
    ensures
        r.card_id == spec_card_id(*card),
        r.name@ == card.name@,
        effect_views(r.effects@) == spec_compile_card(card),
{
    let card_id = match card.fields.id {
        Some(id) => id,
        None => 0,
    };
    let mut effects: Vec<CompiledEffectV2<'a>> = Vec::new();
    match &card.summon {
        Some(summon) => {
            let part = compile_summon(summon, card);
            append_effects(&mut effects, part);
        },
        None => {},
    }
    let ghost prefix = effect_views(effects@);
    proof {
        assert(prefix =~= prefix + spec_passive_part(card, 0));
    }
    let mut i: usize = 0;
    while i < card.passives.len()
        invariant
            i <= card.passives@.len(),
            effect_views(effects@) == prefix + spec_passive_part(card, i as int),
        decreases card.passives.len() - i,
    {
        let e = compile_passive(&card.passives[i], card);
        push_effect(&mut effects, e);
        i += 1;
        proof {
            assert(effect_views(effects@) =~= prefix + spec_passive_part(card, i as int));
        }
    }
    let ghost prefix = effect_views(effects@);
    proof {
        assert(prefix =~= prefix + spec_effect_part(card, 0));
    }
    let mut i: usize = 0;
    while i < card.effects.len()
        invariant
            i <= card.effects@.len(),
            effect_views(effects@) == prefix + spec_effect_part(card, i as int),
        decreases card.effects.len() - i,
    {
        let part = compile_effect(&card.effects[i], card);
        append_effects(&mut effects, part);
        i += 1;
        proof {
            assert(effect_views(effects@) =~= prefix + spec_effect_part(card, i as int));
        }
    }
    let ghost prefix = effect_views(effects@);
    proof {
        assert(prefix =~= prefix + spec_restriction_part(card, 0));
    }
    let mut i: usize = 0;
    while i < card.restrictions.len()
        invariant
            i <= card.restrictions@.len(),
            effect_views(effects@) == prefix + spec_restriction_part(card, i as int),
        decreases card.restrictions.len() - i,
    {
        let e = compile_restriction(&card.restrictions[i], card);
        push_effect(&mut effects, e);
        i += 1;
        proof {
            assert(effect_views(effects@) =~= prefix + spec_restriction_part(card, i as int));
        }
    }
    let ghost prefix = effect_views(effects@);
    proof {
        assert(prefix =~= prefix + spec_replacement_part(card, 0));
    }
    let mut i: usize = 0;
    while i < card.replacements.len()
        invariant
            i <= card.replacements@.len(),
            effect_views(effects@) == prefix + spec_replacement_part(card, i as int),
        decreases card.replacements.len() - i,
    {
        let e = compile_replacement(&card.replacements[i], card);
        push_effect(&mut effects, e);
        i += 1;
        proof {
            assert(effect_views(effects@) =~= prefix + spec_replacement_part(card, i as int));
        }
    }
    proof {
        assert(effect_views(effects@) =~= spec_compile_card(card));
    }
    CompiledCardV2 { card_id, name: card.name.clone(), effects }
}

} // verus!
