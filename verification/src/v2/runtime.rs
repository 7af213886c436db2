// DuelScript v2 runtime trait: the engine abstraction that compiled
// effects read game state from and act through.
//
// Every query the interpreter reads is paired with a spec function, so
// that the interpreter's contracts can speak of the engine state exactly.

use vstd::prelude::*;

verus! {

/// Card filter handed to `card_matches_filter`.
#[derive(Debug, Clone, PartialEq, Eq)]
pub enum CardFilter {
    Monster,
    Spell,
    Trap,
    Card,
    Token,
    NonTokenMonster,
    TunerMonster,
    NonTunerMonster,
    NormalMonster,
    EffectMonster,
    FusionMonster,
    SynchroMonster,
    XyzMonster,
    LinkMonster,
    RitualMonster,
    ArchetypeMonster(String),
    ArchetypeCard(String),
    NamedCard(String),
}

/// A card statistic handed to `get_card_stat`.
#[derive(Debug, Clone, Copy, PartialEq, Eq, Structural)]
pub enum Stat {
    Atk,
    Def,
    Level,
    Rank,
    BaseAtk,
    BaseDef,
    OriginalAtk,
    OriginalDef,
}

/// Reason of a `damage` call: effect damage, a cost payment, or battle.
#[derive(Debug, Clone, Copy, PartialEq, Eq, Structural)]
pub enum DamageType {
    Effect,
    Cost,
    Battle,
}

/// How long a stat change or control change lasts.
#[derive(Debug, Clone, Copy, PartialEq, Eq, Structural)]
pub enum Duration {
    ThisTurn,
    EndOfTurn,
    EndPhase,
    EndOfDamageStep,
    NextStandbyPhase,
    WhileOnField,
    WhileFaceUp,
    Permanently,
    NTurns(u32),
}

/// Everything the engine needs to create tokens.
#[derive(Debug, Clone)]
pub struct TokenSpec {
    pub name: String,
    pub atk: i32,
    pub def: i32,
    pub level: u32,
    pub attribute: u32,
    pub race: u32,
    pub position: u32,
    pub count: u32,
}

/// A call of one of the engine's operations that change the duel, with
/// the arguments it was handed.
pub enum EngineCall {
    Draw(u8, u32),
    Destroy(Seq<u32>),
    SendToGrave(Seq<u32>),
    SendToHand(Seq<u32>),
    Banish(Seq<u32>),
    Discard(Seq<u32>),
    SpecialSummon(u32, u8, u32),
    Damage(u8, i32, DamageType),
    Recover(u8, i32),
    SelectCards(u8, Seq<u32>, usize, usize),
    SelectOption(u8, Seq<Seq<char>>),
    SetTargets(Seq<u32>),
    NegateActivation,
    NegateEffect,
    SendToDeck(Seq<u32>, bool),
    ReturnToHand(Seq<u32>),
    Tribute(Seq<u32>),
    ShuffleDeck(u8),
    ModifyAtk(u32, i32, Duration),
    ModifyDef(u32, i32, Duration),
    SetAtk(u32, i32),
    SetDef(u32, i32),
    ChangePosition(u32),
    DetachMaterial(u32, u32),
    AttachMaterial(u32, u32),
    PlaceCounter(u32, Seq<char>, u32),
    RemoveCounter(u32, Seq<char>, u32),
    ReturnToOwner(Seq<u32>),
    Mill(u8, u32),
    Excavate(u8, u32),
    RaiseCustomEvent(Seq<char>, Seq<u32>),
    ConfirmCards(u8, u8, Seq<u32>),
    Announce(u8, u8, u32),
    RegisterFlag(u32, Seq<char>, u32, u32),
    ClearFlag(u32, Seq<char>),
    SetBinding(Seq<char>, u32),
    BindLastSelection(Seq<char>),
    ChangeCardCode(u32, u32, u32),
    TakeControl(u32, u8, Duration),
    CreateToken(u8, TokenSpec),
    StoreValue(Seq<char>, i32),
    RegisterDelayed(u32, u32),
    ChangeLevel(u32, u32),
    ChangeAttribute(u32, u32),
    ChangeRace(u32, u32),
    ChangeName(u32, Seq<char>, u32),
    SetScale(u32, u32),
    RevealCards(Seq<u32>),
    LookAt(u8, Seq<u32>),
    CoinFlip(u8),
    DiceRoll(u8),
    NormalSummon(u32, u8),
    SetCard(u32, u8),
    RitualSummon(u32, u8, Seq<u32>),
    FusionSummon(u32, u8, Seq<u32>),
    SynchroSummon(u32, u8, Seq<u32>),
    XyzSummon(u32, u8, Seq<u32>),
    EquipCard(u32, u32),
    SwapControl(u32, u32),
    SwapStats(u32),
    RegisterGrant(u32, u32, u32),
}

/// The texts of a list of options.
pub open spec fn option_texts(options: Seq<String>) -> Seq<Seq<char>> {
    options.map_values(|o: String| o@)
}

/// The engine interface. Player indices are 0 and 1.
pub trait DuelScriptRuntime {
    // ── Spec view of the queries ─────────────────────────────
    spec fn lp_of(&self, player: u8) -> i32;

    spec fn hand_count_of(&self, player: u8) -> usize;

    spec fn gy_count_of(&self, player: u8) -> usize;

    spec fn banished_count_of(&self, player: u8) -> usize;

    spec fn field_count_of(&self, player: u8, location: u32) -> usize;

    spec fn field_cards_of(&self, player: u8, location: u32) -> Seq<u32>;

    spec fn matches_filter(&self, card_id: u32, filter: CardFilter) -> bool;

    spec fn stat_of(&self, card_id: u32, stat: Stat) -> i32;

    spec fn race_of(&self, card_id: u32) -> u64;

    spec fn attribute_of(&self, card_id: u32) -> u64;

    spec fn type_of(&self, card_id: u32) -> u64;

    spec fn name_of(&self, card_id: u32) -> Seq<char>;

    spec fn archetypes_of(&self, card_id: u32) -> Seq<Seq<char>>;

    spec fn effect_card(&self) -> u32;

    spec fn effect_player_of(&self) -> u8;

    spec fn event_categories_of(&self) -> u32;

    spec fn binding_card_of(&self, name: Seq<char>) -> Option<u32>;

    spec fn binding_field_of(&self, name: Seq<char>, field: Seq<char>) -> i32;

    spec fn current_phase(&self) -> u32;

    spec fn face_up(&self, card_id: u32) -> bool;

    spec fn face_down(&self, card_id: u32) -> bool;

    spec fn attack_position(&self, card_id: u32) -> bool;

    spec fn defense_position(&self, card_id: u32) -> bool;

    spec fn attacked_this_turn(&self, card_id: u32) -> bool;

    spec fn summoned_this_turn(&self, card_id: u32) -> bool;

    spec fn flipped_this_turn(&self, card_id: u32) -> bool;

    spec fn counter_count_of(&self, card_id: u32, name: Seq<char>) -> u32;

    spec fn chain_has_category(&self, category: u32) -> bool;

    spec fn flag_set(&self, card_id: u32, name: Seq<char>) -> bool;

    /// The operations that change the duel the engine has been asked to
    /// carry out, oldest first.
    spec fn calls_of(&self) -> Seq<EngineCall>;

    /// The cards `player` picks, in this state, when asked for between
    /// `min` and `max` of `candidates`.
    spec fn selection_of(&self, player: u8, candidates: Seq<u32>, min: usize, max: usize) -> Seq<u32>;

    // ── Queries ──────────────────────────────────────────────
    /// Current life points of `player`.
    fn get_lp(&self, player: u8) -> (r: i32)
        requires
            player < 2,
        ensures
            r == self.lp_of(player),
    ;

    /// Number of cards in `player`'s hand.
    fn get_hand_count(&self, player: u8) -> (r: usize)
        requires
            player < 2,
        ensures
            r == self.hand_count_of(player),
    ;

    /// Number of cards in `player`'s deck.
    fn get_deck_count(&self, player: u8) -> usize
        requires
            player < 2,
    ;

    /// Number of cards in `player`'s graveyard.
    fn get_gy_count(&self, player: u8) -> (r: usize)
        requires
            player < 2,
        ensures
            r == self.gy_count_of(player),
    ;

    /// Number of banished cards of `player`.
    fn get_banished_count(&self, player: u8) -> (r: usize)
        requires
            player < 2,
        ensures
            r == self.banished_count_of(player),
    ;

    /// Number of cards `player` has in the LOCATION_* mask `location`.
    fn get_field_card_count(&self, player: u8, location: u32) -> (r: usize)
        requires
            player < 2,
        ensures
            r == self.field_count_of(player, location),
    ;

    /// The card ids `player` has in the LOCATION_* mask `location`.
    fn get_field_cards(&self, player: u8, location: u32) -> (r: Vec<u32>)
        requires
            player < 2,
        ensures
            r@ == self.field_cards_of(player, location),
    ;

    /// Whether `card_id` passes `filter`.
    fn card_matches_filter(&self, card_id: u32, filter: &CardFilter) -> (r: bool)
        ensures
            r == self.matches_filter(card_id, *filter),
    ;

    /// The current value of a statistic of `card_id`.
    fn get_card_stat(&self, card_id: u32, stat: &Stat) -> (r: i32)
        ensures
            r == self.stat_of(card_id, *stat),
    ;

    /// RACE_* bitmask of `card_id`.
    fn get_card_race(&self, card_id: u32) -> (r: u64)
        ensures
            r == self.race_of(card_id),
    ;

    /// ATTRIBUTE_* bitmask of `card_id`.
    fn get_card_attribute(&self, card_id: u32) -> (r: u64)
        ensures
            r == self.attribute_of(card_id),
    ;

    /// TYPE_* bitmask of `card_id`.
    fn get_card_type(&self, card_id: u32) -> (r: u64)
        ensures
            r == self.type_of(card_id),
    ;

    /// The passcode of `card_id`.
    fn get_card_code(&self, card_id: u32) -> u32 {
        card_id
    }

    /// The name of `card_id`.
    fn get_card_name(&self, card_id: u32) -> (r: String)
        ensures
            r@ == self.name_of(card_id),
    ;

    /// The archetypes `card_id` belongs to.
    fn get_card_archetypes(&self, card_id: u32) -> (r: Vec<String>)
        ensures
            r@.len() == self.archetypes_of(card_id).len(),
            forall|i: int| 0 <= i < r@.len() ==> #[trigger] r@[i]@ == self.archetypes_of(card_id)[i],
    ;

    /// The card whose effect is resolving.
    fn effect_card_id(&self) -> (r: u32)
        ensures
            r == self.effect_card(),
    ;

    /// The player who activated the resolving effect.
    fn effect_player(&self) -> (r: u8)
        ensures
            r == self.effect_player_of(),
            r < 2,
    ;

    /// CATEGORY_* bits of the chain link being responded to.
    fn event_categories(&self) -> (r: u32)
        ensures
            r == self.event_categories_of(),
    ;

    // ── Card movement ────────────────────────────────────────
    fn draw(&mut self, player: u8, count: u32) -> (r: u32)
        requires
            player < 2,
        ensures
            final(self).calls_of() == old(self).calls_of().push(EngineCall::Draw(player, count)),
    ;

    fn destroy(&mut self, card_ids: &[u32]) -> (r: u32)
        ensures
            final(self).calls_of() == old(self).calls_of().push(EngineCall::Destroy(card_ids@)),
    ;

    fn send_to_grave(&mut self, card_ids: &[u32]) -> (r: u32)
        ensures
            final(self).calls_of() == old(self).calls_of().push(EngineCall::SendToGrave(card_ids@)),
    ;

    fn send_to_hand(&mut self, card_ids: &[u32]) -> (r: u32)
        ensures
            final(self).calls_of() == old(self).calls_of().push(EngineCall::SendToHand(card_ids@)),
    ;

    fn banish(&mut self, card_ids: &[u32]) -> (r: u32)
        ensures
            final(self).calls_of() == old(self).calls_of().push(EngineCall::Banish(card_ids@)),
    ;

    fn discard(&mut self, card_ids: &[u32]) -> (r: u32)
        ensures
            final(self).calls_of() == old(self).calls_of().push(EngineCall::Discard(card_ids@)),
    ;

    fn special_summon(&mut self, card_id: u32, player: u8, position: u32) -> (r: bool)
        requires
            player < 2,
        ensures
            final(self).calls_of() == old(self).calls_of().push(EngineCall::SpecialSummon(card_id, player, position)),
    ;

    // ── Life points ──────────────────────────────────────────
    fn damage(&mut self, player: u8, amount: i32, damage_type: DamageType) -> (r: bool)
        requires
            player < 2,
        ensures
            final(self).calls_of() == old(self).calls_of().push(EngineCall::Damage(player, amount, damage_type)),
    ;

    fn recover(&mut self, player: u8, amount: i32) -> (r: bool)
        requires
            player < 2,
        ensures
            final(self).calls_of() == old(self).calls_of().push(EngineCall::Recover(player, amount)),
    ;

    // ── Selection ────────────────────────────────────────────
    /// `player` picks between `min` and `max` of `candidates`.
    fn select_cards(&mut self, player: u8, candidates: &[u32], min: usize, max: usize) -> (r: Vec<u32>)
        requires
            player < 2,
            min <= max,
        ensures
            final(self).calls_of() == old(self).calls_of().push(EngineCall::SelectCards(player, candidates@, min, max)),
            r@ == old(self).selection_of(player, candidates@, min, max),
            r@.len() <= max,
            r@.len() >= (if min <= candidates@.len() { min as int } else { candidates@.len() as int }),
            forall|i: int| 0 <= i < r@.len() ==> candidates@.contains(#[trigger] r@[i]),
    ;

    /// `player` picks one of `options`, by index.
    fn select_option(&mut self, player: u8, options: &[String]) -> (r: usize)
        requires
            player < 2,
        ensures
            final(self).calls_of() == old(self).calls_of().push(EngineCall::SelectOption(player, option_texts(options@))),
    ;

    fn set_targets(&mut self, card_ids: &[u32])
        ensures
            final(self).calls_of() == old(self).calls_of().push(EngineCall::SetTargets(card_ids@)),
    ;

    // ── Negation ─────────────────────────────────────────────
    fn negate_activation(&mut self) -> (r: bool)
        ensures
            final(self).calls_of() == old(self).calls_of().push(EngineCall::NegateActivation),
    ;

    fn negate_effect(&mut self) -> (r: bool)
        ensures
            final(self).calls_of() == old(self).calls_of().push(EngineCall::NegateEffect),
    ;

    // ── More movement ────────────────────────────────────────
    fn send_to_deck(&mut self, card_ids: &[u32], top: bool) -> (r: u32)
        ensures
            final(self).calls_of() == old(self).calls_of().push(EngineCall::SendToDeck(card_ids@, top)),
    ;

    fn return_to_hand(&mut self, card_ids: &[u32]) -> (r: u32)
        ensures
            final(self).calls_of() == old(self).calls_of().push(EngineCall::ReturnToHand(card_ids@)),
    ;

    fn return_to_owner(&mut self, card_ids: &[u32]) -> (r: u32)
        ensures
            final(self).calls_of() == old(self).calls_of().push(EngineCall::ReturnToOwner(card_ids@)),
    ;

    fn tribute(&mut self, card_ids: &[u32]) -> (r: u32)
        ensures
            final(self).calls_of() == old(self).calls_of().push(EngineCall::Tribute(card_ids@)),
    ;

    fn shuffle_deck(&mut self, player: u8)
        requires
            player < 2,
        ensures
            final(self).calls_of() == old(self).calls_of().push(EngineCall::ShuffleDeck(player)),
    ;

    // ── Stat modification ────────────────────────────────────
    fn modify_atk(&mut self, card_id: u32, delta: i32, duration: Duration)
        ensures
            final(self).calls_of() == old(self).calls_of().push(EngineCall::ModifyAtk(card_id, delta, duration)),
    ;

    fn modify_def(&mut self, card_id: u32, delta: i32, duration: Duration)
        ensures
            final(self).calls_of() == old(self).calls_of().push(EngineCall::ModifyDef(card_id, delta, duration)),
    ;

    fn set_atk(&mut self, card_id: u32, value: i32)
        ensures
            final(self).calls_of() == old(self).calls_of().push(EngineCall::SetAtk(card_id, value)),
    ;

    fn set_def(&mut self, card_id: u32, value: i32)
        ensures
            final(self).calls_of() == old(self).calls_of().push(EngineCall::SetDef(card_id, value)),
    ;

    fn change_position(&mut self, card_id: u32)
        ensures
            final(self).calls_of() == old(self).calls_of().push(EngineCall::ChangePosition(card_id)),
    ;

    // ── Xyz materials ────────────────────────────────────────
    fn detach_material(&mut self, card_id: u32, count: u32) -> (r: u32)
        ensures
            final(self).calls_of() == old(self).calls_of().push(EngineCall::DetachMaterial(card_id, count)),
    ;

    fn attach_material(&mut self, material_id: u32, target_id: u32)
        ensures
            final(self).calls_of() == old(self).calls_of().push(EngineCall::AttachMaterial(material_id, target_id)),
    ;

    // ── Counters ─────────────────────────────────────────────
    fn place_counter(&mut self, card_id: u32, counter_name: &str, count: u32)
        ensures
            final(self).calls_of() == old(self).calls_of().push(EngineCall::PlaceCounter(card_id, counter_name@, count)),
    ;

    fn remove_counter(&mut self, card_id: u32, counter_name: &str, count: u32)
        ensures
            final(self).calls_of() == old(self).calls_of().push(EngineCall::RemoveCounter(card_id, counter_name@, count)),
    ;

    // ── Deck operations ──────────────────────────────────────
    fn mill(&mut self, player: u8, count: u32) -> (r: u32)
        requires
            player < 2,
        ensures
            final(self).calls_of() == old(self).calls_of().push(EngineCall::Mill(player, count)),
    ;

    fn excavate(&mut self, player: u8, count: u32) -> (r: Vec<u32>)
        requires
            player < 2,
        ensures
            final(self).calls_of() == old(self).calls_of().push(EngineCall::Excavate(player, count)),
    ;

    // ── Custom events, confirm, announce ─────────────────────
    fn raise_custom_event(&mut self, name: &str, cards: &[u32])
        ensures
            final(self).calls_of() == old(self).calls_of().push(EngineCall::RaiseCustomEvent(name@, cards@)),
    ;

    fn confirm_cards(&mut self, owner: u8, audience: u8, cards: &[u32])
        ensures
            final(self).calls_of() == old(self).calls_of().push(EngineCall::ConfirmCards(owner, audience, cards@)),
    ;

    fn announce(&mut self, player: u8, kind: u8, filter_mask: u32) -> (r: u32)
        requires
            player < 2,
        ensures
            final(self).calls_of() == old(self).calls_of().push(EngineCall::Announce(player, kind, filter_mask)),
    ;

    fn get_announcement(&self, token: u32) -> u32 {
        0
    }

    // ── Flags ────────────────────────────────────────────────
    fn register_flag(&mut self, card_id: u32, name: &str, survives_mask: u32, resets_mask: u32)
        ensures
            final(self).calls_of() == old(self).calls_of().push(EngineCall::RegisterFlag(card_id, name@, survives_mask, resets_mask)),
    ;

    fn clear_flag(&mut self, card_id: u32, name: &str)
        ensures
            final(self).calls_of() == old(self).calls_of().push(EngineCall::ClearFlag(card_id, name@)),
    ;

    fn has_flag(&self, card_id: u32, name: &str) -> (r: bool)
        ensures
            r == self.flag_set(card_id, name@),
    ;

    // ── History queries ──────────────────────────────────────
    fn previous_location(&self, card_id: u32) -> u32 {
        0
    }

    fn previous_position(&self, card_id: u32) -> u32 {
        0
    }

    fn sent_by_reason(&self, card_id: u32) -> u32 {
        0
    }

    // ── Bindings ─────────────────────────────────────────────
    fn set_binding(&mut self, name: &str, card_id: u32)
        ensures
            final(self).calls_of() == old(self).calls_of().push(EngineCall::SetBinding(name@, card_id)),
    ;

    fn bind_last_selection(&mut self, name: &str)
        ensures
            final(self).calls_of() == old(self).calls_of().push(EngineCall::BindLastSelection(name@)),
    ;

    /// The first card bound under `name`, if any.
    fn get_binding_card(&self, name: &str) -> (r: Option<u32>)
        ensures
            r == self.binding_card_of(name@),
    ;

    /// A statistic (`atk`, `def`, `level`, ...) of the card bound under `name`.
    fn get_binding_field(&self, name: &str, field: &str) -> (r: i32)
        ensures
            r == self.binding_field_of(name@, field@),
    ;

    fn change_card_code(&mut self, card_id: u32, code: u32, duration_mask: u32)
        ensures
            final(self).calls_of() == old(self).calls_of().push(EngineCall::ChangeCardCode(card_id, code, duration_mask)),
    ;

    fn take_control(&mut self, card_id: u32, new_controller: u8, duration: Duration)
        requires
            new_controller < 2,
        ensures
            final(self).calls_of() == old(self).calls_of().push(EngineCall::TakeControl(card_id, new_controller, duration)),
    ;

    fn create_token(&mut self, player: u8, spec: &TokenSpec)
        requires
            player < 2,
        ensures
            final(self).calls_of() == old(self).calls_of().push(EngineCall::CreateToken(player, *spec)),
    ;

    fn store_value(&mut self, label: &str, value: i32)
        ensures
            final(self).calls_of() == old(self).calls_of().push(EngineCall::StoreValue(label@, value)),
    ;

    fn recall_value(&self, label: &str) -> i32 {
        0
    }

    fn register_delayed(&mut self, phase: u32, card_id: u32)
        ensures
            final(self).calls_of() == old(self).calls_of().push(EngineCall::RegisterDelayed(phase, card_id)),
    ;

    // ── Phase and card state ─────────────────────────────────
    fn get_current_phase(&self) -> (r: u32)
        ensures
            r == self.current_phase(),
    ;

    fn is_face_up(&self, card_id: u32) -> (r: bool)
        ensures
            r == self.face_up(card_id),
    ;

    fn is_face_down(&self, card_id: u32) -> (r: bool)
        ensures
            r == self.face_down(card_id),
    ;

    fn is_attack_position(&self, card_id: u32) -> (r: bool)
        ensures
            r == self.attack_position(card_id),
    ;

    fn is_defense_position(&self, card_id: u32) -> (r: bool)
        ensures
            r == self.defense_position(card_id),
    ;

    fn has_attacked_this_turn(&self, card_id: u32) -> (r: bool)
        ensures
            r == self.attacked_this_turn(card_id),
    ;

    fn was_summoned_this_turn(&self, card_id: u32) -> (r: bool)
        ensures
            r == self.summoned_this_turn(card_id),
    ;

    fn was_flipped_this_turn(&self, card_id: u32) -> (r: bool)
        ensures
            r == self.flipped_this_turn(card_id),
    ;

    fn has_counter(&self, card_id: u32, counter_name: &str) -> bool {
        false
    }

    fn get_counter_count(&self, card_id: u32, counter_name: &str) -> (r: u32)
        ensures
            r == self.counter_count_of(card_id, counter_name@),
    ;

    fn chain_includes_category(&self, category: u32) -> (r: bool)
        ensures
            r == self.chain_has_category(category),
    ;

    // ── Card identity changes ────────────────────────────────
    fn change_level(&mut self, card_id: u32, level: u32)
        ensures
            final(self).calls_of() == old(self).calls_of().push(EngineCall::ChangeLevel(card_id, level)),
    ;

    fn change_attribute(&mut self, card_id: u32, attribute: u32)
        ensures
            final(self).calls_of() == old(self).calls_of().push(EngineCall::ChangeAttribute(card_id, attribute)),
    ;

    fn change_race(&mut self, card_id: u32, race: u32)
        ensures
            final(self).calls_of() == old(self).calls_of().push(EngineCall::ChangeRace(card_id, race)),
    ;

    fn change_name(&mut self, card_id: u32, name: &str, duration: u32)
        ensures
            final(self).calls_of() == old(self).calls_of().push(EngineCall::ChangeName(card_id, name@, duration)),
    ;

    fn set_scale(&mut self, card_id: u32, scale: u32)
        ensures
            final(self).calls_of() == old(self).calls_of().push(EngineCall::SetScale(card_id, scale)),
    ;

    // ── Information and chance ───────────────────────────────
    fn reveal_cards(&mut self, card_ids: &[u32])
        ensures
            final(self).calls_of() == old(self).calls_of().push(EngineCall::RevealCards(card_ids@)),
    ;

    fn look_at(&mut self, player: u8, card_ids: &[u32])
        requires
            player < 2,
        ensures
            final(self).calls_of() == old(self).calls_of().push(EngineCall::LookAt(player, card_ids@)),
    ;

    fn coin_flip(&mut self, player: u8) -> (r: bool)
        requires
            player < 2,
        ensures
            final(self).calls_of() == old(self).calls_of().push(EngineCall::CoinFlip(player)),
    ;

    fn dice_roll(&mut self, player: u8) -> (r: u32)
        requires
            player < 2,
        ensures
            final(self).calls_of() == old(self).calls_of().push(EngineCall::DiceRoll(player)),
    ;

    // ── Summons ──────────────────────────────────────────────
    fn normal_summon(&mut self, card_id: u32, player: u8) -> (r: bool)
        requires
            player < 2,
        ensures
            final(self).calls_of() == old(self).calls_of().push(EngineCall::NormalSummon(card_id, player)),
    ;

    fn set_card(&mut self, card_id: u32, player: u8) -> (r: bool)
        requires
            player < 2,
        ensures
            final(self).calls_of() == old(self).calls_of().push(EngineCall::SetCard(card_id, player)),
    ;

    fn ritual_summon(&mut self, card_id: u32, player: u8, material_ids: &[u32]) -> (r: bool)
        requires
            player < 2,
        ensures
            final(self).calls_of() == old(self).calls_of().push(EngineCall::RitualSummon(card_id, player, material_ids@)),
    ;

    fn fusion_summon(&mut self, card_id: u32, player: u8, material_ids: &[u32]) -> (r: bool)
        requires
            player < 2,
        ensures
            final(self).calls_of() == old(self).calls_of().push(EngineCall::FusionSummon(card_id, player, material_ids@)),
    ;

    fn synchro_summon(&mut self, card_id: u32, player: u8, material_ids: &[u32]) -> (r: bool)
        requires
            player < 2,
        ensures
            final(self).calls_of() == old(self).calls_of().push(EngineCall::SynchroSummon(card_id, player, material_ids@)),
    ;

    fn xyz_summon(&mut self, card_id: u32, player: u8, material_ids: &[u32]) -> (r: bool)
        requires
            player < 2,
        ensures
            final(self).calls_of() == old(self).calls_of().push(EngineCall::XyzSummon(card_id, player, material_ids@)),
    ;

    fn equip_card(&mut self, equip_id: u32, target_id: u32)
        ensures
            final(self).calls_of() == old(self).calls_of().push(EngineCall::EquipCard(equip_id, target_id)),
    ;

    fn swap_control(&mut self, card_a: u32, card_b: u32)
        ensures
            final(self).calls_of() == old(self).calls_of().push(EngineCall::SwapControl(card_a, card_b)),
    ;

    fn swap_stats(&mut self, card_id: u32)
        ensures
            final(self).calls_of() == old(self).calls_of().push(EngineCall::SwapStats(card_id)),
    ;

    fn register_grant(&mut self, card_id: u32, grant_code: u32, duration: u32)
        ensures
            final(self).calls_of() == old(self).calls_of().push(EngineCall::RegisterGrant(card_id, grant_code, duration)),
    ;
}

} // verus!
