// DuelScript v2 abstract syntax tree.
//
// Every type maps to one grammar rule. No bitfields and no engine
// constants appear here: only game mechanics.

use vstd::prelude::*;

verus! {

// ── Top level ────────────────────────────────────────────────

#[derive(Debug, Clone)]
pub struct File {
    pub cards: Vec<Card>,
}

#[derive(Debug, Clone)]
pub struct Card {
    pub name: String,
    pub fields: CardFields,
    pub summon: Option<SummonBlock>,
    pub effects: Vec<Effect>,
    pub passives: Vec<Passive>,
    pub restrictions: Vec<Restriction>,
    pub replacements: Vec<Replacement>,
    pub redirects: Vec<Redirect>,
}

#[derive(Debug, Clone)]
pub struct CardFields {
    pub id: Option<u64>,
    pub card_types: Vec<CardType>,
    pub attribute: Option<Attribute>,
    pub race: Option<Race>,
    pub level: Option<u32>,
    pub rank: Option<u32>,
    pub link: Option<u32>,
    pub scale: Option<u32>,
    pub atk: Option<StatVal>,
    pub def: Option<StatVal>,
    pub link_arrows: Vec<Arrow>,
    pub archetypes: Vec<String>,
}

impl Default for CardFields {
    fn default() -> (r: Self)
        ensures
            r.id is None,
            r.card_types@.len() == 0,
            r.attribute is None,
            r.race is None,
            r.level is None,
            r.rank is None,
            r.link is None,
            r.scale is None,
            r.atk is None,
            r.def is None,
            r.link_arrows@.len() == 0,
            r.archetypes@.len() == 0,
    {
        CardFields {
            id: None,
            card_types: Vec::new(),
            attribute: None,
            race: None,
            level: None,
            rank: None,
            link: None,
            scale: None,
            atk: None,
            def: None,
            link_arrows: Vec::new(),
            archetypes: Vec::new(),
        }
    }
}

#[derive(Debug, Clone, Copy, PartialEq, Eq, Structural)]
pub enum StatVal {
    Number(i32),
    Unknown,
}

// ── Card types ───────────────────────────────────────────────

#[derive(Debug, Clone, Copy, PartialEq, Eq, Structural)]
pub enum CardType {
    NormalMonster,
    EffectMonster,
    RitualMonster,
    FusionMonster,
    SynchroMonster,
    XyzMonster,
    LinkMonster,
    PendulumMonster,
    Tuner,
    SynchroTuner,
    Flip,
    Gemini,
    Union,
    Spirit,
    Toon,
    NormalSpell,
    QuickPlaySpell,
    ContinuousSpell,
    EquipSpell,
    FieldSpell,
    RitualSpell,
    NormalTrap,
    CounterTrap,
    ContinuousTrap,
}

#[derive(Debug, Clone, Copy, PartialEq, Eq, Structural)]
pub enum Attribute {
    Light,
    Dark,
    Fire,
    Water,
    Earth,
    Wind,
    Divine,
}

#[derive(Debug, Clone, Copy, PartialEq, Eq, Structural)]
pub enum Race {
    Dragon,
    Spellcaster,
    Zombie,
    Warrior,
    BeastWarrior,
    Beast,
    WingedBeast,
    Fiend,
    Fairy,
    Insect,
    Dinosaur,
    Reptile,
    Fish,
    SeaSerpent,
    Aqua,
    Pyro,
    Thunder,
    Rock,
    Plant,
    Machine,
    Psychic,
    DivineBeast,
    Wyrm,
    Cyberse,
    Illusion,
}

#[derive(Debug, Clone, Copy, PartialEq, Eq, Structural)]
pub enum Arrow {
    TopLeft,
    Top,
    TopRight,
    Left,
    Right,
    BottomLeft,
    Bottom,
    BottomRight,
}

// ── Summon block ─────────────────────────────────────────────

#[derive(Debug, Clone)]
pub struct SummonBlock {
    pub cannot_normal_summon: bool,
    pub cannot_special_summon: bool,
    pub tributes: Option<u32>,
    pub special_summon_procedure: Option<SpecialSummonProcedure>,
    pub fusion_materials: Option<MaterialList>,
    pub synchro_materials: Option<SynchroMaterials>,
    pub xyz_materials: Option<Selector>,
    pub link_materials: Option<Selector>,
    pub ritual_materials: Option<RitualMaterials>,
    pub pendulum_from: Vec<Zone>,
}

#[derive(Debug, Clone)]
pub struct SpecialSummonProcedure {
    pub from: Option<Zone>,
    pub to: Option<FieldTarget>,
    pub cost: Vec<CostAction>,
    pub condition: Option<Condition>,
    pub restriction: Option<Restriction>,
}

#[derive(Debug, Clone, Copy, PartialEq, Eq, Structural)]
pub enum FieldTarget {
    YourField,
    OpponentField,
    EitherField,
}

#[derive(Debug, Clone)]
pub struct MaterialList {
    pub items: Vec<MaterialItem>,
}

#[derive(Debug, Clone)]
pub enum MaterialItem {
    Named(String),
    Generic(Selector),
}

#[derive(Debug, Clone)]
pub struct SynchroMaterials {
    pub tuner: Selector,
    pub non_tuner: Selector,
}

#[derive(Debug, Clone)]
pub struct RitualMaterials {
    pub materials: Selector,
    pub level_constraint: Option<LevelConstraint>,
}

#[derive(Debug, Clone)]
pub struct LevelConstraint {
    pub kind: LevelConstraintKind,
    pub op: CompareOp,
    pub value: Expr,
}

#[derive(Debug, Clone, Copy, PartialEq, Eq, Structural)]
pub enum LevelConstraintKind {
    TotalLevel,
    ExactLevel,
}

// ── Effect block ─────────────────────────────────────────────

#[derive(Debug, Clone)]
pub struct Effect {
    pub name: String,
    pub speed: Option<u8>,
    pub frequency: Option<Frequency>,
    pub mandatory: bool,
    /// Declared as a simultaneous trigger (collected together with the
    /// other triggers of the same event before a chain is built).
    pub simultaneous: bool,
    pub timing: Option<Timing>,
    pub trigger: Option<Trigger>,
    pub who: Option<PlayerWho>,
    pub condition: Option<Condition>,
    pub activate_from: Vec<Zone>,
    pub damage_step: Option<bool>,
    pub target: Option<TargetDecl>,
    pub cost: Vec<CostAction>,
    pub resolve: Vec<Action>,
    pub choose: Option<ChooseBlock>,
}

#[derive(Debug, Clone, Copy, PartialEq, Eq, Structural)]
pub enum Frequency {
    OncePerTurn(OptKind),
    TwicePerTurn,
    OncePerDuel,
}

#[derive(Debug, Clone, Copy, PartialEq, Eq, Structural)]
pub enum OptKind {
    Soft,
    Hard,
}

#[derive(Debug, Clone, Copy, PartialEq, Eq, Structural)]
pub enum Timing {
    When,
    If,
}

#[derive(Debug, Clone, Copy, PartialEq, Eq, Structural)]
pub enum PlayerWho {
    You,
    Opponent,
    Controller,
    Owner,
    Summoner,
    Both,
}

// ── Triggers ─────────────────────────────────────────────────

#[derive(Debug, Clone)]
pub enum Trigger {
    Summoned(Option<SummonMethod>),
    SpecialSummoned(Option<SummonMethod>),
    NormalSummoned,
    TributeSummoned,
    FlipSummoned,
    Flipped,
    Destroyed(Option<DestroyBy>),
    DestroyedByBattle,
    DestroyedByEffect,
    DestroysByBattle,
    SentTo(Zone, Option<Zone>),
    LeavesField,
    Banished,
    ReturnedTo(Zone),
    AttackDeclared,
    OpponentAttackDeclared,
    Attacked,
    BattleDamage(Option<PlayerWho>),
    DirectAttackDamage,
    DamageCalculation,
    StandbyPhase(Option<PhaseOwner>),
    EndPhase,
    DrawPhase,
    MainPhase,
    BattlePhase,
    SummonAttempt,
    SpellTrapActivated,
    OpponentActivates(Vec<Category>),
    ChainLink,
    Targeted,
    PositionChanged,
    ControlChanged,
    Equipped,
    Unequipped,
    UsedAsMaterial(Option<SummonMethod>),
    Custom(String),
}

#[derive(Debug, Clone, Copy, PartialEq, Eq, Structural)]
pub enum SummonMethod {
    Normal,
    Special,
    Flip,
    Tribute,
    Fusion,
    Synchro,
    Xyz,
    Link,
    Ritual,
    Pendulum,
}

#[derive(Debug, Clone, Copy, PartialEq, Eq, Structural)]
pub enum DestroyBy {
    Battle,
    Effect,
    CardEffect,
}

#[derive(Debug, Clone, Copy, PartialEq, Eq, Structural)]
pub enum PhaseOwner {
    Yours,
    Opponents,
    Either,
}

#[derive(Debug, Clone, Copy, PartialEq, Eq, Structural)]
pub enum Category {
    Search,
    SpecialSummon,
    SendToGy,
    AddToHand,
    Draw,
    Banish,
    Destroy,
    Negate,
    Mill,
    ActivateSpell,
    ActivateTrap,
    ActivateMonsterEffect,
    NormalSummon,
    FusionSummon,
    SynchroSummon,
    XyzSummon,
    LinkSummon,
    RitualSummon,
    AttackDeclared,
}

// ── Conditions ───────────────────────────────────────────────

#[derive(Debug, Clone)]
pub enum Condition {
    And(Vec<ConditionAtom>),
    Or(Vec<ConditionAtom>),
    Single(ConditionAtom),
}

#[derive(Debug)]
pub enum ConditionAtom {
    Not(Box<ConditionAtom>),
    SelfState(CardState),
    Controls(PlayerWho, Selector),
    NoCardsOnField(CardFilterKind, FieldOwner),
    LpCompare(CompareOp, Expr),
    OpponentLpCompare(CompareOp, Expr),
    HandSize(CompareOp, Expr),
    CardsInGy(CompareOp, Expr),
    CardsInBanished(CompareOp, Expr),
    OnField,
    InGy,
    InHand,
    InBanished,
    PhaseIs(PhaseName),
    ChainIncludes(Vec<Category>),
    HasCounter(String, Option<CompareOp>, Option<Expr>, CounterTarget),
    HasFlag(String),
}

#[derive(Debug, Clone, Copy, PartialEq, Eq, Structural)]
pub enum CardState {
    SummonedThisTurn,
    AttackedThisTurn,
    FlippedThisTurn,
    ActivatedThisTurn,
    FaceUp,
    FaceDown,
    InAttackPosition,
    InDefensePosition,
}

#[derive(Debug, Clone, Copy, PartialEq, Eq, Structural)]
pub enum FieldOwner {
    Your,
    Opponent,
    Either,
}

#[derive(Debug, Clone, Copy, PartialEq, Eq, Structural)]
pub enum CounterTarget {
    OnSelf,
    OnSelector,
}

#[derive(Debug, Clone, Copy, PartialEq, Eq, Structural)]
pub enum PhaseName {
    Draw,
    Standby,
    Main1,
    Battle,
    Main2,
    End,
    Damage,
    DamageCalculation,
}

// ── Selectors ────────────────────────────────────────────────

#[derive(Debug)]
pub enum Selector {
    SelfCard,
    Target,
    EquippedCard,
    NegatedCard,
    Searched,
    LinkedCard,
    Binding(String),
    Counted {
        quantity: Quantity,
        filter: CardFilter,
        controller: Option<Controller>,
        zone: Option<ZoneFilter>,
        position: Option<PositionFilter>,
        where_clause: Option<Predicate>,
    },
}

#[derive(Debug, Clone, Copy, PartialEq, Eq, Structural)]
pub enum Quantity {
    All,
    Exact(u32),
    AtLeast(u32),
}

#[derive(Debug, Clone)]
pub struct CardFilter {
    pub name: Option<String>,
    pub kind: CardFilterKind,
}

#[derive(Debug, Clone, Copy, PartialEq, Eq, Structural)]
pub enum CardFilterKind {
    Monster,
    Spell,
    Trap,
    Card,
    EffectMonster,
    NormalMonster,
    FusionMonster,
    SynchroMonster,
    XyzMonster,
    LinkMonster,
    RitualMonster,
    PendulumMonster,
    TunerMonster,
    NonTunerMonster,
    NonTokenMonster,
}

#[derive(Debug, Clone, Copy, PartialEq, Eq, Structural)]
pub enum Controller {
    You,
    Opponent,
    Either,
}

#[derive(Debug, Clone)]
pub enum ZoneFilter {
    In(Vec<Zone>),
    From(Vec<Zone>),
    OnField(FieldOwner),
}

#[derive(Debug, Clone, Copy, PartialEq, Eq, Structural)]
pub enum PositionFilter {
    FaceUp,
    FaceDown,
    AttackPosition,
    DefensePosition,
    ExceptSelf,
}

// ── Predicates (where clauses) ───────────────────────────────

#[derive(Debug)]
pub enum Predicate {
    And(Vec<PredicateAtom>),
    Or(Vec<PredicateAtom>),
    Single(PredicateAtom),
}

#[derive(Debug)]
pub enum PredicateAtom {
    Not(Box<PredicateAtom>),
    StatCompare(StatField, CompareOp, Expr),
    AttributeIs(Attribute),
    RaceIs(Race),
    TypeIs(CardType),
    NameIs(String),
    ArchetypeIs(String),
    IsFaceUp,
    IsFaceDown,
    IsMonster,
    IsSpell,
    IsTrap,
    IsEffect,
    IsNormal,
    IsTuner,
    IsFusion,
    IsSynchro,
    IsXyz,
    IsLink,
    IsRitual,
    IsPendulum,
    IsToken,
    IsFlip,
}

#[derive(Debug, Clone, Copy, PartialEq, Eq, Structural)]
pub enum StatField {
    Atk,
    Def,
    Level,
    Rank,
    Link,
    Scale,
    BaseAtk,
    BaseDef,
    OriginalAtk,
    OriginalDef,
}

#[derive(Debug, Clone, Copy, PartialEq, Eq, Structural)]
pub enum CompareOp {
    Gte,
    Lte,
    Eq,
    Neq,
    Gt,
    Lt,
}

// ── Target declaration ───────────────────────────────────────

#[derive(Debug, Clone)]
pub struct TargetDecl {
    pub selector: Selector,
    pub binding: Option<String>,
}

// ── Costs ────────────────────────────────────────────────────

#[derive(Debug, Clone)]
pub enum CostAction {
    PayLp(Expr),
    Discard(Selector, Option<String>),
    Tribute(Selector, Option<String>),
    Banish(Selector, Option<Zone>, Option<String>),
    Send(Selector, Zone, Option<String>),
    Detach(u32, Selector),
    RemoveCounter(String, u32, Selector),
    Reveal(Selector),
    Announce(AnnounceWhat, Option<String>),
    NoCost,
}

#[derive(Debug, Clone, Copy, PartialEq, Eq, Structural)]
pub enum AnnounceWhat {
    Type,
    Attribute,
    Race,
    Level,
    Card,
}

// ── Actions ──────────────────────────────────────────────────

#[derive(Debug)]
pub enum Action {
    Draw(Expr),
    Discard(Selector),
    Destroy(Selector),
    /// The flag is `true` for a face-down banish.
    Banish(Selector, Option<Zone>, bool),
    Send(Selector, Zone),
    Return(Selector, ReturnDest),
    Search(Selector, Option<Zone>),
    AddToHand(Selector, Option<Zone>),
    SpecialSummon(Selector, Option<Zone>, Option<BattlePosition>),
    RitualSummon {
        target: Selector,
        materials: Option<Selector>,
        level_op: Option<CompareOp>,
        level_expr: Option<Expr>,
    },
    FusionSummon { target: Selector, materials: Option<Selector> },
    SynchroSummon { target: Selector, materials: Option<Selector> },
    XyzSummon { target: Selector, materials: Option<Selector> },
    NormalSummon(Selector),
    SetCard(Selector, Option<Zone>),
    FlipDown(Selector),
    ChangePosition(Selector, Option<BattlePosition>),
    TakeControl(Selector, Option<Duration>),
    Equip(Selector, Selector),
    /// The flag is `true` for "negate and destroy".
    Negate(bool),
    NegateEffects(Selector, Option<Duration>),
    Damage(PlayerWho, Expr),
    GainLp(Expr),
    PayLp(Expr),
    /// The flag is `true` when the change is negative.
    ModifyStat(StatName, Selector, bool, Expr, Option<Duration>),
    SetStat(StatName, Selector, Expr, Option<Duration>),
    ChangeLevel(Selector, Expr),
    ChangeAttribute(Selector, Attribute),
    ChangeRace(Selector, Race),
    ChangeName(Selector, String, Option<Duration>),
    SetScale(Selector, Expr),
    CreateToken(TokenSpec),
    Attach(Selector, Selector),
    Detach(u32, Selector),
    PlaceCounter(String, u32, Selector),
    RemoveCounter(String, u32, Selector),
    Mill(Expr, Option<DeckOwner>),
    Excavate(Expr, DeckOwner),
    Reveal(Selector),
    LookAt(Selector, Option<Zone>),
    ShuffleDeck(Option<DeckOwner>),
    Announce(AnnounceWhat, Option<String>),
    LinkTo(Selector, Selector),
    CoinFlip { heads: Vec<Action>, tails: Vec<Action> },
    DiceRoll(Vec<Action>),
    Grant(Selector, GrantAbility, Option<Duration>),
    If { condition: Condition, then: Vec<Action>, otherwise: Vec<Action> },
    ForEach { selector: Selector, zone: Zone, body: Vec<Action> },
    Choose(ChooseBlock),
    Delayed { until: PhaseName, body: Vec<Action> },
    AndIfYouDo(Vec<Action>),
    Then(Vec<Action>),
    Also(Vec<Action>),
    InstallWatcher { name: String, event: Trigger, duration: Duration, check: Vec<Action> },
    SwapControl(Selector, Selector),
    SwapStats(Selector),
}

#[derive(Debug, Clone, Copy, PartialEq, Eq, Structural)]
pub enum ReturnDest {
    Hand,
    Deck(Option<DeckPosition>),
    ExtraDeck,
    Owner,
}

#[derive(Debug, Clone, Copy, PartialEq, Eq, Structural)]
pub enum DeckPosition {
    Top,
    Bottom,
    Shuffle,
}

#[derive(Debug, Clone, Copy, PartialEq, Eq, Structural)]
pub enum StatName {
    Atk,
    Def,
}

#[derive(Debug, Clone, Copy, PartialEq, Eq, Structural)]
pub enum DeckOwner {
    Yours,
    Opponents,
}

#[derive(Debug, Clone, Copy, PartialEq, Eq, Structural)]
pub enum BattlePosition {
    Attack,
    Defense,
    FaceDownDefense,
}

// ── Grant abilities ──────────────────────────────────────────

#[derive(Debug, Clone, Copy, PartialEq, Eq, Structural)]
pub enum GrantAbility {
    CannotAttack,
    CannotAttackDirectly,
    CannotChangePosition,
    CannotBeDestroyed(Option<DestroyBy>),
    CannotBeTargeted(Option<TargetedBy>),
    CannotBeTributed,
    CannotBeUsedAsMaterial,
    CannotActivate(Option<ActivateWhat>),
    CannotNormalSummon,
    CannotSpecialSummon,
    UnaffectedBy(UnaffectedSource),
    Piercing,
    DirectAttack,
    DoubleAttack,
    TripleAttack,
    AttackAllMonsters,
    MustAttack,
    ImmuneToTargeting,
}

#[derive(Debug, Clone, Copy, PartialEq, Eq, Structural)]
pub enum TargetedBy {
    Spells,
    Traps,
    Monsters,
    Effects,
    Opponent,
}

#[derive(Debug, Clone, Copy, PartialEq, Eq, Structural)]
pub enum ActivateWhat {
    Effects,
    Spells,
    Traps,
}

#[derive(Debug, Clone, Copy, PartialEq, Eq, Structural)]
pub enum UnaffectedSource {
    Spells,
    Traps,
    Monsters,
    Effects,
    OpponentEffects,
}

// ── Duration ─────────────────────────────────────────────────

#[derive(Debug, Clone, Copy, PartialEq, Eq, Structural)]
pub enum Duration {
    ThisTurn,
    EndOfTurn,
    EndPhase,
    EndOfDamageStep,
    NextStandbyPhase,
    WhileOnField,
    WhileFaceUp,
    Permanently,
    NTurns(u32),
}

// ── Passive block ────────────────────────────────────────────

#[derive(Debug, Clone)]
pub struct Passive {
    pub name: String,
    pub scope: Option<Scope>,
    pub target: Option<Selector>,
    pub condition: Option<Condition>,
    pub modifiers: Vec<Modifier>,
    pub grants: Vec<GrantAbility>,
    pub negate_effects: bool,
    pub set_atk: Option<Expr>,
    pub set_def: Option<Expr>,
}

#[derive(Debug, Clone, Copy, PartialEq, Eq, Structural)]
pub enum Scope {
    Self_,
    Field,
}

#[derive(Debug, Clone)]
pub struct Modifier {
    pub stat: StatName,
    pub positive: bool,
    pub value: Expr,
}

// ── Restriction block ────────────────────────────────────────

#[derive(Debug, Clone)]
pub struct Restriction {
    pub name: Option<String>,
    pub apply_to: Option<PlayerWho>,
    pub target: Option<Selector>,
    pub abilities: Vec<GrantAbility>,
    pub duration: Option<Duration>,
    pub trigger: Option<Trigger>,
    pub condition: Option<Condition>,
}

// ── Replacement block ────────────────────────────────────────

#[derive(Debug, Clone)]
pub struct Replacement {
    pub name: Option<String>,
    pub instead_of: ReplaceableEvent,
    pub actions: Vec<Action>,
    pub condition: Option<Condition>,
}

#[derive(Debug, Clone, Copy, PartialEq, Eq, Structural)]
pub enum ReplaceableEvent {
    DestroyedByBattle,
    DestroyedByEffect,
    Destroyed,
    SentToGy,
    Banished,
    ReturnedToHand,
    ReturnedToDeck,
    LeavesField,
}

// ── Redirect block ───────────────────────────────────────────

/// A continuous leave-field redirect: cards that would move `from` one
/// location go `to` another instead, for the cards in `scope`.
#[derive(Debug, Clone)]
pub struct Redirect {
    pub name: Option<String>,
    pub scope: RedirectScope,
    pub from: Zone,
    pub to: Zone,
    pub filter: Option<Selector>,
}

#[derive(Debug, Clone, Copy, PartialEq, Eq, Structural)]
pub enum RedirectScope {
    Self_,
    Field,
    OpponentField,
    BothFields,
}

// ── Choose block ─────────────────────────────────────────────

#[derive(Debug)]
pub struct ChooseBlock {
    pub options: Vec<ChooseOption>,
}

#[derive(Debug)]
pub struct ChooseOption {
    pub label: String,
    pub target: Option<TargetDecl>,
    pub cost: Vec<CostAction>,
    pub trigger: Option<Trigger>,
    pub resolve: Vec<Action>,
}

// ── Token spec ───────────────────────────────────────────────

#[derive(Debug, Clone)]
pub struct TokenSpec {
    pub name: Option<String>,
    pub attribute: Option<Attribute>,
    pub race: Option<Race>,
    pub level: Option<u32>,
    pub atk: StatVal,
    pub def: StatVal,
    pub count: u32,
    pub position: Option<BattlePosition>,
    pub restriction: Option<Restriction>,
}

// ── Expressions ──────────────────────────────────────────────

#[derive(Debug)]
pub enum Expr {
    Literal(i32),
    Half,
    /// `self.atk`, `target.level`, ...
    StatRef(String, StatField),
    /// `tributed.level`, ...
    BindingRef(String, StatField),
    PlayerLp(LpOwner),
    Count(Box<Selector>),
    BinOp { left: Box<Expr>, op: BinOp, right: Box<Expr> },
}

#[derive(Debug, Clone, Copy, PartialEq, Eq, Structural)]
pub enum LpOwner {
    Your,
    Opponent,
    Controller,
}

#[derive(Debug, Clone, Copy, PartialEq, Eq, Structural)]
pub enum BinOp {
    Add,
    Sub,
    Mul,
    Div,
}

// ── Zones ────────────────────────────────────────────────────

#[derive(Debug, Clone, Copy, PartialEq, Eq, Structural)]
pub enum Zone {
    Hand,
    Field,
    Deck,
    ExtraDeck,
    ExtraDeckFaceUp,
    Gy,
    Banished,
    MonsterZone,
    SpellTrapZone,
    FieldZone,
    PendulumZone,
    ExtraMonsterZone,
    Overlay,
    Equipped,
    TopOfDeck,
    BottomOfDeck,
}

// ── Clone for the recursive node types ───────────────────────
//
// Expressions, selectors and predicates refer to each other, and action
// lists nest, so these copies are written out with a termination measure.

impl Clone for Expr {
    fn clone(&self) -> Self
        decreases self,
    {
        match self {
            Expr::Literal(n) => Expr::Literal(*n),
            Expr::Half => Expr::Half,
            Expr::StatRef(e, f) => Expr::StatRef(e.clone(), *f),
            Expr::BindingRef(e, f) => Expr::BindingRef(e.clone(), *f),
            Expr::PlayerLp(o) => Expr::PlayerLp(*o),
            Expr::Count(sel) => Expr::Count(Box::new((**sel).clone())),
            Expr::BinOp { left, op, right } => Expr::BinOp {
                left: Box::new((**left).clone()),
                op: *op,
                right: Box::new((**right).clone()),
            },
        }
    }
}

impl Clone for Selector {
    fn clone(&self) -> Self
        decreases self,
    {
        match self {
            Selector::SelfCard => Selector::SelfCard,
            Selector::Target => Selector::Target,
            Selector::EquippedCard => Selector::EquippedCard,
            Selector::NegatedCard => Selector::NegatedCard,
            Selector::Searched => Selector::Searched,
            Selector::LinkedCard => Selector::LinkedCard,
            Selector::Binding(name) => Selector::Binding(name.clone()),
            Selector::Counted { quantity, filter, controller, zone, position, where_clause } => {
                let w = match where_clause {
                    Some(p) => Some(p.clone()),
                    None => None,
                };
                Selector::Counted {
                    quantity: *quantity,
                    filter: filter.clone(),
                    controller: *controller,
                    zone: zone.clone(),
                    position: *position,
                    where_clause: w,
                }
            },
        }
    }
}

fn clone_pred_atom_list(v: &Vec<PredicateAtom>) -> (r: Vec<PredicateAtom>)
    ensures
        r@.len() == v@.len(),
    decreases v,
{
    let mut r: Vec<PredicateAtom> = Vec::new();
    let mut i: usize = 0;
    while i < v.len()
        invariant
            i <= v.len(),
            r@.len() == i,
        decreases v.len() - i,
    {
        let c = v[i].clone();
        r.push(c);
        i += 1;
    }
    r
}

impl Clone for Predicate {
    fn clone(&self) -> Self
        decreases self,
    {
        match self {
            Predicate::And(atoms) => Predicate::And(clone_pred_atom_list(atoms)),
            Predicate::Or(atoms) => Predicate::Or(clone_pred_atom_list(atoms)),
            Predicate::Single(a) => Predicate::Single(a.clone()),
        }
    }
}

impl Clone for PredicateAtom {
    fn clone(&self) -> Self
        decreases self,
    {
        match self {
            PredicateAtom::Not(inner) => PredicateAtom::Not(Box::new((**inner).clone())),
            PredicateAtom::StatCompare(f, op, e) => PredicateAtom::StatCompare(*f, *op, e.clone()),
            PredicateAtom::AttributeIs(a) => PredicateAtom::AttributeIs(*a),
            PredicateAtom::RaceIs(r) => PredicateAtom::RaceIs(*r),
            PredicateAtom::TypeIs(t) => PredicateAtom::TypeIs(*t),
            PredicateAtom::NameIs(s) => PredicateAtom::NameIs(s.clone()),
            PredicateAtom::ArchetypeIs(s) => PredicateAtom::ArchetypeIs(s.clone()),
            PredicateAtom::IsFaceUp => PredicateAtom::IsFaceUp,
            PredicateAtom::IsFaceDown => PredicateAtom::IsFaceDown,
            PredicateAtom::IsMonster => PredicateAtom::IsMonster,
            PredicateAtom::IsSpell => PredicateAtom::IsSpell,
            PredicateAtom::IsTrap => PredicateAtom::IsTrap,
            PredicateAtom::IsEffect => PredicateAtom::IsEffect,
            PredicateAtom::IsNormal => PredicateAtom::IsNormal,
            PredicateAtom::IsTuner => PredicateAtom::IsTuner,
            PredicateAtom::IsFusion => PredicateAtom::IsFusion,
            PredicateAtom::IsSynchro => PredicateAtom::IsSynchro,
            PredicateAtom::IsXyz => PredicateAtom::IsXyz,
            PredicateAtom::IsLink => PredicateAtom::IsLink,
            PredicateAtom::IsRitual => PredicateAtom::IsRitual,
            PredicateAtom::IsPendulum => PredicateAtom::IsPendulum,
            PredicateAtom::IsToken => PredicateAtom::IsToken,
            PredicateAtom::IsFlip => PredicateAtom::IsFlip,
        }
    }
}

impl Clone for ConditionAtom {
    fn clone(&self) -> Self
        decreases self,
    {
        match self {
            ConditionAtom::Not(inner) => ConditionAtom::Not(Box::new((**inner).clone())),
            ConditionAtom::SelfState(s) => ConditionAtom::SelfState(*s),
            ConditionAtom::Controls(w, sel) => ConditionAtom::Controls(*w, sel.clone()),
            ConditionAtom::NoCardsOnField(k, o) => ConditionAtom::NoCardsOnField(*k, *o),
            ConditionAtom::LpCompare(op, e) => ConditionAtom::LpCompare(*op, e.clone()),
            ConditionAtom::OpponentLpCompare(op, e) => ConditionAtom::OpponentLpCompare(*op, e.clone()),
            ConditionAtom::HandSize(op, e) => ConditionAtom::HandSize(*op, e.clone()),
            ConditionAtom::CardsInGy(op, e) => ConditionAtom::CardsInGy(*op, e.clone()),
            ConditionAtom::CardsInBanished(op, e) => ConditionAtom::CardsInBanished(*op, e.clone()),
            ConditionAtom::OnField => ConditionAtom::OnField,
            ConditionAtom::InGy => ConditionAtom::InGy,
            ConditionAtom::InHand => ConditionAtom::InHand,
            ConditionAtom::InBanished => ConditionAtom::InBanished,
            ConditionAtom::PhaseIs(p) => ConditionAtom::PhaseIs(*p),
            ConditionAtom::ChainIncludes(c) => ConditionAtom::ChainIncludes(c.clone()),
            ConditionAtom::HasCounter(n, op, e, t) => ConditionAtom::HasCounter(n.clone(), *op, e.clone(), *t),
            ConditionAtom::HasFlag(n) => ConditionAtom::HasFlag(n.clone()),
        }
    }
}

fn clone_action_list(v: &Vec<Action>) -> (r: Vec<Action>)
    ensures
        r@.len() == v@.len(),
    decreases v,
{
    let mut r: Vec<Action> = Vec::new();
    let mut i: usize = 0;
    while i < v.len()
        invariant
            i <= v.len(),
            r@.len() == i,
        decreases v.len() - i,
    {
        let c = v[i].clone();
        r.push(c);
        i += 1;
    }
    r
}

fn clone_option_list(v: &Vec<ChooseOption>) -> (r: Vec<ChooseOption>)
    ensures
        r@.len() == v@.len(),
    decreases v,
{
    let mut r: Vec<ChooseOption> = Vec::new();
    let mut i: usize = 0;
    while i < v.len()
        invariant
            i <= v.len(),
            r@.len() == i,
        decreases v.len() - i,
    {
        let c = v[i].clone();
        r.push(c);
        i += 1;
    }
    r
}

impl Clone for ChooseBlock {
    fn clone(&self) -> Self
        decreases self,
    {
        ChooseBlock { options: clone_option_list(&self.options) }
    }
}

impl Clone for ChooseOption {
    fn clone(&self) -> Self
        decreases self,
    {
        ChooseOption {
            label: self.label.clone(),
            target: self.target.clone(),
            cost: self.cost.clone(),
            trigger: self.trigger.clone(),
            resolve: clone_action_list(&self.resolve),
        }
    }
}

impl Clone for Action {
    fn clone(&self) -> Self
        decreases self,
    {
        match self {
            Action::Draw(a0) => Action::Draw(a0.clone()),
            Action::Discard(a0) => Action::Discard(a0.clone()),
            Action::Destroy(a0) => Action::Destroy(a0.clone()),
            Action::Banish(a0, a1, a2) => Action::Banish(a0.clone(), *a1, *a2),
            Action::Send(a0, a1) => Action::Send(a0.clone(), *a1),
            Action::Return(a0, a1) => Action::Return(a0.clone(), *a1),
            Action::Search(a0, a1) => Action::Search(a0.clone(), *a1),
            Action::AddToHand(a0, a1) => Action::AddToHand(a0.clone(), *a1),
            Action::SpecialSummon(a0, a1, a2) => Action::SpecialSummon(a0.clone(), *a1, *a2),
            Action::RitualSummon { target, materials, level_op, level_expr } => Action::RitualSummon { target: target.clone(), materials: materials.clone(), level_op: *level_op, level_expr: level_expr.clone() },
            Action::FusionSummon { target, materials } => Action::FusionSummon { target: target.clone(), materials: materials.clone() },
            Action::SynchroSummon { target, materials } => Action::SynchroSummon { target: target.clone(), materials: materials.clone() },
            Action::XyzSummon { target, materials } => Action::XyzSummon { target: target.clone(), materials: materials.clone() },
            Action::NormalSummon(a0) => Action::NormalSummon(a0.clone()),
            Action::SetCard(a0, a1) => Action::SetCard(a0.clone(), *a1),
            Action::FlipDown(a0) => Action::FlipDown(a0.clone()),
            Action::ChangePosition(a0, a1) => Action::ChangePosition(a0.clone(), *a1),
            Action::TakeControl(a0, a1) => Action::TakeControl(a0.clone(), *a1),
            Action::Equip(a0, a1) => Action::Equip(a0.clone(), a1.clone()),
            Action::Negate(a0) => Action::Negate(*a0),
            Action::NegateEffects(a0, a1) => Action::NegateEffects(a0.clone(), *a1),
            Action::Damage(a0, a1) => Action::Damage(*a0, a1.clone()),
            Action::GainLp(a0) => Action::GainLp(a0.clone()),
            Action::PayLp(a0) => Action::PayLp(a0.clone()),
            Action::ModifyStat(a0, a1, a2, a3, a4) => Action::ModifyStat(*a0, a1.clone(), *a2, a3.clone(), *a4),
            Action::SetStat(a0, a1, a2, a3) => Action::SetStat(*a0, a1.clone(), a2.clone(), *a3),
            Action::ChangeLevel(a0, a1) => Action::ChangeLevel(a0.clone(), a1.clone()),
            Action::ChangeAttribute(a0, a1) => Action::ChangeAttribute(a0.clone(), *a1),
            Action::ChangeRace(a0, a1) => Action::ChangeRace(a0.clone(), *a1),
            Action::ChangeName(a0, a1, a2) => Action::ChangeName(a0.clone(), a1.clone(), *a2),
            Action::SetScale(a0, a1) => Action::SetScale(a0.clone(), a1.clone()),
            Action::CreateToken(a0) => Action::CreateToken(a0.clone()),
            Action::Attach(a0, a1) => Action::Attach(a0.clone(), a1.clone()),
            Action::Detach(a0, a1) => Action::Detach(*a0, a1.clone()),
            Action::PlaceCounter(a0, a1, a2) => Action::PlaceCounter(a0.clone(), *a1, a2.clone()),
            Action::RemoveCounter(a0, a1, a2) => Action::RemoveCounter(a0.clone(), *a1, a2.clone()),
            Action::Mill(a0, a1) => Action::Mill(a0.clone(), *a1),
            Action::Excavate(a0, a1) => Action::Excavate(a0.clone(), *a1),
            Action::Reveal(a0) => Action::Reveal(a0.clone()),
            Action::LookAt(a0, a1) => Action::LookAt(a0.clone(), *a1),
            Action::ShuffleDeck(a0) => Action::ShuffleDeck(*a0),
            Action::Announce(a0, a1) => Action::Announce(*a0, a1.clone()),
            Action::LinkTo(a0, a1) => Action::LinkTo(a0.clone(), a1.clone()),
            Action::CoinFlip { heads, tails } => Action::CoinFlip { heads: clone_action_list(heads), tails: clone_action_list(tails) },
            Action::DiceRoll(a0) => Action::DiceRoll(clone_action_list(a0)),
            Action::Grant(a0, a1, a2) => Action::Grant(a0.clone(), *a1, *a2),
            Action::If { condition, then, otherwise } => Action::If { condition: condition.clone(), then: clone_action_list(then), otherwise: clone_action_list(otherwise) },
            Action::ForEach { selector, zone, body } => Action::ForEach { selector: selector.clone(), zone: *zone, body: clone_action_list(body) },
            Action::Choose(a0) => Action::Choose(a0.clone()),
            Action::Delayed { until, body } => Action::Delayed { until: *until, body: clone_action_list(body) },
            Action::AndIfYouDo(a0) => Action::AndIfYouDo(clone_action_list(a0)),
            Action::Then(a0) => Action::Then(clone_action_list(a0)),
            Action::Also(a0) => Action::Also(clone_action_list(a0)),
            Action::InstallWatcher { name, event, duration, check } => Action::InstallWatcher { name: name.clone(), event: event.clone(), duration: *duration, check: clone_action_list(check) },
            Action::SwapControl(a0, a1) => Action::SwapControl(a0.clone(), a1.clone()),
            Action::SwapStats(a0) => Action::SwapStats(a0.clone()),
        }
    }
}

} // verus!
