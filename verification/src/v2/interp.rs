// The DuelScript interpreter: evaluates expressions, predicates and
// conditions against a runtime, resolves selectors to card ids, and runs
// the callbacks of compiled effects.

use vstd::prelude::*;
use super::ast::{
    Action, BinOp, CardFilter, CardState, CompareOp, Condition, ConditionAtom, Controller,
    CostAction, DeckOwner, DeckPosition, Expr, FieldOwner, LpOwner, PlayerWho, PositionFilter,
    Predicate, PredicateAtom, Quantity, ReturnDest, Selector, StatField, StatName, StatVal, Trigger,
    Zone, ZoneFilter, BattlePosition,
};
use super::compiler::{
    CompiledCondition, CompiledCost, CompiledOperation, CompiledTarget, announce_kind,
    ast_duration_to_runtime, attribute_to_engine, card_type_to_bits, category_to_engine,
    duration_to_code, filter_kind_to_runtime, grant_to_code, phase_name_to_code, position_to_code,
    race_to_engine, stat_field_key, zone_to_location, spec_attribute_to_engine, spec_race_to_engine,
    spec_card_type_to_bits, spec_category_to_engine, spec_phase_name_to_code, spec_zone_to_location,
    spec_filter_kind_to_runtime, spec_stat_field_key, spec_grant_to_code, spec_duration_to_code, spec_announce_kind,
};
use super::constants as tm;
use super::runtime::{
    CardFilter as RuntimeCardFilter, DamageType, Duration as RuntimeDuration, DuelScriptRuntime, EngineCall, Stat, TokenSpec,
    option_texts,
};
use super::text::str_eq;

verus! {

// ── Integer helpers ──────────────────────────────────────────

/// `v` clamped to the range of `i32`.
pub open spec fn clamp(v: int) -> i32 {
    if v > i32::MAX { i32::MAX } else if v < i32::MIN { i32::MIN } else { v as i32 }
}

/// Division rounding toward zero, 0 when dividing by zero.
pub open spec fn trunc_div(a: int, b: int) -> int {
    if b == 0 {
        0
    } else {
        let q = (if a < 0 { -a } else { a }) / (if b < 0 { -b } else { b });
        if (a < 0) != (b < 0) { -q } else { q }
    }
}

fn div_i32(a: i32, b: i32) -> (r: i32)
    ensures
        r == clamp(trunc_div(a as int, b as int)),
{
    if b == 0 {
        return 0;
    }
    let ua: u64 = if a < 0 { (-(a as i64)) as u64 } else { a as u64 };
    let ub: u64 = if b < 0 { (-(b as i64)) as u64 } else { b as u64 };
    let q: u64 = ua / ub;
    assert(q <= ua) by (nonlinear_arith)
        requires
            ub >= 1,
            q == ua / ub,
    ;
    let v: i64 = if (a < 0) != (b < 0) { -(q as i64) } else { q as i64 };
    if v > i32::MAX as i64 {
        i32::MAX
    } else if v < i32::MIN as i64 {
        i32::MIN
    } else {
        v as i32
    }
}

fn clamp_i64(v: i64) -> (r: i32)
    ensures
        r == clamp(v as int),
{
    if v > i32::MAX as i64 {
        i32::MAX
    } else if v < i32::MIN as i64 {
        i32::MIN
    } else {
        v as i32
    }
}

/// The other player.
pub open spec fn opponent_of(player: u8) -> u8 {
    (1 - player) as u8
}

// ── Expressions ──────────────────────────────────────────────

/// The card bound under `name`, or the effect's own card when nothing is.
pub open spec fn spec_bound_or_self<R: DuelScriptRuntime>(rt: &R, name: Seq<char>) -> u32 {
    match rt.binding_card_of(name) {
        Some(id) => id,
        None => rt.effect_card(),
    }
}

/// The card a stat reference names: `self`, or the target / searched /
/// negated / equipped card recorded by earlier actions, or a named
/// binding; the effect's own card when nothing is recorded.
pub open spec fn spec_stat_ref_card<R: DuelScriptRuntime>(rt: &R, entity: Seq<char>) -> u32 {
    if entity == "self"@ {
        rt.effect_card()
    } else if entity == "target"@ {
        spec_bound_or_self(rt, "__target__"@)
    } else if entity == "searched"@ {
        spec_bound_or_self(rt, "__searched__"@)
    } else if entity == "negated"@ {
        spec_bound_or_self(rt, "__negated__"@)
    } else if entity == "equipped"@ {
        spec_bound_or_self(rt, "__equipped__"@)
    } else {
        spec_bound_or_self(rt, entity)
    }
}

fn bound_or_self<R: DuelScriptRuntime>(rt: &R, name: &str) -> (r: u32)
    ensures
        r == spec_bound_or_self(rt, name@),
{
    match rt.get_binding_card(name) {
        Some(id) => id,
        None => rt.effect_card_id(),
    }
}

fn stat_ref_card<R: DuelScriptRuntime>(rt: &R, entity: &str) -> (r: u32)
    ensures
        r == spec_stat_ref_card(rt, entity@),
{
    proof {
        reveal_strlit("self");
        reveal_strlit("target");
        reveal_strlit("searched");
        reveal_strlit("negated");
        reveal_strlit("equipped");
        reveal_strlit("__target__");
        reveal_strlit("__searched__");
        reveal_strlit("__negated__");
        reveal_strlit("__equipped__");
    }
    if str_eq(entity, "self") {
        rt.effect_card_id()
    } else if str_eq(entity, "target") {
        bound_or_self(rt, "__target__")
    } else if str_eq(entity, "searched") {
        bound_or_self(rt, "__searched__")
    } else if str_eq(entity, "negated") {
        bound_or_self(rt, "__negated__")
    } else if str_eq(entity, "equipped") {
        bound_or_self(rt, "__equipped__")
    } else {
        bound_or_self(rt, entity)
    }
}

/// The value of a stat field of a card; fields without a runtime stat
/// (link, scale) read as 0.
pub open spec fn spec_stat_field_to_value<R: DuelScriptRuntime>(rt: &R, field: StatField, card_id: u32) -> i32 {
    match field {
        StatField::Atk | StatField::BaseAtk | StatField::OriginalAtk => rt.stat_of(card_id, Stat::Atk),
        StatField::Def | StatField::BaseDef | StatField::OriginalDef => rt.stat_of(card_id, Stat::Def),
        StatField::Level => rt.stat_of(card_id, Stat::Level),
        StatField::Rank => rt.stat_of(card_id, Stat::Rank),
        _ => 0,
    }
}

pub fn stat_field_to_value<R: DuelScriptRuntime>(field: &StatField, card_id: u32, rt: &R) -> (r: i32)
    ensures
        r == spec_stat_field_to_value(rt, *field, card_id),
{
    match field {
        StatField::Atk | StatField::BaseAtk | StatField::OriginalAtk => rt.get_card_stat(card_id, &Stat::Atk),
        StatField::Def | StatField::BaseDef | StatField::OriginalDef => rt.get_card_stat(card_id, &Stat::Def),
        StatField::Level => rt.get_card_stat(card_id, &Stat::Level),
        StatField::Rank => rt.get_card_stat(card_id, &Stat::Rank),
        _ => 0,
    }
}

/// The value of an expression. Arithmetic saturates at the bounds of
/// `i32`; division rounds toward zero and gives 0 for a zero divisor.
pub open spec fn spec_eval_expr<R: DuelScriptRuntime>(rt: &R, expr: Expr) -> i32
    decreases expr,
{
    match expr {
        Expr::Literal(n) => n,
        Expr::Half => trunc_div(rt.lp_of(rt.effect_player_of()) as int, 2) as i32,
        Expr::StatRef(entity, field) => spec_stat_field_to_value(rt, field, spec_stat_ref_card(rt, entity@)),
        Expr::BindingRef(name, field) => rt.binding_field_of(name@, spec_stat_field_key(field)),
        Expr::PlayerLp(owner) => match owner {
            LpOwner::Your | LpOwner::Controller => rt.lp_of(rt.effect_player_of()),
            LpOwner::Opponent => rt.lp_of(opponent_of(rt.effect_player_of())),
        },
        Expr::Count(selector) => spec_count_selector(rt, *selector, rt.effect_player_of()) as i32,
        Expr::BinOp { left, op, right } => {
            let l = spec_eval_expr(rt, *left) as int;
            let r = spec_eval_expr(rt, *right) as int;
            match op {
                BinOp::Add => clamp(l + r),
                BinOp::Sub => clamp(l - r),
                BinOp::Mul => clamp(l * r),
                BinOp::Div => clamp(trunc_div(l, r)),
            }
        },
    }
}

pub fn eval_v2_expr<R: DuelScriptRuntime>(expr: &Expr, rt: &R) -> (r: i32)
    ensures
        r == spec_eval_expr(rt, *expr),
    decreases expr,
{
    match expr {
        Expr::Literal(n) => *n,
        Expr::Half => {
            let p = rt.effect_player();
            div_i32(rt.get_lp(p), 2)
        },
        Expr::StatRef(entity, field) => {
            let card_id = stat_ref_card(rt, entity.as_str());
            stat_field_to_value(field, card_id, rt)
        },
        Expr::BindingRef(name, field) => rt.get_binding_field(name.as_str(), stat_field_key(field)),
        Expr::PlayerLp(owner) => {
            let p = rt.effect_player();
            let player = match owner {
                LpOwner::Your | LpOwner::Controller => p,
                LpOwner::Opponent => 1 - p,
            };
            rt.get_lp(player)
        },
        Expr::Count(selector) => {
            let p = rt.effect_player();
            count_v2_selector(selector, rt, p) as i32
        },
        Expr::BinOp { left, op, right } => {
            let l = eval_v2_expr(left, rt);
            let r = eval_v2_expr(right, rt);
            match op {
                BinOp::Add => clamp_i64(l as i64 + r as i64),
                BinOp::Sub => clamp_i64(l as i64 - r as i64),
                BinOp::Mul => {
                    assert(-0x4000_0000_0000_0000 <= (l as i64) * (r as i64) <= 0x4000_0000_0000_0000) by (nonlinear_arith)
                        requires
                            i32::MIN <= l <= i32::MAX,
                            i32::MIN <= r <= i32::MAX,
                    ;
                    clamp_i64(l as i64 * r as i64)
                },
                BinOp::Div => div_i32(l, r),
            }
        },
    }
}

// ── Selector candidates ──────────────────────────────────────

/// The player a controller clause restricts to; `None` for both players.
pub open spec fn spec_ctrl_player(controller: Option<Controller>, player: u8) -> Option<u8> {
    match controller {
        Some(Controller::You) => Some(player),
        Some(Controller::Opponent) => Some(opponent_of(player)),
        _ => None,
    }
}

/// The cards in one location mask: of the given player, or of the acting
/// player followed by the opponent.
pub open spec fn spec_location_cards<R: DuelScriptRuntime>(rt: &R, location: u32, ctrl: Option<u8>, player: u8) -> Seq<u32> {
    match ctrl {
        Some(p) => rt.field_cards_of(p, location),
        None => rt.field_cards_of(player, location) + rt.field_cards_of(opponent_of(player), location),
    }
}

/// The cards of a list of zones, zone by zone.
pub open spec fn spec_zones_cards<R: DuelScriptRuntime>(rt: &R, zones: Seq<Zone>, ctrl: Option<u8>, player: u8) -> Seq<u32>
    decreases zones.len(),
{
    if zones.len() == 0 {
        Seq::empty()
    } else {
        spec_zones_cards(rt, zones.drop_last(), ctrl, player) + spec_location_cards(
            rt,
            spec_zone_to_location(zones.last()),
            ctrl,
            player,
        )
    }
}

/// The cards a zone clause collects (the field when there is none).
pub open spec fn spec_zone_candidates<R: DuelScriptRuntime>(rt: &R, zone: Option<ZoneFilter>, ctrl: Option<u8>, player: u8) -> Seq<u32> {
    match zone {
        Some(ZoneFilter::In(zones)) => spec_zones_cards(rt, zones@, ctrl, player),
        Some(ZoneFilter::From(zones)) => spec_zones_cards(rt, zones@, ctrl, player),
        _ => spec_location_cards(rt, tm::LOCATION_ONFIELD, ctrl, player),
    }
}

/// The runtime filter of a card filter: by name when it names a card.
pub open spec fn spec_ast_filter_to_runtime(f: CardFilter) -> RuntimeCardFilter {
    match f.name {
        Some(name) => RuntimeCardFilter::NamedCard(name),
        None => spec_filter_kind_to_runtime(f.kind),
    }
}

pub fn ast_filter_to_runtime(f: &CardFilter) -> (r: RuntimeCardFilter)
    ensures
        r == spec_ast_filter_to_runtime(*f),
{
    match &f.name {
        Some(name) => RuntimeCardFilter::NamedCard(name.clone()),
        None => filter_kind_to_runtime(&f.kind),
    }
}

/// The ids of `ids` that pass `filter`, in order.
pub open spec fn spec_keep_matching<R: DuelScriptRuntime>(rt: &R, ids: Seq<u32>, filter: RuntimeCardFilter) -> Seq<u32>
    decreases ids.len(),
{
    if ids.len() == 0 {
        Seq::empty()
    } else {
        let rest = spec_keep_matching(rt, ids.drop_last(), filter);
        if rt.matches_filter(ids.last(), filter) { rest.push(ids.last()) } else { rest }
    }
}

/// The ids of `ids` that pass a position clause (only face-up and
/// face-down are checked), in order.
pub open spec fn spec_keep_position<R: DuelScriptRuntime>(rt: &R, ids: Seq<u32>, position: Option<PositionFilter>) -> Seq<u32>
    decreases ids.len(),
{
    match position {
        Some(PositionFilter::FaceUp) | Some(PositionFilter::FaceDown) => if ids.len() == 0 {
            Seq::empty()
        } else {
            let rest = spec_keep_position(rt, ids.drop_last(), position);
            let keep = if position == Some(PositionFilter::FaceUp) {
                rt.face_up(ids.last())
            } else {
                rt.face_down(ids.last())
            };
            if keep { rest.push(ids.last()) } else { rest }
        },
        _ => ids,
    }
}

/// The candidates of a counted selector before its where clause.
pub open spec fn spec_counted_base<R: DuelScriptRuntime>(
    rt: &R,
    filter: CardFilter,
    controller: Option<Controller>,
    zone: Option<ZoneFilter>,
    position: Option<PositionFilter>,
    player: u8,
) -> Seq<u32> {
    spec_keep_position(
        rt,
        spec_keep_matching(
            rt,
            spec_zone_candidates(rt, zone, spec_ctrl_player(controller, player), player),
            spec_ast_filter_to_runtime(filter),
        ),
        position,
    )
}

/// How many cards a selector counts: 1 for the card itself, the
/// candidates of a counted selector (its where clause not applied), 0 for
/// anything else.
pub open spec fn spec_count_selector<R: DuelScriptRuntime>(rt: &R, sel: Selector, player: u8) -> usize {
    match sel {
        Selector::SelfCard => 1,
        Selector::Counted { filter, controller, zone, position, .. } => spec_counted_base(
            rt,
            filter,
            controller,
            zone,
            position,
            player,
        ).len() as usize,
        _ => 0,
    }
}

fn location_cards<R: DuelScriptRuntime>(rt: &R, cards: &mut Vec<u32>, location: u32, ctrl: Option<u8>, player: u8)
    requires
        player < 2,
        ctrl matches Some(p) ==> p < 2,
    ensures
        final(cards)@ == old(cards)@ + spec_location_cards(rt, location, ctrl, player),
{
    match ctrl {
        Some(p) => {
            let mut v = rt.get_field_cards(p, location);
            cards.append(&mut v);
        },
        None => {
            let mut v = rt.get_field_cards(player, location);
            cards.append(&mut v);
            let mut w = rt.get_field_cards(1 - player, location);
            cards.append(&mut w);
            proof {
                assert(final(cards)@ =~= old(cards)@ + spec_location_cards(rt, location, ctrl, player));
            }
        },
    }
}

fn zone_candidates<R: DuelScriptRuntime>(rt: &R, zone: &Option<ZoneFilter>, ctrl: Option<u8>, player: u8) -> (r: Vec<u32>)
    requires
        player < 2,
        ctrl matches Some(p) ==> p < 2,
    ensures
        r@ == spec_zone_candidates(rt, *zone, ctrl, player),
{
    let mut cards: Vec<u32> = Vec::new();
    match zone {
        Some(ZoneFilter::In(zones)) | Some(ZoneFilter::From(zones)) => {
            let mut i: usize = 0;
            while i < zones.len()
                invariant
                    i <= zones@.len(),
                    player < 2,
                    ctrl matches Some(p) ==> p < 2,
                    cards@ == spec_zones_cards(rt, zones@.take(i as int), ctrl, player),
                decreases zones.len() - i,
            {
                proof {
                    assert(zones@.take(i + 1).drop_last() =~= zones@.take(i as int));
                }
                let location = zone_to_location(&zones[i]);
                location_cards(rt, &mut cards, location, ctrl, player);
                i += 1;
            }
            proof {
                assert(zones@.take(zones@.len() as int) =~= zones@);
            }
        },
        _ => {
            location_cards(rt, &mut cards, tm::LOCATION_ONFIELD, ctrl, player);
            proof {
                assert(cards@ =~= spec_location_cards(rt, tm::LOCATION_ONFIELD, ctrl, player));
            }
        },
    }
    cards
}

fn keep_matching<R: DuelScriptRuntime>(rt: &R, ids: &Vec<u32>, filter: &RuntimeCardFilter) -> (r: Vec<u32>)
    ensures
        r@ == spec_keep_matching(rt, ids@, *filter),
{
    let mut out: Vec<u32> = Vec::new();
    let mut i: usize = 0;
    while i < ids.len()
        invariant
            i <= ids@.len(),
            out@ == spec_keep_matching(rt, ids@.take(i as int), *filter),
        decreases ids.len() - i,
    {
        proof {
            assert(ids@.take(i + 1).drop_last() =~= ids@.take(i as int));
        }
        if rt.card_matches_filter(ids[i], filter) {
            out.push(ids[i]);
        }
        i += 1;
    }
    proof {
        assert(ids@.take(ids@.len() as int) =~= ids@);
    }
    out
}

fn keep_position<R: DuelScriptRuntime>(rt: &R, ids: Vec<u32>, position: &Option<PositionFilter>) -> (r: Vec<u32>)
    ensures
        r@ == spec_keep_position(rt, ids@, *position),
{
    let face_up = match position {
        Some(PositionFilter::FaceUp) => true,
        Some(PositionFilter::FaceDown) => false,
        _ => {
            return ids;
        },
    };
    let mut out: Vec<u32> = Vec::new();
    let mut i: usize = 0;
    while i < ids.len()
        invariant
            i <= ids@.len(),
            *position == (if face_up { Some(PositionFilter::FaceUp) } else { Some(PositionFilter::FaceDown) }),
            out@ == spec_keep_position(rt, ids@.take(i as int), *position),
        decreases ids.len() - i,
    {
        proof {
            assert(ids@.take(i + 1).drop_last() =~= ids@.take(i as int));
        }
        let keep = if face_up { rt.is_face_up(ids[i]) } else { rt.is_face_down(ids[i]) };
        if keep {
            out.push(ids[i]);
        }
        i += 1;
    }
    proof {
        assert(ids@.take(ids@.len() as int) =~= ids@);
    }
    out
}

fn counted_base<R: DuelScriptRuntime>(
    rt: &R,
    filter: &CardFilter,
    controller: &Option<Controller>,
    zone: &Option<ZoneFilter>,
    position: &Option<PositionFilter>,
    player: u8,
) -> (r: Vec<u32>)
    requires
        player < 2,
    ensures
        r@ == spec_counted_base(rt, *filter, *controller, *zone, *position, player),
{
    let ctrl = match controller {
        Some(Controller::You) => Some(player),
        Some(Controller::Opponent) => Some(1 - player),
        _ => None,
    };
    let cards = zone_candidates(rt, zone, ctrl, player);
    let rt_filter = ast_filter_to_runtime(filter);
    let cards = keep_matching(rt, &cards, &rt_filter);
    keep_position(rt, cards, position)
}

/// Read-only count of a selector's candidates, used by `count (...)`
/// expressions.
pub fn count_v2_selector<R: DuelScriptRuntime>(sel: &Selector, rt: &R, player: u8) -> (r: usize)
    requires
        player < 2,
    ensures
        r == spec_count_selector(rt, *sel, player),
{
    match sel {
        Selector::SelfCard => 1,
        Selector::Counted { filter, controller, zone, position, .. } => {
            let cards = counted_base(rt, filter, controller, zone, position, player);
            cards.len()
        },
        _ => 0,
    }
}

// ── Predicates ───────────────────────────────────────────────

/// `actual op expected`.
pub open spec fn spec_compare(actual: int, op: CompareOp, expected: int) -> bool {
    match op {
        CompareOp::Gte => actual >= expected,
        CompareOp::Lte => actual <= expected,
        CompareOp::Eq => actual == expected,
        CompareOp::Neq => actual != expected,
        CompareOp::Gt => actual > expected,
        CompareOp::Lt => actual < expected,
    }
}

pub fn compare_i32(actual: i32, op: &CompareOp, expected: i32) -> (r: bool)
    ensures
        r == spec_compare(actual as int, *op, expected as int),
{
    match op {
        CompareOp::Gte => actual >= expected,
        CompareOp::Lte => actual <= expected,
        CompareOp::Eq => actual == expected,
        CompareOp::Neq => actual != expected,
        CompareOp::Gt => actual > expected,
        CompareOp::Lt => actual < expected,
    }
}

/// Whether the TYPE_* bits of a card include `mask`.
pub open spec fn type_has<R: DuelScriptRuntime>(rt: &R, card_id: u32, mask: u64) -> bool {
    rt.type_of(card_id) & mask != 0
}

/// Whether a card satisfies a predicate atom.
pub open spec fn spec_eval_predicate_atom<R: DuelScriptRuntime>(rt: &R, atom: PredicateAtom, card_id: u32) -> bool
    decreases atom,
{
    match atom {
        PredicateAtom::Not(inner) => !spec_eval_predicate_atom(rt, *inner, card_id),
        PredicateAtom::StatCompare(field, op, expr) => spec_compare(
            spec_stat_field_to_value(rt, field, card_id) as int,
            op,
            spec_eval_expr(rt, expr) as int,
        ),
        PredicateAtom::AttributeIs(attr) => rt.attribute_of(card_id) & (spec_attribute_to_engine(attr) as u64) != 0,
        PredicateAtom::RaceIs(race) => rt.race_of(card_id) & (spec_race_to_engine(race) as u64) != 0,
        PredicateAtom::TypeIs(ctype) => type_has(rt, card_id, spec_card_type_to_bits(ctype)),
        PredicateAtom::NameIs(name) => rt.name_of(card_id) == name@,
        PredicateAtom::ArchetypeIs(name) => rt.archetypes_of(card_id).contains(name@),
        PredicateAtom::IsMonster => type_has(rt, card_id, 0x1),
        PredicateAtom::IsSpell => type_has(rt, card_id, 0x2),
        PredicateAtom::IsTrap => type_has(rt, card_id, 0x4),
        PredicateAtom::IsFaceUp => rt.face_up(card_id),
        PredicateAtom::IsFaceDown => rt.face_down(card_id),
        PredicateAtom::IsEffect => type_has(rt, card_id, 0x20),
        PredicateAtom::IsNormal => type_has(rt, card_id, 0x10),
        PredicateAtom::IsTuner => type_has(rt, card_id, 0x1000),
        PredicateAtom::IsFusion => type_has(rt, card_id, 0x40),
        PredicateAtom::IsSynchro => type_has(rt, card_id, 0x2000),
        PredicateAtom::IsXyz => type_has(rt, card_id, 0x800000),
        PredicateAtom::IsLink => type_has(rt, card_id, 0x4000000),
        PredicateAtom::IsRitual => type_has(rt, card_id, 0x80),
        PredicateAtom::IsPendulum => type_has(rt, card_id, 0x1000000),
        PredicateAtom::IsToken => type_has(rt, card_id, 0x2000000),
        PredicateAtom::IsFlip => type_has(rt, card_id, 0x200),
    }
}

fn any_archetype(archetypes: &Vec<String>, name: &String) -> (r: bool)
    ensures
        r == exists|i: int| 0 <= i < archetypes@.len() && (#[trigger] archetypes@[i])@ == name@,
{
    let mut i: usize = 0;
    while i < archetypes.len()
        invariant
            i <= archetypes@.len(),
            forall|j: int| 0 <= j < i ==> (#[trigger] archetypes@[j])@ != name@,
        decreases archetypes.len() - i,
    {
        if archetypes[i] == *name {
            return true;
        }
        i += 1;
    }
    false
}

pub fn eval_predicate_atom<R: DuelScriptRuntime>(atom: &PredicateAtom, card_id: u32, rt: &R) -> (r: bool)
    ensures
        r == spec_eval_predicate_atom(rt, *atom, card_id),
    decreases atom,
{
    match atom {
        PredicateAtom::Not(inner) => !eval_predicate_atom(inner, card_id, rt),
        PredicateAtom::StatCompare(field, op, expr) => {
            let lhs = stat_field_to_value(field, card_id, rt);
            let rhs = eval_v2_expr(expr, rt);
            compare_i32(lhs, op, rhs)
        },
        PredicateAtom::AttributeIs(attr) => rt.get_card_attribute(card_id) & (attribute_to_engine(attr) as u64) != 0,
        PredicateAtom::RaceIs(race) => rt.get_card_race(card_id) & (race_to_engine(race) as u64) != 0,
        PredicateAtom::TypeIs(ctype) => rt.get_card_type(card_id) & card_type_to_bits(ctype) != 0,
        PredicateAtom::NameIs(name) => rt.get_card_name(card_id) == *name,
        PredicateAtom::ArchetypeIs(name) => {
            let archetypes = rt.get_card_archetypes(card_id);
            let found = any_archetype(&archetypes, name);
            proof {
                let a = rt.archetypes_of(card_id);
                if found {
                    let i = choose|i: int| 0 <= i < archetypes@.len() && (#[trigger] archetypes@[i])@ == name@;
                    assert(a[i] == name@);
                } else {
                    assert forall|i: int| 0 <= i < a.len() implies a[i] != name@ by {
                        assert(archetypes@[i]@ == a[i]);
                    }
                }
            }
            found
        },
        PredicateAtom::IsMonster => rt.get_card_type(card_id) & 0x1 != 0,
        PredicateAtom::IsSpell => rt.get_card_type(card_id) & 0x2 != 0,
        PredicateAtom::IsTrap => rt.get_card_type(card_id) & 0x4 != 0,
        PredicateAtom::IsFaceUp => rt.is_face_up(card_id),
        PredicateAtom::IsFaceDown => rt.is_face_down(card_id),
        PredicateAtom::IsEffect => rt.get_card_type(card_id) & 0x20 != 0,
        PredicateAtom::IsNormal => rt.get_card_type(card_id) & 0x10 != 0,
        PredicateAtom::IsTuner => rt.get_card_type(card_id) & 0x1000 != 0,
        PredicateAtom::IsFusion => rt.get_card_type(card_id) & 0x40 != 0,
        PredicateAtom::IsSynchro => rt.get_card_type(card_id) & 0x2000 != 0,
        PredicateAtom::IsXyz => rt.get_card_type(card_id) & 0x800000 != 0,
        PredicateAtom::IsLink => rt.get_card_type(card_id) & 0x4000000 != 0,
        PredicateAtom::IsRitual => rt.get_card_type(card_id) & 0x80 != 0,
        PredicateAtom::IsPendulum => rt.get_card_type(card_id) & 0x1000000 != 0,
        PredicateAtom::IsToken => rt.get_card_type(card_id) & 0x2000000 != 0,
        PredicateAtom::IsFlip => rt.get_card_type(card_id) & 0x200 != 0,
    }
}

/// Whether a card satisfies every atom of a list.
pub open spec fn spec_all_atoms<R: DuelScriptRuntime>(rt: &R, atoms: Seq<PredicateAtom>, card_id: u32) -> bool {
    forall|i: int| 0 <= i < atoms.len() ==> spec_eval_predicate_atom(rt, #[trigger] atoms[i], card_id)
}

/// Whether a card satisfies some atom of a list.
pub open spec fn spec_any_atom<R: DuelScriptRuntime>(rt: &R, atoms: Seq<PredicateAtom>, card_id: u32) -> bool {
    exists|i: int| 0 <= i < atoms.len() && spec_eval_predicate_atom(rt, #[trigger] atoms[i], card_id)
}

/// Whether a card satisfies a where clause.
pub open spec fn spec_eval_predicate<R: DuelScriptRuntime>(rt: &R, pred: Predicate, card_id: u32) -> bool {
    match pred {
        Predicate::Single(atom) => spec_eval_predicate_atom(rt, atom, card_id),
        Predicate::And(atoms) => spec_all_atoms(rt, atoms@, card_id),
        Predicate::Or(atoms) => spec_any_atom(rt, atoms@, card_id),
    }
}

#[verifier::loop_isolation(false)]
pub fn eval_predicate<R: DuelScriptRuntime>(pred: &Predicate, card_id: u32, rt: &R) -> (r: bool)
    ensures
        r == spec_eval_predicate(rt, *pred, card_id),
{
    match pred {
        Predicate::Single(atom) => eval_predicate_atom(atom, card_id, rt),
        Predicate::And(atoms) => {
            let mut i: usize = 0;
            while i < atoms.len()
                invariant
                    i <= atoms@.len(),
                    forall|j: int| 0 <= j < i ==> spec_eval_predicate_atom(rt, #[trigger] atoms@[j], card_id),
                decreases atoms.len() - i,
            {
                if !eval_predicate_atom(&atoms[i], card_id, rt) {
                    assert(!spec_eval_predicate_atom(rt, atoms@[i as int], card_id));
                    return false;
                }
                i += 1;
            }
            true
        },
        Predicate::Or(atoms) => {
            let mut i: usize = 0;
            while i < atoms.len()
                invariant
                    i <= atoms@.len(),
                    forall|j: int| 0 <= j < i ==> !spec_eval_predicate_atom(rt, #[trigger] atoms@[j], card_id),
                decreases atoms.len() - i,
            {
                if eval_predicate_atom(&atoms[i], card_id, rt) {
                    assert(spec_eval_predicate_atom(rt, atoms@[i as int], card_id));
                    return true;
                }
                i += 1;
            }
            false
        },
    }
}

// ── Conditions ───────────────────────────────────────────────

/// The player a `who` clause names, relative to the acting player
/// (owner, summoner and both read as the acting player).
pub open spec fn spec_player_who_to_idx(who: PlayerWho, player: u8) -> u8 {
    match who {
        PlayerWho::Opponent => opponent_of(player),
        _ => player,
    }
}

pub fn player_who_to_idx(who: &PlayerWho, player: u8) -> (r: u8)
    requires
        player < 2,
    ensures
        r == spec_player_who_to_idx(*who, player),
        r < 2,
{
    match who {
        PlayerWho::Opponent => 1 - player,
        _ => player,
    }
}

/// Whether a state condition of the effect's card holds.
pub open spec fn spec_card_state<R: DuelScriptRuntime>(rt: &R, state: CardState) -> bool {
    let id = rt.effect_card();
    match state {
        CardState::SummonedThisTurn => rt.summoned_this_turn(id),
        CardState::AttackedThisTurn => rt.attacked_this_turn(id),
        CardState::FlippedThisTurn => rt.flipped_this_turn(id),
        CardState::ActivatedThisTurn => rt.summoned_this_turn(id),
        CardState::FaceUp => rt.face_up(id),
        CardState::FaceDown => rt.face_down(id),
        CardState::InAttackPosition => rt.attack_position(id),
        CardState::InDefensePosition => rt.defense_position(id),
    }
}

/// Whether the chain holds one of the categories.
pub open spec fn spec_chain_includes<R: DuelScriptRuntime>(rt: &R, cats: Seq<super::ast::Category>) -> bool {
    exists|i: int| 0 <= i < cats.len() && rt.chain_has_category(spec_category_to_engine(#[trigger] cats[i]))
}

/// Whether a condition atom holds for the acting player.
pub open spec fn spec_eval_condition_atom<R: DuelScriptRuntime>(rt: &R, atom: ConditionAtom) -> bool
    decreases atom,
{
    let player = rt.effect_player_of();
    let opponent = opponent_of(player);
    match atom {
        ConditionAtom::Not(inner) => !spec_eval_condition_atom(rt, *inner),
        ConditionAtom::OnField | ConditionAtom::InGy | ConditionAtom::InHand | ConditionAtom::InBanished => true,
        ConditionAtom::LpCompare(op, expr) => spec_compare(rt.lp_of(player) as int, op, spec_eval_expr(rt, expr) as int),
        ConditionAtom::HandSize(op, expr) => spec_compare(
            rt.hand_count_of(player) as i32 as int,
            op,
            spec_eval_expr(rt, expr) as int,
        ),
        ConditionAtom::CardsInGy(op, expr) => spec_compare(
            rt.gy_count_of(player) as i32 as int,
            op,
            spec_eval_expr(rt, expr) as int,
        ),
        ConditionAtom::Controls(who, _) => rt.field_count_of(spec_player_who_to_idx(who, player), tm::LOCATION_MZONE) > 0,
        ConditionAtom::NoCardsOnField(_, owner) => match owner {
            FieldOwner::Your => rt.field_count_of(player, tm::LOCATION_MZONE) == 0,
            FieldOwner::Opponent => rt.field_count_of(opponent, tm::LOCATION_MZONE) == 0,
            FieldOwner::Either => rt.field_count_of(player, tm::LOCATION_MZONE) == 0 && rt.field_count_of(
                opponent,
                tm::LOCATION_MZONE,
            ) == 0,
        },
        ConditionAtom::OpponentLpCompare(op, expr) => spec_compare(
            rt.lp_of(opponent) as int,
            op,
            spec_eval_expr(rt, expr) as int,
        ),
        ConditionAtom::CardsInBanished(op, expr) => spec_compare(
            rt.banished_count_of(player) as i32 as int,
            op,
            spec_eval_expr(rt, expr) as int,
        ),
        ConditionAtom::SelfState(state) => spec_card_state(rt, state),
        ConditionAtom::PhaseIs(phase) => rt.current_phase() == spec_phase_name_to_code(phase),
        ConditionAtom::ChainIncludes(cats) => spec_chain_includes(rt, cats@),
        ConditionAtom::HasCounter(name, op, expr, _) => {
            let count = rt.counter_count_of(rt.effect_card(), name@) as i32;
            match (op, expr) {
                (Some(op), Some(expr)) => spec_compare(count as int, op, spec_eval_expr(rt, expr) as int),
                _ => count > 0,
            }
        },
        ConditionAtom::HasFlag(name) => rt.flag_set(rt.effect_card(), name@),
    }
}

fn chain_includes<R: DuelScriptRuntime>(rt: &R, cats: &Vec<super::ast::Category>) -> (r: bool)
    ensures
        r == spec_chain_includes(rt, cats@),
{
    let mut i: usize = 0;
    while i < cats.len()
        invariant
            i <= cats@.len(),
            forall|j: int| 0 <= j < i ==> !rt.chain_has_category(spec_category_to_engine(#[trigger] cats@[j])),
        decreases cats.len() - i,
    {
        if rt.chain_includes_category(category_to_engine(&cats[i])) {
            return true;
        }
        i += 1;
    }
    false
}

pub fn eval_v2_condition_atom<R: DuelScriptRuntime>(atom: &ConditionAtom, rt: &R) -> (r: bool)
    ensures
        r == spec_eval_condition_atom(rt, *atom),
    decreases atom,
{
    let player = rt.effect_player();
    let opponent = 1 - player;
    match atom {
        ConditionAtom::Not(inner) => !eval_v2_condition_atom(inner, rt),
        ConditionAtom::OnField => true,
        ConditionAtom::InGy | ConditionAtom::InHand | ConditionAtom::InBanished => true,
        ConditionAtom::LpCompare(op, expr) => compare_i32(rt.get_lp(player), op, eval_v2_expr(expr, rt)),
        ConditionAtom::HandSize(op, expr) => compare_i32(rt.get_hand_count(player) as i32, op, eval_v2_expr(expr, rt)),
        ConditionAtom::CardsInGy(op, expr) => compare_i32(rt.get_gy_count(player) as i32, op, eval_v2_expr(expr, rt)),
        ConditionAtom::Controls(who, _sel) => {
            let p = player_who_to_idx(who, player);
            rt.get_field_card_count(p, tm::LOCATION_MZONE) > 0
        },
        ConditionAtom::NoCardsOnField(_, owner) => match owner {
            FieldOwner::Your => rt.get_field_card_count(player, tm::LOCATION_MZONE) == 0,
            FieldOwner::Opponent => rt.get_field_card_count(opponent, tm::LOCATION_MZONE) == 0,
            FieldOwner::Either => rt.get_field_card_count(player, tm::LOCATION_MZONE) == 0
                && rt.get_field_card_count(opponent, tm::LOCATION_MZONE) == 0,
        },
        ConditionAtom::OpponentLpCompare(op, expr) => compare_i32(rt.get_lp(opponent), op, eval_v2_expr(expr, rt)),
        ConditionAtom::CardsInBanished(op, expr) => compare_i32(
            rt.get_banished_count(player) as i32,
            op,
            eval_v2_expr(expr, rt),
        ),
        ConditionAtom::SelfState(state) => {
            let card_id = rt.effect_card_id();
            match state {
                CardState::SummonedThisTurn => rt.was_summoned_this_turn(card_id),
                CardState::AttackedThisTurn => rt.has_attacked_this_turn(card_id),
                CardState::FlippedThisTurn => rt.was_flipped_this_turn(card_id),
                CardState::ActivatedThisTurn => rt.was_summoned_this_turn(card_id),
                CardState::FaceUp => rt.is_face_up(card_id),
                CardState::FaceDown => rt.is_face_down(card_id),
                CardState::InAttackPosition => rt.is_attack_position(card_id),
                CardState::InDefensePosition => rt.is_defense_position(card_id),
            }
        },
        ConditionAtom::PhaseIs(phase) => rt.get_current_phase() == phase_name_to_code(phase),
        ConditionAtom::ChainIncludes(cats) => chain_includes(rt, cats),
        ConditionAtom::HasCounter(name, op, expr, _target) => {
            let card_id = rt.effect_card_id();
            let count = rt.get_counter_count(card_id, name.as_str()) as i32;
            match (op, expr) {
                (Some(op), Some(expr)) => compare_i32(count, op, eval_v2_expr(expr, rt)),
                _ => count > 0,
            }
        },
        ConditionAtom::HasFlag(name) => {
            let card_id = rt.effect_card_id();
            rt.has_flag(card_id, name.as_str())
        },
    }
}

/// Whether a condition holds: one atom, all of a list, or one of a list.
pub open spec fn spec_eval_condition<R: DuelScriptRuntime>(rt: &R, cond: Condition) -> bool {
    match cond {
        Condition::Single(atom) => spec_eval_condition_atom(rt, atom),
        Condition::And(atoms) => forall|i: int|
            0 <= i < atoms@.len() ==> spec_eval_condition_atom(rt, #[trigger] atoms@[i]),
        Condition::Or(atoms) => exists|i: int|
            0 <= i < atoms@.len() && spec_eval_condition_atom(rt, #[trigger] atoms@[i]),
    }
}

#[verifier::loop_isolation(false)]
pub fn eval_v2_condition<R: DuelScriptRuntime>(cond: &Condition, rt: &R) -> (r: bool)
    ensures
        r == spec_eval_condition(rt, *cond),
{
    match cond {
        Condition::Single(atom) => eval_v2_condition_atom(atom, rt),
        Condition::And(atoms) => {
            let mut i: usize = 0;
            while i < atoms.len()
                invariant
                    i <= atoms@.len(),
                    forall|j: int| 0 <= j < i ==> spec_eval_condition_atom(rt, #[trigger] atoms@[j]),
                decreases atoms.len() - i,
            {
                if !eval_v2_condition_atom(&atoms[i], rt) {
                    assert(!spec_eval_condition_atom(rt, atoms@[i as int]));
                    return false;
                }
                i += 1;
            }
            true
        },
        Condition::Or(atoms) => {
            let mut i: usize = 0;
            while i < atoms.len()
                invariant
                    i <= atoms@.len(),
                    forall|j: int| 0 <= j < i ==> !spec_eval_condition_atom(rt, #[trigger] atoms@[j]),
                decreases atoms.len() - i,
            {
                if eval_v2_condition_atom(&atoms[i], rt) {
                    assert(spec_eval_condition_atom(rt, atoms@[i as int]));
                    return true;
                }
                i += 1;
            }
            false
        },
    }
}

/// Whether an activated effect's condition callback passes: its condition
/// holds, and an `opponent_activates` trigger with categories sees one of
/// them on the chain link.
pub open spec fn spec_effect_condition<R: DuelScriptRuntime>(rt: &R, effect: super::ast::Effect) -> bool {
    &&& match effect.condition {
        Some(c) => spec_eval_condition(rt, c),
        None => true,
    }
    &&& match effect.trigger {
        Some(Trigger::OpponentActivates(cats)) => cats@.len() == 0 || exists|i: int|
            0 <= i < cats@.len() && rt.event_categories_of() & spec_category_to_engine(#[trigger] cats@[i]) != 0,
        _ => true,
    }
}

/// What a condition callback answers.
pub open spec fn spec_condition_callback<R: DuelScriptRuntime>(rt: &R, cond: CompiledCondition) -> bool {
    match cond {
        CompiledCondition::Check(c) => spec_eval_condition(rt, *c),
        CompiledCondition::Effect(e) => spec_effect_condition(rt, *e),
    }
}

impl<'a> CompiledCondition<'a> {
    /// Evaluate the condition against the runtime.
    #[verifier::loop_isolation(false)]
    pub fn eval<R: DuelScriptRuntime>(&self, rt: &R) -> (r: bool)
        ensures
            r == spec_condition_callback(rt, *self),
    {
        match self {
            CompiledCondition::Check(c) => eval_v2_condition(c, rt),
            CompiledCondition::Effect(effect) => {
                match &effect.condition {
                    Some(c) => {
                        if !eval_v2_condition(c, rt) {
                            return false;
                        }
                    },
                    None => {},
                }
                match &effect.trigger {
                    Some(Trigger::OpponentActivates(cats)) => {
                        if cats.len() > 0 {
                            let event_cats = rt.event_categories();
                            let mut i: usize = 0;
                            while i < cats.len()
                                invariant
                                    i <= cats@.len(),
                                    event_cats == rt.event_categories_of(),
                                    forall|j: int|
                                        0 <= j < i ==> event_cats & spec_category_to_engine(#[trigger] cats@[j]) == 0,
                                decreases cats.len() - i,
                            {
                                if event_cats & category_to_engine(&cats[i]) != 0 {
                                    assert(event_cats & spec_category_to_engine(cats@[i as int]) != 0);
                                    return true;
                                }
                                i += 1;
                            }
                            return false;
                        }
                    },
                    _ => {},
                }
                true
            },
        }
    }
}

// ── Selector resolution ──────────────────────────────────────

/// The ids of `ids` that satisfy an optional where clause, in order.
pub open spec fn spec_keep_where<R: DuelScriptRuntime>(rt: &R, ids: Seq<u32>, pred: Option<Predicate>) -> Seq<u32>
    decreases ids.len(),
{
    match pred {
        None => ids,
        Some(p) => if ids.len() == 0 {
            Seq::empty()
        } else {
            let rest = spec_keep_where(rt, ids.drop_last(), pred);
            if spec_eval_predicate(rt, p, ids.last()) { rest.push(ids.last()) } else { rest }
        },
    }
}

/// The card bound under `name`, as a list of at most one id.
pub open spec fn spec_binding_list<R: DuelScriptRuntime>(rt: &R, name: Seq<char>) -> Seq<u32> {
    match rt.binding_card_of(name) {
        Some(id) => seq![id],
        None => Seq::empty(),
    }
}

/// The cards a selector designates before its quantity is applied.
pub open spec fn spec_selector_candidates<R: DuelScriptRuntime>(rt: &R, sel: Selector, player: u8) -> Seq<u32> {
    match sel {
        Selector::SelfCard => seq![rt.effect_card()],
        Selector::Counted { filter, controller, zone, position, where_clause, .. } => spec_keep_where(
            rt,
            spec_counted_base(rt, filter, controller, zone, position, player),
            where_clause,
        ),
        Selector::Target => spec_binding_list(rt, "__target__"@),
        Selector::NegatedCard => spec_binding_list(rt, "__negated__"@),
        Selector::Searched => spec_binding_list(rt, "__searched__"@),
        Selector::Binding(name) => spec_binding_list(rt, name@),
        Selector::EquippedCard => spec_binding_list(rt, "__equipped__"@),
        Selector::LinkedCard => spec_binding_list(rt, "__linked__"@),
    }
}

/// The number of cards a selector asks for, when it limits it.
pub open spec fn spec_quantity_limit(sel: Selector) -> Option<u32> {
    match sel {
        Selector::Counted { quantity, .. } => match quantity {
            Quantity::Exact(n) | Quantity::AtLeast(n) => Some(n),
            Quantity::All => None,
        },
        _ => None,
    }
}

/// The engine log after resolving a selector: one more selection call,
/// among its candidates, when it needs the runtime to choose.
pub open spec fn spec_resolve_log<R: DuelScriptRuntime>(rt: &R, sel: Selector, player: u8) -> Seq<EngineCall> {
    match spec_quantity_limit(sel) {
        Some(n) => if spec_selector_candidates(rt, sel, player).len() > n {
            rt.calls_of().push(
                EngineCall::SelectCards(player, spec_selector_candidates(rt, sel, player), n as usize, n as usize),
            )
        } else {
            rt.calls_of()
        },
        None => rt.calls_of(),
    }
}

/// What resolving a selector gives: all its candidates when they are no
/// more than it asks for, else the runtime's selection of exactly as many
/// among the candidates.
pub open spec fn spec_resolved<R: DuelScriptRuntime>(rt: &R, sel: Selector, player: u8, r: Seq<u32>) -> bool {
    let cands = spec_selector_candidates(rt, sel, player);
    match spec_quantity_limit(sel) {
        Some(n) => if cands.len() <= n {
            r == cands
        } else {
            r == rt.selection_of(player, cands, n as usize, n as usize) && r.len() == n && forall|i: int|
                0 <= i < r.len() ==> cands.contains(#[trigger] r[i])
        },
        None => r == cands,
    }
}

/// Whether a selector needs the runtime to choose among its candidates.
pub open spec fn spec_needs_selection<R: DuelScriptRuntime>(rt: &R, sel: Selector, player: u8) -> bool {
    match spec_quantity_limit(sel) {
        Some(n) => spec_selector_candidates(rt, sel, player).len() > n,
        None => false,
    }
}

fn keep_where<R: DuelScriptRuntime>(rt: &R, ids: Vec<u32>, pred: &Option<Predicate>) -> (r: Vec<u32>)
    ensures
        r@ == spec_keep_where(rt, ids@, *pred),
{
    match pred {
        None => ids,
        Some(p) => {
            let mut out: Vec<u32> = Vec::new();
            let mut i: usize = 0;
            while i < ids.len()
                invariant
                    i <= ids@.len(),
                    *pred == Some(*p),
                    out@ == spec_keep_where(rt, ids@.take(i as int), *pred),
                decreases ids.len() - i,
            {
                proof {
                    assert(ids@.take(i + 1).drop_last() =~= ids@.take(i as int));
                }
                if eval_predicate(p, ids[i], rt) {
                    out.push(ids[i]);
                }
                i += 1;
            }
            proof {
                assert(ids@.take(ids@.len() as int) =~= ids@);
            }
            out
        },
    }
}

fn binding_list<R: DuelScriptRuntime>(rt: &R, name: &str) -> (r: Vec<u32>)
    ensures
        r@ == spec_binding_list(rt, name@),
{
    let mut v: Vec<u32> = Vec::new();
    match rt.get_binding_card(name) {
        Some(id) => {
            v.push(id);
            proof {
                assert(v@ =~= seq![id]);
            }
        },
        None => {},
    }
    v
}

fn resolve_counted<R: DuelScriptRuntime>(
    rt: &mut R,
    quantity: Quantity,
    filter: &CardFilter,
    controller: &Option<Controller>,
    zone: &Option<ZoneFilter>,
    position: &Option<PositionFilter>,
    where_clause: &Option<Predicate>,
    player: u8,
) -> (r: Vec<u32>)
    requires
        player < 2,
    ensures
        ({
            let cands = spec_keep_where(
                &*old(rt),
                spec_counted_base(&*old(rt), *filter, *controller, *zone, *position, player),
                *where_clause,
            );
            match quantity {
                Quantity::Exact(n) | Quantity::AtLeast(n) => if cands.len() <= n {
                    r@ == cands && *final(rt) == *old(rt)
                } else {
                    &&& r@ == old(rt).selection_of(player, cands, n as usize, n as usize)
                    &&& r@.len() == n
                    &&& forall|i: int| 0 <= i < r@.len() ==> cands.contains(#[trigger] r@[i])
                    &&& final(rt).calls_of() == old(rt).calls_of().push(
                        EngineCall::SelectCards(player, cands, n as usize, n as usize),
                    )
                },
                Quantity::All => r@ == cands && *final(rt) == *old(rt),
            }
        }),
        log_extends(&*old(rt), &*final(rt)),
{
    let cards = counted_base(&*rt, filter, controller, zone, position, player);
    let cards = keep_where(&*rt, cards, where_clause);
    match quantity {
        Quantity::All => {
            proof {
                lemma_log_same(&*old(rt), &*rt);
            }
            cards
        },
        Quantity::Exact(n) | Quantity::AtLeast(n) => {
            let n = n as usize;
            if cards.len() <= n {
                proof {
                    lemma_log_same(&*old(rt), &*rt);
                }
                cards
            } else {
                let r = rt.select_cards(player, cards.as_slice(), n, n);
                proof {
                    let x = EngineCall::SelectCards(player, cards@, n, n);
                    assert(rt.calls_of() =~= old(rt).calls_of() + seq![x]);
                    lemma_log_append(&*old(rt), &*rt, seq![x]);
                }
                r
            }
        },
    }
}

/// Resolve a selector to card ids: counted selectors collect their
/// candidates (zone, controller, filter, position, where clause) and let
/// the runtime pick as many as they ask for; the other selectors read back
/// what earlier actions recorded.
pub fn resolve_v2_selector<R: DuelScriptRuntime>(sel: &Selector, rt: &mut R, player: u8) -> (r: Vec<u32>)
    requires
        player < 2,
    ensures
        spec_resolved(&*old(rt), *sel, player, r@),
        !spec_needs_selection(&*old(rt), *sel, player) ==> *final(rt) == *old(rt),
        final(rt).calls_of() == spec_resolve_log(&*old(rt), *sel, player),
{
    proof {
        reveal_strlit("__target__");
        reveal_strlit("__negated__");
        reveal_strlit("__searched__");
        reveal_strlit("__equipped__");
        reveal_strlit("__linked__");
    }
    match sel {
        Selector::SelfCard => {
            let mut v: Vec<u32> = Vec::new();
            v.push(rt.effect_card_id());
            proof {
                assert(v@ =~= seq![old(rt).effect_card()]);
            }
            v
        },
        Selector::Counted { quantity, filter, controller, zone, position, where_clause } => resolve_counted(
            rt,
            *quantity,
            filter,
            controller,
            zone,
            position,
            where_clause,
            player,
        ),
        Selector::Target => binding_list(&*rt, "__target__"),
        Selector::NegatedCard => binding_list(&*rt, "__negated__"),
        Selector::Searched => binding_list(&*rt, "__searched__"),
        Selector::Binding(name) => binding_list(&*rt, name.as_str()),
        Selector::EquippedCard => binding_list(&*rt, "__equipped__"),
        Selector::LinkedCard => binding_list(&*rt, "__linked__"),
    }
}

// ── Costs ────────────────────────────────────────────────────

/// Whether the costs can be paid (the check mode of a cost callback): LP
/// costs need enough LP; the first discard or tribute cost decides by
/// whether the hand or the monster zone holds a card; any other cost
/// passes, and so ends the check.
pub open spec fn spec_cost_check<R: DuelScriptRuntime>(rt: &R, costs: Seq<CostAction>, player: u8) -> bool
    decreases costs.len(),
{
    if costs.len() == 0 {
        true
    } else {
        match costs[0] {
            CostAction::PayLp(expr) => if rt.lp_of(player) < spec_eval_expr(rt, expr) {
                false
            } else {
                spec_cost_check(rt, costs.drop_first(), player)
            },
            CostAction::Discard(_, _) => rt.hand_count_of(player) > 0,
            CostAction::Tribute(_, _) => rt.field_count_of(player, tm::LOCATION_MZONE) > 0,
            CostAction::NoCost => spec_cost_check(rt, costs.drop_first(), player),
            _ => true,
        }
    }
}

/// A selection of one card among `cands` by `player`, then `then(picked)`,
/// when there is a candidate; nothing otherwise.
pub open spec fn pick_one_then(a: Seq<EngineCall>, player: u8, cands: Seq<u32>, picked: Seq<u32>, then: Seq<EngineCall>) -> Seq<EngineCall> {
    if cands.len() > 0 {
        a.push(EngineCall::SelectCards(player, cands, 1, 1)) + then
    } else {
        a
    }
}

/// What paying one cost asks of the engine, from state `a` to state `b`;
/// `player` activated the effect. LP costs are paid as cost damage; a
/// discard, tribute, banish or send lets the acting player pick one card
/// among the candidates, moves it and binds it under the cost's name; a
/// detach detaches from the effect's card; a counter is removed from the
/// first monster of the acting player, or else from the effect's card; a
/// reveal shows the acting player's hand; an announcement asks the acting
/// player and binds the answer under the cost's name.
pub open spec fn spec_cost_log<R: DuelScriptRuntime>(a: &R, b: &R, cost: CostAction, player: u8) -> bool {
    let p = a.effect_player_of();
    let field = a.field_cards_of(p, tm::LOCATION_HAND) + a.field_cards_of(p, tm::LOCATION_MZONE);
    match cost {
        CostAction::PayLp(expr) => b.calls_of() == a.calls_of().push(
            EngineCall::Damage(player, spec_eval_expr(a, expr), DamageType::Cost),
        ),
        CostAction::Discard(_, binding) => exists|picked: Seq<u32>|
            b.calls_of() == pick_one_then(
                a.calls_of(),
                player,
                a.field_cards_of(player, tm::LOCATION_HAND),
                picked,
                discard_cost_calls(picked, binding),
            ),
        CostAction::Tribute(_, binding) => exists|picked: Seq<u32>|
            b.calls_of() == pick_one_then(
                a.calls_of(),
                player,
                a.field_cards_of(player, tm::LOCATION_MZONE),
                picked,
                seq![EngineCall::Tribute(picked)] + bind_calls(binding),
            ),
        CostAction::Detach(count, _) => b.calls_of() == a.calls_of().push(
            EngineCall::DetachMaterial(a.effect_card(), count),
        ),
        CostAction::Banish(_, _, binding) => exists|picked: Seq<u32>|
            b.calls_of() == pick_one_then(
                a.calls_of(),
                p,
                field,
                picked,
                seq![EngineCall::Banish(picked)] + bind_calls(binding),
            ),
        CostAction::Send(_, zone, binding) => exists|picked: Seq<u32>|
            b.calls_of() == pick_one_then(
                a.calls_of(),
                p,
                field,
                picked,
                send_cost_calls(zone, picked) + bind_calls(binding),
            ),
        CostAction::RemoveCounter(name, count, _) => b.calls_of() == a.calls_of().push(
            EngineCall::RemoveCounter(
                if a.field_cards_of(p, tm::LOCATION_MZONE).len() > 0 {
                    a.field_cards_of(p, tm::LOCATION_MZONE)[0]
                } else {
                    a.effect_card()
                },
                name@,
                count,
            ),
        ),
        CostAction::Reveal(_) => b.calls_of() == a.calls_of().push(
            EngineCall::RevealCards(a.field_cards_of(p, tm::LOCATION_HAND)),
        ),
        CostAction::Announce(what, binding) => exists|token: u32|
            b.calls_of() == a.calls_of() + #[trigger] announce_cost_calls(p, spec_announce_kind(what), binding, token),
        CostAction::NoCost => b.calls_of() == a.calls_of(),
    }
}

/// An announcement by `p`, then the binding of what was announced under
/// the cost's name, if it names one.
pub open spec fn announce_cost_calls(p: u8, kind: u8, binding: Option<String>, token: u32) -> Seq<EngineCall> {
    seq![EngineCall::Announce(p, kind, 0)] + match binding {
        Some(name) => seq![EngineCall::SetBinding(name@, token)],
        None => Seq::empty(),
    }
}

/// The binding of the last selection under a name, when the cost names one.
pub open spec fn bind_calls(binding: Option<String>) -> Seq<EngineCall> {
    match binding {
        Some(name) => seq![EngineCall::BindLastSelection(name@)],
        None => Seq::empty(),
    }
}

/// A discard cost's calls after the pick: the discard and the binding,
/// when a card was picked.
pub open spec fn discard_cost_calls(picked: Seq<u32>, binding: Option<String>) -> Seq<EngineCall> {
    if picked.len() > 0 {
        seq![EngineCall::Discard(picked)] + bind_calls(binding)
    } else {
        Seq::empty()
    }
}

/// The move that ends a send cost: to the graveyard, or else to the top
/// of the deck.
pub open spec fn send_cost_calls(zone: Zone, picked: Seq<u32>) -> Seq<EngineCall> {
    if spec_zone_to_location(zone) == tm::LOCATION_GRAVE {
        seq![EngineCall::SendToGrave(picked)]
    } else {
        seq![EngineCall::SendToDeck(picked, true)]
    }
}

/// Paying a list of costs one after the other.
pub open spec fn spec_costs_log<R: DuelScriptRuntime>(a: &R, b: &R, costs: Seq<CostAction>, player: u8) -> bool {
    exists|states: Seq<R>| costs_run(a, b, costs, player, states)
}

/// `states` are the runtime states before each cost and after the last.
pub open spec fn costs_run<R: DuelScriptRuntime>(a: &R, b: &R, costs: Seq<CostAction>, player: u8, states: Seq<R>) -> bool {
    &&& states.len() == costs.len() + 1
    &&& states[0] == *a
    &&& states[costs.len() as int] == *b
    &&& forall|k: int| 0 <= k < costs.len() ==> spec_cost_log(&states[k], &states[k + 1], #[trigger] costs[k], player)
}

fn bind_if<R: DuelScriptRuntime>(rt: &mut R, binding: &Option<String>)
    ensures
        final(rt).calls_of() == old(rt).calls_of() + bind_calls(*binding),
{
    proof {
        match binding {
            Some(name) => {},
            None => {
                assert(old(rt).calls_of() + bind_calls(*binding) =~= old(rt).calls_of());
            },
        }
    }
    match binding {
        Some(name) => rt.bind_last_selection(name.as_str()),
        None => {},
    }
}

fn hand_and_monsters<R: DuelScriptRuntime>(rt: &R, player: u8) -> (r: Vec<u32>)
    requires
        player < 2,
    ensures
        r@ == rt.field_cards_of(player, tm::LOCATION_HAND) + rt.field_cards_of(player, tm::LOCATION_MZONE),
{
    let mut candidates = rt.get_field_cards(player, tm::LOCATION_HAND);
    let mut more = rt.get_field_cards(player, tm::LOCATION_MZONE);
    candidates.append(&mut more);
    candidates
}

/// Check or pay a list of costs.
pub fn run_costs<R: DuelScriptRuntime>(costs: &Vec<CostAction>, rt: &mut R, check_only: bool) -> (r: bool)
    ensures
        check_only ==> r == spec_cost_check(&*old(rt), costs@, old(rt).effect_player_of()),
        check_only ==> *final(rt) == *old(rt),
        !check_only ==> r,
        !check_only ==> spec_costs_log(&*old(rt), &*final(rt), costs@, old(rt).effect_player_of()),
{
    let player = rt.effect_player();
    let mut i: usize = 0;
    proof {
        assert(costs@.skip(0) =~= costs@);
    }
    let ghost mut states: Seq<R> = seq![*rt];
    while i < costs.len()
        invariant
            i <= costs@.len(),
            player < 2,
            player == old(rt).effect_player_of(),
            states.len() == i + 1,
            states[0] == *old(rt),
            states[i as int] == *rt,
            !check_only ==> forall|k: int|
                0 <= k < i ==> spec_cost_log(&states[k], &states[k + 1], #[trigger] costs@[k], player),
            check_only ==> *rt == *old(rt),
            check_only ==> player == old(rt).effect_player_of(),
            check_only ==> spec_cost_check(&*old(rt), costs@, player) == spec_cost_check(
                &*old(rt),
                costs@.skip(i as int),
                player,
            ),
        decreases costs.len() - i,
    {
        proof {
            assert(costs@.skip(i as int).drop_first() =~= costs@.skip(i + 1));
            assert(costs@.skip(i as int)[0] == costs@[i as int]);
        }
        let ghost before = *rt;
        match &costs[i] {
            CostAction::PayLp(expr) => {
                let amount = eval_v2_expr(expr, &*rt);
                if check_only {
                    if rt.get_lp(player) < amount {
                        return false;
                    }
                } else {
                    rt.damage(player, amount, DamageType::Cost);
                }
                proof {
                    if !check_only {
                        assert(spec_cost_log(&before, &*rt, costs@[i as int], player));
                    }
                }
            },
            CostAction::Discard(_sel, binding) => {
                if check_only {
                    return rt.get_hand_count(player) > 0;
                }
                let hand = rt.get_field_cards(player, tm::LOCATION_HAND);
                if hand.len() > 0 {
                    let selected = rt.select_cards(player, hand.as_slice(), 1, 1);
                    if selected.len() > 0 {
                        rt.discard(selected.as_slice());
                        bind_if(rt, binding);
                    }
                    proof {
                        let t = discard_cost_calls(selected@, *binding);
                        assert(rt.calls_of() =~= pick_one_then(
                            before.calls_of(),
                            player,
                            before.field_cards_of(player, tm::LOCATION_HAND),
                            selected@,
                            t,
                        ));
                    }
                } else {
                    proof {
                        let e: Seq<u32> = Seq::empty();
                        let t = discard_cost_calls(e, *binding);
                        assert(rt.calls_of() =~= pick_one_then(
                            before.calls_of(),
                            player,
                            before.field_cards_of(player, tm::LOCATION_HAND),
                            e,
                            t,
                        ));
                    }
                }
            },
            CostAction::Tribute(_sel, binding) => {
                if check_only {
                    return rt.get_field_card_count(player, tm::LOCATION_MZONE) > 0;
                }
                let monsters = rt.get_field_cards(player, tm::LOCATION_MZONE);
                if monsters.len() > 0 {
                    let selected = rt.select_cards(player, monsters.as_slice(), 1, 1);
                    rt.tribute(selected.as_slice());
                    bind_if(rt, binding);
                    proof {
                        let t = seq![EngineCall::Tribute(selected@)] + bind_calls(*binding);
                        assert(rt.calls_of() =~= pick_one_then(before.calls_of(), player, monsters@, selected@, t));
                    }
                } else {
                    proof {
                        let t = seq![EngineCall::Tribute(monsters@)];
                        assert(rt.calls_of() =~= pick_one_then(before.calls_of(), player, monsters@, monsters@, t));
                    }
                }
            },
            CostAction::Detach(count, _sel) => {
                if check_only {
                    return true;
                }
                let card_id = rt.effect_card_id();
                rt.detach_material(card_id, *count);
            },
            CostAction::Banish(_sel, _zone, binding) => {
                if check_only {
                    return true;
                }
                let p = rt.effect_player();
                let candidates = hand_and_monsters(&*rt, p);
                if candidates.len() > 0 {
                    let selected = rt.select_cards(p, candidates.as_slice(), 1, 1);
                    rt.banish(selected.as_slice());
                    bind_if(rt, binding);
                    proof {
                        let t = seq![EngineCall::Banish(selected@)] + bind_calls(*binding);
                        assert(rt.calls_of() =~= pick_one_then(before.calls_of(), p, candidates@, selected@, t));
                    }
                } else {
                    proof {
                        let t = seq![EngineCall::Banish(candidates@)];
                        assert(rt.calls_of() =~= pick_one_then(before.calls_of(), p, candidates@, candidates@, t));
                    }
                }
            },
            CostAction::Send(_sel, zone, binding) => {
                if check_only {
                    return true;
                }
                let p = rt.effect_player();
                let loc = zone_to_location(zone);
                let candidates = hand_and_monsters(&*rt, p);
                if candidates.len() > 0 {
                    let selected = rt.select_cards(p, candidates.as_slice(), 1, 1);
                    if loc == tm::LOCATION_GRAVE {
                        rt.send_to_grave(selected.as_slice());
                    } else {
                        rt.send_to_deck(selected.as_slice(), true);
                    }
                    bind_if(rt, binding);
                    proof {
                        let t = send_cost_calls(*zone, selected@) + bind_calls(*binding);
                        let q = before.effect_player_of();
                        let field = before.field_cards_of(q, tm::LOCATION_HAND) + before.field_cards_of(
                            q,
                            tm::LOCATION_MZONE,
                        );
                        assert(rt.calls_of() =~= pick_one_then(before.calls_of(), q, field, selected@, t));
                    }
                } else {
                    proof {
                        let t = send_cost_calls(*zone, candidates@);
                        let q = before.effect_player_of();
                        let field = before.field_cards_of(q, tm::LOCATION_HAND) + before.field_cards_of(
                            q,
                            tm::LOCATION_MZONE,
                        );
                        assert(rt.calls_of() =~= pick_one_then(before.calls_of(), q, field, candidates@, t));
                    }
                }
            },
            CostAction::RemoveCounter(name, count, _sel) => {
                if check_only {
                    return true;
                }
                let p = rt.effect_player();
                let card_id = rt.effect_card_id();
                let candidates = rt.get_field_cards(p, tm::LOCATION_MZONE);
                let target = if candidates.len() > 0 { candidates[0] } else { card_id };
                rt.remove_counter(target, name.as_str(), *count);
            },
            CostAction::Reveal(_sel) => {
                if check_only {
                    return true;
                }
                let p = rt.effect_player();
                let cards = rt.get_field_cards(p, tm::LOCATION_HAND);
                rt.reveal_cards(cards.as_slice());
            },
            CostAction::Announce(what, binding) => {
                if check_only {
                    return true;
                }
                let p = rt.effect_player();
                let kind = announce_kind(what);
                let token = rt.announce(p, kind, 0);
                match binding {
                    Some(name) => rt.set_binding(name.as_str(), token),
                    None => {},
                }
                proof {
                    assert(rt.calls_of() =~= before.calls_of() + announce_cost_calls(p, kind, *binding, token));
                }
            },
            CostAction::NoCost => {},
        }
        proof {
            let prev = states;
            states = prev.push(*rt);
            assert forall|k: int| !check_only && 0 <= k < i + 1 implies spec_cost_log(
                &states[k],
                &states[k + 1],
                #[trigger] costs@[k],
                player,
            ) by {
                if k < i {
                    assert(states[k] == prev[k] && states[k + 1] == prev[k + 1]);
                } else {
                    assert(states[k] == before && states[k + 1] == *rt);
                }
            }
        }
        i += 1;
    }
    proof {
        if !check_only {
            assert(costs_run(&*old(rt), &*rt, costs@, player, states));
        }
    }
    true
}

impl<'a> CompiledCost<'a> {
    /// Check (`check_only`) or pay the costs; paying always succeeds.
    pub fn run<R: DuelScriptRuntime>(&self, rt: &mut R, check_only: bool) -> (r: bool)
        ensures
            check_only ==> r == spec_cost_check(&*old(rt), self.costs@, old(rt).effect_player_of()),
            check_only ==> *final(rt) == *old(rt),
            !check_only ==> r,
            !check_only ==> spec_costs_log(&*old(rt), &*final(rt), self.costs@, old(rt).effect_player_of()),
    {
        run_costs(self.costs, rt, check_only)
    }
}

// ── Targets ──────────────────────────────────────────────────

/// Whether resolving a selector gives at least one card.
pub open spec fn spec_resolves_some<R: DuelScriptRuntime>(rt: &R, sel: Selector, player: u8) -> bool {
    spec_selector_candidates(rt, sel, player).len() > 0 && match spec_quantity_limit(sel) {
        Some(n) => n > 0,
        None => true,
    }
}

/// The engine calls a target callback makes after its selector resolved
/// to `cards`: when not only checking and some card is there, the acting
/// player picks one of them, which becomes the target.
pub open spec fn target_calls(player: u8, cards: Seq<u32>, picked: Seq<u32>, check_only: bool) -> Seq<EngineCall> {
    if !check_only && cards.len() > 0 {
        seq![
            EngineCall::SelectCards(player, cards, 1, 1),
            EngineCall::SetTargets(picked),
            EngineCall::BindLastSelection("__target__"@),
        ]
    } else {
        Seq::empty()
    }
}

impl<'a> CompiledTarget<'a> {
    /// Check whether the target selector designates a card (`check_only`),
    /// or let the acting player pick one of its cards, record it as the
    /// target and bind it as `__target__`.
    pub fn run<R: DuelScriptRuntime>(&self, rt: &mut R, check_only: bool) -> (r: bool)
        ensures
            check_only ==> r == spec_resolves_some(&*old(rt), self.decl.selector, old(rt).effect_player_of()),
            !check_only ==> r,
            exists|cards: Seq<u32>, picked: Seq<u32>|
                {
                    &&& after_resolve(
                        &*old(rt),
                        self.decl.selector,
                        old(rt).effect_player_of(),
                        cards,
                        #[trigger] target_calls(old(rt).effect_player_of(), cards, picked, check_only),
                        &*final(rt),
                    )
                    &&& (!check_only && cards.len() > 0) ==> picked.len() == 1 && cards.contains(picked[0])
                },
    {
        let player = rt.effect_player();
        let cards = resolve_v2_selector(&self.decl.selector, rt, player);
        let ghost m = *rt;
        if check_only {
            proof {
                let t = target_calls(old(rt).effect_player_of(), cards@, Seq::empty(), check_only);
                assert(rt.calls_of() =~= m.calls_of() + t);
                lemma_resolved_then(&*old(rt), self.decl.selector, old(rt).effect_player_of(), cards@, t, &m, &*rt);
            }
            return cards.len() > 0;
        }
        if cards.len() > 0 {
            let selected = rt.select_cards(player, cards.as_slice(), 1, 1);
            rt.set_targets(selected.as_slice());
            rt.bind_last_selection("__target__");
            proof {
                let t = target_calls(old(rt).effect_player_of(), cards@, selected@, check_only);
                assert(rt.calls_of() =~= m.calls_of() + t);
                lemma_resolved_then(&*old(rt), self.decl.selector, old(rt).effect_player_of(), cards@, t, &m, &*rt);
                assert(selected@.len() == 1 && cards@.contains(selected@[0]));
            }
        } else {
            proof {
                let t = target_calls(old(rt).effect_player_of(), cards@, Seq::empty(), check_only);
                assert(rt.calls_of() =~= m.calls_of() + t);
                lemma_resolved_then(&*old(rt), self.decl.selector, old(rt).effect_player_of(), cards@, t, &m, &*rt);
            }
        }
        true
    }
}

// ── Actions ──────────────────────────────────────────────────

/// The POS_* code a special summon uses for an optional position.
pub open spec fn spec_summon_position(pos: Option<BattlePosition>) -> u32 {
    match pos {
        Some(BattlePosition::Attack) => 0x1,
        Some(BattlePosition::Defense) => 0x4,
        Some(BattlePosition::FaceDownDefense) => 0x8,
        None => 0x1,
    }
}

fn summon_position(pos: &Option<BattlePosition>) -> (r: u32)
    ensures
        r == spec_summon_position(*pos),
{
    match pos {
        Some(BattlePosition::Attack) => 0x1,
        Some(BattlePosition::Defense) => 0x4,
        Some(BattlePosition::FaceDownDefense) => 0x8,
        None => 0x1,
    }
}

/// `-v`, saturating at `i32::MAX` for `i32::MIN`.
pub open spec fn spec_negate(v: i32) -> i32 {
    if v == i32::MIN { i32::MAX } else { (-v) as i32 }
}

fn negate(v: i32) -> (r: i32)
    ensures
        r == spec_negate(v),
{
    if v == i32::MIN { i32::MAX } else { -v }
}

/// The runtime duration of an optional duration clause; permanent when
/// there is none.
pub open spec fn spec_runtime_duration(d: Option<super::ast::Duration>) -> RuntimeDuration {
    match d {
        Some(d) => super::compiler::spec_ast_duration_to_runtime(d),
        None => RuntimeDuration::Permanently,
    }
}

fn runtime_duration(d: &Option<super::ast::Duration>) -> (r: RuntimeDuration)
    ensures
        r == spec_runtime_duration(*d),
{
    match d {
        Some(d) => ast_duration_to_runtime(d),
        None => RuntimeDuration::Permanently,
    }
}

/// The engine description of the tokens a token spec creates: missing
/// name "Token", missing level 1, unknown stats, attribute and race 0.
pub open spec fn spec_token_spec_ok(spec: super::ast::TokenSpec, t: TokenSpec) -> bool {
    &&& t.name@ == (match spec.name {
        Some(n) => n@,
        None => "Token"@,
    })
    &&& t.atk == (match spec.atk {
        StatVal::Number(n) => n,
        _ => 0,
    })
    &&& t.def == (match spec.def {
        StatVal::Number(n) => n,
        _ => 0,
    })
    &&& t.level == (match spec.level {
        Some(l) => l,
        None => 1,
    })
    &&& t.attribute == (match spec.attribute {
        Some(a) => spec_attribute_to_engine(a),
        None => 0,
    })
    &&& t.race == (match spec.race {
        Some(r) => spec_race_to_engine(r),
        None => 0,
    })
    &&& t.position == super::compiler::spec_position_to_code(spec.position)
    &&& t.count == spec.count
}

pub fn token_spec(spec: &super::ast::TokenSpec) -> (r: TokenSpec)
    ensures
        spec_token_spec_ok(*spec, r),
{
    proof {
        reveal_strlit("Token");
    }
    TokenSpec {
        name: match &spec.name {
            Some(n) => n.clone(),
            None => "Token".to_owned(),
        },
        atk: match spec.atk {
            StatVal::Number(n) => n,
            _ => 0,
        },
        def: match spec.def {
            StatVal::Number(n) => n,
            _ => 0,
        },
        level: match spec.level {
            Some(l) => l,
            None => 1,
        },
        attribute: match &spec.attribute {
            Some(a) => attribute_to_engine(a),
            None => 0,
        },
        race: match &spec.race {
            Some(r) => race_to_engine(r),
            None => 0,
        },
        position: position_to_code(&spec.position),
        count: spec.count,
    }
}

/// The branch a die roll picks among `len` branches: the rolled number
/// counted from 1, or the first branch when it is out of range.
pub open spec fn spec_dice_branch(result: u32, len: nat) -> nat {
    if result > 0 && result <= len { (result - 1) as nat } else { 0 }
}

fn dice_branch(result: u32, len: usize) -> (r: usize)
    requires
        len > 0,
    ensures
        r == spec_dice_branch(result, len as nat),
        r < len,
{
    let result = result as usize;
    if result > 0 && result <= len { result - 1 } else { 0 }
}

/// The log of running a list of actions one after the other: each action
/// asks of the engine what `spec_action_log` says, from the state the
/// previous one left.
pub open spec fn spec_list_log<R: DuelScriptRuntime>(a: &R, b: &R, actions: Seq<Action>, player: u8) -> bool {
    exists|states: Seq<R>| list_run(a, b, actions, player, states)
}

/// `states` are the runtime states before each action and after the last.
pub open spec fn list_run<R: DuelScriptRuntime>(a: &R, b: &R, actions: Seq<Action>, player: u8, states: Seq<R>) -> bool {
    &&& states.len() == actions.len() + 1
    &&& states[0] == *a
    &&& states[actions.len() as int] == *b
    &&& forall|k: int|
        0 <= k < actions.len() ==> spec_action_log(&states[k], &states[k + 1], #[trigger] actions[k], player)
}

fn execute_all<R: DuelScriptRuntime>(actions: &Vec<Action>, rt: &mut R, player: u8)
    requires
        player < 2,
    ensures
        spec_list_log(&*old(rt), &*final(rt), actions@, player),
        spec_flat_list_log(&*old(rt), &*final(rt), actions@, player),
        log_extends(&*old(rt), &*final(rt)),
    decreases actions, 0nat,
{
    proof {
        lemma_log_same(&*rt, &*rt);
    }
    let ghost mut states: Seq<R> = seq![*rt];
    let mut i: usize = 0;
    while i < actions.len()
        invariant
            player < 2,
            i <= actions@.len(),
            states.len() == i + 1,
            states[0] == *old(rt),
            states[i as int] == *rt,
            forall|k: int| 0 <= k < i ==> spec_action_log(&states[k], &states[k + 1], #[trigger] actions@[k], player),
            forall|k: int| 0 <= k < i ==> spec_flat_log(&states[k], &states[k + 1], #[trigger] actions@[k], player),
            log_extends(&*old(rt), &*rt),
        decreases actions.len() - i,
    {
        let ghost before = *rt;
        execute_v2_action(&actions[i], rt, player);
        proof {
            lemma_log_trans(&*old(rt), &before, &*rt);
            let prev = states;
            states = prev.push(*rt);
            lemma_action_log_flat(&before, &*rt, actions@[i as int], player);
            assert forall|k: int| 0 <= k < i + 1 implies spec_action_log(
                &states[k],
                &states[k + 1],
                #[trigger] actions@[k],
                player,
            ) && spec_flat_log(&states[k], &states[k + 1], actions@[k], player) by {
                if k < i {
                    assert(states[k] == prev[k] && states[k + 1] == prev[k + 1]);
                } else {
                    assert(states[k] == before && states[k + 1] == *rt);
                }
            }
        }
        i += 1;
    }
    proof {
        assert(list_run(&*old(rt), &*rt, actions@, player, states));
        assert(flat_run(&*old(rt), &*rt, actions@, player, states));
    }
}

/// Run `body` once per card, with that card set as the target.
fn for_each_card<R: DuelScriptRuntime>(cards: &Vec<u32>, body: &Vec<Action>, rt: &mut R, player: u8)
    requires
        player < 2,
    ensures
        log_extends(&*old(rt), &*final(rt)),
    decreases body, 1nat,
{
    proof {
        lemma_log_same(&*rt, &*rt);
    }
    let mut i: usize = 0;
    while i < cards.len()
        invariant
            player < 2,
            log_extends(&*old(rt), &*rt),
        decreases cards.len() - i,
    {
        let ghost before = *rt;
        let mut one: Vec<u32> = Vec::new();
        one.push(cards[i]);
        rt.set_targets(one.as_slice());
        let ghost mid = *rt;
        execute_all(body, rt, player);
        proof {
            assert(mid.calls_of() =~= before.calls_of() + seq![EngineCall::SetTargets(one@)]);
            lemma_log_append(&before, &mid, seq![EngineCall::SetTargets(one@)]);
            lemma_log_trans(&before, &mid, &*rt);
            lemma_log_trans(&*old(rt), &before, &*rt);
        }
        i += 1;
    }
}

fn first_of(v: &Vec<u32>) -> (r: Option<u32>)
    ensures
        r == (if v@.len() > 0 { Some(v@[0]) } else { None::<u32> }),
{
    if v.len() > 0 { Some(v[0]) } else { None }
}

fn resolve_materials<R: DuelScriptRuntime>(materials: &Option<Selector>, rt: &mut R, player: u8) -> (r: Vec<u32>)
    requires
        player < 2,
    ensures
        *materials matches Some(ms) ==> spec_resolved(&*old(rt), ms, player, r@) && final(rt).calls_of()
            == spec_resolve_log(&*old(rt), ms, player),
        *materials is None ==> *final(rt) == *old(rt) && r@ == Seq::<u32>::empty(),
{
    match materials {
        Some(m) => resolve_v2_selector(m, rt, player),
        None => Vec::new(),
    }
}

// ── What an action asks of the engine ───────────────────────

/// What each card of a resolved list is handed, one engine call per card.
pub enum PerCard {
    SpecialSummon(u8, u32),
    ChangePosition,
    ModifyAtk(i32, RuntimeDuration),
    ModifyDef(i32, RuntimeDuration),
    SetAtk(i32),
    SetDef(i32),
    PlaceCounter(Seq<char>, u32),
    RemoveCounter(Seq<char>, u32),
    AttachTo(u32),
    TakeControl(u8, RuntimeDuration),
    RegisterGrant(u32, u32),
    ChangeLevel(u32),
    ChangeAttribute(u32),
    ChangeRace(u32),
    ChangeName(Seq<char>, u32),
    SetScale(u32),
    NormalSummon(u8),
    SetCard(u8),
    SwapStats,
}

/// The engine call made for card `c`.
pub open spec fn per_card_call(k: PerCard, c: u32) -> EngineCall {
    match k {
        PerCard::SpecialSummon(p, pos) => EngineCall::SpecialSummon(c, p, pos),
        PerCard::ChangePosition => EngineCall::ChangePosition(c),
        PerCard::ModifyAtk(d, dur) => EngineCall::ModifyAtk(c, d, dur),
        PerCard::ModifyDef(d, dur) => EngineCall::ModifyDef(c, d, dur),
        PerCard::SetAtk(v) => EngineCall::SetAtk(c, v),
        PerCard::SetDef(v) => EngineCall::SetDef(c, v),
        PerCard::PlaceCounter(name, n) => EngineCall::PlaceCounter(c, name, n),
        PerCard::RemoveCounter(name, n) => EngineCall::RemoveCounter(c, name, n),
        PerCard::AttachTo(t) => EngineCall::AttachMaterial(c, t),
        PerCard::TakeControl(p, d) => EngineCall::TakeControl(c, p, d),
        PerCard::RegisterGrant(g, d) => EngineCall::RegisterGrant(c, g, d),
        PerCard::ChangeLevel(v) => EngineCall::ChangeLevel(c, v),
        PerCard::ChangeAttribute(v) => EngineCall::ChangeAttribute(c, v),
        PerCard::ChangeRace(v) => EngineCall::ChangeRace(c, v),
        PerCard::ChangeName(n, d) => EngineCall::ChangeName(c, n, d),
        PerCard::SetScale(v) => EngineCall::SetScale(c, v),
        PerCard::NormalSummon(p) => EngineCall::NormalSummon(c, p),
        PerCard::SetCard(p) => EngineCall::SetCard(c, p),
        PerCard::SwapStats => EngineCall::SwapStats(c),
    }
}

/// One engine call per card, in the order of the list.
pub open spec fn per_card(cards: Seq<u32>, k: PerCard) -> Seq<EngineCall>
    decreases cards.len(),
{
    if cards.len() == 0 {
        Seq::empty()
    } else {
        per_card(cards.drop_last(), k).push(per_card_call(k, cards.last()))
    }
}

proof fn lemma_per_card_step(cards: Seq<u32>, k: PerCard, i: int)
    requires
        0 <= i < cards.len(),
    ensures
        per_card(cards.take(i + 1), k) == per_card(cards.take(i), k).push(per_card_call(k, cards[i])),
{
    assert(cards.take(i + 1).drop_last() =~= cards.take(i));
}

/// `call`, when `cards` is not empty.
pub open spec fn if_any(cards: Seq<u32>, call: EngineCall) -> Seq<EngineCall> {
    if cards.len() > 0 {
        seq![call]
    } else {
        Seq::empty()
    }
}

/// Resolving `sel` in `a` gives `cards`, and the log of `b` is that of `a`
/// with the selection, if any, then `tail`.
pub open spec fn after_resolve<R: DuelScriptRuntime>(
    a: &R,
    sel: Selector,
    player: u8,
    cards: Seq<u32>,
    tail: Seq<EngineCall>,
    b: &R,
) -> bool {
    &&& spec_resolved(a, sel, player, cards)
    &&& b.calls_of() == spec_resolve_log(a, sel, player) + tail
}

/// Whether the log of `b` extends that of `a`.
pub open spec fn log_extends<R: DuelScriptRuntime>(a: &R, b: &R) -> bool {
    a.calls_of().len() <= b.calls_of().len() && b.calls_of().take(a.calls_of().len() as int) == a.calls_of()
}

/// The player whose deck an optional deck owner names.
pub open spec fn deck_player(owner: Option<DeckOwner>, player: u8) -> u8 {
    match owner {
        Some(DeckOwner::Opponents) => opponent_of(player),
        _ => player,
    }
}

/// The engine calls that end a `return` action on the resolved cards.
pub open spec fn return_calls(dest: ReturnDest, cards: Seq<u32>, player: u8) -> Seq<EngineCall> {
    match dest {
        ReturnDest::Hand => seq![EngineCall::ReturnToHand(cards)],
        ReturnDest::Owner => seq![EngineCall::ReturnToOwner(cards)],
        ReturnDest::Deck(pos) => seq![EngineCall::SendToDeck(cards, pos != Some(DeckPosition::Bottom))] + if pos
            == Some(DeckPosition::Shuffle) {
            seq![EngineCall::ShuffleDeck(player)]
        } else {
            Seq::empty()
        },
        ReturnDest::ExtraDeck => seq![EngineCall::SendToDeck(cards, false)],
    }
}

/// The engine calls that end a `send` action on the resolved cards.
pub open spec fn send_calls(zone: Zone, cards: Seq<u32>) -> Seq<EngineCall> {
    match zone {
        Zone::Gy => seq![EngineCall::SendToGrave(cards)],
        Zone::Hand => seq![EngineCall::SendToHand(cards)],
        Zone::Deck => seq![EngineCall::SendToDeck(cards, true)],
        _ => Seq::empty(),
    }
}

/// The per-card call of a stat change by `v`.
pub open spec fn stat_change(stat: StatName, v: i32, d: RuntimeDuration) -> PerCard {
    match stat {
        StatName::Atk => PerCard::ModifyAtk(v, d),
        StatName::Def => PerCard::ModifyDef(v, d),
    }
}

/// The per-card call of setting a stat to `v`.
pub open spec fn stat_set(stat: StatName, v: i32) -> PerCard {
    match stat {
        StatName::Atk => PerCard::SetAtk(v),
        StatName::Def => PerCard::SetDef(v),
    }
}

/// The signed change of a stat action, evaluated in `rt`.
pub open spec fn stat_delta<R: DuelScriptRuntime>(rt: &R, negative: bool, expr: Expr) -> i32 {
    if negative {
        spec_negate(spec_eval_expr(rt, expr))
    } else {
        spec_eval_expr(rt, expr)
    }
}

/// The binding of the first negated card, when there is one.
pub open spec fn negated_binding(cards: Seq<u32>) -> Seq<EngineCall> {
    if cards.len() > 0 {
        seq![EngineCall::SetBinding("__negated__"@, cards[0])]
    } else {
        Seq::empty()
    }
}

/// Per-card calls after a selector resolved, with a value evaluated in the
/// state the resolution left.
pub open spec fn per_card_after<R: DuelScriptRuntime>(
    a: &R,
    sel: Selector,
    player: u8,
    b: &R,
    expr: Expr,
    level: bool,
) -> bool {
    exists|cards: Seq<u32>, m: R|
        {
            &&& after_resolve(a, sel, player, cards, Seq::empty(), &m)
            &&& b.calls_of() == m.calls_of() + per_card(
                cards,
                if level {
                    PerCard::ChangeLevel(spec_eval_expr(&m, expr) as u32)
                } else {
                    PerCard::SetScale(spec_eval_expr(&m, expr) as u32)
                },
            )
        }
}

/// The call made on the first cards of two resolved lists, when both have
/// one.
pub open spec fn pair_calls(c1: Seq<u32>, c2: Seq<u32>, equip: bool) -> Seq<EngineCall> {
    if c1.len() > 0 && c2.len() > 0 {
        if equip {
            seq![EngineCall::EquipCard(c1[0], c2[0]), EngineCall::SetBinding("__equipped__"@, c2[0])]
        } else {
            seq![EngineCall::SwapControl(c1[0], c2[0])]
        }
    } else {
        Seq::empty()
    }
}

/// Two selectors resolve, one after the other, then the pair call.
pub open spec fn two_resolved<R: DuelScriptRuntime>(
    a: &R,
    first: Selector,
    second: Selector,
    player: u8,
    equip: bool,
    b: &R,
) -> bool {
    exists|c1: Seq<u32>, c2: Seq<u32>, m: R|
        {
            &&& after_resolve(a, first, player, c1, Seq::empty(), &m)
            &&& after_resolve(&m, second, player, c2, pair_calls(c1, c2, equip), b)
        }
}

/// The kind of an extra-deck or ritual summon.
pub enum SummonKind {
    Ritual,
    Fusion,
    Synchro,
    Xyz,
}

/// The summon call for the first target, when there is one.
pub open spec fn summon_calls(kind: SummonKind, targets: Seq<u32>, player: u8, mats: Seq<u32>) -> Seq<EngineCall> {
    if targets.len() > 0 {
        seq![
            match kind {
                SummonKind::Ritual => EngineCall::RitualSummon(targets[0], player, mats),
                SummonKind::Fusion => EngineCall::FusionSummon(targets[0], player, mats),
                SummonKind::Synchro => EngineCall::SynchroSummon(targets[0], player, mats),
                SummonKind::Xyz => EngineCall::XyzSummon(targets[0], player, mats),
            },
        ]
    } else {
        Seq::empty()
    }
}

/// The target, then the materials if any, resolve; then the summon call
/// for the first target, handed the resolved materials.
pub open spec fn summon_resolved<R: DuelScriptRuntime>(
    a: &R,
    target: Selector,
    materials: Option<Selector>,
    player: u8,
    kind: SummonKind,
    b: &R,
) -> bool {
    exists|c1: Seq<u32>, m: R|
        {
            &&& after_resolve(a, target, player, c1, Seq::empty(), &m)
            &&& match materials {
                Some(ms) => exists|c2: Seq<u32>|
                    after_resolve(&m, ms, player, c2, summon_calls(kind, c1, player, c2), b),
                None => b.calls_of() == m.calls_of() + summon_calls(kind, c1, player, Seq::empty()),
            }
        }
}

/// What running `action` for `player` asks of the engine, from state `a`
/// to state `b`, not looking into nested action lists: the engine calls it
/// appends to the log, with their arguments, selectors resolving in the
/// state reached so far. Of an action that runs nested action lists, and
/// of a search, only the calls it makes before the nested actions are
/// stated; the rest is known to extend the log.
pub open spec fn spec_flat_log<R: DuelScriptRuntime>(a: &R, b: &R, action: Action, player: u8) -> bool {
    match action {
        Action::Draw(expr) => b.calls_of() == a.calls_of().push(
            EngineCall::Draw(player, spec_eval_expr(a, expr) as u32),
        ),
        Action::Discard(sel) => exists|cards: Seq<u32>|
            after_resolve(a, sel, player, cards, if_any(cards, EngineCall::Discard(cards)), b),
        Action::Destroy(sel) => exists|cards: Seq<u32>|
            after_resolve(a, sel, player, cards, if_any(cards, EngineCall::Destroy(cards)), b),
        Action::Send(sel, zone) => exists|cards: Seq<u32>| after_resolve(a, sel, player, cards, send_calls(zone, cards), b),
        Action::Banish(sel, _, _) => exists|cards: Seq<u32>|
            after_resolve(a, sel, player, cards, seq![EngineCall::Banish(cards)], b),
        Action::AddToHand(sel, _) => exists|cards: Seq<u32>|
            after_resolve(a, sel, player, cards, if_any(cards, EngineCall::SendToHand(cards)), b),
        Action::SpecialSummon(sel, _, pos) => exists|cards: Seq<u32>|
            after_resolve(
                a,
                sel,
                player,
                cards,
                per_card(cards, PerCard::SpecialSummon(player, spec_summon_position(pos))),
                b,
            ),
        Action::Negate(and_destroy) => b.calls_of() == a.calls_of().push(
            EngineCall::SetBinding("__negated__"@, a.effect_card()),
        ).push(EngineCall::NegateActivation) + if and_destroy {
            seq![EngineCall::NegateEffect]
        } else {
            Seq::empty()
        },
        Action::NegateEffects(sel, _) => exists|cards: Seq<u32>|
            after_resolve(a, sel, player, cards, negated_binding(cards) + seq![EngineCall::NegateEffect], b),
        Action::Damage(who, expr) => b.calls_of() == a.calls_of().push(
            EngineCall::Damage(spec_player_who_to_idx(who, player), spec_eval_expr(a, expr), DamageType::Effect),
        ),
        Action::GainLp(expr) => b.calls_of() == a.calls_of().push(EngineCall::Recover(player, spec_eval_expr(a, expr))),
        Action::PayLp(expr) => b.calls_of() == a.calls_of().push(
            EngineCall::Damage(player, spec_eval_expr(a, expr), DamageType::Cost),
        ),
        Action::FlipDown(sel) => exists|cards: Seq<u32>|
            after_resolve(a, sel, player, cards, per_card(cards, PerCard::ChangePosition), b),
        Action::ChangePosition(sel, _) => exists|cards: Seq<u32>|
            after_resolve(a, sel, player, cards, per_card(cards, PerCard::ChangePosition), b),
        Action::ModifyStat(stat, sel, negative, expr, d) => exists|cards: Seq<u32>, m: R|
            {
                &&& after_resolve(a, sel, player, cards, Seq::empty(), &m)
                &&& b.calls_of() == m.calls_of() + per_card(
                    cards,
                    stat_change(stat, stat_delta(&m, negative, expr), spec_runtime_duration(d)),
                )
            },
        Action::SetStat(stat, sel, expr, _) => exists|cards: Seq<u32>, m: R|
            {
                &&& after_resolve(a, sel, player, cards, Seq::empty(), &m)
                &&& b.calls_of() == m.calls_of() + per_card(cards, stat_set(stat, spec_eval_expr(&m, expr)))
            },
        Action::Return(sel, dest) => exists|cards: Seq<u32>|
            after_resolve(a, sel, player, cards, return_calls(dest, cards, player), b),
        Action::PlaceCounter(name, n, sel) => exists|cards: Seq<u32>|
            after_resolve(a, sel, player, cards, per_card(cards, PerCard::PlaceCounter(name@, n)), b),
        Action::RemoveCounter(name, n, sel) => exists|cards: Seq<u32>|
            after_resolve(a, sel, player, cards, per_card(cards, PerCard::RemoveCounter(name@, n)), b),
        Action::Detach(n, sel) => exists|cards: Seq<u32>|
            after_resolve(
                a,
                sel,
                player,
                cards,
                if cards.len() > 0 {
                    seq![EngineCall::DetachMaterial(cards[0], n)]
                } else {
                    Seq::empty()
                },
                b,
            ),
        Action::Attach(mat_sel, target_sel) => exists|mats: Seq<u32>, targets: Seq<u32>, m: R|
            {
                &&& after_resolve(a, mat_sel, player, mats, Seq::empty(), &m)
                &&& after_resolve(
                    &m,
                    target_sel,
                    player,
                    targets,
                    if targets.len() > 0 {
                        per_card(mats, PerCard::AttachTo(targets[0]))
                    } else {
                        Seq::empty()
                    },
                    b,
                )
            },
        Action::ShuffleDeck(owner) => b.calls_of() == a.calls_of().push(EngineCall::ShuffleDeck(deck_player(owner, player))),
        Action::TakeControl(sel, d) => exists|cards: Seq<u32>|
            after_resolve(a, sel, player, cards, per_card(cards, PerCard::TakeControl(player, spec_runtime_duration(d))), b),
        Action::Grant(sel, ability, d) => exists|cards: Seq<u32>|
            after_resolve(
                a,
                sel,
                player,
                cards,
                per_card(cards, PerCard::RegisterGrant(spec_grant_to_code(ability), spec_duration_to_code(d))),
                b,
            ),
        Action::ChangeLevel(sel, expr) => per_card_after(a, sel, player, b, expr, true),
        Action::ChangeAttribute(sel, attr) => exists|cards: Seq<u32>|
            after_resolve(a, sel, player, cards, per_card(cards, PerCard::ChangeAttribute(spec_attribute_to_engine(attr))), b),
        Action::ChangeRace(sel, race) => exists|cards: Seq<u32>|
            after_resolve(a, sel, player, cards, per_card(cards, PerCard::ChangeRace(spec_race_to_engine(race))), b),
        Action::ChangeName(sel, name, _) => exists|cards: Seq<u32>|
            after_resolve(a, sel, player, cards, per_card(cards, PerCard::ChangeName(name@, 0)), b),
        Action::SetScale(sel, expr) => per_card_after(a, sel, player, b, expr, false),
        Action::Reveal(sel) => exists|cards: Seq<u32>|
            after_resolve(a, sel, player, cards, seq![EngineCall::RevealCards(cards)], b),
        Action::LookAt(sel, _) => exists|cards: Seq<u32>|
            after_resolve(a, sel, player, cards, seq![EngineCall::LookAt(player, cards)], b),
        Action::NormalSummon(sel) => exists|cards: Seq<u32>|
            after_resolve(a, sel, player, cards, per_card(cards, PerCard::NormalSummon(player)), b),
        Action::SetCard(sel, _) => exists|cards: Seq<u32>|
            after_resolve(a, sel, player, cards, per_card(cards, PerCard::SetCard(player)), b),
        Action::SwapStats(sel) => exists|cards: Seq<u32>|
            after_resolve(a, sel, player, cards, per_card(cards, PerCard::SwapStats), b),
        Action::Equip(first, second) => two_resolved(a, first, second, player, true, b),
        Action::SwapControl(first, second) => two_resolved(a, first, second, player, false, b),
        Action::RitualSummon { target, materials, .. } => summon_resolved(a, target, materials, player, SummonKind::Ritual, b),
        Action::FusionSummon { target, materials } => summon_resolved(a, target, materials, player, SummonKind::Fusion, b),
        Action::SynchroSummon { target, materials } => summon_resolved(
            a,
            target,
            materials,
            player,
            SummonKind::Synchro,
            b,
        ),
        Action::XyzSummon { target, materials } => summon_resolved(a, target, materials, player, SummonKind::Xyz, b),
        Action::CreateToken(spec) => exists|t: TokenSpec|
            spec_token_spec_ok(spec, t) && b.calls_of() == a.calls_of().push(EngineCall::CreateToken(player, t)),
        Action::Mill(expr, owner) => b.calls_of() == a.calls_of().push(
            EngineCall::Mill(deck_player(owner, player), spec_eval_expr(a, expr) as u32),
        ),
        Action::Excavate(expr, owner) => b.calls_of() == a.calls_of().push(
            EngineCall::Excavate(deck_player(Some(owner), player), spec_eval_expr(a, expr) as u32),
        ),
        Action::Announce(what, _) => b.calls_of() == a.calls_of().push(
            EngineCall::Announce(player, spec_announce_kind(what), 0),
        ),
        Action::InstallWatcher { name, .. } => b.calls_of() == a.calls_of().push(
            EngineCall::RaiseCustomEvent("install_watcher:"@ + name@, Seq::empty()),
        ),
        Action::LinkTo(_, _) => b.calls_of() == a.calls_of(),
        Action::ForEach { selector, .. } => exists|cards: Seq<u32>, m: R|
            {
                &&& after_resolve(a, selector, player, cards, Seq::empty(), &m)
                &&& log_extends(&m, b)
            },
        Action::Choose(block) => exists|m: R|
            {
                &&& m.calls_of() == a.calls_of().push(EngineCall::SelectOption(player, choice_labels(block.options@)))
                &&& log_extends(&m, b)
            },
        _ => log_extends(a, b),
    }
}

/// What running `action` for `player` asks of the engine, from state `a`
/// to state `b`: as `spec_flat_log` says, and for an action that runs
/// nested action lists, which list runs (the branch the condition picks in
/// `a`, the one the coin flip picks, the chosen option's, the die's branch,
/// the delayed body) with the calls of each of its actions as
/// `spec_flat_log` says, after the flip, roll, choice or registration.
pub open spec fn spec_action_log<R: DuelScriptRuntime>(a: &R, b: &R, action: Action, player: u8) -> bool {
    match action {
        Action::If { condition, then, otherwise } => if spec_eval_condition(a, condition) {
            spec_flat_list_log(a, b, then@, player)
        } else {
            spec_flat_list_log(a, b, otherwise@, player)
        },
        Action::Then(actions) => spec_flat_list_log(a, b, actions@, player),
        Action::Also(actions) => spec_flat_list_log(a, b, actions@, player),
        Action::AndIfYouDo(actions) => spec_flat_list_log(a, b, actions@, player),
        Action::CoinFlip { heads, tails } => exists|m: R|
            {
                &&& m.calls_of() == a.calls_of().push(EngineCall::CoinFlip(player))
                &&& (spec_flat_list_log(&m, b, heads@, player) || spec_flat_list_log(&m, b, tails@, player))
            },
        Action::DiceRoll(branches) => exists|m: R|
            {
                &&& m.calls_of() == a.calls_of().push(EngineCall::DiceRoll(player))
                &&& if branches@.len() == 0 {
                    b.calls_of() == m.calls_of()
                } else {
                    exists|k: int| 0 <= k < branches@.len() && spec_flat_log(&m, b, #[trigger] branches@[k], player)
                }
            },
        Action::Choose(block) => exists|m: R|
            {
                &&& m.calls_of() == a.calls_of().push(EngineCall::SelectOption(player, choice_labels(block.options@)))
                &&& log_extends(&m, b)
                &&& (b.calls_of() == m.calls_of() || exists|k: int|
                    0 <= k < block.options@.len() && spec_flat_list_log(
                        &m,
                        b,
                        (#[trigger] block.options@[k]).resolve@,
                        player,
                    ))
            },
        Action::Delayed { until, body } => exists|m: R|
            {
                &&& m.calls_of() == a.calls_of().push(EngineCall::RegisterDelayed(spec_phase_name_to_code(until), a.effect_card()))
                &&& spec_flat_list_log(&m, b, body@, player)
            },
        _ => spec_flat_log(a, b, action, player),
    }
}

/// The log of running a list of actions one after the other, each as
/// `spec_flat_log` says, from the state the previous one left.
pub open spec fn spec_flat_list_log<R: DuelScriptRuntime>(a: &R, b: &R, actions: Seq<Action>, player: u8) -> bool {
    exists|states: Seq<R>| flat_run(a, b, actions, player, states)
}

/// `states` are the runtime states before each action and after the last.
pub open spec fn flat_run<R: DuelScriptRuntime>(a: &R, b: &R, actions: Seq<Action>, player: u8, states: Seq<R>) -> bool {
    &&& states.len() == actions.len() + 1
    &&& states[0] == *a
    &&& states[actions.len() as int] == *b
    &&& forall|k: int|
        0 <= k < actions.len() ==> spec_flat_log(&states[k], &states[k + 1], #[trigger] actions[k], player)
}

proof fn lemma_action_log_flat<R: DuelScriptRuntime>(a: &R, b: &R, action: Action, player: u8)
    requires
        spec_action_log(a, b, action, player),
        log_extends(a, b),
    ensures
        spec_flat_log(a, b, action, player),
{
}

/// The texts of the options of a choice, in order.
pub open spec fn choice_labels(options: Seq<super::ast::ChooseOption>) -> Seq<Seq<char>> {
    options.map_values(|o: super::ast::ChooseOption| o.label@)
}

proof fn lemma_log_same<R: DuelScriptRuntime>(a: &R, b: &R)
    requires
        b.calls_of() == a.calls_of(),
    ensures
        log_extends(a, b),
{
    assert(b.calls_of().take(a.calls_of().len() as int) =~= a.calls_of());
}

proof fn lemma_log_append<R: DuelScriptRuntime>(a: &R, b: &R, tail: Seq<EngineCall>)
    requires
        b.calls_of() == a.calls_of() + tail,
    ensures
        log_extends(a, b),
{
    assert(b.calls_of().take(a.calls_of().len() as int) =~= a.calls_of());
}

proof fn lemma_log_trans<R: DuelScriptRuntime>(a: &R, b: &R, c: &R)
    requires
        log_extends(a, b),
        log_extends(b, c),
    ensures
        log_extends(a, c),
{
    assert(c.calls_of().take(a.calls_of().len() as int) =~= c.calls_of().take(b.calls_of().len() as int).take(
        a.calls_of().len() as int,
    ));
}

/// A selector resolved from `a` to `m`, and `b`'s log is `m`'s with `tail`.
proof fn lemma_resolved_then<R: DuelScriptRuntime>(
    a: &R,
    sel: Selector,
    player: u8,
    cards: Seq<u32>,
    tail: Seq<EngineCall>,
    m: &R,
    b: &R,
)
    requires
        spec_resolved(a, sel, player, cards),
        m.calls_of() == spec_resolve_log(a, sel, player),
        b.calls_of() == m.calls_of() + tail,
    ensures
        after_resolve(a, sel, player, cards, tail, b),
        log_extends(a, m),
        log_extends(a, b),
{
    match spec_quantity_limit(sel) {
        Some(n) => if spec_selector_candidates(a, sel, player).len() > n {
            let x = EngineCall::SelectCards(player, spec_selector_candidates(a, sel, player), n as usize, n as usize);
            assert(m.calls_of() =~= a.calls_of() + seq![x]);
            lemma_log_append(a, m, seq![x]);
            assert(b.calls_of() =~= a.calls_of() + (seq![x] + tail));
            lemma_log_append(a, b, seq![x] + tail);
        } else {
            lemma_log_same(a, m);
            lemma_log_append(a, b, tail);
        },
        None => {
            lemma_log_same(a, m);
            lemma_log_append(a, b, tail);
        },
    }
}

proof fn lemma_resolve_extends<R: DuelScriptRuntime>(a: &R, sel: Selector, player: u8, b: &R)
    requires
        b.calls_of() == spec_resolve_log(a, sel, player),
    ensures
        log_extends(a, b),
{
    match spec_quantity_limit(sel) {
        Some(n) => if spec_selector_candidates(a, sel, player).len() > n {
            let x = EngineCall::SelectCards(player, spec_selector_candidates(a, sel, player), n as usize, n as usize);
            assert(b.calls_of() =~= a.calls_of() + seq![x]);
            lemma_log_append(a, b, seq![x]);
        } else {
            lemma_log_same(a, b);
        },
        None => {
            lemma_log_same(a, b);
        },
    }
}

/// The log of a summon action: its target, then its materials, resolve;
/// then the summon of the first target.
proof fn summon_log<R: DuelScriptRuntime>(
    a: &R,
    target: Selector,
    materials: Option<Selector>,
    player: u8,
    kind: SummonKind,
    targets: Seq<u32>,
    mats: Seq<u32>,
    m: &R,
    m2: &R,
    b: &R,
)
    requires
        spec_resolved(a, target, player, targets),
        m.calls_of() == spec_resolve_log(a, target, player),
        materials matches Some(ms) ==> spec_resolved(m, ms, player, mats) && m2.calls_of() == spec_resolve_log(
            m,
            ms,
            player,
        ),
        materials is None ==> m2.calls_of() == m.calls_of() && mats == Seq::<u32>::empty(),
        b.calls_of() == m2.calls_of() + summon_calls(kind, targets, player, mats),
    ensures
        after_resolve(a, target, player, targets, Seq::empty(), m),
        match materials {
            Some(ms) => after_resolve(m, ms, player, mats, summon_calls(kind, targets, player, mats), b),
            None => b.calls_of() == m.calls_of() + summon_calls(kind, targets, player, Seq::empty()),
        },
        log_extends(a, b),
{
    assert(m.calls_of() =~= m.calls_of() + Seq::empty());
    lemma_resolved_then(a, target, player, targets, Seq::empty(), m, m);
    match materials {
        Some(ms) => {
            lemma_resolved_then(m, ms, player, mats, summon_calls(kind, targets, player, mats), m2, b);
        },
        None => {
            lemma_log_append(m, b, summon_calls(kind, targets, player, mats));
        },
    }
    lemma_log_trans(a, m, b);
}

/// Whether an action runs nested action lists.
pub open spec fn is_branching(action: Action) -> bool {
    ||| action is If
    ||| action is Then
    ||| action is Also
    ||| action is AndIfYouDo
    ||| action is CoinFlip
    ||| action is DiceRoll
    ||| action is ForEach
    ||| action is Choose
    ||| action is Delayed
}

/// Run an action that runs nested action lists.
fn execute_branching_action<R: DuelScriptRuntime>(action: &Action, rt: &mut R, player: u8)
    requires
        player < 2,
        is_branching(*action),
    ensures
        spec_action_log(&*old(rt), &*final(rt), *action, player),
        log_extends(&*old(rt), &*final(rt)),
    decreases action, 0nat,
{
    match action {
        Action::If { condition, then, otherwise } => {
            if eval_v2_condition(condition, &*rt) {
                execute_all(then, rt, player);
            } else {
                execute_all(otherwise, rt, player);
            }
        },
        Action::Then(actions) | Action::Also(actions) | Action::AndIfYouDo(actions) => {
            execute_all(actions, rt, player);
        },
        Action::CoinFlip { heads, tails } => {
            let result = rt.coin_flip(player);
            let ghost m = *rt;
            if result {
                execute_all(heads, rt, player);
            } else {
                execute_all(tails, rt, player);
            }
            proof {
                assert(m.calls_of() =~= old(rt).calls_of() + seq![EngineCall::CoinFlip(player)]);
                lemma_log_append(&*old(rt), &m, seq![EngineCall::CoinFlip(player)]);
                lemma_log_trans(&*old(rt), &m, &*rt);
            }
        },
        Action::DiceRoll(branches) => {
            let result = rt.dice_roll(player);
            let ghost m = *rt;
            if branches.len() > 0 {
                let idx = dice_branch(result, branches.len());
                execute_v2_action(&branches[idx], rt, player);
                proof {
                    lemma_action_log_flat(&m, &*rt, branches@[idx as int], player);
                    assert(spec_flat_log(&m, &*rt, branches@[idx as int], player));
                }
            }
            proof {
                assert(m.calls_of() =~= old(rt).calls_of() + seq![EngineCall::DiceRoll(player)]);
                lemma_log_append(&*old(rt), &m, seq![EngineCall::DiceRoll(player)]);
                if branches@.len() == 0 {
                    lemma_log_same(&m, &*rt);
                }
                lemma_log_trans(&*old(rt), &m, &*rt);
            }
        },
        Action::ForEach { selector, zone: _, body } => {
            let cards = resolve_v2_selector(selector, rt, player);
            let ghost m = *rt;
            for_each_card(&cards, body, rt, player);
            proof {
                assert(m.calls_of() =~= m.calls_of() + Seq::empty());
                lemma_resolved_then(&*old(rt), *selector, player, cards@, Seq::empty(), &m, &m);
                lemma_log_trans(&*old(rt), &m, &*rt);
            }
        },
        Action::Choose(block) => {
            let mut labels: Vec<String> = Vec::new();
            let mut i: usize = 0;
            while i < block.options.len()
                invariant
                    i <= block.options@.len(),
                    labels@.len() == i,
                    forall|j: int| 0 <= j < i ==> #[trigger] labels@[j]@ == block.options@[j].label@,
                decreases block.options.len() - i,
            {
                labels.push(block.options[i].label.clone());
                i += 1;
            }
            proof {
                assert(option_texts(labels@) =~= choice_labels(block.options@));
            }
            let chosen = rt.select_option(player, labels.as_slice());
            let ghost m = *rt;
            if chosen < block.options.len() {
                execute_all(&block.options[chosen].resolve, rt, player);
                proof {
                    assert(spec_flat_list_log(&m, &*rt, block.options@[chosen as int].resolve@, player));
                }
            } else {
                proof {
                    lemma_log_same(&m, &*rt);
                }
            }
            proof {
                let x = EngineCall::SelectOption(player, option_texts(labels@));
                assert(m.calls_of() =~= old(rt).calls_of() + seq![x]);
                lemma_log_append(&*old(rt), &m, seq![x]);
                lemma_log_trans(&*old(rt), &m, &*rt);
            }
        },
        Action::Delayed { until, body } => {
            let phase_code = phase_name_to_code(until);
            let card_id = rt.effect_card_id();
            rt.register_delayed(phase_code, card_id);
            let ghost m = *rt;
            execute_all(body, rt, player);
            proof {
                assert(m.calls_of() =~= old(rt).calls_of() + seq![EngineCall::RegisterDelayed(phase_code, card_id)]);
                lemma_log_append(&*old(rt), &m, seq![EngineCall::RegisterDelayed(phase_code, card_id)]);
                lemma_log_trans(&*old(rt), &m, &*rt);
            }
        },
        _ => {
            proof {
                assert(false);
            }
        },
    }
}

/// Resolve one action for `player` against the runtime.
#[verifier::rlimit(100)]
#[verifier::spinoff_prover]
pub fn execute_v2_action<R: DuelScriptRuntime>(action: &Action, rt: &mut R, player: u8)
    requires
        player < 2,
    ensures
        spec_action_log(&*old(rt), &*final(rt), *action, player),
        log_extends(&*old(rt), &*final(rt)),
    decreases action, 1nat,
{
    let opponent = 1 - player;
    match action {
        Action::Draw(expr) => {
            let n = eval_v2_expr(expr, &*rt) as u32;
            rt.draw(player, n);
            proof {
                assert(rt.calls_of() =~= old(rt).calls_of() + seq![EngineCall::Draw(player, n)]);
                lemma_log_append(&*old(rt), &*rt, seq![EngineCall::Draw(player, n)]);
            }
        },
        Action::Discard(sel) => {
            let cards = resolve_v2_selector(sel, rt, player);
            let ghost m = *rt;
            if cards.len() > 0 {
                rt.discard(cards.as_slice());
            }
            proof {
                let tail = if_any(cards@, EngineCall::Discard(cards@));
                assert(rt.calls_of() =~= m.calls_of() + tail);
                lemma_resolved_then(&*old(rt), *sel, player, cards@, tail, &m, &*rt);
            }
        },
        Action::Destroy(sel) => {
            let cards = resolve_v2_selector(sel, rt, player);
            let ghost m = *rt;
            if cards.len() > 0 {
                rt.destroy(cards.as_slice());
            }
            proof {
                let tail = if_any(cards@, EngineCall::Destroy(cards@));
                assert(rt.calls_of() =~= m.calls_of() + tail);
                lemma_resolved_then(&*old(rt), *sel, player, cards@, tail, &m, &*rt);
            }
        },
        Action::Send(sel, zone) => {
            let cards = resolve_v2_selector(sel, rt, player);
            let ghost m = *rt;
            match zone {
                Zone::Gy => {
                    rt.send_to_grave(cards.as_slice());
                },
                Zone::Hand => {
                    rt.send_to_hand(cards.as_slice());
                },
                Zone::Deck => {
                    rt.send_to_deck(cards.as_slice(), true);
                },
                _ => {},
            }
            proof {
                let tail = send_calls(*zone, cards@);
                assert(rt.calls_of() =~= m.calls_of() + tail);
                lemma_resolved_then(&*old(rt), *sel, player, cards@, tail, &m, &*rt);
            }
        },
        Action::Banish(sel, _, _) => {
            let cards = resolve_v2_selector(sel, rt, player);
            let ghost m = *rt;
            rt.banish(cards.as_slice());
            proof {
                let tail = seq![EngineCall::Banish(cards@)];
                assert(rt.calls_of() =~= m.calls_of() + tail);
                lemma_resolved_then(&*old(rt), *sel, player, cards@, tail, &m, &*rt);
            }
        },
        Action::Search(sel, zone) => {
            let cards = match (sel, zone) {
                (Selector::Counted { quantity, filter, controller, zone: None, position, where_clause }, Some(z)) => {
                    let mut zones: Vec<Zone> = Vec::new();
                    zones.push(*z);
                    let stamped = Some(ZoneFilter::From(zones));
                    resolve_counted(rt, *quantity, filter, controller, &stamped, position, where_clause, player)
                },
                _ => {
                    let r = resolve_v2_selector(sel, rt, player);
                    proof {
                        lemma_resolve_extends(&*old(rt), *sel, player, &*rt);
                    }
                    r
                },
            };
            let ghost m = *rt;
            if cards.len() > 0 {
                let selected = rt.select_cards(player, cards.as_slice(), 1, 1);
                let ghost m1 = *rt;
                rt.send_to_hand(selected.as_slice());
                let ghost m2 = *rt;
                rt.bind_last_selection("__searched__");
                proof {
                    assert(m1.calls_of() =~= m.calls_of() + seq![EngineCall::SelectCards(player, cards@, 1, 1)]);
                    lemma_log_append(&m, &m1, seq![EngineCall::SelectCards(player, cards@, 1, 1)]);
                    assert(m2.calls_of() =~= m1.calls_of() + seq![EngineCall::SendToHand(selected@)]);
                    lemma_log_append(&m1, &m2, seq![EngineCall::SendToHand(selected@)]);
                    assert(rt.calls_of() =~= m2.calls_of() + seq![EngineCall::BindLastSelection("__searched__"@)]);
                    lemma_log_append(&m2, &*rt, seq![EngineCall::BindLastSelection("__searched__"@)]);
                    lemma_log_trans(&m, &m1, &m2);
                    lemma_log_trans(&m, &m2, &*rt);
                }
            } else {
                proof {
                    lemma_log_same(&m, &*rt);
                }
            }
            proof {
                lemma_log_trans(&*old(rt), &m, &*rt);
            }
        },
        Action::AddToHand(sel, _) => {
            let cards = resolve_v2_selector(sel, rt, player);
            let ghost m = *rt;
            if cards.len() > 0 {
                rt.send_to_hand(cards.as_slice());
            }
            proof {
                let tail = if_any(cards@, EngineCall::SendToHand(cards@));
                assert(rt.calls_of() =~= m.calls_of() + tail);
                lemma_resolved_then(&*old(rt), *sel, player, cards@, tail, &m, &*rt);
            }
        },
        Action::SpecialSummon(sel, _, pos) => {
            let pos_val = summon_position(pos);
            let cards = resolve_v2_selector(sel, rt, player);
            let ghost m = *rt;
            let mut i: usize = 0;
            while i < cards.len()
                invariant
                    player < 2,
                    i <= cards@.len(),
                    rt.calls_of() == m.calls_of() + per_card(
                        cards@.take(i as int),
                        PerCard::SpecialSummon(player, pos_val),
                    ),
                decreases cards.len() - i,
            {
                proof {
                    lemma_per_card_step(cards@, PerCard::SpecialSummon(player, pos_val), i as int);
                }
                rt.special_summon(cards[i], player, pos_val);
                i += 1;
            }
            proof {
                assert(cards@.take(cards@.len() as int) =~= cards@);
                lemma_resolved_then(
                    &*old(rt),
                    *sel,
                    player,
                    cards@,
                    per_card(cards@, PerCard::SpecialSummon(player, pos_val)),
                    &m,
                    &*rt,
                );
            }
        },
        Action::Negate(and_destroy) => {
            let id = rt.effect_card_id();
            rt.set_binding("__negated__", id);
            let ghost m = *rt;
            rt.negate_activation();
            if *and_destroy {
                rt.negate_effect();
            }
            proof {
                let tail = seq![EngineCall::SetBinding("__negated__"@, id), EngineCall::NegateActivation] + if *and_destroy {
                    seq![EngineCall::NegateEffect]
                } else {
                    Seq::empty()
                };
                assert(rt.calls_of() =~= old(rt).calls_of() + tail);
                assert(rt.calls_of() =~= old(rt).calls_of().push(EngineCall::SetBinding("__negated__"@, id)).push(
                    EngineCall::NegateActivation,
                ) + if *and_destroy {
                    seq![EngineCall::NegateEffect]
                } else {
                    Seq::empty()
                });
                lemma_log_append(&*old(rt), &*rt, tail);
            }
        },
        Action::NegateEffects(sel, _) => {
            let cards = resolve_v2_selector(sel, rt, player);
            let ghost m = *rt;
            match first_of(&cards) {
                Some(first_id) => rt.set_binding("__negated__", first_id),
                None => {},
            }
            rt.negate_effect();
            proof {
                let tail = negated_binding(cards@) + seq![EngineCall::NegateEffect];
                assert(rt.calls_of() =~= m.calls_of() + tail);
                lemma_resolved_then(&*old(rt), *sel, player, cards@, tail, &m, &*rt);
            }
        },
        Action::Damage(who, expr) => {
            let amount = eval_v2_expr(expr, &*rt);
            let target = player_who_to_idx(who, player);
            rt.damage(target, amount, DamageType::Effect);
            proof {
                let x = EngineCall::Damage(target, amount, DamageType::Effect);
                assert(rt.calls_of() =~= old(rt).calls_of() + seq![x]);
                lemma_log_append(&*old(rt), &*rt, seq![x]);
            }
        },
        Action::GainLp(expr) => {
            let amount = eval_v2_expr(expr, &*rt);
            rt.recover(player, amount);
            proof {
                let x = EngineCall::Recover(player, amount);
                assert(rt.calls_of() =~= old(rt).calls_of() + seq![x]);
                lemma_log_append(&*old(rt), &*rt, seq![x]);
            }
        },
        Action::PayLp(expr) => {
            let amount = eval_v2_expr(expr, &*rt);
            rt.damage(player, amount, DamageType::Cost);
            proof {
                let x = EngineCall::Damage(player, amount, DamageType::Cost);
                assert(rt.calls_of() =~= old(rt).calls_of() + seq![x]);
                lemma_log_append(&*old(rt), &*rt, seq![x]);
            }
        },
        Action::FlipDown(sel) | Action::ChangePosition(sel, _) => {
            let cards = resolve_v2_selector(sel, rt, player);
            let ghost m = *rt;
            let mut i: usize = 0;
            while i < cards.len()
                invariant
                    i <= cards@.len(),
                    rt.calls_of() == m.calls_of() + per_card(cards@.take(i as int), PerCard::ChangePosition),
                decreases cards.len() - i,
            {
                proof {
                    lemma_per_card_step(cards@, PerCard::ChangePosition, i as int);
                }
                rt.change_position(cards[i]);
                i += 1;
            }
            proof {
                assert(cards@.take(cards@.len() as int) =~= cards@);
                lemma_resolved_then(&*old(rt), *sel, player, cards@, per_card(cards@, PerCard::ChangePosition), &m, &*rt);
            }
        },
        Action::TakeControl(sel, duration) => {
            let cards = resolve_v2_selector(sel, rt, player);
            let ghost m = *rt;
            let d = runtime_duration(duration);
            let mut i: usize = 0;
            while i < cards.len()
                invariant
                    player < 2,
                    i <= cards@.len(),
                    rt.calls_of() == m.calls_of() + per_card(cards@.take(i as int), PerCard::TakeControl(player, d)),
                decreases cards.len() - i,
            {
                proof {
                    lemma_per_card_step(cards@, PerCard::TakeControl(player, d), i as int);
                }
                rt.take_control(cards[i], player, d);
                i += 1;
            }
            proof {
                assert(cards@.take(cards@.len() as int) =~= cards@);
                lemma_resolved_then(&*old(rt), *sel, player, cards@, per_card(cards@, PerCard::TakeControl(player, d)), &m, &*rt);
            }
        },
        Action::Equip(card_sel, target_sel) => {
            let equip_cards = resolve_v2_selector(card_sel, rt, player);
            let ghost m = *rt;
            let target_cards = resolve_v2_selector(target_sel, rt, player);
            let ghost m2 = *rt;
            match (first_of(&equip_cards), first_of(&target_cards)) {
                (Some(equip_id), Some(target_id)) => {
                    rt.equip_card(equip_id, target_id);
                    rt.set_binding("__equipped__", target_id);
                },
                _ => {},
            }
            proof {
                assert(m.calls_of() =~= m.calls_of() + Seq::empty());
                lemma_resolved_then(&*old(rt), *card_sel, player, equip_cards@, Seq::empty(), &m, &m);
                let tail = pair_calls(equip_cards@, target_cards@, true);
                assert(rt.calls_of() =~= m2.calls_of() + tail);
                lemma_resolved_then(&m, *target_sel, player, target_cards@, tail, &m2, &*rt);
                lemma_log_trans(&*old(rt), &m, &*rt);
            }
        },
        Action::ModifyStat(stat, sel, is_negative, expr, duration) => {
            let cards = resolve_v2_selector(sel, rt, player);
            let ghost m = *rt;
            let val = eval_v2_expr(expr, &*rt);
            let delta = if *is_negative { negate(val) } else { val };
            let d = runtime_duration(duration);
            let ghost k = stat_change(*stat, delta, d);
            let mut i: usize = 0;
            while i < cards.len()
                invariant
                    i <= cards@.len(),
                    k == stat_change(*stat, delta, d),
                    rt.calls_of() == m.calls_of() + per_card(cards@.take(i as int), k),
                decreases cards.len() - i,
            {
                proof {
                    lemma_per_card_step(cards@, k, i as int);
                }
                match stat {
                    StatName::Atk => rt.modify_atk(cards[i], delta, d),
                    StatName::Def => rt.modify_def(cards[i], delta, d),
                }
                i += 1;
            }
            proof {
                assert(cards@.take(cards@.len() as int) =~= cards@);
                assert(delta == stat_delta(&m, *is_negative, *expr));
                assert(m.calls_of() =~= m.calls_of() + Seq::empty());
                lemma_resolved_then(&*old(rt), *sel, player, cards@, Seq::empty(), &m, &m);
                lemma_log_append(&m, &*rt, per_card(cards@, k));
                lemma_log_trans(&*old(rt), &m, &*rt);
            }
        },
        Action::SetStat(stat, sel, expr, _) => {
            let cards = resolve_v2_selector(sel, rt, player);
            let ghost m = *rt;
            let val = eval_v2_expr(expr, &*rt);
            let ghost k = stat_set(*stat, val);
            let mut i: usize = 0;
            while i < cards.len()
                invariant
                    i <= cards@.len(),
                    k == stat_set(*stat, val),
                    rt.calls_of() == m.calls_of() + per_card(cards@.take(i as int), k),
                decreases cards.len() - i,
            {
                proof {
                    lemma_per_card_step(cards@, k, i as int);
                }
                match stat {
                    StatName::Atk => rt.set_atk(cards[i], val),
                    StatName::Def => rt.set_def(cards[i], val),
                }
                i += 1;
            }
            proof {
                assert(cards@.take(cards@.len() as int) =~= cards@);
                assert(m.calls_of() =~= m.calls_of() + Seq::empty());
                lemma_resolved_then(&*old(rt), *sel, player, cards@, Seq::empty(), &m, &m);
                lemma_log_append(&m, &*rt, per_card(cards@, k));
                lemma_log_trans(&*old(rt), &m, &*rt);
            }
        },
        Action::CreateToken(spec) => {
            let t = token_spec(spec);
            rt.create_token(player, &t);
            proof {
                let x = EngineCall::CreateToken(player, t);
                assert(rt.calls_of() =~= old(rt).calls_of() + seq![x]);
                lemma_log_append(&*old(rt), &*rt, seq![x]);
            }
        },
        Action::Return(sel, dest) => {
            let cards = resolve_v2_selector(sel, rt, player);
            let ghost m = *rt;
            match dest {
                ReturnDest::Hand => {
                    rt.return_to_hand(cards.as_slice());
                },
                ReturnDest::Owner => {
                    rt.return_to_owner(cards.as_slice());
                },
                ReturnDest::Deck(pos) => {
                    let top = match pos {
                        Some(DeckPosition::Bottom) => false,
                        _ => true,
                    };
                    rt.send_to_deck(cards.as_slice(), top);
                    match pos {
                        Some(DeckPosition::Shuffle) => rt.shuffle_deck(player),
                        _ => {},
                    }
                },
                ReturnDest::ExtraDeck => {
                    rt.send_to_deck(cards.as_slice(), false);
                },
            }
            proof {
                let tail = return_calls(*dest, cards@, player);
                assert(rt.calls_of() =~= m.calls_of() + tail);
                lemma_resolved_then(&*old(rt), *sel, player, cards@, tail, &m, &*rt);
            }
        },
        Action::Grant(sel, ability, duration) => {
            let cards = resolve_v2_selector(sel, rt, player);
            let ghost m = *rt;
            let grant_code = grant_to_code(ability);
            let dur_code = duration_to_code(duration);
            let mut i: usize = 0;
            while i < cards.len()
                invariant
                    i <= cards@.len(),
                    rt.calls_of() == m.calls_of() + per_card(cards@.take(i as int), PerCard::RegisterGrant(grant_code, dur_code)),
                decreases cards.len() - i,
            {
                proof {
                    lemma_per_card_step(cards@, PerCard::RegisterGrant(grant_code, dur_code), i as int);
                }
                rt.register_grant(cards[i], grant_code, dur_code);
                i += 1;
            }
            proof {
                assert(cards@.take(cards@.len() as int) =~= cards@);
                lemma_resolved_then(&*old(rt), *sel, player, cards@, per_card(cards@, PerCard::RegisterGrant(grant_code, dur_code)), &m, &*rt);
            }
        },
        Action::If { .. } => execute_branching_action(action, rt, player),
        Action::Then(_) | Action::Also(_) | Action::AndIfYouDo(_) => execute_branching_action(action, rt, player),
        Action::ChangeLevel(sel, expr) => {
            let cards = resolve_v2_selector(sel, rt, player);
            let ghost m = *rt;
            let val = eval_v2_expr(expr, &*rt) as u32;
            let mut i: usize = 0;
            while i < cards.len()
                invariant
                    i <= cards@.len(),
                    rt.calls_of() == m.calls_of() + per_card(cards@.take(i as int), PerCard::ChangeLevel(val)),
                decreases cards.len() - i,
            {
                proof {
                    lemma_per_card_step(cards@, PerCard::ChangeLevel(val), i as int);
                }
                rt.change_level(cards[i], val);
                i += 1;
            }
            proof {
                assert(cards@.take(cards@.len() as int) =~= cards@);
                assert(m.calls_of() =~= m.calls_of() + Seq::empty());
                lemma_resolved_then(&*old(rt), *sel, player, cards@, Seq::empty(), &m, &m);
                lemma_log_append(&m, &*rt, per_card(cards@, PerCard::ChangeLevel(val)));
                lemma_log_trans(&*old(rt), &m, &*rt);
            }
        },
        Action::ChangeAttribute(sel, attr) => {
            let cards = resolve_v2_selector(sel, rt, player);
            let ghost m = *rt;
            let attr_val = attribute_to_engine(attr);
            let mut i: usize = 0;
            while i < cards.len()
                invariant
                    i <= cards@.len(),
                    rt.calls_of() == m.calls_of() + per_card(cards@.take(i as int), PerCard::ChangeAttribute(attr_val)),
                decreases cards.len() - i,
            {
                proof {
                    lemma_per_card_step(cards@, PerCard::ChangeAttribute(attr_val), i as int);
                }
                rt.change_attribute(cards[i], attr_val);
                i += 1;
            }
            proof {
                assert(cards@.take(cards@.len() as int) =~= cards@);
                lemma_resolved_then(&*old(rt), *sel, player, cards@, per_card(cards@, PerCard::ChangeAttribute(attr_val)), &m, &*rt);
            }
        },
        Action::ChangeRace(sel, race) => {
            let cards = resolve_v2_selector(sel, rt, player);
            let ghost m = *rt;
            let race_val = race_to_engine(race);
            let mut i: usize = 0;
            while i < cards.len()
                invariant
                    i <= cards@.len(),
                    rt.calls_of() == m.calls_of() + per_card(cards@.take(i as int), PerCard::ChangeRace(race_val)),
                decreases cards.len() - i,
            {
                proof {
                    lemma_per_card_step(cards@, PerCard::ChangeRace(race_val), i as int);
                }
                rt.change_race(cards[i], race_val);
                i += 1;
            }
            proof {
                assert(cards@.take(cards@.len() as int) =~= cards@);
                lemma_resolved_then(&*old(rt), *sel, player, cards@, per_card(cards@, PerCard::ChangeRace(race_val)), &m, &*rt);
            }
        },
        Action::ChangeName(sel, name, _duration) => {
            let cards = resolve_v2_selector(sel, rt, player);
            let ghost m = *rt;
            let mut i: usize = 0;
            while i < cards.len()
                invariant
                    i <= cards@.len(),
                    rt.calls_of() == m.calls_of() + per_card(cards@.take(i as int), PerCard::ChangeName(name@, 0)),
                decreases cards.len() - i,
            {
                proof {
                    lemma_per_card_step(cards@, PerCard::ChangeName(name@, 0), i as int);
                }
                rt.change_name(cards[i], name.as_str(), 0);
                i += 1;
            }
            proof {
                assert(cards@.take(cards@.len() as int) =~= cards@);
                lemma_resolved_then(&*old(rt), *sel, player, cards@, per_card(cards@, PerCard::ChangeName(name@, 0)), &m, &*rt);
            }
        },
        Action::SetScale(sel, expr) => {
            let cards = resolve_v2_selector(sel, rt, player);
            let ghost m = *rt;
            let val = eval_v2_expr(expr, &*rt) as u32;
            let mut i: usize = 0;
            while i < cards.len()
                invariant
                    i <= cards@.len(),
                    rt.calls_of() == m.calls_of() + per_card(cards@.take(i as int), PerCard::SetScale(val)),
                decreases cards.len() - i,
            {
                proof {
                    lemma_per_card_step(cards@, PerCard::SetScale(val), i as int);
                }
                rt.set_scale(cards[i], val);
                i += 1;
            }
            proof {
                assert(cards@.take(cards@.len() as int) =~= cards@);
                assert(m.calls_of() =~= m.calls_of() + Seq::empty());
                lemma_resolved_then(&*old(rt), *sel, player, cards@, Seq::empty(), &m, &m);
                lemma_log_append(&m, &*rt, per_card(cards@, PerCard::SetScale(val)));
                lemma_log_trans(&*old(rt), &m, &*rt);
            }
        },
        Action::PlaceCounter(name, count, sel) => {
            let cards = resolve_v2_selector(sel, rt, player);
            let ghost m = *rt;
            let mut i: usize = 0;
            while i < cards.len()
                invariant
                    i <= cards@.len(),
                    rt.calls_of() == m.calls_of() + per_card(
                        cards@.take(i as int),
                        PerCard::PlaceCounter(name@, *count),
                    ),
                decreases cards.len() - i,
            {
                proof {
                    lemma_per_card_step(cards@, PerCard::PlaceCounter(name@, *count), i as int);
                }
                rt.place_counter(cards[i], name.as_str(), *count);
                i += 1;
            }
            proof {
                assert(cards@.take(cards@.len() as int) =~= cards@);
                lemma_resolved_then(
                    &*old(rt),
                    *sel,
                    player,
                    cards@,
                    per_card(cards@, PerCard::PlaceCounter(name@, *count)),
                    &m,
                    &*rt,
                );
            }
        },
        Action::RemoveCounter(name, count, sel) => {
            let cards = resolve_v2_selector(sel, rt, player);
            let ghost m = *rt;
            let mut i: usize = 0;
            while i < cards.len()
                invariant
                    i <= cards@.len(),
                    rt.calls_of() == m.calls_of() + per_card(
                        cards@.take(i as int),
                        PerCard::RemoveCounter(name@, *count),
                    ),
                decreases cards.len() - i,
            {
                proof {
                    lemma_per_card_step(cards@, PerCard::RemoveCounter(name@, *count), i as int);
                }
                rt.remove_counter(cards[i], name.as_str(), *count);
                i += 1;
            }
            proof {
                assert(cards@.take(cards@.len() as int) =~= cards@);
                lemma_resolved_then(
                    &*old(rt),
                    *sel,
                    player,
                    cards@,
                    per_card(cards@, PerCard::RemoveCounter(name@, *count)),
                    &m,
                    &*rt,
                );
            }
        },
        Action::Attach(material_sel, target_sel) => {
            let materials = resolve_v2_selector(material_sel, rt, player);
            let ghost m = *rt;
            let targets = resolve_v2_selector(target_sel, rt, player);
            let ghost m2 = *rt;
            match first_of(&targets) {
                Some(target_id) => {
                    let mut i: usize = 0;
                    while i < materials.len()
                        invariant
                            i <= materials@.len(),
                            rt.calls_of() == m2.calls_of() + per_card(
                                materials@.take(i as int),
                                PerCard::AttachTo(target_id),
                            ),
                        decreases materials.len() - i,
                    {
                        proof {
                            lemma_per_card_step(materials@, PerCard::AttachTo(target_id), i as int);
                        }
                        rt.attach_material(materials[i], target_id);
                        i += 1;
                    }
                    proof {
                        assert(materials@.take(materials@.len() as int) =~= materials@);
                    }
                },
                None => {},
            }
            proof {
                let tail = if targets@.len() > 0 {
                    per_card(materials@, PerCard::AttachTo(targets@[0]))
                } else {
                    Seq::empty()
                };
                assert(rt.calls_of() =~= m2.calls_of() + tail);
                assert(m.calls_of() =~= m.calls_of() + Seq::empty());
                lemma_resolved_then(&*old(rt), *material_sel, player, materials@, Seq::empty(), &m, &m);
                lemma_resolved_then(&m, *target_sel, player, targets@, tail, &m2, &*rt);
                lemma_log_trans(&*old(rt), &m, &*rt);
            }
        },
        Action::Detach(count, sel) => {
            let cards = resolve_v2_selector(sel, rt, player);
            let ghost m = *rt;
            match first_of(&cards) {
                Some(card_id) => {
                    rt.detach_material(card_id, *count);
                },
                None => {},
            }
            proof {
                let tail = if cards@.len() > 0 {
                    seq![EngineCall::DetachMaterial(cards@[0], *count)]
                } else {
                    Seq::empty()
                };
                assert(rt.calls_of() =~= m.calls_of() + tail);
                lemma_resolved_then(&*old(rt), *sel, player, cards@, tail, &m, &*rt);
            }
        },
        Action::Mill(expr, owner) => {
            let count = eval_v2_expr(expr, &*rt) as u32;
            let target_player = match owner {
                Some(DeckOwner::Opponents) => opponent,
                _ => player,
            };
            rt.mill(target_player, count);
            proof {
                let x = EngineCall::Mill(target_player, count);
                assert(rt.calls_of() =~= old(rt).calls_of() + seq![x]);
                lemma_log_append(&*old(rt), &*rt, seq![x]);
            }
        },
        Action::Excavate(expr, owner) => {
            let count = eval_v2_expr(expr, &*rt) as u32;
            let target_player = match owner {
                DeckOwner::Yours => player,
                DeckOwner::Opponents => opponent,
            };
            let _ = rt.excavate(target_player, count);
            proof {
                let x = EngineCall::Excavate(target_player, count);
                assert(rt.calls_of() =~= old(rt).calls_of() + seq![x]);
                lemma_log_append(&*old(rt), &*rt, seq![x]);
            }
        },
        Action::ShuffleDeck(owner) => {
            let target_player = match owner {
                Some(DeckOwner::Opponents) => opponent,
                _ => player,
            };
            rt.shuffle_deck(target_player);
            proof {
                let x = EngineCall::ShuffleDeck(target_player);
                assert(rt.calls_of() =~= old(rt).calls_of() + seq![x]);
                lemma_log_append(&*old(rt), &*rt, seq![x]);
            }
        },
        Action::Reveal(sel) => {
            let cards = resolve_v2_selector(sel, rt, player);
            let ghost m = *rt;
            rt.reveal_cards(cards.as_slice());
            proof {
                let tail = seq![EngineCall::RevealCards(cards@)];
                assert(rt.calls_of() =~= m.calls_of() + tail);
                lemma_resolved_then(&*old(rt), *sel, player, cards@, tail, &m, &*rt);
            }
        },
        Action::LookAt(sel, _zone) => {
            let cards = resolve_v2_selector(sel, rt, player);
            let ghost m = *rt;
            rt.look_at(player, cards.as_slice());
            proof {
                let tail = seq![EngineCall::LookAt(player, cards@)];
                assert(rt.calls_of() =~= m.calls_of() + tail);
                lemma_resolved_then(&*old(rt), *sel, player, cards@, tail, &m, &*rt);
            }
        },
        Action::Announce(what, _binding) => {
            let kind = announce_kind(what);
            rt.announce(player, kind, 0);
            proof {
                let x = EngineCall::Announce(player, kind, 0);
                assert(rt.calls_of() =~= old(rt).calls_of() + seq![x]);
                lemma_log_append(&*old(rt), &*rt, seq![x]);
            }
        },
        Action::CoinFlip { .. } => execute_branching_action(action, rt, player),
        Action::DiceRoll(_) => execute_branching_action(action, rt, player),
        Action::NormalSummon(sel) => {
            let cards = resolve_v2_selector(sel, rt, player);
            let ghost m = *rt;
            let mut i: usize = 0;
            while i < cards.len()
                invariant
                    player < 2,
                    i <= cards@.len(),
                    rt.calls_of() == m.calls_of() + per_card(cards@.take(i as int), PerCard::NormalSummon(player)),
                decreases cards.len() - i,
            {
                proof {
                    lemma_per_card_step(cards@, PerCard::NormalSummon(player), i as int);
                }
                rt.normal_summon(cards[i], player);
                i += 1;
            }
            proof {
                assert(cards@.take(cards@.len() as int) =~= cards@);
                lemma_resolved_then(&*old(rt), *sel, player, cards@, per_card(cards@, PerCard::NormalSummon(player)), &m, &*rt);
            }
        },
        Action::SetCard(sel, _zone) => {
            let cards = resolve_v2_selector(sel, rt, player);
            let ghost m = *rt;
            let mut i: usize = 0;
            while i < cards.len()
                invariant
                    player < 2,
                    i <= cards@.len(),
                    rt.calls_of() == m.calls_of() + per_card(cards@.take(i as int), PerCard::SetCard(player)),
                decreases cards.len() - i,
            {
                proof {
                    lemma_per_card_step(cards@, PerCard::SetCard(player), i as int);
                }
                rt.set_card(cards[i], player);
                i += 1;
            }
            proof {
                assert(cards@.take(cards@.len() as int) =~= cards@);
                lemma_resolved_then(&*old(rt), *sel, player, cards@, per_card(cards@, PerCard::SetCard(player)), &m, &*rt);
            }
        },
        Action::ForEach { .. } => execute_branching_action(action, rt, player),
        Action::Choose(_) => execute_branching_action(action, rt, player),
        Action::Delayed { .. } => execute_branching_action(action, rt, player),
        Action::InstallWatcher { name, .. } => {
            let mut event = "install_watcher:".to_owned();
            super::text::push_str(&mut event, name.as_str());
            let none: Vec<u32> = Vec::new();
            rt.raise_custom_event(event.as_str(), none.as_slice());
            proof {
                reveal_strlit("install_watcher:");
                assert(none@ =~= Seq::<u32>::empty());
                let x = EngineCall::RaiseCustomEvent(event@, none@);
                assert(rt.calls_of() =~= old(rt).calls_of() + seq![x]);
                lemma_log_append(&*old(rt), &*rt, seq![x]);
            }
        },
        Action::SwapControl(sel_a, sel_b) => {
            let a = resolve_v2_selector(sel_a, rt, player);
            let ghost m = *rt;
            let b = resolve_v2_selector(sel_b, rt, player);
            let ghost m2 = *rt;
            match (first_of(&a), first_of(&b)) {
                (Some(card_a), Some(card_b)) => rt.swap_control(card_a, card_b),
                _ => {},
            }
            proof {
                assert(m.calls_of() =~= m.calls_of() + Seq::empty());
                lemma_resolved_then(&*old(rt), *sel_a, player, a@, Seq::empty(), &m, &m);
                let tail = pair_calls(a@, b@, false);
                assert(rt.calls_of() =~= m2.calls_of() + tail);
                lemma_resolved_then(&m, *sel_b, player, b@, tail, &m2, &*rt);
                lemma_log_trans(&*old(rt), &m, &*rt);
            }
        },
        Action::SwapStats(sel) => {
            let cards = resolve_v2_selector(sel, rt, player);
            let ghost m = *rt;
            let mut i: usize = 0;
            while i < cards.len()
                invariant
                    i <= cards@.len(),
                    rt.calls_of() == m.calls_of() + per_card(cards@.take(i as int), PerCard::SwapStats),
                decreases cards.len() - i,
            {
                proof {
                    lemma_per_card_step(cards@, PerCard::SwapStats, i as int);
                }
                rt.swap_stats(cards[i]);
                i += 1;
            }
            proof {
                assert(cards@.take(cards@.len() as int) =~= cards@);
                lemma_resolved_then(&*old(rt), *sel, player, cards@, per_card(cards@, PerCard::SwapStats), &m, &*rt);
            }
        },
        Action::LinkTo(_, _) => {
            proof {
                lemma_log_same(&*old(rt), &*rt);
            }
        },
        Action::RitualSummon { target, materials, .. } => {
            let targets = resolve_v2_selector(target, rt, player);
            let ghost m = *rt;
            let mats = resolve_materials(materials, rt, player);
            let ghost m2 = *rt;
            match first_of(&targets) {
                Some(card_id) => {
                    rt.ritual_summon(card_id, player, mats.as_slice());
                },
                None => {},
            }
            proof {
                assert(rt.calls_of() =~= m2.calls_of() + summon_calls(SummonKind::Ritual, targets@, player, mats@));
                summon_log(&*old(rt), *target, *materials, player, SummonKind::Ritual, targets@, mats@, &m, &m2, &*rt);
            }
        },
        Action::FusionSummon { target, materials } => {
            let targets = resolve_v2_selector(target, rt, player);
            let ghost m = *rt;
            let mats = resolve_materials(materials, rt, player);
            let ghost m2 = *rt;
            match first_of(&targets) {
                Some(card_id) => {
                    rt.fusion_summon(card_id, player, mats.as_slice());
                },
                None => {},
            }
            proof {
                assert(rt.calls_of() =~= m2.calls_of() + summon_calls(SummonKind::Fusion, targets@, player, mats@));
                summon_log(&*old(rt), *target, *materials, player, SummonKind::Fusion, targets@, mats@, &m, &m2, &*rt);
            }
        },
        Action::SynchroSummon { target, materials } => {
            let targets = resolve_v2_selector(target, rt, player);
            let ghost m = *rt;
            let mats = resolve_materials(materials, rt, player);
            let ghost m2 = *rt;
            match first_of(&targets) {
                Some(card_id) => {
                    rt.synchro_summon(card_id, player, mats.as_slice());
                },
                None => {},
            }
            proof {
                assert(rt.calls_of() =~= m2.calls_of() + summon_calls(SummonKind::Synchro, targets@, player, mats@));
                summon_log(&*old(rt), *target, *materials, player, SummonKind::Synchro, targets@, mats@, &m, &m2, &*rt);
            }
        },
        Action::XyzSummon { target, materials } => {
            let targets = resolve_v2_selector(target, rt, player);
            let ghost m = *rt;
            let mats = resolve_materials(materials, rt, player);
            let ghost m2 = *rt;
            match first_of(&targets) {
                Some(card_id) => {
                    rt.xyz_summon(card_id, player, mats.as_slice());
                },
                None => {},
            }
            proof {
                assert(rt.calls_of() =~= m2.calls_of() + summon_calls(SummonKind::Xyz, targets@, player, mats@));
                summon_log(&*old(rt), *target, *materials, player, SummonKind::Xyz, targets@, mats@, &m, &m2, &*rt);
            }
        },
    }
}

// ── Operations ───────────────────────────────────────────────

/// The engine call a passive makes for one stat modifier of card `cid`.
pub open spec fn modifier_call(stat: StatName, cid: u32, v: i32) -> EngineCall {
    per_card_call(stat_change(stat, v, RuntimeDuration::Permanently), cid)
}

/// The calls of the first `n` modifiers, handed the values `vals`.
pub open spec fn modifier_calls(mods: Seq<super::ast::Modifier>, cid: u32, vals: Seq<i32>, n: nat) -> Seq<EngineCall>
    decreases n,
{
    if n == 0 {
        Seq::empty()
    } else {
        modifier_calls(mods, cid, vals, (n - 1) as nat).push(modifier_call(mods[n - 1].stat, cid, vals[n - 1]))
    }
}

proof fn lemma_modifier_calls_prefix(mods: Seq<super::ast::Modifier>, cid: u32, vals: Seq<i32>, more: Seq<i32>, n: nat)
    requires
        n <= vals.len(),
    ensures
        modifier_calls(mods, cid, vals + more, n) == modifier_calls(mods, cid, vals, n),
    decreases n,
{
    if n > 0 {
        lemma_modifier_calls_prefix(mods, cid, vals, more, (n - 1) as nat);
        assert((vals + more)[n - 1] == vals[n - 1]);
    }
}

/// The engine calls applying a passive block to card `cid` makes, handed
/// the values `vals`: one stat change per modifier, permanent; then the
/// set ATK and set DEF, if any; then the negation of effects, if asked.
pub open spec fn passive_calls(p: super::ast::Passive, cid: u32, vals: Seq<i32>) -> Seq<EngineCall> {
    let n = p.modifiers@.len();
    let set_atk = if p.set_atk is Some {
        seq![EngineCall::SetAtk(cid, vals[n as int])]
    } else {
        Seq::empty()
    };
    let k = n + set_atk.len();
    let set_def = if p.set_def is Some {
        seq![EngineCall::SetDef(cid, vals[k as int])]
    } else {
        Seq::empty()
    };
    let negate = if p.negate_effects {
        seq![EngineCall::NegateEffect]
    } else {
        Seq::empty()
    };
    modifier_calls(p.modifiers@, cid, vals, n) + set_atk + set_def + grant_calls(p.grants@, cid, 0, p.grants@.len()) + negate
}

/// The registrations of the first `n` grants on card `cid`, with duration
/// code `dur`, in order.
pub open spec fn grant_calls(grants: Seq<super::ast::GrantAbility>, cid: u32, dur: u32, n: nat) -> Seq<EngineCall>
    decreases n,
{
    if n == 0 {
        Seq::empty()
    } else {
        grant_calls(grants, cid, dur, (n - 1) as nat).push(
            EngineCall::RegisterGrant(cid, spec_grant_to_code(grants[n - 1]), dur),
        )
    }
}

fn run_passive<R: DuelScriptRuntime>(passive: &super::ast::Passive, cid: u32, rt: &mut R)
    ensures
        exists|vals: Seq<i32>| final(rt).calls_of() == old(rt).calls_of() + passive_calls(*passive, cid, vals),
{
    let ghost mut vals: Seq<i32> = Seq::empty();
    let mut i: usize = 0;
    while i < passive.modifiers.len()
        invariant
            i <= passive.modifiers@.len(),
            vals.len() == i,
            rt.calls_of() == old(rt).calls_of() + modifier_calls(passive.modifiers@, cid, vals, i as nat),
        decreases passive.modifiers.len() - i,
    {
        let m = &passive.modifiers[i];
        let delta = eval_v2_expr(&m.value, &*rt);
        let signed = if m.positive { delta } else { negate(delta) };
        match m.stat {
            StatName::Atk => rt.modify_atk(cid, signed, RuntimeDuration::Permanently),
            StatName::Def => rt.modify_def(cid, signed, RuntimeDuration::Permanently),
        }
        proof {
            let prev = vals;
            lemma_modifier_calls_prefix(passive.modifiers@, cid, prev, seq![signed], i as nat);
            vals = prev.push(signed);
            assert(vals =~= prev + seq![signed]);
            let n1 = (i + 1) as nat;
            assert((n1 - 1) as nat == i as nat);
            assert(modifier_calls(passive.modifiers@, cid, vals, n1) == modifier_calls(
                passive.modifiers@,
                cid,
                vals,
                i as nat,
            ).push(modifier_call(passive.modifiers@[i as int].stat, cid, signed)));
            assert(rt.calls_of() =~= old(rt).calls_of() + modifier_calls(passive.modifiers@, cid, vals, n1));
        }
        i += 1;
    }
    let ghost base = vals;
    let ghost mid = *rt;
    match &passive.set_atk {
        Some(expr) => {
            let val = eval_v2_expr(expr, &*rt);
            rt.set_atk(cid, val);
            proof {
                vals = vals.push(val);
            }
        },
        None => {},
    }
    match &passive.set_def {
        Some(expr) => {
            let val = eval_v2_expr(expr, &*rt);
            rt.set_def(cid, val);
            proof {
                vals = vals.push(val);
            }
        },
        None => {},
    }
    let ghost before_grants = *rt;
    let mut i: usize = 0;
    while i < passive.grants.len()
        invariant
            i <= passive.grants@.len(),
            rt.calls_of() == before_grants.calls_of() + grant_calls(passive.grants@, cid, 0, i as nat),
        decreases passive.grants.len() - i,
    {
        rt.register_grant(cid, grant_to_code(&passive.grants[i]), 0);
        proof {
            let n1 = (i + 1) as nat;
            assert((n1 - 1) as nat == i as nat);
            assert(grant_calls(passive.grants@, cid, 0, n1) == grant_calls(passive.grants@, cid, 0, i as nat).push(
                EngineCall::RegisterGrant(cid, spec_grant_to_code(passive.grants@[i as int]), 0),
            ));
            assert(rt.calls_of() =~= before_grants.calls_of() + grant_calls(passive.grants@, cid, 0, n1));
        }
        i += 1;
    }
    if passive.negate_effects {
        rt.negate_effect();
    }
    proof {
        let n = passive.modifiers@.len();
        assert(base.len() == n);
        lemma_modifier_calls_prefix(passive.modifiers@, cid, base, vals.subrange(n as int, vals.len() as int), n);
        assert(base + vals.subrange(n as int, vals.len() as int) =~= vals);
        assert(rt.calls_of() =~= old(rt).calls_of() + passive_calls(*passive, cid, vals));
    }
}

/// What running a compiled operation asks of the engine, from state `a`
/// to state `b`: the actions' calls, for the player who activated the
/// effect; a passive block's calls; one registration per grant; the
/// extra-deck or ritual summon of the card, for the activating player,
/// with no materials; and one special summon, in attack position, for a
/// special summon procedure.
pub open spec fn spec_operation_log<R: DuelScriptRuntime>(a: &R, b: &R, op: CompiledOperation) -> bool {
    match op {
        CompiledOperation::Actions(actions) => spec_list_log(a, b, actions@, a.effect_player_of()),
        CompiledOperation::Passive(p, cid) => exists|vals: Seq<i32>|
            b.calls_of() == a.calls_of() + passive_calls(*p, cid, vals),
        CompiledOperation::SpecialSummonProcedure(id, to_opponent) => b.calls_of() == a.calls_of().push(
            EngineCall::SpecialSummon(
                id,
                if to_opponent {
                    opponent_of(a.effect_player_of())
                } else {
                    a.effect_player_of()
                },
                0x1,
            ),
        ),
        CompiledOperation::Grants(grants, cid, dur) => b.calls_of() == a.calls_of() + grant_calls(
            grants@,
            cid,
            dur,
            grants@.len(),
        ),
        CompiledOperation::FusionSummon(id) => b.calls_of() == a.calls_of().push(
            EngineCall::FusionSummon(id, a.effect_player_of(), Seq::empty()),
        ),
        CompiledOperation::SynchroSummon(id) => b.calls_of() == a.calls_of().push(
            EngineCall::SynchroSummon(id, a.effect_player_of(), Seq::empty()),
        ),
        CompiledOperation::XyzSummon(id) => b.calls_of() == a.calls_of().push(
            EngineCall::XyzSummon(id, a.effect_player_of(), Seq::empty()),
        ),
        CompiledOperation::RitualSummon(id) => b.calls_of() == a.calls_of().push(
            EngineCall::RitualSummon(id, a.effect_player_of(), Seq::empty()),
        ),
    }
}

impl<'a> CompiledOperation<'a> {
    /// Run the operation against the runtime, for the player who activated
    /// the effect.
    pub fn run<R: DuelScriptRuntime>(&self, rt: &mut R)
        ensures
            spec_operation_log(&*old(rt), &*final(rt), *self),
    {
        match self {
            CompiledOperation::Actions(actions) => {
                let player = rt.effect_player();
                execute_all(actions, rt, player);
            },
            CompiledOperation::Passive(passive, cid) => run_passive(passive, *cid, rt),
            CompiledOperation::Grants(grants, cid, dur) => {
                let mut i: usize = 0;
                while i < grants.len()
                    invariant
                        i <= grants@.len(),
                        rt.calls_of() == old(rt).calls_of() + grant_calls(grants@, *cid, *dur, i as nat),
                    decreases grants.len() - i,
                {
                    rt.register_grant(*cid, grant_to_code(&grants[i]), *dur);
                    proof {
                        let n1 = (i + 1) as nat;
                        assert((n1 - 1) as nat == i as nat);
                        assert(grant_calls(grants@, *cid, *dur, n1) == grant_calls(grants@, *cid, *dur, i as nat).push(
                            EngineCall::RegisterGrant(*cid, spec_grant_to_code(grants@[i as int]), *dur),
                        ));
                        assert(rt.calls_of() =~= old(rt).calls_of() + grant_calls(grants@, *cid, *dur, n1));
                    }
                    i += 1;
                }
            },
            CompiledOperation::FusionSummon(id) => {
                let player = rt.effect_player();
                let none: Vec<u32> = Vec::new();
                rt.fusion_summon(*id, player, none.as_slice());
            },
            CompiledOperation::SynchroSummon(id) => {
                let player = rt.effect_player();
                let none: Vec<u32> = Vec::new();
                rt.synchro_summon(*id, player, none.as_slice());
            },
            CompiledOperation::XyzSummon(id) => {
                let player = rt.effect_player();
                let none: Vec<u32> = Vec::new();
                rt.xyz_summon(*id, player, none.as_slice());
            },
            CompiledOperation::RitualSummon(id) => {
                let player = rt.effect_player();
                let none: Vec<u32> = Vec::new();
                rt.ritual_summon(*id, player, none.as_slice());
            },
            CompiledOperation::SpecialSummonProcedure(id, to_opponent) => {
                let summoner = rt.effect_player();
                let target_player = if *to_opponent { 1 - summoner } else { summoner };
                rt.special_summon(*id, target_player, 0x1);
            },
        }
    }
}

} // verus!
