// The DuelScript v2 pretty-printer: writes a syntax tree back as canonical
// source text, which the parser reads back.

use vstd::prelude::*;
use super::ast::{
    Card, CardFields, Effect, File, Frequency, MaterialItem, OptKind, Passive, Redirect, Replacement,
    Scope, SpecialSummonProcedure, SummonBlock, Timing, LevelConstraintKind, Action, ChooseBlock, ChooseOption, Restriction, TokenSpec, CardFilter, Condition, ConditionAtom, CostAction, DeckOwner, DeckPosition, DestroyBy,
    Duration, Expr, FieldOwner, LpOwner, PhaseOwner, PlayerWho, Predicate, PredicateAtom, Quantity,
    ReturnDest, Selector, StatVal, Trigger, ZoneFilter,
};
use super::keywords::{
    arrow_name, field_target_name, redirect_scope_name, replaceable_event_name, spec_arrow_name,
    spec_field_target_name, spec_redirect_scope_name, spec_replaceable_event_name, announce_what_name, attribute_name, battle_position_name, bin_op_name, card_filter_kind_name,
    card_state_name, card_type_name, category_name, compare_op_name, controller_name,
    grant_ability_name, phase_name_name, player_who_name, position_filter_name, race_name,
    stat_field_name, stat_name_name, summon_method_name, zone_name, spec_announce_what_name,
    spec_attribute_name, spec_battle_position_name, spec_bin_op_name, spec_card_filter_kind_name,
    spec_card_state_name, spec_card_type_name, spec_category_name, spec_compare_op_name,
    spec_controller_name, spec_grant_ability_name, spec_phase_name_name, spec_player_who_name,
    spec_position_filter_name, spec_race_name, spec_stat_field_name, spec_stat_name_name,
    spec_summon_method_name, spec_zone_name,
};
use super::text::{contains_seq, decimal, occurs_at, push_char, push_digits, push_i64, push_str};

verus! {

// ── Writing helpers ──────────────────────────────────────────

proof fn lemma_take_all<T>(s: Seq<T>)
    ensures
        s.take(s.len() as int) == s,
{
    assert(s.take(s.len() as int) =~= s);
}

/// Appends `a` then `b`.
fn put2(out: &mut String, a: &str, b: &str)
    ensures
        final(out)@ == old(out)@ + a@ + b@,
{
    push_str(out, a);
    push_str(out, b);
}

/// Appends the decimal rendering of `n`.
fn put_num(out: &mut String, n: i64)
    ensures
        final(out)@ == old(out)@ + decimal(n as int),
{
    push_i64(out, n);
}

/// Appends `"s"`.
fn put_quoted(out: &mut String, s: &str)
    ensures
        final(out)@ == old(out)@ + quoted(s@),
{
    push_char(out, '"');
    push_str(out, s);
    push_char(out, '"');
    proof {
        assert(final(out)@ =~= old(out)@ + quoted(s@));
    }
}

pub open spec fn quoted(s: Seq<char>) -> Seq<char> {
    seq!['"'] + s + seq!['"']
}

// ── Small values ─────────────────────────────────────────────

/// `p` followed by the names of the items of `s`, joined by `sep`.
pub open spec fn join_w<T>(s: Seq<T>, f: spec_fn(T) -> Seq<char>, sep: Seq<char>, p: Seq<char>) -> Seq<char>
    decreases s.len(),
{
    if s.len() == 0 {
        p
    } else if s.len() == 1 {
        p + f(s[0])
    } else {
        join_w(s.drop_last(), f, sep, p) + sep + f(s.last())
    }
}

proof fn lemma_join_w_step<T>(s: Seq<T>, f: spec_fn(T) -> Seq<char>, sep: Seq<char>, p: Seq<char>, i: int)
    requires
        0 <= i < s.len(),
    ensures
        join_w(s.take(i + 1), f, sep, p) == if i == 0 {
            p + f(s[0])
        } else {
            join_w(s.take(i), f, sep, p) + sep + f(s[i])
        },
{
    assert(s.take(i + 1).drop_last() =~= s.take(i));
}

pub open spec fn quantity_w(q: Quantity, p: Seq<char>) -> Seq<char> {
    match q {
        Quantity::All => p + "all"@,
        Quantity::Exact(n) => p + decimal(n as int),
        Quantity::AtLeast(n) => p + decimal(n as int) + "+"@,
    }
}

fn fmt_quantity(q: Quantity, out: &mut String)
    ensures
        final(out)@ == quantity_w(q, old(out)@),
{
    match q {
        Quantity::All => push_str(out, "all"),
        Quantity::Exact(n) => put_num(out, n as i64),
        Quantity::AtLeast(n) => {
            put_num(out, n as i64);
            push_str(out, "+");
        },
    }
}

pub open spec fn card_filter_w(f: CardFilter, p: Seq<char>) -> Seq<char> {
    match f.name {
        Some(n) => p + quoted(n@) + " "@ + spec_card_filter_kind_name(f.kind),
        None => p + spec_card_filter_kind_name(f.kind),
    }
}

fn fmt_card_filter(f: &CardFilter, out: &mut String)
    ensures
        final(out)@ == card_filter_w(*f, old(out)@),
{
    match &f.name {
        Some(n) => {
            put_quoted(out, n.as_str());
            put2(out, " ", card_filter_kind_name(&f.kind));
        },
        None => push_str(out, card_filter_kind_name(&f.kind)),
    }
}

pub open spec fn zone_word() -> spec_fn(super::ast::Zone) -> Seq<char> {
    |z: super::ast::Zone| spec_zone_name(z)
}

/// Appends the names of `zones` joined by `sep`.
fn put_zones(out: &mut String, zones: &Vec<super::ast::Zone>, sep: &str)
    ensures
        final(out)@ == join_w(zones@, zone_word(), sep@, old(out)@),
{
    let ghost start = out@;
    let mut i: usize = 0;
    while i < zones.len()
        invariant
            i <= zones@.len(),
            out@ == join_w(zones@.take(i as int), zone_word(), sep@, start),
        decreases zones.len() - i,
    {
        proof {
            lemma_join_w_step(zones@, zone_word(), sep@, start, i as int);
        }
        if i > 0 {
            push_str(out, sep);
        }
        push_str(out, zone_name(&zones[i]));
        i += 1;
    }
    proof {
        lemma_take_all(zones@);
    }
}

pub open spec fn zone_filter_w(z: ZoneFilter, p: Seq<char>) -> Seq<char> {
    match z {
        ZoneFilter::In(zs) => join_w(zs@, zone_word(), " or "@, p + "in "@),
        ZoneFilter::From(zs) => join_w(zs@, zone_word(), " or "@, p + "from "@),
        ZoneFilter::OnField(FieldOwner::Your) => p + "on your field"@,
        ZoneFilter::OnField(FieldOwner::Opponent) => p + "on opponent field"@,
        ZoneFilter::OnField(FieldOwner::Either) => p + "on either field"@,
    }
}

fn fmt_zone_filter(z: &ZoneFilter, out: &mut String)
    ensures
        final(out)@ == zone_filter_w(*z, old(out)@),
{
    match z {
        ZoneFilter::In(zs) => {
            push_str(out, "in ");
            put_zones(out, zs, " or ");
        },
        ZoneFilter::From(zs) => {
            push_str(out, "from ");
            put_zones(out, zs, " or ");
        },
        ZoneFilter::OnField(FieldOwner::Your) => push_str(out, "on your field"),
        ZoneFilter::OnField(FieldOwner::Opponent) => push_str(out, "on opponent field"),
        ZoneFilter::OnField(FieldOwner::Either) => push_str(out, "on either field"),
    }
}

pub open spec fn spec_fmt_duration(d: Duration) -> Seq<char> {
    match d {
        Duration::ThisTurn => "this_turn"@,
        Duration::EndOfTurn => "end_of_turn"@,
        Duration::EndPhase => "end_phase"@,
        Duration::EndOfDamageStep => "end_of_damage_step"@,
        Duration::NextStandbyPhase => "next_standby_phase"@,
        Duration::WhileOnField => "while_on_field"@,
        Duration::WhileFaceUp => "while_face_up"@,
        Duration::Permanently => "permanently"@,
        Duration::NTurns(n) => decimal(n as int) + "_turns"@,
    }
}

pub open spec fn duration_w(d: Duration, p: Seq<char>) -> Seq<char> {
    match d {
        Duration::NTurns(n) => p + decimal(n as int) + "_turns"@,
        _ => p + spec_fmt_duration(d),
    }
}

fn fmt_duration(d: Duration, out: &mut String)
    ensures
        final(out)@ == duration_w(d, old(out)@),
{
    match d {
        Duration::ThisTurn => push_str(out, "this_turn"),
        Duration::EndOfTurn => push_str(out, "end_of_turn"),
        Duration::EndPhase => push_str(out, "end_phase"),
        Duration::EndOfDamageStep => push_str(out, "end_of_damage_step"),
        Duration::NextStandbyPhase => push_str(out, "next_standby_phase"),
        Duration::WhileOnField => push_str(out, "while_on_field"),
        Duration::WhileFaceUp => push_str(out, "while_face_up"),
        Duration::Permanently => push_str(out, "permanently"),
        Duration::NTurns(n) => {
            put_num(out, n as i64);
            push_str(out, "_turns");
        },
    }
}

pub open spec fn stat_val_w(v: StatVal, p: Seq<char>) -> Seq<char> {
    match v {
        StatVal::Number(n) => p + decimal(n as int),
        StatVal::Unknown => p + "?"@,
    }
}

fn fmt_stat_val(v: StatVal, out: &mut String)
    ensures
        final(out)@ == stat_val_w(v, old(out)@),
{
    match v {
        StatVal::Number(n) => put_num(out, n as i64),
        StatVal::Unknown => push_str(out, "?"),
    }
}

// ── Selectors, predicates, expressions ───────────────────────

/// `p` followed by the text of a selector.
pub open spec fn selector_w(s: Selector, p: Seq<char>) -> Seq<char>
    decreases s,
{
    match s {
        Selector::SelfCard => p + "self"@,
        Selector::Target => p + "target"@,
        Selector::EquippedCard => p + "equipped_card"@,
        Selector::NegatedCard => p + "negated_card"@,
        Selector::Searched => p + "searched"@,
        Selector::LinkedCard => p + "linked_card"@,
        Selector::Binding(name) => p + name@,
        Selector::Counted { quantity, filter, controller, zone, position, where_clause } => where_w(
            where_clause,
            counted_head_w(quantity, filter, controller, zone, position, p),
        ) + ")"@,
    }
}

/// `p` followed by `(quantity, filter` and the controller, zone and
/// position clauses of a counted selector.
pub open spec fn counted_head_w(
    quantity: Quantity,
    filter: CardFilter,
    controller: Option<super::ast::Controller>,
    zone: Option<ZoneFilter>,
    position: Option<super::ast::PositionFilter>,
    p: Seq<char>,
) -> Seq<char> {
    let q1 = card_filter_w(filter, quantity_w(quantity, p + "("@) + ", "@);
    let q2 = match controller {
        Some(c) => q1 + ", "@ + spec_controller_name(c),
        None => q1,
    };
    let q3 = match zone {
        Some(z) => zone_filter_w(z, q2 + ", "@),
        None => q2,
    };
    match position {
        Some(x) => q3 + ", "@ + spec_position_filter_name(x),
        None => q3,
    }
}

pub open spec fn where_w(where_clause: Option<Predicate>, p: Seq<char>) -> Seq<char>
    decreases where_clause,
{
    match where_clause {
        Some(pr) => predicate_w(pr, p + ", where "@),
        None => p,
    }
}

pub open spec fn predicate_w(pr: Predicate, p: Seq<char>) -> Seq<char>
    decreases pr,
{
    match pr {
        Predicate::Single(a) => pred_atom_w(a, p),
        Predicate::And(atoms) => pred_atoms_w(atoms@, " and "@, p),
        Predicate::Or(atoms) => pred_atoms_w(atoms@, " or "@, p),
    }
}

pub open spec fn pred_atoms_w(s: Seq<PredicateAtom>, sep: Seq<char>, p: Seq<char>) -> Seq<char>
    decreases s,
{
    if s.len() == 0 {
        p
    } else if s.len() == 1 {
        pred_atom_w(s[0], p)
    } else {
        pred_atom_w(s[s.len() - 1], pred_atoms_w(s.subrange(0, s.len() - 1), sep, p) + sep)
    }
}

pub open spec fn pred_atom_w(a: PredicateAtom, p: Seq<char>) -> Seq<char>
    decreases a,
{
    match a {
        PredicateAtom::Not(inner) => pred_atom_w(*inner, p + "not "@),
        PredicateAtom::StatCompare(f, op, e) => expr_w(
            e,
            p + spec_stat_field_name(f) + " "@ + spec_compare_op_name(op) + " "@,
        ),
        PredicateAtom::AttributeIs(x) => p + "attribute == "@ + spec_attribute_name(x),
        PredicateAtom::RaceIs(x) => p + "race == "@ + spec_race_name(x),
        PredicateAtom::TypeIs(x) => p + "type == "@ + spec_card_type_name(x),
        PredicateAtom::NameIs(s) => p + "name == "@ + quoted(s@),
        PredicateAtom::ArchetypeIs(s) => p + "archetype == "@ + quoted(s@),
        PredicateAtom::IsFaceUp => p + "is_face_up"@,
        PredicateAtom::IsFaceDown => p + "is_face_down"@,
        PredicateAtom::IsMonster => p + "is_monster"@,
        PredicateAtom::IsSpell => p + "is_spell"@,
        PredicateAtom::IsTrap => p + "is_trap"@,
        PredicateAtom::IsEffect => p + "is_effect"@,
        PredicateAtom::IsNormal => p + "is_normal"@,
        PredicateAtom::IsTuner => p + "is_tuner"@,
        PredicateAtom::IsFusion => p + "is_fusion"@,
        PredicateAtom::IsSynchro => p + "is_synchro"@,
        PredicateAtom::IsXyz => p + "is_xyz"@,
        PredicateAtom::IsLink => p + "is_link"@,
        PredicateAtom::IsRitual => p + "is_ritual"@,
        PredicateAtom::IsPendulum => p + "is_pendulum"@,
        PredicateAtom::IsToken => p + "is_token"@,
        PredicateAtom::IsFlip => p + "is_flip"@,
    }
}

/// `p` followed by the text of an expression.
pub open spec fn expr_w(e: Expr, p: Seq<char>) -> Seq<char>
    decreases e,
{
    match e {
        Expr::Literal(n) => p + decimal(n as int),
        Expr::Half => p + "half"@,
        Expr::StatRef(entity, f) => p + entity@ + "."@ + spec_stat_field_name(f),
        Expr::BindingRef(name, f) => p + name@ + "."@ + spec_stat_field_name(f),
        Expr::PlayerLp(LpOwner::Your) => p + "your_lp"@,
        Expr::PlayerLp(LpOwner::Opponent) => p + "opponent_lp"@,
        Expr::PlayerLp(LpOwner::Controller) => p + "controller_lp"@,
        Expr::Count(sel) => selector_w(*sel, p + "count("@) + ")"@,
        Expr::BinOp { left, op, right } => {
            let head = expr_w(*left, p) + " "@ + spec_bin_op_name(op) + " "@;
            match *right {
                Expr::BinOp { .. } => expr_w(*right, head + "("@) + ")"@,
                _ => expr_w(*right, head),
            }
        },
    }
}

fn fmt_selector(s: &Selector, out: &mut String)
    ensures
        final(out)@ == selector_w(*s, old(out)@),
    decreases s,
{
    match s {
        Selector::SelfCard => push_str(out, "self"),
        Selector::Target => push_str(out, "target"),
        Selector::EquippedCard => push_str(out, "equipped_card"),
        Selector::NegatedCard => push_str(out, "negated_card"),
        Selector::Searched => push_str(out, "searched"),
        Selector::LinkedCard => push_str(out, "linked_card"),
        Selector::Binding(name) => push_str(out, name.as_str()),
        Selector::Counted { quantity, filter, controller, zone, position, where_clause } => {
            fmt_counted_head(*quantity, filter, controller, zone, position, out);
            match where_clause {
                Some(pr) => {
                    push_str(out, ", where ");
                    fmt_predicate(pr, out);
                },
                None => {},
            }
            push_str(out, ")");
        },
    }
}

fn fmt_counted_head(
    quantity: Quantity,
    filter: &CardFilter,
    controller: &Option<super::ast::Controller>,
    zone: &Option<ZoneFilter>,
    position: &Option<super::ast::PositionFilter>,
    out: &mut String,
)
    ensures
        final(out)@ == counted_head_w(quantity, *filter, *controller, *zone, *position, old(out)@),
{
    push_str(out, "(");
    fmt_quantity(quantity, out);
    push_str(out, ", ");
    fmt_card_filter(filter, out);
    match controller {
        Some(c) => put2(out, ", ", controller_name(c)),
        None => {},
    }
    match zone {
        Some(z) => {
            push_str(out, ", ");
            fmt_zone_filter(z, out);
        },
        None => {},
    }
    match position {
        Some(x) => put2(out, ", ", position_filter_name(x)),
        None => {},
    }
}

fn fmt_predicate(pr: &Predicate, out: &mut String)
    ensures
        final(out)@ == predicate_w(*pr, old(out)@),
    decreases pr,
{
    match pr {
        Predicate::Single(a) => fmt_pred_atom(a, out),
        Predicate::And(atoms) => fmt_pred_atoms(atoms, " and ", out),
        Predicate::Or(atoms) => fmt_pred_atoms(atoms, " or ", out),
    }
}

fn fmt_pred_atoms(v: &Vec<PredicateAtom>, sep: &str, out: &mut String)
    ensures
        final(out)@ == pred_atoms_w(v@, sep@, old(out)@),
    decreases v,
{
    let ghost start = out@;
    let mut i: usize = 0;
    while i < v.len()
        invariant
            i <= v@.len(),
            out@ == pred_atoms_w(v@.subrange(0, i as int), sep@, start),
        decreases v.len() - i,
    {
        proof {
            assert(v@.subrange(0, i + 1).subrange(0, i as int) =~= v@.subrange(0, i as int));
        }
        if i > 0 {
            push_str(out, sep);
        }
        fmt_pred_atom(&v[i], out);
        i += 1;
    }
    proof {
        assert(v@.subrange(0, v@.len() as int) =~= v@);
    }
}

fn fmt_pred_atom(a: &PredicateAtom, out: &mut String)
    ensures
        final(out)@ == pred_atom_w(*a, old(out)@),
    decreases a,
{
    match a {
        PredicateAtom::Not(inner) => {
            push_str(out, "not ");
            fmt_pred_atom(inner, out);
        },
        PredicateAtom::StatCompare(f, op, e) => {
            put2(out, stat_field_name(f), " ");
            put2(out, compare_op_name(op), " ");
            fmt_expr(e, out);
        },
        PredicateAtom::AttributeIs(x) => put2(out, "attribute == ", attribute_name(x)),
        PredicateAtom::RaceIs(x) => put2(out, "race == ", race_name(x)),
        PredicateAtom::TypeIs(x) => put2(out, "type == ", card_type_name(x)),
        PredicateAtom::NameIs(s) => {
            push_str(out, "name == ");
            put_quoted(out, s.as_str());
        },
        PredicateAtom::ArchetypeIs(s) => {
            push_str(out, "archetype == ");
            put_quoted(out, s.as_str());
        },
        PredicateAtom::IsFaceUp => push_str(out, "is_face_up"),
        PredicateAtom::IsFaceDown => push_str(out, "is_face_down"),
        PredicateAtom::IsMonster => push_str(out, "is_monster"),
        PredicateAtom::IsSpell => push_str(out, "is_spell"),
        PredicateAtom::IsTrap => push_str(out, "is_trap"),
        PredicateAtom::IsEffect => push_str(out, "is_effect"),
        PredicateAtom::IsNormal => push_str(out, "is_normal"),
        PredicateAtom::IsTuner => push_str(out, "is_tuner"),
        PredicateAtom::IsFusion => push_str(out, "is_fusion"),
        PredicateAtom::IsSynchro => push_str(out, "is_synchro"),
        PredicateAtom::IsXyz => push_str(out, "is_xyz"),
        PredicateAtom::IsLink => push_str(out, "is_link"),
        PredicateAtom::IsRitual => push_str(out, "is_ritual"),
        PredicateAtom::IsPendulum => push_str(out, "is_pendulum"),
        PredicateAtom::IsToken => push_str(out, "is_token"),
        PredicateAtom::IsFlip => push_str(out, "is_flip"),
    }
}

fn fmt_expr(e: &Expr, out: &mut String)
    ensures
        final(out)@ == expr_w(*e, old(out)@),
    decreases e,
{
    match e {
        Expr::Literal(n) => put_num(out, *n as i64),
        Expr::Half => push_str(out, "half"),
        Expr::StatRef(entity, f) => {
            put2(out, entity.as_str(), ".");
            push_str(out, stat_field_name(f));
        },
        Expr::BindingRef(name, f) => {
            put2(out, name.as_str(), ".");
            push_str(out, stat_field_name(f));
        },
        Expr::PlayerLp(LpOwner::Your) => push_str(out, "your_lp"),
        Expr::PlayerLp(LpOwner::Opponent) => push_str(out, "opponent_lp"),
        Expr::PlayerLp(LpOwner::Controller) => push_str(out, "controller_lp"),
        Expr::Count(sel) => {
            push_str(out, "count(");
            fmt_selector(sel, out);
            push_str(out, ")");
        },
        Expr::BinOp { left, op, right } => {
            fmt_expr(left, out);
            push_str(out, " ");
            put2(out, bin_op_name(op), " ");
            match &**right {
                Expr::BinOp { .. } => {
                    push_str(out, "(");
                    fmt_expr(right, out);
                    push_str(out, ")");
                },
                _ => fmt_expr(right, out),
            }
        },
    }
}

// ── Conditions ───────────────────────────────────────────────

/// `p` followed by the text of a condition.
pub open spec fn condition_w(c: Condition, p: Seq<char>) -> Seq<char> {
    match c {
        Condition::Single(a) => cond_atom_w(a, p),
        Condition::And(atoms) => cond_atoms_w(atoms@, " and "@, p),
        Condition::Or(atoms) => cond_atoms_w(atoms@, " or "@, p),
    }
}

/// `p` followed by the atoms of `s` joined by `sep`.
pub open spec fn cond_atoms_w(s: Seq<ConditionAtom>, sep: Seq<char>, p: Seq<char>) -> Seq<char>
    decreases s.len(),
{
    if s.len() == 0 {
        p
    } else if s.len() == 1 {
        cond_atom_w(s[0], p)
    } else {
        cond_atom_w(s.last(), cond_atoms_w(s.drop_last(), sep, p) + sep)
    }
}

pub open spec fn category_word() -> spec_fn(super::ast::Category) -> Seq<char> {
    |c: super::ast::Category| spec_category_name(c)
}

/// `p` followed by `op expr`.
pub open spec fn comparison_w(op: super::ast::CompareOp, e: Expr, p: Seq<char>) -> Seq<char> {
    expr_w(e, p + spec_compare_op_name(op) + " "@)
}

/// `p` followed by the text of a condition atom.
pub open spec fn cond_atom_w(a: ConditionAtom, p: Seq<char>) -> Seq<char>
    decreases a,
{
    match a {
        ConditionAtom::Not(inner) => cond_atom_w(*inner, p + "not "@),
        ConditionAtom::SelfState(st) => p + "self "@ + spec_card_state_name(st),
        ConditionAtom::Controls(who, sel) => selector_w(sel, p + spec_player_who_name(who) + " controls "@),
        ConditionAtom::NoCardsOnField(kind, owner) => p + "no "@ + spec_card_filter_kind_name(kind) + " on "@
            + (match owner {
            FieldOwner::Your => "your"@,
            FieldOwner::Opponent => "opponent"@,
            FieldOwner::Either => "either"@,
        }) + " field"@,
        ConditionAtom::LpCompare(op, e) => comparison_w(op, e, p + "lp "@),
        ConditionAtom::OpponentLpCompare(op, e) => comparison_w(op, e, p + "opponent_lp "@),
        ConditionAtom::HandSize(op, e) => comparison_w(op, e, p + "hand_size "@),
        ConditionAtom::CardsInGy(op, e) => comparison_w(op, e, p + "cards_in_gy "@),
        ConditionAtom::CardsInBanished(op, e) => comparison_w(op, e, p + "cards_in_banished "@),
        ConditionAtom::OnField => p + "on_field"@,
        ConditionAtom::InGy => p + "in_gy"@,
        ConditionAtom::InHand => p + "in_hand"@,
        ConditionAtom::InBanished => p + "in_banished"@,
        ConditionAtom::PhaseIs(ph) => p + "phase == "@ + spec_phase_name_name(ph),
        ConditionAtom::ChainIncludes(cats) => join_w(cats@, category_word(), ", "@, p + "chain_includes ["@)
            + "]"@,
        ConditionAtom::HasCounter(name, op, threshold, _) => {
            let q = p + "has_counter "@ + quoted(name@);
            (match (op, threshold) {
                (Some(o), Some(t)) => comparison_w(o, t, q + " "@),
                _ => q,
            }) + " on self"@
        },
        ConditionAtom::HasFlag(name) => p + "has_flag "@ + quoted(name@),
    }
}

fn fmt_comparison(op: &super::ast::CompareOp, e: &Expr, out: &mut String)
    ensures
        final(out)@ == comparison_w(*op, *e, old(out)@),
{
    put2(out, compare_op_name(op), " ");
    fmt_expr(e, out);
}

/// Appends the names of `cats` joined by `, `.
fn put_categories(out: &mut String, cats: &Vec<super::ast::Category>)
    ensures
        final(out)@ == join_w(cats@, category_word(), ", "@, old(out)@),
{
    let ghost start = out@;
    let mut i: usize = 0;
    while i < cats.len()
        invariant
            i <= cats@.len(),
            out@ == join_w(cats@.take(i as int), category_word(), ", "@, start),
        decreases cats.len() - i,
    {
        proof {
            lemma_join_w_step(cats@, category_word(), ", "@, start, i as int);
        }
        if i > 0 {
            push_str(out, ", ");
        }
        push_str(out, category_name(&cats[i]));
        i += 1;
    }
    proof {
        lemma_take_all(cats@);
    }
}

fn fmt_condition_atom(a: &ConditionAtom, out: &mut String)
    ensures
        final(out)@ == cond_atom_w(*a, old(out)@),
    decreases a,
{
    match a {
        ConditionAtom::Not(inner) => {
            push_str(out, "not ");
            fmt_condition_atom(inner, out);
        },
        ConditionAtom::SelfState(st) => put2(out, "self ", card_state_name(st)),
        ConditionAtom::Controls(who, sel) => {
            put2(out, player_who_name(who), " controls ");
            fmt_selector(sel, out);
        },
        ConditionAtom::NoCardsOnField(kind, owner) => {
            put2(out, "no ", card_filter_kind_name(kind));
            push_str(out, " on ");
            match owner {
                FieldOwner::Your => push_str(out, "your"),
                FieldOwner::Opponent => push_str(out, "opponent"),
                FieldOwner::Either => push_str(out, "either"),
            }
            push_str(out, " field");
        },
        ConditionAtom::LpCompare(op, e) => {
            push_str(out, "lp ");
            fmt_comparison(op, e, out);
        },
        ConditionAtom::OpponentLpCompare(op, e) => {
            push_str(out, "opponent_lp ");
            fmt_comparison(op, e, out);
        },
        ConditionAtom::HandSize(op, e) => {
            push_str(out, "hand_size ");
            fmt_comparison(op, e, out);
        },
        ConditionAtom::CardsInGy(op, e) => {
            push_str(out, "cards_in_gy ");
            fmt_comparison(op, e, out);
        },
        ConditionAtom::CardsInBanished(op, e) => {
            push_str(out, "cards_in_banished ");
            fmt_comparison(op, e, out);
        },
        ConditionAtom::OnField => push_str(out, "on_field"),
        ConditionAtom::InGy => push_str(out, "in_gy"),
        ConditionAtom::InHand => push_str(out, "in_hand"),
        ConditionAtom::InBanished => push_str(out, "in_banished"),
        ConditionAtom::PhaseIs(ph) => put2(out, "phase == ", phase_name_name(ph)),
        ConditionAtom::ChainIncludes(cats) => {
            push_str(out, "chain_includes [");
            put_categories(out, cats);
            push_str(out, "]");
        },
        ConditionAtom::HasCounter(name, op, threshold, _) => {
            push_str(out, "has_counter ");
            put_quoted(out, name.as_str());
            match (op, threshold) {
                (Some(o), Some(t)) => {
                    push_str(out, " ");
                    fmt_comparison(o, t, out);
                },
                _ => {},
            }
            push_str(out, " on self");
        },
        ConditionAtom::HasFlag(name) => {
            push_str(out, "has_flag ");
            put_quoted(out, name.as_str());
        },
    }
}

fn fmt_condition(c: &Condition, out: &mut String)
    ensures
        final(out)@ == condition_w(*c, old(out)@),
{
    match c {
        Condition::Single(a) => fmt_condition_atom(a, out),
        Condition::And(atoms) => fmt_condition_atoms(atoms, " and ", out),
        Condition::Or(atoms) => fmt_condition_atoms(atoms, " or ", out),
    }
}

fn fmt_condition_atoms(v: &Vec<ConditionAtom>, sep: &str, out: &mut String)
    ensures
        final(out)@ == cond_atoms_w(v@, sep@, old(out)@),
{
    let ghost start = out@;
    let mut i: usize = 0;
    while i < v.len()
        invariant
            i <= v@.len(),
            out@ == cond_atoms_w(v@.take(i as int), sep@, start),
        decreases v.len() - i,
    {
        proof {
            assert(v@.take(i + 1).drop_last() =~= v@.take(i as int));
        }
        if i > 0 {
            push_str(out, sep);
        }
        fmt_condition_atom(&v[i], out);
        i += 1;
    }
    proof {
        lemma_take_all(v@);
    }
}

// ── Triggers ─────────────────────────────────────────────────

pub open spec fn spec_fmt_trigger(t: Trigger) -> Seq<char> {
    match t {
        Trigger::Summoned(None) => "summoned"@,
        Trigger::Summoned(Some(m)) => "summoned by "@ + spec_summon_method_name(m),
        Trigger::SpecialSummoned(None) => "special_summoned"@,
        Trigger::SpecialSummoned(Some(m)) => "special_summoned by "@ + spec_summon_method_name(m),
        Trigger::NormalSummoned => "normal_summoned"@,
        Trigger::TributeSummoned => "tribute_summoned"@,
        Trigger::FlipSummoned => "flip_summoned"@,
        Trigger::Flipped => "flipped"@,
        Trigger::Destroyed(None) => "destroyed"@,
        Trigger::Destroyed(Some(DestroyBy::Battle)) => "destroyed by battle"@,
        Trigger::Destroyed(Some(DestroyBy::Effect)) => "destroyed by effect"@,
        Trigger::Destroyed(Some(DestroyBy::CardEffect)) => "destroyed by card_effect"@,
        Trigger::DestroyedByBattle => "destroyed_by_battle"@,
        Trigger::DestroyedByEffect => "destroyed_by_effect"@,
        Trigger::DestroysByBattle => "destroys_by_battle"@,
        Trigger::SentTo(z, None) => "sent_to "@ + spec_zone_name(z),
        Trigger::SentTo(z, Some(f)) => "sent_to "@ + spec_zone_name(z) + " from "@ + spec_zone_name(f),
        Trigger::LeavesField => "leaves_field"@,
        Trigger::Banished => "banished"@,
        Trigger::ReturnedTo(z) => "returned_to "@ + spec_zone_name(z),
        Trigger::AttackDeclared => "attack_declared"@,
        Trigger::OpponentAttackDeclared => "opponent_attack_declared"@,
        Trigger::Attacked => "attacked"@,
        Trigger::BattleDamage(None) => "battle_damage"@,
        Trigger::BattleDamage(Some(PlayerWho::You)) => "battle_damage to you"@,
        Trigger::BattleDamage(Some(PlayerWho::Opponent)) => "battle_damage to opponent"@,
        Trigger::BattleDamage(Some(PlayerWho::Controller)) => "battle_damage to controller"@,
        Trigger::BattleDamage(Some(_)) => "battle_damage to either"@,
        Trigger::DirectAttackDamage => "direct_attack_damage"@,
        Trigger::DamageCalculation => "damage_calculation"@,
        Trigger::StandbyPhase(None) => "standby_phase"@,
        Trigger::StandbyPhase(Some(PhaseOwner::Yours)) => "standby_phase of yours"@,
        Trigger::StandbyPhase(Some(PhaseOwner::Opponents)) => "standby_phase of opponents"@,
        Trigger::StandbyPhase(Some(PhaseOwner::Either)) => "standby_phase of either"@,
        Trigger::EndPhase => "end_phase"@,
        Trigger::DrawPhase => "draw_phase"@,
        Trigger::MainPhase => "main_phase"@,
        Trigger::BattlePhase => "battle_phase"@,
        Trigger::SummonAttempt => "summon_attempt"@,
        Trigger::SpellTrapActivated => "spell_trap_activated"@,
        Trigger::OpponentActivates(cats) => if cats@.len() == 0 {
            "opponent_activates"@
        } else {
            "opponent_activates ["@ + join_w(cats@, category_word(), ", "@, Seq::empty()) + "]"@
        },
        Trigger::ChainLink => "chain_link"@,
        Trigger::Targeted => "targeted"@,
        Trigger::PositionChanged => "position_changed"@,
        Trigger::ControlChanged => "control_changed"@,
        Trigger::Equipped => "equipped"@,
        Trigger::Unequipped => "unequipped"@,
        Trigger::UsedAsMaterial(None) => "used_as_material"@,
        Trigger::UsedAsMaterial(Some(m)) => "used_as_material for "@ + spec_summon_method_name(m),
        Trigger::Custom(s) => "custom "@ + quoted(s@),
    }
}

fn fmt_trigger(t: &Trigger, out: &mut String)
    ensures
        final(out)@ == old(out)@ + spec_fmt_trigger(*t),
{
    match t {
        Trigger::Summoned(None) => push_str(out, "summoned"),
        Trigger::Summoned(Some(m)) => put2(out, "summoned by ", summon_method_name(m)),
        Trigger::SpecialSummoned(None) => push_str(out, "special_summoned"),
        Trigger::SpecialSummoned(Some(m)) => put2(out, "special_summoned by ", summon_method_name(m)),
        Trigger::NormalSummoned => push_str(out, "normal_summoned"),
        Trigger::TributeSummoned => push_str(out, "tribute_summoned"),
        Trigger::FlipSummoned => push_str(out, "flip_summoned"),
        Trigger::Flipped => push_str(out, "flipped"),
        Trigger::Destroyed(None) => push_str(out, "destroyed"),
        Trigger::Destroyed(Some(DestroyBy::Battle)) => push_str(out, "destroyed by battle"),
        Trigger::Destroyed(Some(DestroyBy::Effect)) => push_str(out, "destroyed by effect"),
        Trigger::Destroyed(Some(DestroyBy::CardEffect)) => push_str(out, "destroyed by card_effect"),
        Trigger::DestroyedByBattle => push_str(out, "destroyed_by_battle"),
        Trigger::DestroyedByEffect => push_str(out, "destroyed_by_effect"),
        Trigger::DestroysByBattle => push_str(out, "destroys_by_battle"),
        Trigger::SentTo(z, None) => put2(out, "sent_to ", zone_name(z)),
        Trigger::SentTo(z, Some(f)) => {
            put2(out, "sent_to ", zone_name(z));
            put2(out, " from ", zone_name(f));
        },
        Trigger::LeavesField => push_str(out, "leaves_field"),
        Trigger::Banished => push_str(out, "banished"),
        Trigger::ReturnedTo(z) => put2(out, "returned_to ", zone_name(z)),
        Trigger::AttackDeclared => push_str(out, "attack_declared"),
        Trigger::OpponentAttackDeclared => push_str(out, "opponent_attack_declared"),
        Trigger::Attacked => push_str(out, "attacked"),
        Trigger::BattleDamage(None) => push_str(out, "battle_damage"),
        Trigger::BattleDamage(Some(PlayerWho::You)) => push_str(out, "battle_damage to you"),
        Trigger::BattleDamage(Some(PlayerWho::Opponent)) => push_str(out, "battle_damage to opponent"),
        Trigger::BattleDamage(Some(PlayerWho::Controller)) => push_str(out, "battle_damage to controller"),
        Trigger::BattleDamage(Some(_)) => push_str(out, "battle_damage to either"),
        Trigger::DirectAttackDamage => push_str(out, "direct_attack_damage"),
        Trigger::DamageCalculation => push_str(out, "damage_calculation"),
        Trigger::StandbyPhase(None) => push_str(out, "standby_phase"),
        Trigger::StandbyPhase(Some(PhaseOwner::Yours)) => push_str(out, "standby_phase of yours"),
        Trigger::StandbyPhase(Some(PhaseOwner::Opponents)) => push_str(out, "standby_phase of opponents"),
        Trigger::StandbyPhase(Some(PhaseOwner::Either)) => push_str(out, "standby_phase of either"),
        Trigger::EndPhase => push_str(out, "end_phase"),
        Trigger::DrawPhase => push_str(out, "draw_phase"),
        Trigger::MainPhase => push_str(out, "main_phase"),
        Trigger::BattlePhase => push_str(out, "battle_phase"),
        Trigger::SummonAttempt => push_str(out, "summon_attempt"),
        Trigger::SpellTrapActivated => push_str(out, "spell_trap_activated"),
        Trigger::OpponentActivates(cats) => {
            if cats.len() == 0 {
                push_str(out, "opponent_activates");
            } else {
                let mut inner = String::new();
                put_categories(&mut inner, cats);
                push_str(out, "opponent_activates [");
                push_str(out, inner.as_str());
                push_str(out, "]");
            }
        },
        Trigger::ChainLink => push_str(out, "chain_link"),
        Trigger::Targeted => push_str(out, "targeted"),
        Trigger::PositionChanged => push_str(out, "position_changed"),
        Trigger::ControlChanged => push_str(out, "control_changed"),
        Trigger::Equipped => push_str(out, "equipped"),
        Trigger::Unequipped => push_str(out, "unequipped"),
        Trigger::UsedAsMaterial(None) => push_str(out, "used_as_material"),
        Trigger::UsedAsMaterial(Some(m)) => put2(out, "used_as_material for ", summon_method_name(m)),
        Trigger::Custom(s) => {
            push_str(out, "custom ");
            put_quoted(out, s.as_str());
        },
    }
    proof {
        assert(final(out)@ =~= old(out)@ + spec_fmt_trigger(*t));
    }
}

// ── Costs ────────────────────────────────────────────────────

pub open spec fn as_w(b: Option<String>, p: Seq<char>) -> Seq<char> {
    match b {
        Some(n) => p + " as "@ + n@,
        None => p,
    }
}

pub open spec fn from_w(z: Option<super::ast::Zone>, p: Seq<char>) -> Seq<char> {
    match z {
        Some(z) => p + " from "@ + spec_zone_name(z),
        None => p,
    }
}

/// `p` followed by the text of a cost.
pub open spec fn cost_w(c: CostAction, p: Seq<char>) -> Seq<char> {
    match c {
        CostAction::PayLp(e) => expr_w(e, p + "pay_lp "@),
        CostAction::Discard(s, b) => as_w(b, selector_w(s, p + "discard "@)),
        CostAction::Tribute(s, b) => as_w(b, selector_w(s, p + "tribute "@)),
        CostAction::Banish(s, z, b) => as_w(b, from_w(z, selector_w(s, p + "banish "@))),
        CostAction::Send(s, z, b) => as_w(b, selector_w(s, p + "send "@) + " to "@ + spec_zone_name(z)),
        CostAction::Detach(n, s) => selector_w(s, p + "detach "@ + decimal(n as int) + " from "@),
        CostAction::RemoveCounter(name, n, s) => selector_w(
            s,
            p + "remove_counter "@ + quoted(name@) + " "@ + decimal(n as int) + " from "@,
        ),
        CostAction::Reveal(s) => selector_w(s, p + "reveal "@),
        CostAction::Announce(w, b) => as_w(b, p + "announce "@ + spec_announce_what_name(w)),
        CostAction::NoCost => p + "none"@,
    }
}

fn put_as(b: &Option<String>, out: &mut String)
    ensures
        final(out)@ == as_w(*b, old(out)@),
{
    match b {
        Some(n) => put2(out, " as ", n.as_str()),
        None => {},
    }
}

fn put_from(z: &Option<super::ast::Zone>, out: &mut String)
    ensures
        final(out)@ == from_w(*z, old(out)@),
{
    match z {
        Some(z) => put2(out, " from ", zone_name(z)),
        None => {},
    }
}

fn fmt_cost(c: &CostAction, out: &mut String)
    ensures
        final(out)@ == cost_w(*c, old(out)@),
{
    match c {
        CostAction::PayLp(e) => {
            push_str(out, "pay_lp ");
            fmt_expr(e, out);
        },
        CostAction::Discard(s, b) => {
            push_str(out, "discard ");
            fmt_selector(s, out);
            put_as(b, out);
        },
        CostAction::Tribute(s, b) => {
            push_str(out, "tribute ");
            fmt_selector(s, out);
            put_as(b, out);
        },
        CostAction::Banish(s, z, b) => {
            push_str(out, "banish ");
            fmt_selector(s, out);
            put_from(z, out);
            put_as(b, out);
        },
        CostAction::Send(s, z, b) => {
            push_str(out, "send ");
            fmt_selector(s, out);
            put2(out, " to ", zone_name(z));
            put_as(b, out);
        },
        CostAction::Detach(n, s) => {
            push_str(out, "detach ");
            put_num(out, *n as i64);
            push_str(out, " from ");
            fmt_selector(s, out);
        },
        CostAction::RemoveCounter(name, n, s) => {
            push_str(out, "remove_counter ");
            put_quoted(out, name.as_str());
            push_str(out, " ");
            put_num(out, *n as i64);
            push_str(out, " from ");
            fmt_selector(s, out);
        },
        CostAction::Reveal(s) => {
            push_str(out, "reveal ");
            fmt_selector(s, out);
        },
        CostAction::Announce(w, b) => {
            put2(out, "announce ", announce_what_name(w));
            put_as(b, out);
        },
        CostAction::NoCost => push_str(out, "none"),
    }
}

// ── One-line actions ─────────────────────────────────────────
//
// From here on the specifications say what the text becomes after a piece
// is written onto text `p`.

pub open spec fn using_w(m: Option<Selector>, p: Seq<char>) -> Seq<char> {
    match m {
        Some(s) => selector_w(s, p + " using "@),
        None => p,
    }
}

pub open spec fn until_w(d: Option<Duration>, p: Seq<char>) -> Seq<char> {
    match d {
        Some(d) => duration_w(d, p + " until "@),
        None => p,
    }
}

pub open spec fn deck_word(o: DeckOwner) -> Seq<char> {
    match o {
        DeckOwner::Yours => "your_deck"@,
        DeckOwner::Opponents => "opponent_deck"@,
    }
}

pub open spec fn return_dest_word(d: ReturnDest) -> Seq<char> {
    match d {
        ReturnDest::Hand => "hand"@,
        ReturnDest::Deck(None) => "deck"@,
        ReturnDest::Deck(Some(DeckPosition::Top)) => "deck top"@,
        ReturnDest::Deck(Some(DeckPosition::Bottom)) => "deck bottom"@,
        ReturnDest::Deck(Some(DeckPosition::Shuffle)) => "deck shuffle"@,
        ReturnDest::ExtraDeck => "extra_deck"@,
        ReturnDest::Owner => "owner"@,
    }
}

/// `p` followed by the one-line text of a movement or summoning action.
pub open spec fn line_w(a: Action, p: Seq<char>) -> Seq<char> {
    match a {
        Action::Draw(e) => expr_w(e, p + "draw "@),
        Action::Discard(s) => selector_w(s, p + "discard "@),
        Action::Destroy(s) => selector_w(s, p + "destroy "@),
        Action::Banish(s, z, face_down) => {
            let q = from_w(z, selector_w(s, p + "banish "@));
            if face_down { q + " face_down"@ } else { q }
        },
        Action::Send(s, z) => selector_w(s, p + "send "@) + " to "@ + spec_zone_name(z),
        Action::Return(s, d) => selector_w(s, p + "return "@) + " to "@ + return_dest_word(d),
        Action::Search(s, z) => from_w(z, selector_w(s, p + "search "@)),
        Action::AddToHand(s, z) => from_w(z, selector_w(s, p + "add_to_hand "@)),
        Action::SpecialSummon(s, z, pos) => {
            let q = from_w(z, selector_w(s, p + "special_summon "@));
            match pos {
                Some(x) => q + " in "@ + spec_battle_position_name(x),
                None => q,
            }
        },
        Action::RitualSummon { target, materials, level_op, level_expr } => {
            let q = using_w(materials, selector_w(target, p + "ritual_summon "@));
            match (level_op, level_expr) {
                (Some(op), Some(e)) => comparison_w(op, e, q + " where total_level "@),
                _ => q,
            }
        },
        Action::FusionSummon { target, materials } => using_w(materials, selector_w(target, p + "fusion_summon "@)),
        Action::SynchroSummon { target, materials } => using_w(
            materials,
            selector_w(target, p + "synchro_summon "@),
        ),
        Action::XyzSummon { target, materials } => using_w(materials, selector_w(target, p + "xyz_summon "@)),
        Action::NormalSummon(s) => selector_w(s, p + "normal_summon "@),
        Action::SetCard(s, z) => from_w(z, selector_w(s, p + "set "@)),
        Action::FlipDown(s) => selector_w(s, p + "flip_down "@),
        Action::ChangePosition(s, pos) => {
            let q = selector_w(s, p + "change_position "@);
            match pos {
                Some(x) => q + " to "@ + spec_battle_position_name(x),
                None => q,
            }
        },
        Action::TakeControl(s, d) => until_w(d, selector_w(s, p + "take_control "@)),
        Action::Equip(x, y) => selector_w(y, selector_w(x, p + "equip "@) + " to "@),
        Action::Negate(and_destroy) => if and_destroy { p + "negate and destroy"@ } else { p + "negate"@ },
        Action::NegateEffects(s, d) => {
            let q = selector_w(s, p + "negate_effects "@);
            match d {
                Some(d) => duration_w(d, q + " "@),
                None => q,
            }
        },
        _ => line_more_w(a, p),
    }
}

/// `p` followed by the one-line text of any other one-line action.
pub open spec fn line_more_w(a: Action, p: Seq<char>) -> Seq<char> {
    match a {
        Action::Damage(who, e) => expr_w(e, p + "damage "@ + spec_player_who_name(who) + " "@),
        Action::GainLp(e) => expr_w(e, p + "gain_lp "@),
        Action::PayLp(e) => expr_w(e, p + "pay_lp "@),
        Action::ModifyStat(st, s, negative, e, d) => until_w(
            d,
            expr_w(
                e,
                selector_w(s, p + "modify_"@ + spec_stat_name_name(st) + " "@) + (if negative {
                    " - "@
                } else {
                    " + "@
                }),
            ),
        ),
        Action::SetStat(st, s, e, d) => until_w(
            d,
            expr_w(e, selector_w(s, p + "set_"@ + spec_stat_name_name(st) + " "@) + " "@),
        ),
        Action::ChangeLevel(s, e) => expr_w(e, selector_w(s, p + "change_level "@) + " to "@),
        Action::ChangeAttribute(s, x) => selector_w(s, p + "change_attribute "@) + " to "@ + spec_attribute_name(x),
        Action::ChangeRace(s, x) => selector_w(s, p + "change_race "@) + " to "@ + spec_race_name(x),
        Action::ChangeName(s, n, d) => until_w(d, selector_w(s, p + "change_name "@) + " to "@ + quoted(n@)),
        Action::SetScale(s, e) => expr_w(e, selector_w(s, p + "set_scale "@) + " to "@),
        Action::Attach(x, y) => selector_w(y, selector_w(x, p + "attach "@) + " to "@) + " as_material"@,
        Action::Detach(n, s) => selector_w(s, p + "detach "@ + decimal(n as int) + " from "@),
        Action::PlaceCounter(name, n, s) => selector_w(
            s,
            p + "place_counter "@ + quoted(name@) + " "@ + decimal(n as int) + " on "@,
        ),
        Action::RemoveCounter(name, n, s) => selector_w(
            s,
            p + "remove_counter "@ + quoted(name@) + " "@ + decimal(n as int) + " from "@,
        ),
        Action::Mill(e, o) => {
            let q = expr_w(e, p + "mill "@);
            match o {
                Some(o) => q + " from "@ + deck_word(o),
                None => q,
            }
        },
        Action::Excavate(e, o) => expr_w(e, p + "excavate "@) + " from "@ + deck_word(o),
        Action::Reveal(s) => selector_w(s, p + "reveal "@),
        Action::LookAt(s, z) => from_w(z, selector_w(s, p + "look_at "@)),
        Action::ShuffleDeck(None) => p + "shuffle_deck"@,
        Action::ShuffleDeck(Some(DeckOwner::Yours)) => p + "shuffle_deck yours"@,
        Action::ShuffleDeck(Some(DeckOwner::Opponents)) => p + "shuffle_deck opponents"@,
        Action::Announce(w, b) => as_w(b, p + "announce "@ + spec_announce_what_name(w)),
        Action::LinkTo(x, y) => selector_w(y, selector_w(x, p + "link "@) + " to "@),
        Action::Grant(s, g, d) => until_w(d, selector_w(s, p + "grant "@) + " "@ + spec_grant_ability_name(g)),
        Action::SwapControl(x, y) => selector_w(y, selector_w(x, p + "swap_control "@) + " and "@),
        Action::SwapStats(s) => selector_w(s, p + "swap_stats "@),
        _ => p,
    }
}

fn put_using(m: &Option<Selector>, out: &mut String)
    ensures
        final(out)@ == using_w(*m, old(out)@),
{
    match m {
        Some(s) => {
            push_str(out, " using ");
            fmt_selector(s, out);
        },
        None => {},
    }
}

fn put_until(d: &Option<Duration>, out: &mut String)
    ensures
        final(out)@ == until_w(*d, old(out)@),
{
    match d {
        Some(d) => {
            push_str(out, " until ");
            fmt_duration(*d, out);
        },
        None => {},
    }
}



fn deck_word_exec(o: DeckOwner) -> (r: &'static str)
    ensures
        r@ == deck_word(o),
{
    match o {
        DeckOwner::Yours => "your_deck",
        DeckOwner::Opponents => "opponent_deck",
    }
}

fn return_dest_exec(d: ReturnDest) -> (r: &'static str)
    ensures
        r@ == return_dest_word(d),
{
    match d {
        ReturnDest::Hand => "hand",
        ReturnDest::Deck(None) => "deck",
        ReturnDest::Deck(Some(DeckPosition::Top)) => "deck top",
        ReturnDest::Deck(Some(DeckPosition::Bottom)) => "deck bottom",
        ReturnDest::Deck(Some(DeckPosition::Shuffle)) => "deck shuffle",
        ReturnDest::ExtraDeck => "extra_deck",
        ReturnDest::Owner => "owner",
    }
}

fn put_line(a: &Action, out: &mut String)
    ensures
        final(out)@ == line_w(*a, old(out)@),
{
    match a {
        Action::Draw(e) => {
            push_str(out, "draw ");
            fmt_expr(e, out);
        },
        Action::Discard(s) => {
            push_str(out, "discard ");
            fmt_selector(s, out);
        },
        Action::Destroy(s) => {
            push_str(out, "destroy ");
            fmt_selector(s, out);
        },
        Action::Banish(s, z, face_down) => {
            push_str(out, "banish ");
            fmt_selector(s, out);
            put_from(z, out);
            if *face_down {
                push_str(out, " face_down");
            }
        },
        Action::Send(s, z) => {
            push_str(out, "send ");
            fmt_selector(s, out);
            put2(out, " to ", zone_name(z));
        },
        Action::Return(s, d) => {
            push_str(out, "return ");
            fmt_selector(s, out);
            put2(out, " to ", return_dest_exec(*d));
        },
        Action::Search(s, z) => {
            push_str(out, "search ");
            fmt_selector(s, out);
            put_from(z, out);
        },
        Action::AddToHand(s, z) => {
            push_str(out, "add_to_hand ");
            fmt_selector(s, out);
            put_from(z, out);
        },
        Action::SpecialSummon(s, z, pos) => {
            push_str(out, "special_summon ");
            fmt_selector(s, out);
            put_from(z, out);
            match pos {
                Some(x) => put2(out, " in ", battle_position_name(x)),
                None => {},
            }
        },
        Action::RitualSummon { target, materials, level_op, level_expr } => {
            push_str(out, "ritual_summon ");
            fmt_selector(target, out);
            put_using(materials, out);
            match (level_op, level_expr) {
                (Some(op), Some(e)) => {
                    push_str(out, " where total_level ");
                    fmt_comparison(op, e, out);
                },
                _ => {},
            }
        },
        Action::FusionSummon { target, materials } => {
            push_str(out, "fusion_summon ");
            fmt_selector(target, out);
            put_using(materials, out);
        },
        Action::SynchroSummon { target, materials } => {
            push_str(out, "synchro_summon ");
            fmt_selector(target, out);
            put_using(materials, out);
        },
        Action::XyzSummon { target, materials } => {
            push_str(out, "xyz_summon ");
            fmt_selector(target, out);
            put_using(materials, out);
        },
        Action::NormalSummon(s) => {
            push_str(out, "normal_summon ");
            fmt_selector(s, out);
        },
        Action::SetCard(s, z) => {
            push_str(out, "set ");
            fmt_selector(s, out);
            put_from(z, out);
        },
        Action::FlipDown(s) => {
            push_str(out, "flip_down ");
            fmt_selector(s, out);
        },
        Action::ChangePosition(s, pos) => {
            push_str(out, "change_position ");
            fmt_selector(s, out);
            match pos {
                Some(x) => put2(out, " to ", battle_position_name(x)),
                None => {},
            }
        },
        Action::TakeControl(s, d) => {
            push_str(out, "take_control ");
            fmt_selector(s, out);
            put_until(d, out);
        },
        Action::Equip(x, y) => {
            push_str(out, "equip ");
            fmt_selector(x, out);
            push_str(out, " to ");
            fmt_selector(y, out);
        },
        Action::Negate(and_destroy) => {
            if *and_destroy {
                push_str(out, "negate and destroy");
            } else {
                push_str(out, "negate");
            }
        },
        Action::NegateEffects(s, d) => {
            push_str(out, "negate_effects ");
            fmt_selector(s, out);
            match d {
                Some(d) => {
                    push_str(out, " ");
                    fmt_duration(*d, out);
                },
                None => {},
            }
        },
        _ => put_line_more(a, out),
    }
}

fn put_line_more(a: &Action, out: &mut String)
    ensures
        final(out)@ == line_more_w(*a, old(out)@),
{
    match a {
        Action::Damage(who, e) => {
            put2(out, "damage ", player_who_name(who));
            push_str(out, " ");
            fmt_expr(e, out);
        },
        Action::GainLp(e) => {
            push_str(out, "gain_lp ");
            fmt_expr(e, out);
        },
        Action::PayLp(e) => {
            push_str(out, "pay_lp ");
            fmt_expr(e, out);
        },
        Action::ModifyStat(st, s, negative, e, d) => {
            put2(out, "modify_", stat_name_name(st));
            push_str(out, " ");
            fmt_selector(s, out);
            if *negative {
                push_str(out, " - ");
            } else {
                push_str(out, " + ");
            }
            fmt_expr(e, out);
            put_until(d, out);
        },
        Action::SetStat(st, s, e, d) => {
            put2(out, "set_", stat_name_name(st));
            push_str(out, " ");
            fmt_selector(s, out);
            push_str(out, " ");
            fmt_expr(e, out);
            put_until(d, out);
        },
        Action::ChangeLevel(s, e) => {
            push_str(out, "change_level ");
            fmt_selector(s, out);
            push_str(out, " to ");
            fmt_expr(e, out);
        },
        Action::ChangeAttribute(s, x) => {
            push_str(out, "change_attribute ");
            fmt_selector(s, out);
            put2(out, " to ", attribute_name(x));
        },
        Action::ChangeRace(s, x) => {
            push_str(out, "change_race ");
            fmt_selector(s, out);
            put2(out, " to ", race_name(x));
        },
        Action::ChangeName(s, n, d) => {
            push_str(out, "change_name ");
            fmt_selector(s, out);
            push_str(out, " to ");
            put_quoted(out, n.as_str());
            put_until(d, out);
        },
        Action::SetScale(s, e) => {
            push_str(out, "set_scale ");
            fmt_selector(s, out);
            push_str(out, " to ");
            fmt_expr(e, out);
        },
        Action::Attach(x, y) => {
            push_str(out, "attach ");
            fmt_selector(x, out);
            push_str(out, " to ");
            fmt_selector(y, out);
            push_str(out, " as_material");
        },
        Action::Detach(n, s) => {
            push_str(out, "detach ");
            put_num(out, *n as i64);
            push_str(out, " from ");
            fmt_selector(s, out);
        },
        Action::PlaceCounter(name, n, s) => {
            push_str(out, "place_counter ");
            put_quoted(out, name.as_str());
            push_str(out, " ");
            put_num(out, *n as i64);
            push_str(out, " on ");
            fmt_selector(s, out);
        },
        Action::RemoveCounter(name, n, s) => {
            push_str(out, "remove_counter ");
            put_quoted(out, name.as_str());
            push_str(out, " ");
            put_num(out, *n as i64);
            push_str(out, " from ");
            fmt_selector(s, out);
        },
        Action::Mill(e, o) => {
            push_str(out, "mill ");
            fmt_expr(e, out);
            match o {
                Some(o) => put2(out, " from ", deck_word_exec(*o)),
                None => {},
            }
        },
        Action::Excavate(e, o) => {
            push_str(out, "excavate ");
            fmt_expr(e, out);
            put2(out, " from ", deck_word_exec(*o));
        },
        Action::Reveal(s) => {
            push_str(out, "reveal ");
            fmt_selector(s, out);
        },
        Action::LookAt(s, z) => {
            push_str(out, "look_at ");
            fmt_selector(s, out);
            put_from(z, out);
        },
        Action::ShuffleDeck(None) => push_str(out, "shuffle_deck"),
        Action::ShuffleDeck(Some(DeckOwner::Yours)) => push_str(out, "shuffle_deck yours"),
        Action::ShuffleDeck(Some(DeckOwner::Opponents)) => push_str(out, "shuffle_deck opponents"),
        Action::Announce(w, b) => {
            put2(out, "announce ", announce_what_name(w));
            put_as(b, out);
        },
        Action::LinkTo(x, y) => {
            push_str(out, "link ");
            fmt_selector(x, out);
            push_str(out, " to ");
            fmt_selector(y, out);
        },
        Action::Grant(s, g, d) => {
            push_str(out, "grant ");
            fmt_selector(s, out);
            put2(out, " ", grant_ability_name(g));
            put_until(d, out);
        },
        Action::SwapControl(x, y) => {
            push_str(out, "swap_control ");
            fmt_selector(x, out);
            push_str(out, " and ");
            fmt_selector(y, out);
        },
        Action::SwapStats(s) => {
            push_str(out, "swap_stats ");
            fmt_selector(s, out);
        },
        _ => {},
    }
}

// ── Indented blocks ──────────────────────────────────────────

/// `pad` and four more spaces.
fn deeper(pad: &String) -> (r: String)
    ensures
        r@ == pad@ + "    "@,
{
    let mut r = pad.clone();
    push_str(&mut r, "    ");
    r
}

/// `p` followed by ` "name"` when there is a name.
pub open spec fn name_w(name: Option<String>, p: Seq<char>) -> Seq<char> {
    match name {
        Some(n) => p + " "@ + quoted(n@),
        None => p,
    }
}

fn put_name(name: &Option<String>, out: &mut String)
    ensures
        final(out)@ == name_w(*name, old(out)@),
{
    match name {
        Some(n) => {
            push_str(out, " ");
            put_quoted(out, n.as_str());
        },
        None => {},
    }
}

/// `p` followed by one line per cost, each indented by `pad`.
pub open spec fn costs_w(s: Seq<CostAction>, pad: Seq<char>, p: Seq<char>) -> Seq<char>
    decreases s.len(),
{
    if s.len() == 0 {
        p
    } else {
        cost_w(s.last(), costs_w(s.drop_last(), pad, p) + pad) + "\n"@
    }
}

fn fmt_costs(v: &Vec<CostAction>, pad: &str, out: &mut String)
    ensures
        final(out)@ == costs_w(v@, pad@, old(out)@),
{
    let ghost start = out@;
    let mut i: usize = 0;
    while i < v.len()
        invariant
            i <= v@.len(),
            out@ == costs_w(v@.take(i as int), pad@, start),
        decreases v.len() - i,
    {
        proof {
            assert(v@.take(i + 1).drop_last() =~= v@.take(i as int));
        }
        push_str(out, pad);
        fmt_cost(&v[i], out);
        push_str(out, "\n");
        i += 1;
    }
    proof {
        lemma_take_all(v@);
    }
}

/// `p` followed by one line per ability, each indented by `pad`.
pub open spec fn abilities_w(s: Seq<super::ast::GrantAbility>, pad: Seq<char>, p: Seq<char>) -> Seq<char>
    decreases s.len(),
{
    if s.len() == 0 {
        p
    } else {
        abilities_w(s.drop_last(), pad, p) + pad + spec_grant_ability_name(s.last()) + "\n"@
    }
}

fn fmt_abilities(v: &Vec<super::ast::GrantAbility>, pad: &str, out: &mut String)
    ensures
        final(out)@ == abilities_w(v@, pad@, old(out)@),
{
    let ghost start = out@;
    let mut i: usize = 0;
    while i < v.len()
        invariant
            i <= v@.len(),
            out@ == abilities_w(v@.take(i as int), pad@, start),
        decreases v.len() - i,
    {
        proof {
            assert(v@.take(i + 1).drop_last() =~= v@.take(i as int));
        }
        put2(out, pad, grant_ability_name(&v[i]));
        push_str(out, "\n");
        i += 1;
    }
    proof {
        lemma_take_all(v@);
    }
}

/// `p` followed by a restriction block indented by `pad`.
pub open spec fn restriction_w(r: Restriction, pad: Seq<char>, p: Seq<char>) -> Seq<char> {
    let inner = pad + "    "@;
    let q0 = name_w(r.name, p + "\n"@ + pad + "restriction"@) + " {\n"@;
    let q1 = match r.apply_to {
        Some(w) => q0 + inner + "apply_to: "@ + spec_player_who_name(w) + "\n"@,
        None => q0,
    };
    let q2 = match r.target {
        Some(s) => selector_w(s, q1 + inner + "target: "@) + "\n"@,
        None => q1,
    };
    let q3 = abilities_w(r.abilities@, inner, q2);
    let q4 = match r.duration {
        Some(d) => duration_w(d, q3 + inner + "duration: "@) + "\n"@,
        None => q3,
    };
    let q5 = match r.trigger {
        Some(t) => q4 + inner + "trigger: "@ + spec_fmt_trigger(t) + "\n"@,
        None => q4,
    };
    let q6 = match r.condition {
        Some(c) => condition_w(c, q5 + inner + "condition: "@) + "\n"@,
        None => q5,
    };
    q6 + pad + "}\n"@
}

fn fmt_restriction(r: &Restriction, pad: &String, out: &mut String)
    ensures
        final(out)@ == restriction_w(*r, pad@, old(out)@),
{
    let inner = deeper(pad);
    put2(out, "\n", pad.as_str());
    push_str(out, "restriction");
    put_name(&r.name, out);
    push_str(out, " {\n");
    match r.apply_to {
        Some(w) => {
            put2(out, inner.as_str(), "apply_to: ");
            put2(out, player_who_name(&w), "\n");
        },
        None => {},
    }
    match &r.target {
        Some(s) => {
            put2(out, inner.as_str(), "target: ");
            fmt_selector(s, out);
            push_str(out, "\n");
        },
        None => {},
    }
    fmt_abilities(&r.abilities, inner.as_str(), out);
    match r.duration {
        Some(d) => {
            put2(out, inner.as_str(), "duration: ");
            fmt_duration(d, out);
            push_str(out, "\n");
        },
        None => {},
    }
    match &r.trigger {
        Some(t) => {
            put2(out, inner.as_str(), "trigger: ");
            fmt_trigger(t, out);
            push_str(out, "\n");
        },
        None => {},
    }
    match &r.condition {
        Some(c) => {
            put2(out, inner.as_str(), "condition: ");
            fmt_condition(c, out);
            push_str(out, "\n");
        },
        None => {},
    }
    put2(out, pad.as_str(), "}\n");
}

/// `p` followed by a `create_token` block indented by `pad`.
pub open spec fn token_w(t: TokenSpec, pad: Seq<char>, p: Seq<char>) -> Seq<char> {
    let inner = pad + "    "@;
    let q0 = p + pad + "create_token {\n"@;
    let q1 = match t.name {
        Some(n) => q0 + inner + "name: "@ + quoted(n@) + "\n"@,
        None => q0,
    };
    let q2 = match t.attribute {
        Some(a) => q1 + inner + "attribute: "@ + spec_attribute_name(a) + "\n"@,
        None => q1,
    };
    let q3 = match t.race {
        Some(a) => q2 + inner + "race: "@ + spec_race_name(a) + "\n"@,
        None => q2,
    };
    let q4 = match t.level {
        Some(l) => q3 + inner + "level: "@ + decimal(l as int) + "\n"@,
        None => q3,
    };
    let q5 = stat_val_w(t.atk, q4 + inner + "atk: "@) + "\n"@;
    let q6 = stat_val_w(t.def, q5 + inner + "def: "@) + "\n"@;
    let q7 = q6 + inner + "count: "@ + decimal(t.count as int) + "\n"@;
    let q8 = match t.position {
        Some(x) => q7 + inner + "position: "@ + spec_battle_position_name(x) + "\n"@,
        None => q7,
    };
    let q9 = match t.restriction {
        Some(r) => restriction_w(r, inner, q8),
        None => q8,
    };
    q9 + pad + "}\n"@
}

fn fmt_token(t: &TokenSpec, pad: &String, out: &mut String)
    ensures
        final(out)@ == token_w(*t, pad@, old(out)@),
{
    let inner = deeper(pad);
    put2(out, pad.as_str(), "create_token {\n");
    match &t.name {
        Some(n) => {
            put2(out, inner.as_str(), "name: ");
            put_quoted(out, n.as_str());
            push_str(out, "\n");
        },
        None => {},
    }
    match t.attribute {
        Some(a) => {
            put2(out, inner.as_str(), "attribute: ");
            put2(out, attribute_name(&a), "\n");
        },
        None => {},
    }
    match t.race {
        Some(a) => {
            put2(out, inner.as_str(), "race: ");
            put2(out, race_name(&a), "\n");
        },
        None => {},
    }
    match t.level {
        Some(l) => {
            put2(out, inner.as_str(), "level: ");
            put_num(out, l as i64);
            push_str(out, "\n");
        },
        None => {},
    }
    put2(out, inner.as_str(), "atk: ");
    fmt_stat_val(t.atk, out);
    push_str(out, "\n");
    put2(out, inner.as_str(), "def: ");
    fmt_stat_val(t.def, out);
    push_str(out, "\n");
    put2(out, inner.as_str(), "count: ");
    put_num(out, t.count as i64);
    push_str(out, "\n");
    match t.position {
        Some(x) => {
            put2(out, inner.as_str(), "position: ");
            put2(out, battle_position_name(&x), "\n");
        },
        None => {},
    }
    match &t.restriction {
        Some(r) => fmt_restriction(r, &inner, out),
        None => {},
    }
    put2(out, pad.as_str(), "}\n");
}

/// `p` followed by an action written at indentation `pad`.
pub open spec fn action_w(a: Action, pad: Seq<char>, p: Seq<char>) -> Seq<char>
    decreases a,
{
    let inner = pad + "    "@;
    match a {
        Action::CoinFlip { heads, tails } => {
            let q0 = p + pad + "flip_coin {\n"@ + inner + "heads {\n"@;
            let q1 = actions_w(heads@, inner + "    "@, q0) + inner + "}\n"@ + inner + "tails {\n"@;
            actions_w(tails@, inner + "    "@, q1) + inner + "}\n"@ + pad + "}\n"@
        },
        Action::DiceRoll(b) => actions_w(b@, inner, p + pad + "roll_dice {\n"@) + pad + "}\n"@,
        Action::If { condition, then, otherwise } => {
            let q = actions_w(then@, inner, condition_w(condition, p + pad + "if ("@) + ") {\n"@);
            let q2 = if otherwise@.len() > 0 {
                actions_w(otherwise@, inner, q + pad + "} else {\n"@)
            } else {
                q
            };
            q2 + pad + "}\n"@
        },
        Action::ForEach { selector, zone, body } => actions_w(
            body@,
            inner,
            selector_w(selector, p + pad + "for_each "@) + " in "@ + spec_zone_name(zone) + " {\n"@,
        ) + pad + "}\n"@,
        Action::Choose(b) => choose_w(b, pad, p),
        Action::Delayed { until, body } => actions_w(
            body@,
            inner,
            p + pad + "delayed until "@ + spec_phase_name_name(until) + " {\n"@,
        ) + pad + "}\n"@,
        Action::AndIfYouDo(b) => actions_w(b@, inner, p + pad + "and_if_you_do {\n"@) + pad + "}\n"@,
        Action::Then(b) => actions_w(b@, inner, p + pad + "then {\n"@) + pad + "}\n"@,
        Action::Also(b) => actions_w(b@, inner, p + pad + "also {\n"@) + pad + "}\n"@,
        Action::InstallWatcher { name, event, duration, check } => {
            let q0 = p + pad + "install_watcher "@ + quoted(name@) + " {\n"@ + inner + "event: "@ + spec_fmt_trigger(
                event,
            ) + "\n"@;
            let q1 = duration_w(duration, q0 + inner + "duration: "@) + "\n"@ + inner + "check {\n"@;
            actions_w(check@, inner + "    "@, q1) + inner + "}\n"@ + pad + "}\n"@
        },
        Action::CreateToken(t) => token_w(t, pad, p),
        _ => line_w(a, p + pad) + "\n"@,
    }
}

/// `p` followed by the actions of `s`, each at indentation `pad`.
pub open spec fn actions_w(s: Seq<Action>, pad: Seq<char>, p: Seq<char>) -> Seq<char>
    decreases s,
{
    if s.len() == 0 {
        p
    } else {
        action_w(s[s.len() - 1], pad, actions_w(s.subrange(0, s.len() - 1), pad, p))
    }
}

/// `p` followed by a `choose` block at indentation `pad`.
pub open spec fn choose_w(b: ChooseBlock, pad: Seq<char>, p: Seq<char>) -> Seq<char>
    decreases b,
{
    options_w(b.options@, pad + "    "@, p + pad + "choose {\n"@) + pad + "}\n"@
}

pub open spec fn options_w(s: Seq<ChooseOption>, pad: Seq<char>, p: Seq<char>) -> Seq<char>
    decreases s,
{
    if s.len() == 0 {
        p
    } else {
        option_w(s[s.len() - 1], pad, options_w(s.subrange(0, s.len() - 1), pad, p))
    }
}

pub open spec fn option_w(o: ChooseOption, pad: Seq<char>, p: Seq<char>) -> Seq<char>
    decreases o,
{
    let oi = pad + "    "@;
    let q0 = p + pad + "option "@ + quoted(o.label@) + " {\n"@;
    let q1 = match o.target {
        Some(t) => as_w(t.binding, selector_w(t.selector, q0 + oi + "target "@)) + "\n"@,
        None => q0,
    };
    let q2 = if o.cost@.len() > 0 {
        costs_w(o.cost@, oi + "    "@, q1 + oi + "cost {\n"@) + oi + "}\n"@
    } else {
        q1
    };
    let q3 = match o.trigger {
        Some(t) => q2 + oi + "trigger: "@ + spec_fmt_trigger(t) + "\n"@,
        None => q2,
    };
    let q4 = if o.resolve@.len() > 0 {
        actions_w(o.resolve@, oi + "    "@, q3 + oi + "resolve {\n"@) + oi + "}\n"@
    } else {
        q3
    };
    q4 + pad + "}\n"@
}

fn fmt_action(a: &Action, pad: &String, out: &mut String)
    ensures
        final(out)@ == action_w(*a, pad@, old(out)@),
    decreases a,
{
    match a {
        Action::CoinFlip { heads, tails } => {
            let inner = deeper(pad);
            let inner2 = deeper(&inner);
            put2(out, pad.as_str(), "flip_coin {\n");
            put2(out, inner.as_str(), "heads {\n");
            fmt_actions(heads, &inner2, out);
            put2(out, inner.as_str(), "}\n");
            put2(out, inner.as_str(), "tails {\n");
            fmt_actions(tails, &inner2, out);
            put2(out, inner.as_str(), "}\n");
            put2(out, pad.as_str(), "}\n");
        },
        Action::DiceRoll(b) => {
            let inner = deeper(pad);
            put2(out, pad.as_str(), "roll_dice {\n");
            fmt_actions(b, &inner, out);
            put2(out, pad.as_str(), "}\n");
        },
        Action::If { condition, then, otherwise } => {
            let inner = deeper(pad);
            put2(out, pad.as_str(), "if (");
            fmt_condition(condition, out);
            push_str(out, ") {\n");
            fmt_actions(then, &inner, out);
            if otherwise.len() > 0 {
                put2(out, pad.as_str(), "} else {\n");
                fmt_actions(otherwise, &inner, out);
            }
            put2(out, pad.as_str(), "}\n");
        },
        Action::ForEach { selector, zone, body } => {
            let inner = deeper(pad);
            put2(out, pad.as_str(), "for_each ");
            fmt_selector(selector, out);
            put2(out, " in ", zone_name(zone));
            push_str(out, " {\n");
            fmt_actions(body, &inner, out);
            put2(out, pad.as_str(), "}\n");
        },
        Action::Choose(b) => fmt_choose(b, pad, out),
        Action::Delayed { until, body } => {
            let inner = deeper(pad);
            put2(out, pad.as_str(), "delayed until ");
            put2(out, phase_name_name(until), " {\n");
            fmt_actions(body, &inner, out);
            put2(out, pad.as_str(), "}\n");
        },
        Action::AndIfYouDo(b) => {
            let inner = deeper(pad);
            put2(out, pad.as_str(), "and_if_you_do {\n");
            fmt_actions(b, &inner, out);
            put2(out, pad.as_str(), "}\n");
        },
        Action::Then(b) => {
            let inner = deeper(pad);
            put2(out, pad.as_str(), "then {\n");
            fmt_actions(b, &inner, out);
            put2(out, pad.as_str(), "}\n");
        },
        Action::Also(b) => {
            let inner = deeper(pad);
            put2(out, pad.as_str(), "also {\n");
            fmt_actions(b, &inner, out);
            put2(out, pad.as_str(), "}\n");
        },
        Action::InstallWatcher { name, event, duration, check } => {
            let inner = deeper(pad);
            let inner2 = deeper(&inner);
            put2(out, pad.as_str(), "install_watcher ");
            put_quoted(out, name.as_str());
            push_str(out, " {\n");
            put2(out, inner.as_str(), "event: ");
            fmt_trigger(event, out);
            push_str(out, "\n");
            put2(out, inner.as_str(), "duration: ");
            fmt_duration(*duration, out);
            push_str(out, "\n");
            put2(out, inner.as_str(), "check {\n");
            fmt_actions(check, &inner2, out);
            put2(out, inner.as_str(), "}\n");
            put2(out, pad.as_str(), "}\n");
        },
        Action::CreateToken(t) => fmt_token(t, pad, out),
        _ => {
            push_str(out, pad.as_str());
            put_line(a, out);
            push_str(out, "\n");
        },
    }
}

fn fmt_actions(v: &Vec<Action>, pad: &String, out: &mut String)
    ensures
        final(out)@ == actions_w(v@, pad@, old(out)@),
    decreases v,
{
    let ghost start = out@;
    let mut i: usize = 0;
    while i < v.len()
        invariant
            i <= v@.len(),
            out@ == actions_w(v@.subrange(0, i as int), pad@, start),
        decreases v.len() - i,
    {
        proof {
            assert(v@.subrange(0, i + 1).subrange(0, i as int) =~= v@.subrange(0, i as int));
        }
        fmt_action(&v[i], pad, out);
        i += 1;
    }
    proof {
        assert(v@.subrange(0, v@.len() as int) =~= v@);
    }
}

fn fmt_choose(b: &ChooseBlock, pad: &String, out: &mut String)
    ensures
        final(out)@ == choose_w(*b, pad@, old(out)@),
    decreases b,
{
    let inner = deeper(pad);
    put2(out, pad.as_str(), "choose {\n");
    fmt_options(&b.options, &inner, out);
    put2(out, pad.as_str(), "}\n");
}

fn fmt_options(v: &Vec<ChooseOption>, pad: &String, out: &mut String)
    ensures
        final(out)@ == options_w(v@, pad@, old(out)@),
    decreases v,
{
    let ghost start = out@;
    let mut i: usize = 0;
    while i < v.len()
        invariant
            i <= v@.len(),
            out@ == options_w(v@.subrange(0, i as int), pad@, start),
        decreases v.len() - i,
    {
        proof {
            assert(v@.subrange(0, i + 1).subrange(0, i as int) =~= v@.subrange(0, i as int));
        }
        fmt_option(&v[i], pad, out);
        i += 1;
    }
    proof {
        assert(v@.subrange(0, v@.len() as int) =~= v@);
    }
}

fn fmt_option(o: &ChooseOption, pad: &String, out: &mut String)
    ensures
        final(out)@ == option_w(*o, pad@, old(out)@),
    decreases o,
{
    let oi = deeper(pad);
    let oi2 = deeper(&oi);
    put2(out, pad.as_str(), "option ");
    put_quoted(out, o.label.as_str());
    push_str(out, " {\n");
    match &o.target {
        Some(t) => {
            put2(out, oi.as_str(), "target ");
            fmt_selector(&t.selector, out);
            put_as(&t.binding, out);
            push_str(out, "\n");
        },
        None => {},
    }
    if o.cost.len() > 0 {
        put2(out, oi.as_str(), "cost {\n");
        fmt_costs(&o.cost, oi2.as_str(), out);
        put2(out, oi.as_str(), "}\n");
    }
    match &o.trigger {
        Some(t) => {
            put2(out, oi.as_str(), "trigger: ");
            fmt_trigger(t, out);
            push_str(out, "\n");
        },
        None => {},
    }
    if o.resolve.len() > 0 {
        put2(out, oi.as_str(), "resolve {\n");
        fmt_actions(&o.resolve, &oi2, out);
        put2(out, oi.as_str(), "}\n");
    }
    put2(out, pad.as_str(), "}\n");
}

// ── Cards ────────────────────────────────────────────────────

fn put_u64(out: &mut String, n: u64)
    ensures
        final(out)@ == old(out)@ + decimal(n as int),
{
    push_digits(out, n, 10);
}

pub open spec fn type_word() -> spec_fn(super::ast::CardType) -> Seq<char> {
    |t: super::ast::CardType| spec_card_type_name(t)
}

pub open spec fn arrow_word() -> spec_fn(super::ast::Arrow) -> Seq<char> {
    |a: super::ast::Arrow| spec_arrow_name(a)
}

pub open spec fn quoted_word() -> spec_fn(String) -> Seq<char> {
    |s: String| quoted(s@)
}

/// `p` followed by the field lines of a card header.
pub open spec fn fields_w(f: CardFields, p: Seq<char>) -> Seq<char> {
    let q1 = match f.id {
        Some(id) => p + "    id: "@ + decimal(id as int) + "\n"@,
        None => p,
    };
    let q2 = if f.card_types@.len() > 0 {
        join_w(f.card_types@, type_word(), " | "@, q1 + "    type: "@) + "\n"@
    } else {
        q1
    };
    let q3 = match f.attribute {
        Some(a) => q2 + "    attribute: "@ + spec_attribute_name(a) + "\n"@,
        None => q2,
    };
    let q4 = match f.race {
        Some(a) => q3 + "    race: "@ + spec_race_name(a) + "\n"@,
        None => q3,
    };
    let q5 = match f.level {
        Some(n) => q4 + "    level: "@ + decimal(n as int) + "\n"@,
        None => q4,
    };
    let q6 = match f.rank {
        Some(n) => q5 + "    rank: "@ + decimal(n as int) + "\n"@,
        None => q5,
    };
    let q7 = match f.link {
        Some(n) => q6 + "    link: "@ + decimal(n as int) + "\n"@,
        None => q6,
    };
    let q8 = match f.scale {
        Some(n) => q7 + "    scale: "@ + decimal(n as int) + "\n"@,
        None => q7,
    };
    let q9 = match f.atk {
        Some(v) => stat_val_w(v, q8 + "    atk: "@) + "\n"@,
        None => q8,
    };
    let q10 = match f.def {
        Some(v) => stat_val_w(v, q9 + "    def: "@) + "\n"@,
        None => q9,
    };
    let q11 = if f.link_arrows@.len() > 0 {
        join_w(f.link_arrows@, arrow_word(), ", "@, q10 + "    link_arrows: ["@) + "]\n"@
    } else {
        q10
    };
    if f.archetypes@.len() > 0 {
        join_w(f.archetypes@, quoted_word(), ", "@, q11 + "    archetype: ["@) + "]\n"@
    } else {
        q11
    }
}

proof fn lemma_prefix_append(a: Seq<char>, b: Seq<char>)
    ensures
        a.is_prefix_of(a + b),
{
    assert((a + b).subrange(0, a.len() as int) =~= a);
}

proof fn lemma_prefix_trans(a: Seq<char>, b: Seq<char>, c: Seq<char>)
    requires
        a.is_prefix_of(b),
        b.is_prefix_of(c),
    ensures
        a.is_prefix_of(c),
{
    assert forall|i: int| 0 <= i < a.len() implies c[i] == a[i] by {
        assert(b.subrange(0, a.len() as int)[i] == b[i]);
        assert(c.subrange(0, b.len() as int)[i] == c[i]);
    }
    assert(c.subrange(0, a.len() as int) =~= a);
}

proof fn lemma_join_w_extends<T>(s: Seq<T>, f: spec_fn(T) -> Seq<char>, sep: Seq<char>, p: Seq<char>)
    ensures
        p.is_prefix_of(join_w(s, f, sep, p)),
    decreases s.len(),
{
    if s.len() == 0 {
        assert(p.subrange(0, p.len() as int) =~= p);
    } else if s.len() == 1 {
        lemma_prefix_append(p, f(s[0]));
    } else {
        let j = join_w(s.drop_last(), f, sep, p);
        lemma_join_w_extends(s.drop_last(), f, sep, p);
        lemma_prefix_append(j, sep + f(s.last()));
        assert(j + sep + f(s.last()) =~= j + (sep + f(s.last())));
        lemma_prefix_trans(p, j, j + sep + f(s.last()));
    }
}

/// The header text up to its `id` line.
spec fn header_upto_id(f: CardFields, p: Seq<char>) -> Seq<char> {
    match f.id {
        Some(id) => p + "    id: "@ + decimal(id as int) + "\n"@,
        None => p,
    }
}

/// The header text up to its `type` line.
spec fn header_upto_type(f: CardFields, p: Seq<char>) -> Seq<char> {
    if f.card_types@.len() > 0 {
        join_w(f.card_types@, type_word(), " | "@, header_upto_id(f, p) + "    type: "@) + "\n"@
    } else {
        header_upto_id(f, p)
    }
}

/// The header text up to its `attribute` line.
spec fn header_upto_attribute(f: CardFields, p: Seq<char>) -> Seq<char> {
    match f.attribute {
        Some(a) => header_upto_type(f, p) + "    attribute: "@ + spec_attribute_name(a) + "\n"@,
        None => header_upto_type(f, p),
    }
}

/// The header text up to its `race` line.
spec fn header_upto_race(f: CardFields, p: Seq<char>) -> Seq<char> {
    match f.race {
        Some(a) => header_upto_attribute(f, p) + "    race: "@ + spec_race_name(a) + "\n"@,
        None => header_upto_attribute(f, p),
    }
}

/// The header text up to its `level` line.
spec fn header_upto_level(f: CardFields, p: Seq<char>) -> Seq<char> {
    match f.level {
        Some(n) => header_upto_race(f, p) + "    level: "@ + decimal(n as int) + "\n"@,
        None => header_upto_race(f, p),
    }
}

/// The header text up to its `rank` line.
spec fn header_upto_rank(f: CardFields, p: Seq<char>) -> Seq<char> {
    match f.rank {
        Some(n) => header_upto_level(f, p) + "    rank: "@ + decimal(n as int) + "\n"@,
        None => header_upto_level(f, p),
    }
}

/// The header text up to its `link` line.
spec fn header_upto_link(f: CardFields, p: Seq<char>) -> Seq<char> {
    match f.link {
        Some(n) => header_upto_rank(f, p) + "    link: "@ + decimal(n as int) + "\n"@,
        None => header_upto_rank(f, p),
    }
}

/// The header text up to its `scale` line.
spec fn header_upto_scale(f: CardFields, p: Seq<char>) -> Seq<char> {
    match f.scale {
        Some(n) => header_upto_link(f, p) + "    scale: "@ + decimal(n as int) + "\n"@,
        None => header_upto_link(f, p),
    }
}

/// The header text up to its `atk` line.
spec fn header_upto_atk(f: CardFields, p: Seq<char>) -> Seq<char> {
    match f.atk {
        Some(v) => stat_val_w(v, header_upto_scale(f, p) + "    atk: "@) + "\n"@,
        None => header_upto_scale(f, p),
    }
}

/// The header text up to its `def` line.
spec fn header_upto_def(f: CardFields, p: Seq<char>) -> Seq<char> {
    match f.def {
        Some(v) => stat_val_w(v, header_upto_atk(f, p) + "    def: "@) + "\n"@,
        None => header_upto_atk(f, p),
    }
}

/// The line written for a stat.
pub open spec fn stat_line(name: Seq<char>, v: StatVal) -> Seq<char> {
    match v {
        StatVal::Number(n) => "    "@ + name + ": "@ + decimal(n as int) + "\n"@,
        StatVal::Unknown => "    "@ + name + ": ?\n"@,
    }
}

proof fn lemma_prefix_refl(a: Seq<char>)
    ensures
        a.is_prefix_of(a),
{
    assert(a.subrange(0, a.len() as int) =~= a);
}

/// A line `line` right after the text `x` occurs in any text `x + line` starts.
proof fn lemma_line_occurs(x: Seq<char>, line: Seq<char>, r: Seq<char>)
    requires
        (x + line).is_prefix_of(r),
    ensures
        occurs_at(r, line, x.len() as int),
        contains_seq(r, line),
{
    assert forall|i: int| 0 <= i < line.len() implies r[x.len() + i] == line[i] by {
        assert(r.subrange(0, (x + line).len() as int)[x.len() + i] == (x + line)[x.len() + i]);
    }
    assert(r.subrange(x.len() as int, (x.len() + line.len()) as int) =~= line);
    assert(occurs_at(r, line, x.len() as int));
}

/// A line that occurs in a text occurs in any text that text starts.
proof fn lemma_occurs_in_longer(a: Seq<char>, b: Seq<char>, line: Seq<char>)
    requires
        contains_seq(a, line),
        a.is_prefix_of(b),
    ensures
        contains_seq(b, line),
{
    let i = choose|i: int| occurs_at(a, line, i);
    assert forall|k: int| 0 <= k < line.len() implies b[i + k] == line[k] by {
        assert(a.subrange(i, i + line.len())[k] == a[i + k]);
        assert(b.subrange(0, a.len() as int)[i + k] == b[i + k]);
    }
    assert(b.subrange(i, i + line.len()) =~= line);
    assert(occurs_at(b, line, i));
}

/// One header line, when written, is `line` right after the text before it:
/// the text before it starts the text after it, and the line occurs there.
proof fn lemma_header_step(before: Seq<char>, after: Seq<char>, line: Seq<char>, written: bool)
    requires
        written ==> after == before + line,
        !written ==> after == before,
    ensures
        before.is_prefix_of(after),
        written ==> contains_seq(after, line),
{
    if written {
        lemma_prefix_append(before, line);
        lemma_prefix_refl(after);
        lemma_line_occurs(before, line, after);
    } else {
        lemma_prefix_refl(before);
    }
}

/// What follows the `def` line only adds to the text.
#[verifier::rlimit(80)]
proof fn lemma_header_upto_def_prefix(f: CardFields, p: Seq<char>)
    ensures
        header_upto_def(f, p).is_prefix_of(fields_w(f, p)),
{
    let q10 = header_upto_def(f, p);
    let q11 = if f.link_arrows@.len() > 0 {
        join_w(f.link_arrows@, arrow_word(), ", "@, q10 + "    link_arrows: ["@) + "]\n"@
    } else {
        q10
    };
    let r = fields_w(f, p);
    assert(r == if f.archetypes@.len() > 0 {
        join_w(f.archetypes@, quoted_word(), ", "@, q11 + "    archetype: ["@) + "]\n"@
    } else {
        q11
    });
    lemma_prefix_refl(q10);
    if f.link_arrows@.len() > 0 {
        let a = q10 + "    link_arrows: ["@;
        let j = join_w(f.link_arrows@, arrow_word(), ", "@, a);
        lemma_prefix_append(q10, "    link_arrows: ["@);
        lemma_join_w_extends(f.link_arrows@, arrow_word(), ", "@, a);
        lemma_prefix_trans(q10, a, j);
        lemma_prefix_append(j, "]\n"@);
        lemma_prefix_trans(q10, j, q11);
    }
    if f.archetypes@.len() > 0 {
        let a = q11 + "    archetype: ["@;
        let j = join_w(f.archetypes@, quoted_word(), ", "@, a);
        lemma_prefix_append(q11, "    archetype: ["@);
        lemma_join_w_extends(f.archetypes@, quoted_word(), ", "@, a);
        lemma_prefix_trans(q11, a, j);
        lemma_prefix_append(j, "]\n"@);
        lemma_prefix_trans(q11, j, r);
        lemma_prefix_trans(q10, q11, r);
    }
}

proof fn lemma_type_step(f: CardFields, p: Seq<char>)
    ensures
        header_upto_id(f, p).is_prefix_of(header_upto_type(f, p)),
{
    let q1 = header_upto_id(f, p);
    if f.card_types@.len() > 0 {
        let a = q1 + "    type: "@;
        let j = join_w(f.card_types@, type_word(), " | "@, a);
        lemma_prefix_append(q1, "    type: "@);
        lemma_join_w_extends(f.card_types@, type_word(), " | "@, a);
        lemma_prefix_trans(q1, a, j);
        lemma_prefix_append(j, "\n"@);
        lemma_prefix_trans(q1, j, header_upto_type(f, p));
    } else {
        lemma_prefix_refl(q1);
    }
}

/// The `id`, `attribute` and `race` lines, where written, occur in the
/// header text up to them.
proof fn lemma_header_lines_first(f: CardFields, p: Seq<char>)
    ensures
        f.id matches Some(n) ==> contains_seq(header_upto_id(f, p), "    id: "@ + decimal(n as int) + "\n"@),
        f.attribute matches Some(a) ==> contains_seq(header_upto_attribute(f, p),
            "    attribute: "@ + spec_attribute_name(a) + "\n"@),
        f.race matches Some(a) ==> contains_seq(header_upto_race(f, p), "    race: "@ + spec_race_name(a) + "\n"@),
        header_upto_id(f, p).is_prefix_of(header_upto_type(f, p)),
        header_upto_type(f, p).is_prefix_of(header_upto_attribute(f, p)),
        header_upto_attribute(f, p).is_prefix_of(header_upto_race(f, p)),
{
    let none: Seq<char> = Seq::empty();
    let l1 = match f.id { Some(n) => "    id: "@ + decimal(n as int) + "\n"@, None => none };
    assert(f.id is Some ==> header_upto_id(f, p) =~= p + l1);
    lemma_header_step(p, header_upto_id(f, p), l1, f.id is Some);
    lemma_type_step(f, p);
    let l3 = match f.attribute { Some(a) => "    attribute: "@ + spec_attribute_name(a) + "\n"@, None => none };
    assert(f.attribute is Some ==> header_upto_attribute(f, p) =~= header_upto_type(f, p) + l3);
    lemma_header_step(header_upto_type(f, p), header_upto_attribute(f, p), l3, f.attribute is Some);
    let l4 = match f.race { Some(a) => "    race: "@ + spec_race_name(a) + "\n"@, None => none };
    assert(f.race is Some ==> header_upto_race(f, p) =~= header_upto_attribute(f, p) + l4);
    lemma_header_step(header_upto_attribute(f, p), header_upto_race(f, p), l4, f.race is Some);
}

/// The `level`, `rank`, `link` and `scale` lines, where written, occur in
/// the header text up to them.
proof fn lemma_header_lines_numbers(f: CardFields, p: Seq<char>)
    ensures
        f.level matches Some(n) ==> contains_seq(header_upto_level(f, p), "    level: "@ + decimal(n as int) + "\n"@),
        f.rank matches Some(n) ==> contains_seq(header_upto_rank(f, p), "    rank: "@ + decimal(n as int) + "\n"@),
        f.link matches Some(n) ==> contains_seq(header_upto_link(f, p), "    link: "@ + decimal(n as int) + "\n"@),
        f.scale matches Some(n) ==> contains_seq(header_upto_scale(f, p), "    scale: "@ + decimal(n as int) + "\n"@),
        header_upto_race(f, p).is_prefix_of(header_upto_level(f, p)),
        header_upto_level(f, p).is_prefix_of(header_upto_rank(f, p)),
        header_upto_rank(f, p).is_prefix_of(header_upto_link(f, p)),
        header_upto_link(f, p).is_prefix_of(header_upto_scale(f, p)),
{
    let none: Seq<char> = Seq::empty();
    let l5 = match f.level { Some(n) => "    level: "@ + decimal(n as int) + "\n"@, None => none };
    assert(f.level is Some ==> header_upto_level(f, p) =~= header_upto_race(f, p) + l5);
    lemma_header_step(header_upto_race(f, p), header_upto_level(f, p), l5, f.level is Some);
    let l6 = match f.rank { Some(n) => "    rank: "@ + decimal(n as int) + "\n"@, None => none };
    assert(f.rank is Some ==> header_upto_rank(f, p) =~= header_upto_level(f, p) + l6);
    lemma_header_step(header_upto_level(f, p), header_upto_rank(f, p), l6, f.rank is Some);
    let l7 = match f.link { Some(n) => "    link: "@ + decimal(n as int) + "\n"@, None => none };
    assert(f.link is Some ==> header_upto_link(f, p) =~= header_upto_rank(f, p) + l7);
    lemma_header_step(header_upto_rank(f, p), header_upto_link(f, p), l7, f.link is Some);
    let l8 = match f.scale { Some(n) => "    scale: "@ + decimal(n as int) + "\n"@, None => none };
    assert(f.scale is Some ==> header_upto_scale(f, p) =~= header_upto_link(f, p) + l8);
    lemma_header_step(header_upto_link(f, p), header_upto_scale(f, p), l8, f.scale is Some);
}

/// The `atk` and `def` lines, where written, occur in the header text up
/// to them.
proof fn lemma_header_lines_stats(f: CardFields, p: Seq<char>)
    ensures
        f.atk matches Some(v) ==> contains_seq(header_upto_atk(f, p), stat_line("atk"@, v)),
        f.def matches Some(v) ==> contains_seq(header_upto_def(f, p), stat_line("def"@, v)),
        header_upto_scale(f, p).is_prefix_of(header_upto_atk(f, p)),
        header_upto_atk(f, p).is_prefix_of(header_upto_def(f, p)),
{
    let none: Seq<char> = Seq::empty();
    let l9 = match f.atk { Some(v) => stat_line("atk"@, v), None => none };
    assert(f.atk is Some ==> header_upto_atk(f, p) =~= header_upto_scale(f, p) + l9) by {
        reveal_strlit("    atk: ");
        reveal_strlit("    ");
        reveal_strlit("atk");
        reveal_strlit(": ");
        reveal_strlit(": ?\n");
        reveal_strlit("?");
        reveal_strlit("\n");
    }
    lemma_header_step(header_upto_scale(f, p), header_upto_atk(f, p), l9, f.atk is Some);
    let l10 = match f.def { Some(v) => stat_line("def"@, v), None => none };
    assert(f.def is Some ==> header_upto_def(f, p) =~= header_upto_atk(f, p) + l10) by {
        reveal_strlit("    def: ");
        reveal_strlit("    ");
        reveal_strlit("def");
        reveal_strlit(": ");
        reveal_strlit(": ?\n");
        reveal_strlit("?");
        reveal_strlit("\n");
    }
    lemma_header_step(header_upto_atk(f, p), header_upto_def(f, p), l10, f.def is Some);
}

/// A card header is written with a line for each field it declares:
/// `    id: n`, `    attribute: A`, `    race: R`, `    level: n`,
/// `    rank: n`, `    link: n`, for a Pendulum monster `    scale: n`,
/// and `    atk: v` and `    def: v` (a number, or `?`).
pub proof fn law_header_lines_written(f: CardFields, p: Seq<char>)
    ensures
        f.id matches Some(n) ==> contains_seq(fields_w(f, p), "    id: "@ + decimal(n as int) + "\n"@),
        f.attribute matches Some(a) ==> contains_seq(fields_w(f, p), "    attribute: "@ + spec_attribute_name(a) + "\n"@),
        f.race matches Some(a) ==> contains_seq(fields_w(f, p), "    race: "@ + spec_race_name(a) + "\n"@),
        f.level matches Some(n) ==> contains_seq(fields_w(f, p), "    level: "@ + decimal(n as int) + "\n"@),
        f.rank matches Some(n) ==> contains_seq(fields_w(f, p), "    rank: "@ + decimal(n as int) + "\n"@),
        f.link matches Some(n) ==> contains_seq(fields_w(f, p), "    link: "@ + decimal(n as int) + "\n"@),
        f.scale matches Some(n) ==> contains_seq(fields_w(f, p), "    scale: "@ + decimal(n as int) + "\n"@),
        f.atk matches Some(v) ==> contains_seq(fields_w(f, p), stat_line("atk"@, v)),
        f.def matches Some(v) ==> contains_seq(fields_w(f, p), stat_line("def"@, v)),
{
    let r = fields_w(f, p);
    let q10 = header_upto_def(f, p);
    lemma_header_upto_def_prefix(f, p);
    lemma_header_lines_first(f, p);
    lemma_header_lines_numbers(f, p);
    lemma_header_lines_stats(f, p);
    let q9 = header_upto_atk(f, p);
    let q8 = header_upto_scale(f, p);
    let q7 = header_upto_link(f, p);
    let q6 = header_upto_rank(f, p);
    let q5 = header_upto_level(f, p);
    let q4 = header_upto_race(f, p);
    let q3 = header_upto_attribute(f, p);
    let q2 = header_upto_type(f, p);
    let q1 = header_upto_id(f, p);
    lemma_prefix_trans(q9, q10, r);
    lemma_prefix_trans(q8, q9, r);
    lemma_prefix_trans(q7, q8, r);
    lemma_prefix_trans(q6, q7, r);
    lemma_prefix_trans(q5, q6, r);
    lemma_prefix_trans(q4, q5, r);
    lemma_prefix_trans(q3, q4, r);
    lemma_prefix_trans(q2, q3, r);
    lemma_prefix_trans(q1, q2, r);
    if let Some(n) = f.id {
        lemma_occurs_in_longer(q1, r, "    id: "@ + decimal(n as int) + "\n"@);
    }
    if let Some(a) = f.attribute {
        lemma_occurs_in_longer(q3, r, "    attribute: "@ + spec_attribute_name(a) + "\n"@);
    }
    if let Some(a) = f.race {
        lemma_occurs_in_longer(q4, r, "    race: "@ + spec_race_name(a) + "\n"@);
    }
    if let Some(n) = f.level {
        lemma_occurs_in_longer(q5, r, "    level: "@ + decimal(n as int) + "\n"@);
    }
    if let Some(n) = f.rank {
        lemma_occurs_in_longer(q6, r, "    rank: "@ + decimal(n as int) + "\n"@);
    }
    if let Some(n) = f.link {
        lemma_occurs_in_longer(q7, r, "    link: "@ + decimal(n as int) + "\n"@);
    }
    if let Some(n) = f.scale {
        lemma_occurs_in_longer(q8, r, "    scale: "@ + decimal(n as int) + "\n"@);
    }
    if let Some(v) = f.atk {
        lemma_occurs_in_longer(q9, r, stat_line("atk"@, v));
    }
    if let Some(v) = f.def {
        lemma_occurs_in_longer(q10, r, stat_line("def"@, v));
    }
}

fn put_types(out: &mut String, v: &Vec<super::ast::CardType>)
    ensures
        final(out)@ == join_w(v@, type_word(), " | "@, old(out)@),
{
    let ghost start = out@;
    let mut i: usize = 0;
    while i < v.len()
        invariant
            i <= v@.len(),
            out@ == join_w(v@.take(i as int), type_word(), " | "@, start),
        decreases v.len() - i,
    {
        proof {
            lemma_join_w_step(v@, type_word(), " | "@, start, i as int);
        }
        if i > 0 {
            push_str(out, " | ");
        }
        push_str(out, card_type_name(&v[i]));
        i += 1;
    }
    proof {
        lemma_take_all(v@);
    }
}

fn put_arrows(out: &mut String, v: &Vec<super::ast::Arrow>)
    ensures
        final(out)@ == join_w(v@, arrow_word(), ", "@, old(out)@),
{
    let ghost start = out@;
    let mut i: usize = 0;
    while i < v.len()
        invariant
            i <= v@.len(),
            out@ == join_w(v@.take(i as int), arrow_word(), ", "@, start),
        decreases v.len() - i,
    {
        proof {
            lemma_join_w_step(v@, arrow_word(), ", "@, start, i as int);
        }
        if i > 0 {
            push_str(out, ", ");
        }
        push_str(out, arrow_name(&v[i]));
        i += 1;
    }
    proof {
        lemma_take_all(v@);
    }
}

fn put_quoted_list(out: &mut String, v: &Vec<String>)
    ensures
        final(out)@ == join_w(v@, quoted_word(), ", "@, old(out)@),
{
    let ghost start = out@;
    let mut i: usize = 0;
    while i < v.len()
        invariant
            i <= v@.len(),
            out@ == join_w(v@.take(i as int), quoted_word(), ", "@, start),
        decreases v.len() - i,
    {
        proof {
            lemma_join_w_step(v@, quoted_word(), ", "@, start, i as int);
        }
        if i > 0 {
            push_str(out, ", ");
        }
        put_quoted(out, v[i].as_str());
        i += 1;
    }
    proof {
        lemma_take_all(v@);
    }
}

fn fmt_fields(f: &CardFields, out: &mut String)
    ensures
        final(out)@ == fields_w(*f, old(out)@),
        f.id matches Some(n) ==> contains_seq(final(out)@, "    id: "@ + decimal(n as int) + "\n"@),
        f.attribute matches Some(a) ==> contains_seq(final(out)@, "    attribute: "@ + spec_attribute_name(a) + "\n"@),
        f.race matches Some(a) ==> contains_seq(final(out)@, "    race: "@ + spec_race_name(a) + "\n"@),
        f.level matches Some(n) ==> contains_seq(final(out)@, "    level: "@ + decimal(n as int) + "\n"@),
        f.rank matches Some(n) ==> contains_seq(final(out)@, "    rank: "@ + decimal(n as int) + "\n"@),
        f.link matches Some(n) ==> contains_seq(final(out)@, "    link: "@ + decimal(n as int) + "\n"@),
        f.scale matches Some(n) ==> contains_seq(final(out)@, "    scale: "@ + decimal(n as int) + "\n"@),
        f.atk matches Some(v) ==> contains_seq(final(out)@, stat_line("atk"@, v)),
        f.def matches Some(v) ==> contains_seq(final(out)@, stat_line("def"@, v)),
{
    let ghost start = out@;
    match f.id {
        Some(id) => {
            push_str(out, "    id: ");
            put_u64(out, id);
            push_str(out, "\n");
        },
        None => {},
    }
    if f.card_types.len() > 0 {
        push_str(out, "    type: ");
        put_types(out, &f.card_types);
        push_str(out, "\n");
    }
    match f.attribute {
        Some(a) => {
            put2(out, "    attribute: ", attribute_name(&a));
            push_str(out, "\n");
        },
        None => {},
    }
    match f.race {
        Some(a) => {
            put2(out, "    race: ", race_name(&a));
            push_str(out, "\n");
        },
        None => {},
    }
    match f.level {
        Some(n) => {
            push_str(out, "    level: ");
            put_num(out, n as i64);
            push_str(out, "\n");
        },
        None => {},
    }
    match f.rank {
        Some(n) => {
            push_str(out, "    rank: ");
            put_num(out, n as i64);
            push_str(out, "\n");
        },
        None => {},
    }
    match f.link {
        Some(n) => {
            push_str(out, "    link: ");
            put_num(out, n as i64);
            push_str(out, "\n");
        },
        None => {},
    }
    match f.scale {
        Some(n) => {
            push_str(out, "    scale: ");
            put_num(out, n as i64);
            push_str(out, "\n");
        },
        None => {},
    }
    match f.atk {
        Some(v) => {
            push_str(out, "    atk: ");
            fmt_stat_val(v, out);
            push_str(out, "\n");
        },
        None => {},
    }
    match f.def {
        Some(v) => {
            push_str(out, "    def: ");
            fmt_stat_val(v, out);
            push_str(out, "\n");
        },
        None => {},
    }
    if f.link_arrows.len() > 0 {
        push_str(out, "    link_arrows: [");
        put_arrows(out, &f.link_arrows);
        push_str(out, "]\n");
    }
    if f.archetypes.len() > 0 {
        push_str(out, "    archetype: [");
        put_quoted_list(out, &f.archetypes);
        push_str(out, "]\n");
    }
    proof {
        law_header_lines_written(*f, start);
    }
}

/// Whether a special summon procedure holds anything to write.
pub open spec fn ssp_has_content(x: SpecialSummonProcedure) -> bool {
    x.from is Some || x.to is Some || x.cost@.len() > 0 || x.condition is Some || x.restriction is Some
}

pub open spec fn ssp_w(x: SpecialSummonProcedure, p: Seq<char>) -> Seq<char> {
    let q0 = p + "        special_summon_procedure {\n"@;
    let q1 = match x.from {
        Some(z) => q0 + "            from: "@ + spec_zone_name(z) + "\n"@,
        None => q0,
    };
    let q2 = match x.to {
        Some(t) => q1 + "            to: "@ + spec_field_target_name(t) + "\n"@,
        None => q1,
    };
    let q3 = if x.cost@.len() > 0 {
        costs_w(x.cost@, "                "@, q2 + "            cost {\n"@) + "            }\n"@
    } else {
        q2
    };
    let q4 = match x.condition {
        Some(c) => condition_w(c, q3 + "            condition: "@) + "\n"@,
        None => q3,
    };
    let q5 = match x.restriction {
        Some(r) => restriction_w(r, "            "@, q4),
        None => q4,
    };
    q5 + "        }\n"@
}

fn fmt_ssp(x: &SpecialSummonProcedure, out: &mut String)
    ensures
        final(out)@ == ssp_w(*x, old(out)@),
{
    push_str(out, "        special_summon_procedure {\n");
    match x.from {
        Some(z) => {
            put2(out, "            from: ", zone_name(&z));
            push_str(out, "\n");
        },
        None => {},
    }
    match x.to {
        Some(t) => {
            put2(out, "            to: ", field_target_name(&t));
            push_str(out, "\n");
        },
        None => {},
    }
    if x.cost.len() > 0 {
        push_str(out, "            cost {\n");
        fmt_costs(&x.cost, "                ", out);
        push_str(out, "            }\n");
    }
    match &x.condition {
        Some(c) => {
            push_str(out, "            condition: ");
            fmt_condition(c, out);
            push_str(out, "\n");
        },
        None => {},
    }
    match &x.restriction {
        Some(r) => {
            let pad = super::text::string_from("            ");
            fmt_restriction(r, &pad, out);
        },
        None => {},
    }
    push_str(out, "        }\n");
}

pub open spec fn material_w(m: MaterialItem, p: Seq<char>) -> Seq<char> {
    match m {
        MaterialItem::Named(n) => p + quoted(n@),
        MaterialItem::Generic(s) => selector_w(s, p),
    }
}

pub open spec fn materials_w(s: Seq<MaterialItem>, p: Seq<char>) -> Seq<char>
    decreases s.len(),
{
    if s.len() == 0 {
        p
    } else if s.len() == 1 {
        material_w(s[0], p)
    } else {
        material_w(s.last(), materials_w(s.drop_last(), p) + " + "@)
    }
}

fn fmt_materials(v: &Vec<MaterialItem>, out: &mut String)
    ensures
        final(out)@ == materials_w(v@, old(out)@),
{
    let ghost start = out@;
    let mut i: usize = 0;
    while i < v.len()
        invariant
            i <= v@.len(),
            out@ == materials_w(v@.take(i as int), start),
        decreases v.len() - i,
    {
        proof {
            assert(v@.take(i + 1).drop_last() =~= v@.take(i as int));
        }
        if i > 0 {
            push_str(out, " + ");
        }
        match &v[i] {
            MaterialItem::Named(n) => put_quoted(out, n.as_str()),
            MaterialItem::Generic(s) => fmt_selector(s, out),
        }
        i += 1;
    }
    proof {
        lemma_take_all(v@);
    }
}

/// `p` followed by a summon block.
pub open spec fn summon_w(s: SummonBlock, p: Seq<char>) -> Seq<char> {
    let q0 = p + "\n    summon {\n"@;
    let q1 = if s.cannot_normal_summon { q0 + "        cannot_normal_summon\n"@ } else { q0 };
    let q2 = if s.cannot_special_summon { q1 + "        cannot_special_summon\n"@ } else { q1 };
    let q3 = match s.tributes {
        Some(t) => q2 + "        tributes: "@ + decimal(t as int) + "\n"@,
        None => q2,
    };
    let q4 = match s.special_summon_procedure {
        Some(x) => if ssp_has_content(x) { ssp_w(x, q3) } else { q3 },
        None => q3,
    };
    let q5 = match s.fusion_materials {
        Some(fm) => if fm.items@.len() > 0 {
            materials_w(fm.items@, q4 + "        fusion materials: "@) + "\n"@
        } else {
            q4
        },
        None => q4,
    };
    let q6 = match s.synchro_materials {
        Some(sm) => selector_w(
            sm.non_tuner,
            selector_w(sm.tuner, q5 + "        synchro materials {\n"@ + "            tuner: "@) + "\n"@
                + "            non_tuner: "@,
        ) + "\n"@ + "        }\n"@,
        None => q5,
    };
    let q7 = match s.xyz_materials {
        Some(x) => selector_w(x, q6 + "        xyz materials: "@) + "\n"@,
        None => q6,
    };
    let q8 = match s.link_materials {
        Some(x) => selector_w(x, q7 + "        link materials: "@) + "\n"@,
        None => q7,
    };
    let q9 = match s.ritual_materials {
        Some(rm) => {
            let m = selector_w(rm.materials, q8 + "        ritual materials: "@);
            (match rm.level_constraint {
                Some(lc) => comparison_w(
                    lc.op,
                    lc.value,
                    m + " where "@ + (match lc.kind {
                        LevelConstraintKind::TotalLevel => "total_level"@,
                        LevelConstraintKind::ExactLevel => "exact_level"@,
                    }) + " "@,
                ),
                None => m,
            }) + "\n"@
        },
        None => q8,
    };
    let q10 = if s.pendulum_from@.len() > 0 {
        join_w(s.pendulum_from@, zone_word(), ", "@, q9 + "        pendulum from: ["@) + "]\n"@
    } else {
        q9
    };
    q10 + "    }\n"@
}

fn fmt_summon(s: &SummonBlock, out: &mut String)
    ensures
        final(out)@ == summon_w(*s, old(out)@),
{
    push_str(out, "\n    summon {\n");
    if s.cannot_normal_summon {
        push_str(out, "        cannot_normal_summon\n");
    }
    if s.cannot_special_summon {
        push_str(out, "        cannot_special_summon\n");
    }
    match s.tributes {
        Some(t) => {
            push_str(out, "        tributes: ");
            put_num(out, t as i64);
            push_str(out, "\n");
        },
        None => {},
    }
    match &s.special_summon_procedure {
        Some(x) => {
            if x.from.is_some() || x.to.is_some() || x.cost.len() > 0 || x.condition.is_some()
                || x.restriction.is_some() {
                fmt_ssp(x, out);
            }
        },
        None => {},
    }
    match &s.fusion_materials {
        Some(fm) => {
            if fm.items.len() > 0 {
                push_str(out, "        fusion materials: ");
                fmt_materials(&fm.items, out);
                push_str(out, "\n");
            }
        },
        None => {},
    }
    match &s.synchro_materials {
        Some(sm) => {
            push_str(out, "        synchro materials {\n");
            push_str(out, "            tuner: ");
            fmt_selector(&sm.tuner, out);
            push_str(out, "\n");
            push_str(out, "            non_tuner: ");
            fmt_selector(&sm.non_tuner, out);
            push_str(out, "\n");
            push_str(out, "        }\n");
        },
        None => {},
    }
    match &s.xyz_materials {
        Some(x) => {
            push_str(out, "        xyz materials: ");
            fmt_selector(x, out);
            push_str(out, "\n");
        },
        None => {},
    }
    match &s.link_materials {
        Some(x) => {
            push_str(out, "        link materials: ");
            fmt_selector(x, out);
            push_str(out, "\n");
        },
        None => {},
    }
    match &s.ritual_materials {
        Some(rm) => {
            push_str(out, "        ritual materials: ");
            fmt_selector(&rm.materials, out);
            match &rm.level_constraint {
                Some(lc) => {
                    push_str(out, " where ");
                    match lc.kind {
                        LevelConstraintKind::TotalLevel => push_str(out, "total_level"),
                        LevelConstraintKind::ExactLevel => push_str(out, "exact_level"),
                    }
                    push_str(out, " ");
                    fmt_comparison(&lc.op, &lc.value, out);
                },
                None => {},
            }
            push_str(out, "\n");
        },
        None => {},
    }
    if s.pendulum_from.len() > 0 {
        push_str(out, "        pendulum from: [");
        put_zones(out, &s.pendulum_from, ", ");
        push_str(out, "]\n");
    }
    push_str(out, "    }\n");
}

pub open spec fn frequency_text(f: Frequency) -> Seq<char> {
    match f {
        Frequency::OncePerTurn(OptKind::Soft) => "once_per_turn: soft"@,
        Frequency::OncePerTurn(OptKind::Hard) => "once_per_turn: hard"@,
        Frequency::TwicePerTurn => "twice_per_turn"@,
        Frequency::OncePerDuel => "once_per_duel"@,
    }
}

fn frequency_exec(f: Frequency) -> (r: &'static str)
    ensures
        r@ == frequency_text(f),
{
    match f {
        Frequency::OncePerTurn(OptKind::Soft) => "once_per_turn: soft",
        Frequency::OncePerTurn(OptKind::Hard) => "once_per_turn: hard",
        Frequency::TwicePerTurn => "twice_per_turn",
        Frequency::OncePerDuel => "once_per_duel",
    }
}

/// `p` followed by the opening of an effect block: its name, speed,
/// frequency, flags and timing.
pub open spec fn effect_head_w(e: Effect, p: Seq<char>) -> Seq<char> {
    let q0 = p + "\n    effect "@ + quoted(e.name@) + " {\n"@;
    let q1 = match e.speed {
        Some(v) => q0 + "        speed: "@ + decimal(v as int) + "\n"@,
        None => q0,
    };
    let q2 = match e.frequency {
        Some(f) => q1 + "        "@ + frequency_text(f) + "\n"@,
        None => q1,
    };
    let q3 = if e.mandatory { q2 + "        mandatory\n"@ } else { q2 };
    let q4 = if e.simultaneous { q3 + "        simultaneous\n"@ } else { q3 };
    match e.timing {
        Some(Timing::When) => q4 + "        timing: when\n"@,
        Some(Timing::If) => q4 + "        timing: if\n"@,
        None => q4,
    }
}

/// `p` followed by the trigger, player, condition, zones, damage-step and
/// target lines of an effect.
pub open spec fn effect_mid_w(e: Effect, p: Seq<char>) -> Seq<char> {
    let q6 = match e.trigger {
        Some(t) => p + "        trigger: "@ + spec_fmt_trigger(t) + "\n"@,
        None => p,
    };
    let q7 = match e.who {
        Some(w) => q6 + "        who: "@ + spec_player_who_name(w) + "\n"@,
        None => q6,
    };
    let q8 = match e.condition {
        Some(c) => condition_w(c, q7 + "        condition: "@) + "\n"@,
        None => q7,
    };
    let q9 = if e.activate_from@.len() > 0 {
        join_w(e.activate_from@, zone_word(), ", "@, q8 + "        activate_from: ["@) + "]\n"@
    } else {
        q8
    };
    let q10 = match e.damage_step {
        Some(true) => q9 + "        damage_step: true\n"@,
        Some(false) => q9 + "        damage_step: false\n"@,
        None => q9,
    };
    match e.target {
        Some(t) => as_w(t.binding, selector_w(t.selector, q10 + "        target "@)) + "\n"@,
        None => q10,
    }
}

/// `p` followed by the cost, resolve and choose parts of an effect and the
/// closing brace.
pub open spec fn effect_tail_w(e: Effect, p: Seq<char>) -> Seq<char> {
    let q12 = if e.cost@.len() > 0 {
        costs_w(e.cost@, "            "@, p + "        cost {\n"@) + "        }\n"@
    } else {
        p
    };
    let q13 = if e.resolve@.len() > 0 {
        actions_w(e.resolve@, "            "@, q12 + "        resolve {\n"@) + "        }\n"@
    } else {
        q12
    };
    let q14 = match e.choose {
        Some(c) => choose_w(c, "        "@, q13),
        None => q13,
    };
    q14 + "    }\n"@
}

/// `p` followed by an effect block.
pub open spec fn effect_w(e: Effect, p: Seq<char>) -> Seq<char> {
    effect_tail_w(e, effect_mid_w(e, effect_head_w(e, p)))
}

fn fmt_effect(e: &Effect, out: &mut String)
    ensures
        final(out)@ == effect_w(*e, old(out)@),
{
    fmt_effect_head(e, out);
    fmt_effect_mid(e, out);
    fmt_effect_tail(e, out);
}

fn fmt_effect_head(e: &Effect, out: &mut String)
    ensures
        final(out)@ == effect_head_w(*e, old(out)@),
{
    push_str(out, "\n    effect ");
    put_quoted(out, e.name.as_str());
    push_str(out, " {\n");
    match e.speed {
        Some(v) => {
            push_str(out, "        speed: ");
            put_num(out, v as i64);
            push_str(out, "\n");
        },
        None => {},
    }
    match e.frequency {
        Some(f) => {
            put2(out, "        ", frequency_exec(f));
            push_str(out, "\n");
        },
        None => {},
    }
    if e.mandatory {
        push_str(out, "        mandatory\n");
    }
    if e.simultaneous {
        push_str(out, "        simultaneous\n");
    }
    match e.timing {
        Some(Timing::When) => push_str(out, "        timing: when\n"),
        Some(Timing::If) => push_str(out, "        timing: if\n"),
        None => {},
    }
}

fn fmt_effect_mid(e: &Effect, out: &mut String)
    ensures
        final(out)@ == effect_mid_w(*e, old(out)@),
{
    match &e.trigger {
        Some(t) => {
            push_str(out, "        trigger: ");
            fmt_trigger(t, out);
            push_str(out, "\n");
        },
        None => {},
    }
    match e.who {
        Some(w) => {
            put2(out, "        who: ", player_who_name(&w));
            push_str(out, "\n");
        },
        None => {},
    }
    match &e.condition {
        Some(c) => {
            push_str(out, "        condition: ");
            fmt_condition(c, out);
            push_str(out, "\n");
        },
        None => {},
    }
    if e.activate_from.len() > 0 {
        push_str(out, "        activate_from: [");
        put_zones(out, &e.activate_from, ", ");
        push_str(out, "]\n");
    }
    match e.damage_step {
        Some(true) => push_str(out, "        damage_step: true\n"),
        Some(false) => push_str(out, "        damage_step: false\n"),
        None => {},
    }
    match &e.target {
        Some(t) => {
            push_str(out, "        target ");
            fmt_selector(&t.selector, out);
            put_as(&t.binding, out);
            push_str(out, "\n");
        },
        None => {},
    }
}

fn fmt_effect_tail(e: &Effect, out: &mut String)
    ensures
        final(out)@ == effect_tail_w(*e, old(out)@),
{
    if e.cost.len() > 0 {
        push_str(out, "        cost {\n");
        fmt_costs(&e.cost, "            ", out);
        push_str(out, "        }\n");
    }
    if e.resolve.len() > 0 {
        push_str(out, "        resolve {\n");
        let pad = super::text::string_from("            ");
        fmt_actions(&e.resolve, &pad, out);
        push_str(out, "        }\n");
    }
    match &e.choose {
        Some(c) => {
            let pad = super::text::string_from("        ");
            fmt_choose(c, &pad, out);
        },
        None => {},
    }
    push_str(out, "    }\n");
}

/// `p` followed by one `modifier:` line per modifier.
pub open spec fn modifiers_w(s: Seq<super::ast::Modifier>, p: Seq<char>) -> Seq<char>
    decreases s.len(),
{
    if s.len() == 0 {
        p
    } else {
        let m = s.last();
        expr_w(
            m.value,
            modifiers_w(s.drop_last(), p) + "        modifier: "@ + spec_stat_name_name(m.stat) + " "@ + (if m.positive {
                "+"@
            } else {
                "-"@
            }) + " "@,
        ) + "\n"@
    }
}

/// `p` followed by one `grant:` line per ability.
pub open spec fn grants_w(s: Seq<super::ast::GrantAbility>, p: Seq<char>) -> Seq<char>
    decreases s.len(),
{
    if s.len() == 0 {
        p
    } else {
        grants_w(s.drop_last(), p) + "        grant: "@ + spec_grant_ability_name(s.last()) + "\n"@
    }
}

/// `p` followed by a passive block.
pub open spec fn passive_w(pv: Passive, p: Seq<char>) -> Seq<char> {
    let q0 = p + "\n    passive "@ + quoted(pv.name@) + " {\n"@;
    let q1 = match pv.scope {
        Some(Scope::Self_) => q0 + "        scope: self\n"@,
        Some(Scope::Field) => q0 + "        scope: field\n"@,
        None => q0,
    };
    let q2 = match pv.target {
        Some(s) => selector_w(s, q1 + "        target: "@) + "\n"@,
        None => q1,
    };
    let q3 = match pv.condition {
        Some(c) => condition_w(c, q2 + "        condition: "@) + "\n"@,
        None => q2,
    };
    let q4 = grants_w(pv.grants@, modifiers_w(pv.modifiers@, q3));
    let q5 = if pv.negate_effects { q4 + "        negate_effects\n"@ } else { q4 };
    let q6 = match pv.set_atk {
        Some(e) => expr_w(e, q5 + "        set_atk: "@) + "\n"@,
        None => q5,
    };
    let q7 = match pv.set_def {
        Some(e) => expr_w(e, q6 + "        set_def: "@) + "\n"@,
        None => q6,
    };
    q7 + "    }\n"@
}

fn fmt_passive(pv: &Passive, out: &mut String)
    ensures
        final(out)@ == passive_w(*pv, old(out)@),
{
    push_str(out, "\n    passive ");
    put_quoted(out, pv.name.as_str());
    push_str(out, " {\n");
    match pv.scope {
        Some(Scope::Self_) => push_str(out, "        scope: self\n"),
        Some(Scope::Field) => push_str(out, "        scope: field\n"),
        None => {},
    }
    match &pv.target {
        Some(s) => {
            push_str(out, "        target: ");
            fmt_selector(s, out);
            push_str(out, "\n");
        },
        None => {},
    }
    match &pv.condition {
        Some(c) => {
            push_str(out, "        condition: ");
            fmt_condition(c, out);
            push_str(out, "\n");
        },
        None => {},
    }
    let ghost start = out@;
    let mut i: usize = 0;
    while i < pv.modifiers.len()
        invariant
            i <= pv.modifiers@.len(),
            out@ == modifiers_w(pv.modifiers@.take(i as int), start),
        decreases pv.modifiers.len() - i,
    {
        proof {
            assert(pv.modifiers@.take(i + 1).drop_last() =~= pv.modifiers@.take(i as int));
        }
        let m = &pv.modifiers[i];
        put2(out, "        modifier: ", stat_name_name(&m.stat));
        push_str(out, " ");
        if m.positive {
            push_str(out, "+");
        } else {
            push_str(out, "-");
        }
        push_str(out, " ");
        fmt_expr(&m.value, out);
        push_str(out, "\n");
        i += 1;
    }
    proof {
        lemma_take_all(pv.modifiers@);
    }
    let ghost mid = out@;
    let mut j: usize = 0;
    while j < pv.grants.len()
        invariant
            j <= pv.grants@.len(),
            out@ == grants_w(pv.grants@.take(j as int), mid),
        decreases pv.grants.len() - j,
    {
        proof {
            assert(pv.grants@.take(j + 1).drop_last() =~= pv.grants@.take(j as int));
        }
        put2(out, "        grant: ", grant_ability_name(&pv.grants[j]));
        push_str(out, "\n");
        j += 1;
    }
    proof {
        lemma_take_all(pv.grants@);
    }
    if pv.negate_effects {
        push_str(out, "        negate_effects\n");
    }
    match &pv.set_atk {
        Some(e) => {
            push_str(out, "        set_atk: ");
            fmt_expr(e, out);
            push_str(out, "\n");
        },
        None => {},
    }
    match &pv.set_def {
        Some(e) => {
            push_str(out, "        set_def: ");
            fmt_expr(e, out);
            push_str(out, "\n");
        },
        None => {},
    }
    push_str(out, "    }\n");
}

/// `p` followed by a replacement block.
pub open spec fn replacement_w(r: Replacement, p: Seq<char>) -> Seq<char> {
    let q0 = name_w(r.name, p + "\n    replacement"@) + " {\n"@ + "        instead_of: "@
        + spec_replaceable_event_name(r.instead_of) + "\n"@;
    let q1 = match r.condition {
        Some(c) => condition_w(c, q0 + "        condition: "@) + "\n"@,
        None => q0,
    };
    actions_w(r.actions@, "            "@, q1 + "        do {\n"@) + "        }\n"@ + "    }\n"@
}

fn fmt_replacement(r: &Replacement, out: &mut String)
    ensures
        final(out)@ == replacement_w(*r, old(out)@),
{
    push_str(out, "\n    replacement");
    put_name(&r.name, out);
    push_str(out, " {\n");
    put2(out, "        instead_of: ", replaceable_event_name(&r.instead_of));
    push_str(out, "\n");
    match &r.condition {
        Some(c) => {
            push_str(out, "        condition: ");
            fmt_condition(c, out);
            push_str(out, "\n");
        },
        None => {},
    }
    push_str(out, "        do {\n");
    let pad = super::text::string_from("            ");
    fmt_actions(&r.actions, &pad, out);
    push_str(out, "        }\n");
    push_str(out, "    }\n");
}

/// `p` followed by a redirect block.
pub open spec fn redirect_w(r: Redirect, p: Seq<char>) -> Seq<char> {
    let q0 = name_w(r.name, p + "\n    redirect"@) + " {\n"@ + "        scope: "@ + spec_redirect_scope_name(r.scope)
        + "\n"@ + "        from: "@ + spec_zone_name(r.from) + "\n"@ + "        to: "@ + spec_zone_name(r.to)
        + "\n"@;
    let q1 = match r.filter {
        Some(s) => selector_w(s, q0 + "        when: "@) + "\n"@,
        None => q0,
    };
    q1 + "    }\n"@
}

fn fmt_redirect(r: &Redirect, out: &mut String)
    ensures
        final(out)@ == redirect_w(*r, old(out)@),
{
    push_str(out, "\n    redirect");
    put_name(&r.name, out);
    push_str(out, " {\n");
    put2(out, "        scope: ", redirect_scope_name(&r.scope));
    push_str(out, "\n");
    put2(out, "        from: ", zone_name(&r.from));
    push_str(out, "\n");
    put2(out, "        to: ", zone_name(&r.to));
    push_str(out, "\n");
    match &r.filter {
        Some(s) => {
            push_str(out, "        when: ");
            fmt_selector(s, out);
            push_str(out, "\n");
        },
        None => {},
    }
    push_str(out, "    }\n");
}

/// Applies a block writer to each item of a list, in order.
pub open spec fn each_w<T>(s: Seq<T>, f: spec_fn(T, Seq<char>) -> Seq<char>, p: Seq<char>) -> Seq<char>
    decreases s.len(),
{
    if s.len() == 0 {
        p
    } else {
        f(s.last(), each_w(s.drop_last(), f, p))
    }
}

proof fn lemma_each_step<T>(s: Seq<T>, f: spec_fn(T, Seq<char>) -> Seq<char>, p: Seq<char>, i: int)
    requires
        0 <= i < s.len(),
    ensures
        each_w(s.take(i + 1), f, p) == f(s[i], each_w(s.take(i), f, p)),
{
    assert(s.take(i + 1).drop_last() =~= s.take(i));
}

pub open spec fn passive_block() -> spec_fn(Passive, Seq<char>) -> Seq<char> {
    |pv: Passive, p: Seq<char>| passive_w(pv, p)
}

pub open spec fn restriction_block() -> spec_fn(Restriction, Seq<char>) -> Seq<char> {
    |r: Restriction, p: Seq<char>| restriction_w(r, "    "@, p)
}

pub open spec fn replacement_block() -> spec_fn(Replacement, Seq<char>) -> Seq<char> {
    |r: Replacement, p: Seq<char>| replacement_w(r, p)
}

pub open spec fn redirect_block() -> spec_fn(Redirect, Seq<char>) -> Seq<char> {
    |r: Redirect, p: Seq<char>| redirect_w(r, p)
}

pub open spec fn effect_block() -> spec_fn(Effect, Seq<char>) -> Seq<char> {
    |e: Effect, p: Seq<char>| effect_w(e, p)
}

/// `p` followed by a whole card.
pub open spec fn card_w(c: Card, p: Seq<char>) -> Seq<char> {
    let q0 = fields_w(c.fields, p + "card "@ + quoted(c.name@) + " {\n"@);
    let q1 = match c.summon {
        Some(s) => summon_w(s, q0),
        None => q0,
    };
    let q2 = each_w(c.passives@, passive_block(), q1);
    let q3 = each_w(c.restrictions@, restriction_block(), q2);
    let q4 = each_w(c.replacements@, replacement_block(), q3);
    let q5 = each_w(c.redirects@, redirect_block(), q4);
    each_w(c.effects@, effect_block(), q5) + "}\n"@
}

fn fmt_card(c: &Card, out: &mut String)
    ensures
        final(out)@ == card_w(*c, old(out)@),
{
    push_str(out, "card ");
    put_quoted(out, c.name.as_str());
    push_str(out, " {\n");
    fmt_fields(&c.fields, out);
    match &c.summon {
        Some(s) => fmt_summon(s, out),
        None => {},
    }
    let ghost q = out@;
    let mut i: usize = 0;
    while i < c.passives.len()
        invariant
            i <= c.passives@.len(),
            out@ == each_w(c.passives@.take(i as int), passive_block(), q),
        decreases c.passives.len() - i,
    {
        proof {
            lemma_each_step(c.passives@, passive_block(), q, i as int);
        }
        fmt_passive(&c.passives[i], out);
        i += 1;
    }
    proof {
        lemma_take_all(c.passives@);
    }
    let ghost q = out@;
    let pad = super::text::string_from("    ");
    let mut i: usize = 0;
    while i < c.restrictions.len()
        invariant
            i <= c.restrictions@.len(),
            pad@ == "    "@,
            out@ == each_w(c.restrictions@.take(i as int), restriction_block(), q),
        decreases c.restrictions.len() - i,
    {
        proof {
            lemma_each_step(c.restrictions@, restriction_block(), q, i as int);
        }
        fmt_restriction(&c.restrictions[i], &pad, out);
        i += 1;
    }
    proof {
        lemma_take_all(c.restrictions@);
    }
    let ghost q = out@;
    let mut i: usize = 0;
    while i < c.replacements.len()
        invariant
            i <= c.replacements@.len(),
            out@ == each_w(c.replacements@.take(i as int), replacement_block(), q),
        decreases c.replacements.len() - i,
    {
        proof {
            lemma_each_step(c.replacements@, replacement_block(), q, i as int);
        }
        fmt_replacement(&c.replacements[i], out);
        i += 1;
    }
    proof {
        lemma_take_all(c.replacements@);
    }
    let ghost q = out@;
    let mut i: usize = 0;
    while i < c.redirects.len()
        invariant
            i <= c.redirects@.len(),
            out@ == each_w(c.redirects@.take(i as int), redirect_block(), q),
        decreases c.redirects.len() - i,
    {
        proof {
            lemma_each_step(c.redirects@, redirect_block(), q, i as int);
        }
        fmt_redirect(&c.redirects[i], out);
        i += 1;
    }
    proof {
        lemma_take_all(c.redirects@);
    }
    let ghost q = out@;
    let mut i: usize = 0;
    while i < c.effects.len()
        invariant
            i <= c.effects@.len(),
            out@ == each_w(c.effects@.take(i as int), effect_block(), q),
        decreases c.effects.len() - i,
    {
        proof {
            lemma_each_step(c.effects@, effect_block(), q, i as int);
        }
        fmt_effect(&c.effects[i], out);
        i += 1;
    }
    proof {
        lemma_take_all(c.effects@);
    }
    push_str(out, "}\n");
}

/// The cards of `s` written one after another, a blank line between two.
pub open spec fn cards_w(s: Seq<Card>, p: Seq<char>) -> Seq<char>
    decreases s.len(),
{
    if s.len() == 0 {
        p
    } else if s.len() == 1 {
        card_w(s[0], p)
    } else {
        card_w(s.last(), cards_w(s.drop_last(), p) + "\n"@)
    }
}

/// The canonical source text of a file.
pub open spec fn spec_format_file(file: File) -> Seq<char> {
    cards_w(file.cards@, Seq::empty())
}

/// Writes a file back as canonical DuelScript source.
pub fn format_file(file: &File) -> (r: String)
    ensures
        r@ == spec_format_file(*file),
{
    let mut out = String::new();
    let mut i: usize = 0;
    while i < file.cards.len()
        invariant
            i <= file.cards@.len(),
            out@ == cards_w(file.cards@.take(i as int), Seq::empty()),
        decreases file.cards.len() - i,
    {
        proof {
            assert(file.cards@.take(i + 1).drop_last() =~= file.cards@.take(i as int));
        }
        if i > 0 {
            push_char(&mut out, '\n');
            proof {
                assert(out@ =~= cards_w(file.cards@.take(i as int), Seq::empty()) + "\n"@) by {
                    reveal_strlit("\n");
                }
            }
        }
        fmt_card(&file.cards[i], &mut out);
        i += 1;
    }
    proof {
        lemma_take_all(file.cards@);
    }
    out
}

} // verus!
