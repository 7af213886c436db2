// The DuelScript v2 parser: a recursive-descent reader over the tokens of
// the lexer that builds the v2 syntax tree.

use vstd::prelude::*;
use super::ast::{
    Action, AnnounceWhat, Arrow, Attribute, BattlePosition, BinOp, Card, CardFields, CardFilter,
    CardFilterKind, CardState, CardType, Category, ChooseBlock, ChooseOption, CompareOp, Condition,
    ConditionAtom, Controller, CostAction, CounterTarget, DeckOwner, DeckPosition, DestroyBy,
    Duration, Effect, Expr, FieldOwner, FieldTarget, File, Frequency, GrantAbility, LevelConstraint,
    LevelConstraintKind, LpOwner, MaterialItem, MaterialList, Modifier, OptKind, Passive, PhaseName,
    PhaseOwner, PlayerWho, PositionFilter, Predicate, PredicateAtom, Quantity, Race, Redirect,
    RedirectScope, ReplaceableEvent, Replacement, Restriction, ReturnDest, RitualMaterials, Scope,
    Selector, SpecialSummonProcedure, StatField, StatName, StatVal, SummonBlock, SummonMethod,
    SynchroMaterials, TargetDecl, Timing, TokenSpec, Trigger, Zone, ZoneFilter,
};
use super::keywords::{
    announce_what_of, arrow_of, attribute_of, battle_position_of, card_filter_kind_of,
    card_state_of, card_type_of, category_of, compare_op_of, controller_of, duration_word_of,
    field_target_of, grant_ability_of, phase_name_of, player_who_of, position_filter_of, race_of,
    redirect_scope_of, replaceable_event_of, stat_field_of, stat_name_of, summon_method_of,
    zone_of, bin_op_of, spec_announce_what_of, spec_arrow_of, spec_attribute_of,
    spec_battle_position_of, spec_card_filter_kind_of, spec_card_state_of, spec_card_type_of,
    spec_category_of, spec_compare_op_of, spec_controller_of, spec_field_target_of,
    spec_grant_ability_of, spec_phase_name_of, spec_player_who_of, spec_position_filter_of,
    spec_race_of, spec_redirect_scope_of, spec_replaceable_event_of, spec_stat_field_of,
    spec_stat_name_of, spec_summon_method_of, spec_zone_of, spec_bin_op_of,
    spec_duration_word_of,
};
use super::lexer::{lex, same_tokens, tokenize, tokens_of, LexError, TokKind, Token};
use super::fmt::spec_fmt_trigger;
use super::keywords::{
    law_category_word_roundtrip, law_summon_method_word_roundtrip, law_zone_word_roundtrip, spec_category_name,
    spec_summon_method_name, spec_zone_name,
};
use super::text::{blank_text, chars_of, digit_char, digits, push_char, push_digits, push_str, str_eq};

verus! {

// ── Error type ───────────────────────────────────────────────

/// Why a source text was refused.
#[derive(Debug)]
pub enum V2ParseError {
    /// The text does not follow the grammar; the message gives the line and
    /// column (` --> line:col`) and what was expected there.
    SyntaxError(String),
    /// A block lacks an item it must have.
    MissingField(&'static str),
    /// A value is out of range for its field.
    InvalidValue(String),
    /// A word is not one the grammar knows at that place.
    UnknownRule(String),
}

impl V2ParseError {
    /// The human-readable message: `Parse error: ...`, `Missing field: ...`,
    /// `Invalid value: ...` or `Unknown rule: ...`.
    pub fn message(&self) -> (r: String)
        ensures
            r@ == spec_error_message(*self),
    {
        let mut s = String::new();
        match self {
            V2ParseError::SyntaxError(e) => {
                push_str(&mut s, "Parse error: ");
                push_str(&mut s, e.as_str());
            },
            V2ParseError::MissingField(e) => {
                push_str(&mut s, "Missing field: ");
                push_str(&mut s, e);
            },
            V2ParseError::InvalidValue(e) => {
                push_str(&mut s, "Invalid value: ");
                push_str(&mut s, e.as_str());
            },
            V2ParseError::UnknownRule(e) => {
                push_str(&mut s, "Unknown rule: ");
                push_str(&mut s, e.as_str());
            },
        }
        s
    }
}

pub open spec fn spec_error_message(e: V2ParseError) -> Seq<char> {
    match e {
        V2ParseError::SyntaxError(m) => "Parse error: "@ + m@,
        V2ParseError::MissingField(m) => "Missing field: "@ + m@,
        V2ParseError::InvalidValue(m) => "Invalid value: "@ + m@,
        V2ParseError::UnknownRule(m) => "Unknown rule: "@ + m@,
    }
}

// ── Error positions ──────────────────────────────────────────

/// How a syntax error message begins: ` --> line:col` and a line break.
pub open spec fn position_prefix(line: nat, col: nat) -> Seq<char> {
    " --> "@ + digits(line, 10) + ":"@ + digits(col, 10) + "\n"@
}

/// Whether a message begins with the position of the error.
pub open spec fn located(m: Seq<char>) -> bool {
    exists|line: nat, col: nat|
        {
            let p = #[trigger] position_prefix(line, col);
            p.len() <= m.len() && m.subrange(0, p.len() as int) == p
        }
}

/// Whether a failed parse that is a syntax error says where it happened.
pub open spec fn err_located<T>(r: Result<T, V2ParseError>) -> bool {
    r matches Err(V2ParseError::SyntaxError(m)) ==> located(m@)
}

/// The message ` --> line:col` followed by `rest`, which starts a new line.
fn position_message(line: u64, col: u64, rest: &str) -> (m: String)
    requires
        rest@.len() > 0,
        rest@[0] == '\n',
    ensures
        m@ == " --> "@ + digits(line as nat, 10) + ":"@ + digits(col as nat, 10) + rest@,
        located(m@),
{
    let mut m = String::new();
    push_str(&mut m, " --> ");
    push_digits(&mut m, line, 10);
    push_char(&mut m, ':');
    push_digits(&mut m, col, 10);
    push_str(&mut m, rest);
    proof {
        let p = position_prefix(line as nat, col as nat);
        assert(":"@ =~= seq![':']) by {
            reveal_strlit(":");
        }
        assert("\n"@ =~= seq!['\n']) by {
            reveal_strlit("\n");
        }
        assert(m@ =~= " --> "@ + digits(line as nat, 10) + ":"@ + digits(col as nat, 10) + rest@);
        assert(m@.subrange(0, p.len() as int) =~= p);
    }
    m
}

// ── Decimal numbers ──────────────────────────────────────────

pub open spec fn is_digit_char(c: char) -> bool {
    '0' <= c && c <= '9'
}

/// Whether `s` is a non-empty run of decimal digits.
pub open spec fn all_digits(s: Seq<char>) -> bool {
    s.len() > 0 && forall|i: int| 0 <= i < s.len() ==> is_digit_char(#[trigger] s[i])
}

/// The value of a run of decimal digits.
pub open spec fn decimal_value(s: Seq<char>) -> nat
    decreases s.len(),
{
    if s.len() == 0 {
        0
    } else {
        decimal_value(s.drop_last()) * 10 + ((s.last() as int - '0' as int) as nat)
    }
}

proof fn lemma_decimal_value_grows(s: Seq<char>, j: int, k: int)
    requires
        0 <= j <= k <= s.len(),
        forall|i: int| 0 <= i < s.len() ==> is_digit_char(#[trigger] s[i]),
    ensures
        decimal_value(s.take(j)) <= decimal_value(s.take(k)),
    decreases k - j,
{
    if j < k {
        lemma_decimal_value_grows(s, j, k - 1);
        assert(s.take(k).drop_last() =~= s.take(k - 1));
    }
}

proof fn lemma_digit_char_value(d: nat)
    requires
        d < 10,
    ensures
        is_digit_char(digit_char(d)),
        digit_char(d) as int - '0' as int == d,
{
}

/// Numbers read back: the decimal digits written for `n` form a digit
/// string whose value is `n`.
pub proof fn law_decimal_digits_read_back(n: nat)
    ensures
        all_digits(digits(n, 10)),
        decimal_value(digits(n, 10)) == n,
    decreases n,
{
    let s = digits(n, 10);
    if n < 10 {
        lemma_digit_char_value(n);
        assert(s =~= seq![digit_char(n)]);
        assert(s.drop_last() =~= Seq::<char>::empty());
        assert(decimal_value(s.drop_last()) == 0);
    } else {
        assert(n / 10 < n) by (nonlinear_arith)
            requires
                n >= 10,
        ;
        law_decimal_digits_read_back(n / 10);
        lemma_digit_char_value(n % 10);
        assert(s.drop_last() =~= digits(n / 10, 10));
        assert(s.last() == digit_char(n % 10));
        assert(n == (n / 10) * 10 + n % 10) by (nonlinear_arith);
        assert(decimal_value(s) == decimal_value(s.drop_last()) * 10 + ((s.last() as int - '0' as int) as nat));
        assert(decimal_value(s) == (n / 10) * 10 + n % 10);
        assert forall|i: int| 0 <= i < s.len() implies is_digit_char(#[trigger] s[i]) by {
            if i < s.len() - 1 {
                assert(s[i] == digits(n / 10, 10)[i]);
            }
        }
    }
}

/// The value of the digit string `s`, if it is one and the value is at most
/// `max`.
pub fn decimal_of(s: &str, max: u64) -> (r: Option<u64>)
    ensures
        r matches Some(v) ==> all_digits(s@) && v == decimal_value(s@) && v <= max,
        r is None ==> !all_digits(s@) || decimal_value(s@) > max,
{
    let cs = chars_of(s);
    if cs.len() == 0 {
        return None;
    }
    let mut acc: u128 = 0;
    let mut i: usize = 0;
    while i < cs.len()
        invariant
            cs@ == s@,
            i <= cs@.len(),
            acc == decimal_value(s@.take(i as int)),
            acc <= max,
            forall|k: int| 0 <= k < i ==> is_digit_char(#[trigger] s@[k]),
        decreases cs.len() - i,
    {
        let c = cs[i];
        if !('0' <= c && c <= '9') {
            return None;
        }
        proof {
            assert(s@.take(i + 1).drop_last() =~= s@.take(i as int));
        }
        let d = (c as u32 - '0' as u32) as u128;
        acc = acc * 10 + d;
        i += 1;
        if acc > max as u128 {
            proof {
                if all_digits(s@) {
                    lemma_decimal_value_grows(s@, i as int, s@.len() as int);
                    assert(s@.take(s@.len() as int) =~= s@);
                }
            }
            return None;
        }
    }
    proof {
        assert(s@.take(cs@.len() as int) =~= s@);
    }
    Some(acc as u64)
}


// ── Parser state ─────────────────────────────────────────────

/// A parser over the tokens of one source text. It keeps the characters of
/// the text to place its error messages, and the index of the next token.
pub struct V2Parser {
    toks: Vec<Token>,
    src: Vec<char>,
    pos: usize,
}

/// `b` is `a` after reading zero or more tokens.
/// Whether token `i` is a decimal number no larger than `max`.
pub open spec fn number_fits(toks: Seq<Token>, i: int, max: nat) -> bool {
    &&& 0 <= i < toks.len()
    &&& toks[i].kind == TokKind::Number
    &&& all_digits(toks[i].text@)
    &&& decimal_value(toks[i].text@) <= max
}

/// Whether the tokens at `i` read `level`, `rank`, `link` or `scale`, then
/// `:` and a decimal number that fits in 32 bits.
pub open spec fn numeric_field_at(toks: Seq<Token>, i: int) -> bool {
    ||| number_field_at(toks, i, "level"@, 4294967295)
    ||| number_field_at(toks, i, "rank"@, 4294967295)
    ||| number_field_at(toks, i, "link"@, 4294967295)
    ||| number_field_at(toks, i, "scale"@, 4294967295)
}

/// The names of the header fields differ from one another.
proof fn lemma_field_names_differ()
    ensures
        "id"@ != "type"@,
        "id"@ != "attribute"@,
        "id"@ != "race"@,
        "id"@ != "level"@,
        "id"@ != "rank"@,
        "id"@ != "link"@,
        "id"@ != "scale"@,
        "id"@ != "atk"@,
        "id"@ != "def"@,
        "id"@ != "link_arrows"@,
        "id"@ != "archetype"@,
        "type"@ != "attribute"@,
        "type"@ != "race"@,
        "type"@ != "level"@,
        "type"@ != "rank"@,
        "type"@ != "link"@,
        "type"@ != "scale"@,
        "type"@ != "atk"@,
        "type"@ != "def"@,
        "type"@ != "link_arrows"@,
        "type"@ != "archetype"@,
        "attribute"@ != "race"@,
        "attribute"@ != "level"@,
        "attribute"@ != "rank"@,
        "attribute"@ != "link"@,
        "attribute"@ != "scale"@,
        "attribute"@ != "atk"@,
        "attribute"@ != "def"@,
        "attribute"@ != "link_arrows"@,
        "attribute"@ != "archetype"@,
        "race"@ != "level"@,
        "race"@ != "rank"@,
        "race"@ != "link"@,
        "race"@ != "scale"@,
        "race"@ != "atk"@,
        "race"@ != "def"@,
        "race"@ != "link_arrows"@,
        "race"@ != "archetype"@,
        "level"@ != "rank"@,
        "level"@ != "link"@,
        "level"@ != "scale"@,
        "level"@ != "atk"@,
        "level"@ != "def"@,
        "level"@ != "link_arrows"@,
        "level"@ != "archetype"@,
        "rank"@ != "link"@,
        "rank"@ != "scale"@,
        "rank"@ != "atk"@,
        "rank"@ != "def"@,
        "rank"@ != "link_arrows"@,
        "rank"@ != "archetype"@,
        "link"@ != "scale"@,
        "link"@ != "atk"@,
        "link"@ != "def"@,
        "link"@ != "link_arrows"@,
        "link"@ != "archetype"@,
        "scale"@ != "atk"@,
        "scale"@ != "def"@,
        "scale"@ != "link_arrows"@,
        "scale"@ != "archetype"@,
        "atk"@ != "def"@,
        "atk"@ != "link_arrows"@,
        "atk"@ != "archetype"@,
        "def"@ != "link_arrows"@,
        "def"@ != "archetype"@,
        "link_arrows"@ != "archetype"@,
{
    reveal_strlit("id");
    reveal_strlit("type");
    reveal_strlit("attribute");
    reveal_strlit("race");
    reveal_strlit("level");
    reveal_strlit("rank");
    reveal_strlit("link");
    reveal_strlit("scale");
    reveal_strlit("atk");
    reveal_strlit("def");
    reveal_strlit("link_arrows");
    reveal_strlit("archetype");
    assert("id"@.len() == 2);
    assert("type"@.len() == 4);
    assert("attribute"@.len() == 9);
    assert("race"@.len() == 4);
    assert("level"@.len() == 5);
    assert("rank"@.len() == 4);
    assert("link"@.len() == 4);
    assert("scale"@.len() == 5);
    assert("atk"@.len() == 3);
    assert("def"@.len() == 3);
    assert("link_arrows"@.len() == 11);
    assert("archetype"@.len() == 9);
    assert("type"@[0] != "race"@[0]);
    assert("type"@[0] != "rank"@[0]);
    assert("type"@[0] != "link"@[0]);
    assert("attribute"@[1] != "archetype"@[1]);
    assert("race"@[2] != "rank"@[2]);
    assert("race"@[0] != "link"@[0]);
    assert("level"@[0] != "scale"@[0]);
    assert("rank"@[0] != "link"@[0]);
    assert("atk"@[0] != "def"@[0]);
}

/// `b` is the header `a` with at most the field written `name` changed.
pub open spec fn header_same_but(a: CardFields, b: CardFields, name: Seq<char>) -> bool {
    &&& name != "id"@ ==> b.id == a.id
    &&& name != "type"@ ==> b.card_types@ == a.card_types@
    &&& name != "attribute"@ ==> b.attribute == a.attribute
    &&& name != "race"@ ==> b.race == a.race
    &&& name != "level"@ ==> b.level == a.level
    &&& name != "rank"@ ==> b.rank == a.rank
    &&& name != "link"@ ==> b.link == a.link
    &&& name != "scale"@ ==> b.scale == a.scale
    &&& name != "atk"@ ==> b.atk == a.atk
    &&& name != "def"@ ==> b.def == a.def
    &&& name != "link_arrows"@ ==> b.link_arrows@ == a.link_arrows@
    &&& name != "archetype"@ ==> b.archetypes@ == a.archetypes@
}

/// Whether the tokens at `i` read `name : N` with `N` a decimal number no
/// larger than `max`.
pub open spec fn number_field_at(toks: Seq<Token>, i: int, name: Seq<char>, max: nat) -> bool {
    &&& word_is(toks, i, name)
    &&& sym_is(toks, i + 1, ":"@)
    &&& number_fits(toks, i + 2, max)
}

spec fn advanced(a: V2Parser, b: V2Parser) -> bool {
    &&& b.wf()
    &&& b.toks@ == a.toks@
    &&& b.src@ == a.src@
    &&& a.pos <= b.pos
    &&& b.pos <= b.toks@.len()
}

/// `b` is `a` after reading at least one token.
spec fn moved(a: V2Parser, b: V2Parser) -> bool {
    advanced(a, b) && a.pos < b.pos
}

/// The text of the token `off` places after the next one.
spec fn text_at(p: V2Parser, off: int) -> Seq<char> {
    p.toks@[p.pos + off].text@
}

/// Whether the token `off` places after the next one has kind `k` and text `w`.
spec fn tok_is(p: V2Parser, off: int, k: TokKind, w: Seq<char>) -> bool {
    &&& 0 <= p.pos + off < p.toks@.len()
    &&& p.toks@[p.pos + off].kind == k
    &&& p.toks@[p.pos + off].text@ == w
}

/// The words of the tokens `p .. p + n`, joined by single spaces.
spec fn join_words(toks: Seq<Token>, p: int, n: int) -> Seq<char>
    decreases n,
{
    if n <= 1 {
        toks[p].text@
    } else {
        join_words(toks, p, n - 1) + seq![' '] + toks[p + n - 1].text@
    }
}

/// Whether the tokens `p .. p + n` are all words.
spec fn words_at(toks: Seq<Token>, p: int, n: int) -> bool {
    &&& 0 <= p
    &&& p + n <= toks.len()
    &&& forall|i: int| p <= i < p + n ==> (#[trigger] toks[i]).kind == TokKind::Ident
}

/// Whether token `i` is a word.
pub open spec fn word_at(toks: Seq<Token>, i: int) -> bool {
    0 <= i < toks.len() && toks[i].kind == TokKind::Ident
}

/// Whether token `i` is the word `w`.
pub open spec fn word_is(toks: Seq<Token>, i: int, w: Seq<char>) -> bool {
    word_at(toks, i) && toks[i].text@ == w
}

/// Whether token `i` is the symbol `w`.
pub open spec fn sym_is(toks: Seq<Token>, i: int, w: Seq<char>) -> bool {
    0 <= i < toks.len() && toks[i].kind == TokKind::Sym && toks[i].text@ == w
}

/// An optional `by method` at `i`: the method and where it ends.
pub open spec fn by_method_at(toks: Seq<Token>, i: int) -> Option<(Option<SummonMethod>, int)> {
    if word_is(toks, i, "by"@) {
        if word_at(toks, i + 1) && spec_summon_method_of(toks[i + 1].text@) is Some {
            Some((spec_summon_method_of(toks[i + 1].text@), i + 2))
        } else {
            None
        }
    } else {
        Some((None, i))
    }
}

/// The rest of a category list from `k`, after the categories `acc`:
/// `category (, category)* ]`; the categories and where the list ends.
pub open spec fn categories_from(toks: Seq<Token>, k: int, acc: Seq<Category>) -> Option<(Seq<Category>, int)>
    decreases toks.len() - k,
{
    if word_at(toks, k) && spec_category_of(toks[k].text@) is Some {
        let acc2 = acc.push(spec_category_of(toks[k].text@)->0);
        if sym_is(toks, k + 1, "]"@) {
            Some((acc2, k + 2))
        } else if sym_is(toks, k + 1, ","@) {
            categories_from(toks, k + 2, acc2)
        } else {
            None
        }
    } else {
        None
    }
}

/// A category list `[ ... ]` at `i`: its categories and where it ends.
pub open spec fn categories_at(toks: Seq<Token>, i: int) -> Option<(Seq<Category>, int)> {
    if !sym_is(toks, i, "["@) {
        None
    } else if sym_is(toks, i + 1, "]"@) {
        Some((Seq::empty(), i + 2))
    } else {
        categories_from(toks, i + 1, Seq::empty())
    }
}

/// The trigger a single word names, for the triggers that are one word.
pub open spec fn plain_trigger_word(w: Seq<char>) -> Option<Trigger> {
    if w == "normal_summoned"@ {
        Some(Trigger::NormalSummoned)
    } else if w == "tribute_summoned"@ {
        Some(Trigger::TributeSummoned)
    } else if w == "flip_summoned"@ {
        Some(Trigger::FlipSummoned)
    } else if w == "flipped"@ {
        Some(Trigger::Flipped)
    } else if w == "destroyed_by_battle"@ {
        Some(Trigger::DestroyedByBattle)
    } else if w == "destroyed_by_effect"@ {
        Some(Trigger::DestroyedByEffect)
    } else if w == "destroys_by_battle"@ {
        Some(Trigger::DestroysByBattle)
    } else if w == "leaves_field"@ {
        Some(Trigger::LeavesField)
    } else if w == "banished"@ {
        Some(Trigger::Banished)
    } else if w == "attack_declared"@ {
        Some(Trigger::AttackDeclared)
    } else if w == "opponent_attack_declared"@ {
        Some(Trigger::OpponentAttackDeclared)
    } else if w == "attacked"@ {
        Some(Trigger::Attacked)
    } else if w == "direct_attack_damage"@ {
        Some(Trigger::DirectAttackDamage)
    } else if w == "damage_calculation"@ {
        Some(Trigger::DamageCalculation)
    } else if w == "end_phase"@ {
        Some(Trigger::EndPhase)
    } else if w == "draw_phase"@ {
        Some(Trigger::DrawPhase)
    } else if w == "main_phase"@ {
        Some(Trigger::MainPhase)
    } else if w == "battle_phase"@ {
        Some(Trigger::BattlePhase)
    } else if w == "summon_attempt"@ {
        Some(Trigger::SummonAttempt)
    } else if w == "spell_trap_activated"@ {
        Some(Trigger::SpellTrapActivated)
    } else if w == "chain_link"@ {
        Some(Trigger::ChainLink)
    } else if w == "targeted"@ {
        Some(Trigger::Targeted)
    } else if w == "position_changed"@ {
        Some(Trigger::PositionChanged)
    } else if w == "control_changed"@ {
        Some(Trigger::ControlChanged)
    } else if w == "equipped"@ {
        Some(Trigger::Equipped)
    } else if w == "unequipped"@ {
        Some(Trigger::Unequipped)
    } else {
        None
    }
}

/// Whether the tokens from `i` spell a trigger: `summoned [by m]`,
/// `special_summoned [by m]`, `destroyed [by battle|card_effect|effect]`,
/// `sent_to zone [from zone]`, `returned_to zone`,
/// `battle_damage [to you|opponent|controller|either]`,
/// `standby_phase [of yours|opponents|either]`, `opponent_activates [list]`,
/// `used_as_material [[for] m]`, `custom "name"`, or one of the one-word
/// triggers.
pub open spec fn trigger_ok(toks: Seq<Token>, i: int) -> bool {
    if word_is(toks, i, "summoned"@) || word_is(toks, i, "special_summoned"@) {
        by_method_at(toks, i + 1) is Some
    } else if word_is(toks, i, "destroyed"@) {
        word_is(toks, i + 1, "by"@) ==> (word_is(toks, i + 2, "battle"@) || word_is(toks, i + 2, "card_effect"@)
            || word_is(toks, i + 2, "effect"@))
    } else if word_is(toks, i, "sent_to"@) || word_is(toks, i, "returned_to"@) {
        word_at(toks, i + 1) && spec_zone_of(toks[i + 1].text@) is Some
    } else if word_is(toks, i, "battle_damage"@) {
        word_is(toks, i + 1, "to"@) ==> (word_is(toks, i + 2, "you"@) || word_is(toks, i + 2, "opponent"@)
            || word_is(toks, i + 2, "controller"@) || word_is(toks, i + 2, "either"@))
    } else if word_is(toks, i, "standby_phase"@) {
        word_is(toks, i + 1, "of"@) ==> (word_is(toks, i + 2, "yours"@) || word_is(toks, i + 2, "opponents"@)
            || word_is(toks, i + 2, "either"@))
    } else if word_is(toks, i, "opponent_activates"@) {
        sym_is(toks, i + 1, "["@) ==> categories_at(toks, i + 1) is Some
    } else if word_is(toks, i, "used_as_material"@) {
        word_is(toks, i + 1, "for"@) ==> (word_at(toks, i + 2) && spec_summon_method_of(toks[i + 2].text@) is Some)
    } else if word_is(toks, i, "custom"@) {
        0 <= i + 1 < toks.len() && toks[i + 1].kind == TokKind::Str
    } else {
        word_at(toks, i) && plain_trigger_word(toks[i].text@) is Some
    }
}

/// Whether the tokens from `i` to `j` spell the trigger `t` (see
/// `trigger_ok`); a `from zone` that names no zone is left unread.
pub open spec fn trigger_spelled(toks: Seq<Token>, i: int, t: Trigger, j: int) -> bool {
    if word_is(toks, i, "summoned"@) {
        by_method_at(toks, i + 1) matches Some((m, k)) && t == Trigger::Summoned(m) && j == k
    } else if word_is(toks, i, "special_summoned"@) {
        by_method_at(toks, i + 1) matches Some((m, k)) && t == Trigger::SpecialSummoned(m) && j == k
    } else if word_is(toks, i, "destroyed"@) {
        if word_is(toks, i + 1, "by"@) {
            j == i + 3 && t == Trigger::Destroyed(
                Some(
                    if word_is(toks, i + 2, "battle"@) {
                        DestroyBy::Battle
                    } else if word_is(toks, i + 2, "card_effect"@) {
                        DestroyBy::CardEffect
                    } else {
                        DestroyBy::Effect
                    },
                ),
            )
        } else {
            j == i + 1 && t == Trigger::Destroyed(None)
        }
    } else if word_is(toks, i, "sent_to"@) {
        let z = spec_zone_of(toks[i + 1].text@)->0;
        if word_is(toks, i + 2, "from"@) && word_at(toks, i + 3) && spec_zone_of(toks[i + 3].text@) is Some {
            j == i + 4 && t == Trigger::SentTo(z, spec_zone_of(toks[i + 3].text@))
        } else {
            j == i + 2 && t == Trigger::SentTo(z, None)
        }
    } else if word_is(toks, i, "returned_to"@) {
        j == i + 2 && t == Trigger::ReturnedTo(spec_zone_of(toks[i + 1].text@)->0)
    } else if word_is(toks, i, "battle_damage"@) {
        if word_is(toks, i + 1, "to"@) {
            j == i + 3 && t == Trigger::BattleDamage(
                Some(
                    if word_is(toks, i + 2, "you"@) {
                        PlayerWho::You
                    } else if word_is(toks, i + 2, "opponent"@) {
                        PlayerWho::Opponent
                    } else if word_is(toks, i + 2, "controller"@) {
                        PlayerWho::Controller
                    } else {
                        PlayerWho::Both
                    },
                ),
            )
        } else {
            j == i + 1 && t == Trigger::BattleDamage(None)
        }
    } else if word_is(toks, i, "standby_phase"@) {
        if word_is(toks, i + 1, "of"@) {
            j == i + 3 && t == Trigger::StandbyPhase(
                Some(
                    if word_is(toks, i + 2, "yours"@) {
                        PhaseOwner::Yours
                    } else if word_is(toks, i + 2, "opponents"@) {
                        PhaseOwner::Opponents
                    } else {
                        PhaseOwner::Either
                    },
                ),
            )
        } else {
            j == i + 1 && t == Trigger::StandbyPhase(None)
        }
    } else if word_is(toks, i, "opponent_activates"@) {
        t matches Trigger::OpponentActivates(v) && if sym_is(toks, i + 1, "["@) {
            categories_at(toks, i + 1) == Some((v@, j))
        } else {
            v@.len() == 0 && j == i + 1
        }
    } else if word_is(toks, i, "used_as_material"@) {
        if word_is(toks, i + 1, "for"@) {
            j == i + 3 && t == Trigger::UsedAsMaterial(spec_summon_method_of(toks[i + 2].text@))
        } else if word_at(toks, i + 1) && spec_summon_method_of(toks[i + 1].text@) is Some {
            j == i + 2 && t == Trigger::UsedAsMaterial(spec_summon_method_of(toks[i + 1].text@))
        } else {
            j == i + 1 && t == Trigger::UsedAsMaterial(None)
        }
    } else if word_is(toks, i, "custom"@) {
        t matches Trigger::Custom(n) && n@ == toks[i + 1].text@ && j == i + 2
    } else {
        j == i + 1 && plain_trigger_word(toks[i].text@) == Some(t)
    }
}

/// A word token with the given text.
pub open spec fn word_tok(w: Seq<char>) -> (TokKind, Seq<char>) {
    (TokKind::Ident, w)
}

/// The tokens a category list writes inside its brackets: the category
/// words separated by commas.
pub open spec fn category_words(cats: Seq<Category>) -> Seq<(TokKind, Seq<char>)>
    decreases cats.len(),
{
    if cats.len() == 0 {
        Seq::empty()
    } else if cats.len() == 1 {
        seq![word_tok(spec_category_name(cats[0]))]
    } else {
        seq![word_tok(spec_category_name(cats[0])), (TokKind::Sym, ","@)] + category_words(cats.drop_first())
    }
}

/// The tokens the formatter writes for a trigger, as (kind, text) pairs.
pub open spec fn trigger_words(t: Trigger) -> Seq<(TokKind, Seq<char>)> {
    match t {
        Trigger::Summoned(Some(m)) => seq![
            word_tok("summoned"@),
            word_tok("by"@),
            word_tok(spec_summon_method_name(m)),
        ],
        Trigger::SpecialSummoned(Some(m)) => seq![
            word_tok("special_summoned"@),
            word_tok("by"@),
            word_tok(spec_summon_method_name(m)),
        ],
        Trigger::Destroyed(Some(how)) => seq![
            word_tok("destroyed"@),
            word_tok("by"@),
            word_tok(
                match how {
                    DestroyBy::Battle => "battle"@,
                    DestroyBy::Effect => "effect"@,
                    DestroyBy::CardEffect => "card_effect"@,
                },
            ),
        ],
        Trigger::SentTo(z, None) => seq![word_tok("sent_to"@), word_tok(spec_zone_name(z))],
        Trigger::SentTo(z, Some(f)) => seq![
            word_tok("sent_to"@),
            word_tok(spec_zone_name(z)),
            word_tok("from"@),
            word_tok(spec_zone_name(f)),
        ],
        Trigger::ReturnedTo(z) => seq![word_tok("returned_to"@), word_tok(spec_zone_name(z))],
        Trigger::BattleDamage(Some(p)) => seq![
            word_tok("battle_damage"@),
            word_tok("to"@),
            word_tok(
                match p {
                    PlayerWho::You => "you"@,
                    PlayerWho::Opponent => "opponent"@,
                    PlayerWho::Controller => "controller"@,
                    _ => "either"@,
                },
            ),
        ],
        Trigger::StandbyPhase(Some(o)) => seq![
            word_tok("standby_phase"@),
            word_tok("of"@),
            word_tok(
                match o {
                    PhaseOwner::Yours => "yours"@,
                    PhaseOwner::Opponents => "opponents"@,
                    PhaseOwner::Either => "either"@,
                },
            ),
        ],
        Trigger::OpponentActivates(cats) => if cats@.len() == 0 {
            seq![word_tok("opponent_activates"@)]
        } else {
            seq![word_tok("opponent_activates"@), (TokKind::Sym, "["@)] + category_words(cats@) + seq![
                (TokKind::Sym, "]"@),
            ]
        },
        Trigger::UsedAsMaterial(Some(m)) => seq![
            word_tok("used_as_material"@),
            word_tok("for"@),
            word_tok(spec_summon_method_name(m)),
        ],
        Trigger::Custom(n) => seq![word_tok("custom"@), (TokKind::Str, n@)],
        _ => seq![word_tok(spec_fmt_trigger(t))],
    }
}

/// Whether the tokens from `i` on are `ws`.
pub open spec fn tokens_carry(toks: Seq<Token>, i: int, ws: Seq<(TokKind, Seq<char>)>) -> bool {
    &&& 0 <= i
    &&& i + ws.len() <= toks.len()
    &&& forall|k: int| 0 <= k < ws.len() ==> toks[i + k].kind == (#[trigger] ws[k]).0 && toks[i + k].text@ == ws[k].1
}

/// Whether token `j` could not continue a trigger: it is none of `by`,
/// `from`, `to`, `of`, `for`, `[` and no summon method.
pub open spec fn ends_trigger(toks: Seq<Token>, j: int) -> bool {
    &&& !word_is(toks, j, "by"@)
    &&& !word_is(toks, j, "from"@)
    &&& !word_is(toks, j, "to"@)
    &&& !word_is(toks, j, "of"@)
    &&& !word_is(toks, j, "for"@)
    &&& !sym_is(toks, j, "["@)
    &&& !(word_at(toks, j) && spec_summon_method_of(toks[j].text@) is Some)
}

proof fn lemma_categories_read_back(toks: Seq<Token>, k: int, cats: Seq<Category>, acc: Seq<Category>)
    requires
        cats.len() > 0,
        tokens_carry(toks, k, category_words(cats) + seq![(TokKind::Sym, "]"@)]),
    ensures
        categories_from(toks, k, acc) == Some((acc + cats, k + category_words(cats).len() + 1)),
    decreases cats.len(),
{
    let ws = category_words(cats) + seq![(TokKind::Sym, "]"@)];
    law_category_word_roundtrip(cats[0]);
    assert(ws[0] == word_tok(spec_category_name(cats[0])));
    assert(toks[k + 0].text@ == ws[0].1);
    if cats.len() == 1 {
        assert(ws[1] == (TokKind::Sym, "]"@));
        assert(toks[k + 1].text@ == ws[1].1);
        assert(acc.push(cats[0]) =~= acc + cats);
    } else {
        let rest = cats.drop_first();
        assert(ws[1] == (TokKind::Sym, ","@));
        assert(toks[k + 1].text@ == ws[1].1);
        assert(","@ != "]"@) by {
            reveal_strlit(",");
            reveal_strlit("]");
            assert(","@[0] != "]"@[0]);
        }
        assert(!sym_is(toks, k + 1, "]"@));
        let ws2 = category_words(rest) + seq![(TokKind::Sym, "]"@)];
        assert forall|m: int| 0 <= m < ws2.len() implies toks[k + 2 + m].kind == (#[trigger] ws2[m]).0
            && toks[k + 2 + m].text@ == ws2[m].1 by {
            assert(ws[2 + m] == ws2[m]);
            assert(toks[k + (2 + m)].text@ == ws[2 + m].1);
        }
        lemma_categories_read_back(toks, k + 2, rest, acc.push(cats[0]));
        assert(acc.push(cats[0]) + rest =~= acc + cats);
    }
}

/// The parser reads back the trigger the formatter writes: when the tokens
/// from `i` are the formatter's words for `t` and the next token cannot
/// continue a trigger, they are a trigger and spell exactly `t`. A battle
/// damage trigger for the owner or the summoner is written as `to either`,
/// which reads back as both players; it is left out.
pub proof fn law_trigger_read_back(toks: Seq<Token>, i: int, t: Trigger)
    requires
        !(t matches Trigger::BattleDamage(Some(p)) && (p == PlayerWho::Owner || p == PlayerWho::Summoner)),
        tokens_carry(toks, i, trigger_words(t)),
        ends_trigger(toks, i + trigger_words(t).len()),
    ensures
        trigger_ok(toks, i),
        trigger_spelled(toks, i, t, i + trigger_words(t).len()),
{
    let ws = trigger_words(t);
    assert(toks[i + 0].text@ == ws[0].1);
    reveal_strlit("summoned");
    reveal_strlit("special_summoned");
    reveal_strlit("destroyed");
    reveal_strlit("sent_to");
    reveal_strlit("returned_to");
    reveal_strlit("battle_damage");
    reveal_strlit("standby_phase");
    reveal_strlit("opponent_activates");
    reveal_strlit("used_as_material");
    reveal_strlit("custom");
    reveal_strlit("normal_summoned");
    reveal_strlit("tribute_summoned");
    reveal_strlit("flip_summoned");
    reveal_strlit("flipped");
    reveal_strlit("destroyed_by_battle");
    reveal_strlit("destroyed_by_effect");
    reveal_strlit("destroys_by_battle");
    reveal_strlit("leaves_field");
    reveal_strlit("banished");
    reveal_strlit("attack_declared");
    reveal_strlit("opponent_attack_declared");
    reveal_strlit("attacked");
    reveal_strlit("direct_attack_damage");
    reveal_strlit("damage_calculation");
    reveal_strlit("end_phase");
    reveal_strlit("draw_phase");
    reveal_strlit("main_phase");
    reveal_strlit("battle_phase");
    reveal_strlit("summon_attempt");
    reveal_strlit("spell_trap_activated");
    reveal_strlit("chain_link");
    reveal_strlit("targeted");
    reveal_strlit("position_changed");
    reveal_strlit("control_changed");
    reveal_strlit("equipped");
    reveal_strlit("unequipped");
    reveal_strlit("by");
    reveal_strlit("battle");
    reveal_strlit("effect");
    reveal_strlit("card_effect");
    reveal_strlit("from");
    reveal_strlit("to");
    reveal_strlit("you");
    reveal_strlit("opponent");
    reveal_strlit("controller");
    reveal_strlit("either");
    reveal_strlit("of");
    reveal_strlit("yours");
    reveal_strlit("opponents");
    reveal_strlit("for");
    reveal_strlit("[");
    reveal_strlit("]");
    match t {
        Trigger::Summoned(Some(m)) => {
            law_summon_method_word_roundtrip(m);
            assert(toks[i + 1].text@ == ws[1].1);
            assert(toks[i + 2].text@ == ws[2].1);
            assert(word_is(toks, i, "summoned"@));
            assert(word_is(toks, i + 1, "by"@));
            assert(by_method_at(toks, i + 1) == Some((Some(m), i + 3)));
            assert(ws.len() == 3);
        },
        Trigger::SpecialSummoned(Some(m)) => {
            law_summon_method_word_roundtrip(m);
            assert(toks[i + 1].text@ == ws[1].1);
            assert(toks[i + 2].text@ == ws[2].1);
        },
        Trigger::UsedAsMaterial(Some(m)) => {
            assert("used_as_material"@[0] != "special_summoned"@[0]);
            law_summon_method_word_roundtrip(m);
            assert(toks[i + 1].text@ == ws[1].1);
            assert(toks[i + 2].text@ == ws[2].1);
        },
        Trigger::Destroyed(Some(how)) => {
            assert(toks[i + 1].text@ == ws[1].1);
            assert(toks[i + 2].kind == ws[2].0);
            assert(toks[i + 2].text@ == ws[2].1);
            assert("effect"@[0] != "battle"@[0]);
            assert(word_is(toks, i, "destroyed"@));
            assert(word_is(toks, i + 1, "by"@));
            match how {
                DestroyBy::Battle => {
                    assert(ws[2].1 == "battle"@);
                    assert(word_is(toks, i + 2, "battle"@));
                },
                DestroyBy::CardEffect => {
                    assert(ws[2].1 == "card_effect"@);
                    assert("card_effect"@[0] != "battle"@[0]);
                    assert(!word_is(toks, i + 2, "battle"@));
                    assert(word_is(toks, i + 2, "card_effect"@));
                },
                DestroyBy::Effect => {
                    assert(ws[2].1 == "effect"@);
                    assert("effect"@[0] != "battle"@[0]);
                    assert(!word_is(toks, i + 2, "battle"@));
                    assert("effect"@[0] != "card_effect"@[0]);
                    assert(!word_is(toks, i + 2, "card_effect"@));
                },
            }
        },
        Trigger::BattleDamage(Some(p)) => {
            assert(toks[i + 1].text@ == ws[1].1);
            assert(toks[i + 2].kind == ws[2].0);
            assert(toks[i + 2].text@ == ws[2].1);
            assert(word_is(toks, i, "battle_damage"@));
            assert(word_is(toks, i + 1, "to"@));
            assert(ws.len() == 3);
            match p {
                PlayerWho::You => {
                    assert(ws[2].1 == "you"@);
                    assert(word_is(toks, i + 2, "you"@));
                },
                PlayerWho::Opponent => {
                    assert(ws[2].1 == "opponent"@);
                    assert("opponent"@[0] != "you"@[0]);
                    assert(!word_is(toks, i + 2, "you"@));
                    assert(word_is(toks, i + 2, "opponent"@));
                },
                PlayerWho::Controller => {
                    assert(ws[2].1 == "controller"@);
                    assert("controller"@[0] != "you"@[0]);
                    assert(!word_is(toks, i + 2, "you"@));
                    assert("controller"@[0] != "opponent"@[0]);
                    assert(!word_is(toks, i + 2, "opponent"@));
                    assert(word_is(toks, i + 2, "controller"@));
                },
                _ => {
                    assert(p == PlayerWho::Both);
                    assert(ws[2].1 == "either"@);
                    assert("either"@[0] != "you"@[0]);
                    assert(!word_is(toks, i + 2, "you"@));
                    assert("either"@[0] != "opponent"@[0]);
                    assert(!word_is(toks, i + 2, "opponent"@));
                    assert("either"@[0] != "controller"@[0]);
                    assert(!word_is(toks, i + 2, "controller"@));
                },
            }
        },
        Trigger::StandbyPhase(Some(o)) => {
            assert("standby_phase"@[0] != "battle_damage"@[0]);
            assert(toks[i + 1].text@ == ws[1].1);
            assert(toks[i + 2].kind == ws[2].0);
            assert(toks[i + 2].text@ == ws[2].1);
            assert(word_is(toks, i, "standby_phase"@));
            assert(word_is(toks, i + 1, "of"@));
            assert(ws.len() == 3);
            match o {
                PhaseOwner::Yours => {
                    assert(ws[2].1 == "yours"@);
                    assert(word_is(toks, i + 2, "yours"@));
                },
                PhaseOwner::Opponents => {
                    assert(ws[2].1 == "opponents"@);
                    assert("opponents"@[0] != "yours"@[0]);
                    assert(!word_is(toks, i + 2, "yours"@));
                    assert(word_is(toks, i + 2, "opponents"@));
                },
                PhaseOwner::Either => {
                    assert(ws[2].1 == "either"@);
                    assert("either"@[0] != "yours"@[0]);
                    assert(!word_is(toks, i + 2, "yours"@));
                    assert("either"@[0] != "opponents"@[0]);
                    assert(!word_is(toks, i + 2, "opponents"@));
                },
            }
        },
        Trigger::SentTo(z, f) => {
            law_zone_word_roundtrip(z);
            assert(toks[i + 1].text@ == ws[1].1);
            match f {
                Some(f) => {
                    law_zone_word_roundtrip(f);
                    assert(toks[i + 2].text@ == ws[2].1);
                    assert(toks[i + 3].text@ == ws[3].1);
                },
                None => {},
            }
        },
        Trigger::ReturnedTo(z) => {
            law_zone_word_roundtrip(z);
            assert(toks[i + 1].text@ == ws[1].1);
        },
        Trigger::OpponentActivates(cats) => {
            if cats@.len() > 0 {
                assert(toks[i + 1].text@ == ws[1].1);
                let cw = category_words(cats@) + seq![(TokKind::Sym, "]"@)];
                assert forall|m: int| 0 <= m < cw.len() implies toks[i + 2 + m].kind == (#[trigger] cw[m]).0
                    && toks[i + 2 + m].text@ == cw[m].1 by {
                    assert(ws[2 + m] == cw[m]);
                    assert(toks[i + (2 + m)].text@ == ws[2 + m].1);
                }
                assert(cw[0].0 == TokKind::Ident);
                assert(toks[i + 2 + 0].kind == cw[0].0);
                assert(!sym_is(toks, i + 2, "]"@));
                lemma_categories_read_back(toks, i + 2, cats@, Seq::empty());
                assert(Seq::<Category>::empty() + cats@ =~= cats@);
            }
        },
        Trigger::Custom(n) => {
            assert(toks[i + 1].kind == ws[1].0);
            assert(toks[i + 1].text@ == ws[1].1);
        },
        Trigger::Summoned(None) => {
            assert(ws.len() == 1 && ws[0].1 == "summoned"@);
            assert(word_is(toks, i, "summoned"@));
            assert(by_method_at(toks, i + 1) == Some((None::<SummonMethod>, i + 1)));
        },
        Trigger::SpecialSummoned(None) => {
            assert(ws.len() == 1 && ws[0].1 == "special_summoned"@);
            assert(word_is(toks, i, "special_summoned"@));
            assert(by_method_at(toks, i + 1) == Some((None::<SummonMethod>, i + 1)));
        },
        Trigger::UsedAsMaterial(None) => {
            assert("used_as_material"@[0] != "special_summoned"@[0]);
            assert(ws.len() == 1 && ws[0].1 == "used_as_material"@);
            assert(word_is(toks, i, "used_as_material"@));
        },
        Trigger::Destroyed(None) => {
            assert(ws.len() == 1 && ws[0].1 == "destroyed"@);
        },
        Trigger::BattleDamage(None) => {
            assert(ws.len() == 1 && ws[0].1 == "battle_damage"@);
        },
        Trigger::StandbyPhase(None) => {
            assert("standby_phase"@[0] != "battle_damage"@[0]);
            assert(ws.len() == 1 && ws[0].1 == "standby_phase"@);
        },
        Trigger::NormalSummoned => {
            assert(ws.len() == 1 && ws[0].1 == spec_fmt_trigger(Trigger::NormalSummoned));
            assert(plain_trigger_word(toks[i].text@) == Some(Trigger::NormalSummoned));
        },
        Trigger::TributeSummoned => {
            assert("tribute_summoned"@[0] != "special_summoned"@[0]);
            assert("tribute_summoned"@[0] != "used_as_material"@[0]);
            assert(ws.len() == 1 && ws[0].1 == spec_fmt_trigger(Trigger::TributeSummoned));
            assert(plain_trigger_word(toks[i].text@) == Some(Trigger::TributeSummoned));
        },
        Trigger::FlipSummoned => {
            assert("flip_summoned"@[0] != "battle_damage"@[0]);
            assert("flip_summoned"@[0] != "standby_phase"@[0]);
            assert(ws.len() == 1 && ws[0].1 == spec_fmt_trigger(Trigger::FlipSummoned));
            assert(plain_trigger_word(toks[i].text@) == Some(Trigger::FlipSummoned));
        },
        Trigger::Flipped => {
            assert("flipped"@[0] != "sent_to"@[0]);
            assert(ws.len() == 1 && ws[0].1 == spec_fmt_trigger(Trigger::Flipped));
            assert(plain_trigger_word(toks[i].text@) == Some(Trigger::Flipped));
        },
        Trigger::DestroyedByBattle => {
            assert(ws.len() == 1 && ws[0].1 == spec_fmt_trigger(Trigger::DestroyedByBattle));
            assert(plain_trigger_word(toks[i].text@) == Some(Trigger::DestroyedByBattle));
        },
        Trigger::DestroyedByEffect => {
            assert("destroyed_by_effect"@[13] != "destroyed_by_battle"@[13]);
            assert(ws.len() == 1 && ws[0].1 == spec_fmt_trigger(Trigger::DestroyedByEffect));
            assert(plain_trigger_word(toks[i].text@) == Some(Trigger::DestroyedByEffect));
        },
        Trigger::DestroysByBattle => {
            assert("destroys_by_battle"@[0] != "opponent_activates"@[0]);
            assert(ws.len() == 1 && ws[0].1 == spec_fmt_trigger(Trigger::DestroysByBattle));
            assert(plain_trigger_word(toks[i].text@) == Some(Trigger::DestroysByBattle));
        },
        Trigger::LeavesField => {
            assert(ws.len() == 1 && ws[0].1 == spec_fmt_trigger(Trigger::LeavesField));
            assert(plain_trigger_word(toks[i].text@) == Some(Trigger::LeavesField));
        },
        Trigger::Banished => {
            assert("banished"@[0] != "summoned"@[0]);
            assert(ws.len() == 1 && ws[0].1 == spec_fmt_trigger(Trigger::Banished));
            assert(plain_trigger_word(toks[i].text@) == Some(Trigger::Banished));
        },
        Trigger::AttackDeclared => {
            assert("attack_declared"@[0] != "normal_summoned"@[0]);
            assert(ws.len() == 1 && ws[0].1 == spec_fmt_trigger(Trigger::AttackDeclared));
            assert(plain_trigger_word(toks[i].text@) == Some(Trigger::AttackDeclared));
        },
        Trigger::OpponentAttackDeclared => {
            assert(ws.len() == 1 && ws[0].1 == spec_fmt_trigger(Trigger::OpponentAttackDeclared));
            assert(plain_trigger_word(toks[i].text@) == Some(Trigger::OpponentAttackDeclared));
        },
        Trigger::Attacked => {
            assert("attacked"@[0] != "summoned"@[0]);
            assert("attacked"@[0] != "banished"@[0]);
            assert(ws.len() == 1 && ws[0].1 == spec_fmt_trigger(Trigger::Attacked));
            assert(plain_trigger_word(toks[i].text@) == Some(Trigger::Attacked));
        },
        Trigger::DirectAttackDamage => {
            assert(ws.len() == 1 && ws[0].1 == spec_fmt_trigger(Trigger::DirectAttackDamage));
            assert(plain_trigger_word(toks[i].text@) == Some(Trigger::DirectAttackDamage));
        },
        Trigger::DamageCalculation => {
            assert("damage_calculation"@[0] != "opponent_activates"@[0]);
            assert("damage_calculation"@[1] != "destroys_by_battle"@[1]);
            assert(ws.len() == 1 && ws[0].1 == spec_fmt_trigger(Trigger::DamageCalculation));
            assert(plain_trigger_word(toks[i].text@) == Some(Trigger::DamageCalculation));
        },
        Trigger::EndPhase => {
            assert("end_phase"@[0] != "destroyed"@[0]);
            assert(ws.len() == 1 && ws[0].1 == spec_fmt_trigger(Trigger::EndPhase));
            assert(plain_trigger_word(toks[i].text@) == Some(Trigger::EndPhase));
        },
        Trigger::DrawPhase => {
            assert(ws.len() == 1 && ws[0].1 == spec_fmt_trigger(Trigger::DrawPhase));
            assert(plain_trigger_word(toks[i].text@) == Some(Trigger::DrawPhase));
        },
        Trigger::MainPhase => {
            assert("main_phase"@[0] != "draw_phase"@[0]);
            assert(ws.len() == 1 && ws[0].1 == spec_fmt_trigger(Trigger::MainPhase));
            assert(plain_trigger_word(toks[i].text@) == Some(Trigger::MainPhase));
        },
        Trigger::BattlePhase => {
            assert("battle_phase"@[0] != "leaves_field"@[0]);
            assert(ws.len() == 1 && ws[0].1 == spec_fmt_trigger(Trigger::BattlePhase));
            assert(plain_trigger_word(toks[i].text@) == Some(Trigger::BattlePhase));
        },
        Trigger::SummonAttempt => {
            assert(ws.len() == 1 && ws[0].1 == spec_fmt_trigger(Trigger::SummonAttempt));
            assert(plain_trigger_word(toks[i].text@) == Some(Trigger::SummonAttempt));
        },
        Trigger::SpellTrapActivated => {
            assert("spell_trap_activated"@[0] != "direct_attack_damage"@[0]);
            assert(ws.len() == 1 && ws[0].1 == spec_fmt_trigger(Trigger::SpellTrapActivated));
            assert(plain_trigger_word(toks[i].text@) == Some(Trigger::SpellTrapActivated));
        },
        Trigger::ChainLink => {
            assert("chain_link"@[0] != "draw_phase"@[0]);
            assert("chain_link"@[0] != "main_phase"@[0]);
            assert(ws.len() == 1 && ws[0].1 == spec_fmt_trigger(Trigger::ChainLink));
            assert(plain_trigger_word(toks[i].text@) == Some(Trigger::ChainLink));
        },
        Trigger::Targeted => {
            assert("targeted"@[0] != "summoned"@[0]);
            assert("targeted"@[0] != "banished"@[0]);
            assert("targeted"@[0] != "attacked"@[0]);
            assert(ws.len() == 1 && ws[0].1 == spec_fmt_trigger(Trigger::Targeted));
            assert(plain_trigger_word(toks[i].text@) == Some(Trigger::Targeted));
        },
        Trigger::PositionChanged => {
            assert("position_changed"@[0] != "special_summoned"@[0]);
            assert("position_changed"@[0] != "used_as_material"@[0]);
            assert("position_changed"@[0] != "tribute_summoned"@[0]);
            assert(ws.len() == 1 && ws[0].1 == spec_fmt_trigger(Trigger::PositionChanged));
            assert(plain_trigger_word(toks[i].text@) == Some(Trigger::PositionChanged));
        },
        Trigger::ControlChanged => {
            assert("control_changed"@[0] != "normal_summoned"@[0]);
            assert("control_changed"@[0] != "attack_declared"@[0]);
            assert(ws.len() == 1 && ws[0].1 == spec_fmt_trigger(Trigger::ControlChanged));
            assert(plain_trigger_word(toks[i].text@) == Some(Trigger::ControlChanged));
        },
        Trigger::Equipped => {
            assert("equipped"@[0] != "summoned"@[0]);
            assert("equipped"@[0] != "banished"@[0]);
            assert("equipped"@[0] != "attacked"@[0]);
            assert("equipped"@[0] != "targeted"@[0]);
            assert(ws.len() == 1 && ws[0].1 == spec_fmt_trigger(Trigger::Equipped));
            assert(plain_trigger_word(toks[i].text@) == Some(Trigger::Equipped));
        },
        Trigger::Unequipped => {
            assert("unequipped"@[0] != "draw_phase"@[0]);
            assert("unequipped"@[0] != "main_phase"@[0]);
            assert("unequipped"@[0] != "chain_link"@[0]);
            assert(ws.len() == 1 && ws[0].1 == spec_fmt_trigger(Trigger::Unequipped));
            assert(plain_trigger_word(toks[i].text@) == Some(Trigger::Unequipped));
        },
    }
}

/// Whether the tokens from `i` begin a card named `name`: the word `card`
/// and a string literal holding the name.
spec fn card_named(toks: Seq<Token>, i: int, name: Seq<char>) -> bool {
    &&& word_is(toks, i, "card"@)
    &&& 0 <= i + 1 < toks.len()
    &&& toks[i + 1].kind == TokKind::Str
    &&& toks[i + 1].text@ == name
}

/// Whether the tokens `ts` of `src` begin as a card does: the word `card`,
/// then a string literal.
pub open spec fn opens_card(src: Seq<char>, ts: Seq<(TokKind, int, int)>) -> bool {
    &&& ts.len() >= 2
    &&& ts[0].0 == TokKind::Ident
    &&& src.subrange(ts[0].1, ts[0].2) == "card"@
    &&& ts[1].0 == TokKind::Str
}

/// Whether the tokens `ts` of `src` are a single card with nothing in it:
/// `card "name" { }`.
pub open spec fn bare_card_source(src: Seq<char>, ts: Seq<(TokKind, int, int)>) -> bool {
    &&& ts.len() == 4
    &&& opens_card(src, ts)
    &&& ts[2].0 == TokKind::Sym
    &&& src.subrange(ts[2].1, ts[2].2) == "{"@
    &&& ts[3].0 == TokKind::Sym
    &&& src.subrange(ts[3].1, ts[3].2) == "}"@
}

/// The name of the first card: the text between the quotes of the second
/// token.
pub open spec fn first_card_name(src: Seq<char>, ts: Seq<(TokKind, int, int)>) -> Seq<char> {
    src.subrange(ts[1].1 + 1, ts[1].2 - 1)
}

/// Whether the token `k` places after the next one is a number that fits
/// an `i32`.
spec fn literal_at(p: V2Parser, k: int) -> bool {
    &&& 0 <= p.pos + k < p.toks@.len()
    &&& p.toks@[p.pos + k].kind == TokKind::Number
    &&& all_digits(text_at(p, k))
    &&& decimal_value(text_at(p, k)) <= 2147483647
}

/// Whether the token `k` places after the next one is `+`, `-`, `*` or `/`.
spec fn operator_at(p: V2Parser, k: int) -> bool {
    ||| tok_is(p, k, TokKind::Sym, "+"@)
    ||| tok_is(p, k, TokKind::Sym, "-"@)
    ||| tok_is(p, k, TokKind::Sym, "*"@)
    ||| tok_is(p, k, TokKind::Sym, "/"@)
}

/// Whether the next tokens are a card with nothing in it:
/// `card "name" { }`.
spec fn empty_card_at(p: V2Parser) -> bool {
    &&& tok_is(p, 0, TokKind::Ident, "card"@)
    &&& p.pos + 1 < p.toks@.len()
    &&& p.toks@[p.pos + 1].kind == TokKind::Str
    &&& tok_is(p, 2, TokKind::Sym, "{"@)
    &&& tok_is(p, 3, TokKind::Sym, "}"@)
}

/// A card with no summon block, effects, passives, restrictions,
/// replacements or redirects.
pub open spec fn bare_card(c: Card) -> bool {
    &&& c.summon is None
    &&& c.effects@.len() == 0
    &&& c.passives@.len() == 0
    &&& c.restrictions@.len() == 0
    &&& c.replacements@.len() == 0
    &&& c.redirects@.len() == 0
}

/// Whether `and destroy` follows the next token.
spec fn negate_and_destroy(p: V2Parser) -> bool {
    tok_is(p, 1, TokKind::Ident, "and"@) && tok_is(p, 2, TokKind::Ident, "destroy"@)
}

/// Whether the token after the next one is `controls` or `control`,
/// which makes the next one the player of a `controls` condition.
spec fn controls_follow(p: V2Parser) -> bool {
    tok_is(p, 1, TokKind::Ident, "controls"@) || tok_is(p, 1, TokKind::Ident, "control"@)
}

/// The condition a lone word names: `on_field`, `in_gy`, `in_hand`,
/// `in_banished`.
spec fn simple_atom_at(p: V2Parser) -> Option<ConditionAtom> {
    if tok_is(p, 0, TokKind::Ident, "on_field"@) {
        Some(ConditionAtom::OnField)
    } else if tok_is(p, 0, TokKind::Ident, "in_gy"@) {
        Some(ConditionAtom::InGy)
    } else if tok_is(p, 0, TokKind::Ident, "in_hand"@) {
        Some(ConditionAtom::InHand)
    } else if tok_is(p, 0, TokKind::Ident, "in_banished"@) {
        Some(ConditionAtom::InBanished)
    } else {
        None
    }
}

/// Whether `name` stands between double quotes somewhere in `s`.
pub open spec fn quoted_in(s: Seq<char>, name: Seq<char>) -> bool {
    exists|a: int|
        1 <= a && a + name.len() < s.len() && s[a - 1] == '"' && #[trigger] s.subrange(a, a + name.len()) == name
            && s[a + name.len()] == '"'
}

/// The frequency line at the next token and how many tokens it takes:
/// `once_per_turn`, with `: soft` or `: hard` after it (hard when neither),
/// `twice_per_turn` or `once_per_duel`.
spec fn frequency_at(p: V2Parser) -> Option<(Frequency, int)> {
    if tok_is(p, 0, TokKind::Ident, "once_per_turn"@) {
        if tok_is(p, 1, TokKind::Sym, ":"@) && tok_is(p, 2, TokKind::Ident, "soft"@) {
            Some((Frequency::OncePerTurn(OptKind::Soft), 3))
        } else if tok_is(p, 1, TokKind::Sym, ":"@) && tok_is(p, 2, TokKind::Ident, "hard"@) {
            Some((Frequency::OncePerTurn(OptKind::Hard), 3))
        } else {
            Some((Frequency::OncePerTurn(OptKind::Hard), 1))
        }
    } else if tok_is(p, 0, TokKind::Ident, "twice_per_turn"@) {
        Some((Frequency::TwicePerTurn, 1))
    } else if tok_is(p, 0, TokKind::Ident, "once_per_duel"@) {
        Some((Frequency::OncePerDuel, 1))
    } else {
        None
    }
}

/// The optional `from zone` at the next token: `None` when the next token
/// is not `from`; else the zone named after it, if it names one.
spec fn from_zone_at(p: V2Parser) -> Option<Option<Zone>> {
    if !tok_is(p, 0, TokKind::Ident, "from"@) {
        Some(None)
    } else if word_at(p.toks@, p.pos + 1) && spec_zone_of(text_at(p, 1)) is Some {
        Some(spec_zone_of(text_at(p, 1)))
    } else {
        None
    }
}

/// The line and column, both from 1, just after the text `s`: each newline
/// starts a new line at column 1, any other character moves one column on;
/// both stop at the largest `u64`.
pub open spec fn text_position(s: Seq<char>) -> (u64, u64)
    decreases s.len(),
{
    if s.len() == 0 {
        (1, 1)
    } else {
        let (l, c) = text_position(s.drop_last());
        if s.last() == '\n' {
            (if l < u64::MAX { (l + 1) as u64 } else { l }, 1)
        } else {
            (l, if c < u64::MAX { (c + 1) as u64 } else { c })
        }
    }
}

/// The line and column (both from 1) of character `off` of `src` (of its
/// end, if `off` lies beyond it).
fn line_col_of(src: &Vec<char>, off: usize) -> (r: (u64, u64))
    ensures
        r == text_position(src@.take(if off > src@.len() { src@.len() as int } else { off as int })),
{
    let off = if off > src.len() { src.len() } else { off };
    let mut line: u64 = 1;
    let mut col: u64 = 1;
    let mut i: usize = 0;
    while i < off
        invariant
            off <= src@.len(),
            i <= off,
            (line, col) == text_position(src@.take(i as int)),
        decreases off - i,
    {
        proof {
            assert(src@.take(i + 1).drop_last() =~= src@.take(i as int));
        }
        if src[i] == '\n' {
            if line < u64::MAX {
                line = line + 1;
            }
            col = 1;
        } else if col < u64::MAX {
            col = col + 1;
        }
        i += 1;
    }
    (line, col)
}

/// Deepest nesting of blocks, selectors, expressions and conditions. The
/// parser descends once per level, so a bound keeps deeply nested text from
/// exhausting the stack: such text gets a located syntax error instead.
pub const MAX_NESTING: u32 = 200;

impl V2Parser {
    spec fn wf(&self) -> bool {
        &&& self.pos <= self.toks@.len()
        &&& self.toks@.len() <= usize::MAX
    }

    fn at(&self, off: usize, k: TokKind, w: &str) -> (r: bool)
        requires
            self.wf(),
        ensures
            r == tok_is(*self, off as int, k, w@),
    {
        if off < self.toks.len() - self.pos {
            let t = &self.toks[self.pos + off];
            t.kind == k && str_eq(t.text.as_str(), w)
        } else {
            false
        }
    }

    fn at_word(&self, w: &str) -> (r: bool)
        requires
            self.wf(),
        ensures
            r == tok_is(*self, 0, TokKind::Ident, w@),
    {
        self.at(0, TokKind::Ident, w)
    }

    fn at_sym(&self, w: &str) -> (r: bool)
        requires
            self.wf(),
        ensures
            r == tok_is(*self, 0, TokKind::Sym, w@),
    {
        self.at(0, TokKind::Sym, w)
    }

    fn at_kind(&self, k: TokKind) -> (r: bool)
        requires
            self.wf(),
        ensures
            r == (self.pos < self.toks@.len() && self.toks@[self.pos as int].kind == k),
    {
        self.pos < self.toks.len() && self.toks[self.pos].kind == k
    }

    fn at_end(&self) -> (r: bool)
        requires
            self.wf(),
        ensures
            r == (self.pos == self.toks@.len()),
    {
        self.pos == self.toks.len()
    }

    fn eat(&mut self, k: TokKind, w: &str) -> (r: bool)
        requires
            old(self).wf(),
        ensures
            advanced(*old(self), *final(self)),
            r == tok_is(*old(self), 0, k, w@),
            final(self).pos == old(self).pos + if r { 1int } else { 0int },
    {
        if self.at(0, k, w) {
            self.pos = self.pos + 1;
            true
        } else {
            false
        }
    }

    fn eat_word(&mut self, w: &str) -> (r: bool)
        requires
            old(self).wf(),
        ensures
            advanced(*old(self), *final(self)),
            r == tok_is(*old(self), 0, TokKind::Ident, w@),
            final(self).pos == old(self).pos + if r { 1int } else { 0int },
    {
        self.eat(TokKind::Ident, w)
    }

    fn eat_sym(&mut self, w: &str) -> (r: bool)
        requires
            old(self).wf(),
        ensures
            advanced(*old(self), *final(self)),
            r == tok_is(*old(self), 0, TokKind::Sym, w@),
            final(self).pos == old(self).pos + if r { 1int } else { 0int },
    {
        self.eat(TokKind::Sym, w)
    }

    /// The line and column (both from 1) of the next token, or of the end of
    /// the text.
    fn line_col(&self) -> (r: (u64, u64))
        requires
            self.wf(),
        ensures
            r == text_position(
                self.src@.take(
                    if self.pos < self.toks@.len() {
                        if self.toks@[self.pos as int].start > self.src@.len() {
                            self.src@.len() as int
                        } else {
                            self.toks@[self.pos as int].start as int
                        }
                    } else {
                        self.src@.len() as int
                    },
                ),
            ),
    {
        let off = if self.pos < self.toks.len() { self.toks[self.pos].start } else { self.src.len() };
        line_col_of(&self.src, off)
    }

    /// A syntax error at the next token: ` --> line:col` and what was
    /// expected there.
    fn fail(&self, expected: &str) -> (e: V2ParseError)
        requires
            self.wf(),
        ensures
            e matches V2ParseError::SyntaxError(m) && located(m@),
    {
        let (line, col) = self.line_col();
        let mut rest = String::new();
        push_str(&mut rest, "\n  = expected ");
        push_str(&mut rest, expected);
        if self.pos < self.toks.len() {
            push_str(&mut rest, ", found `");
            push_str(&mut rest, self.toks[self.pos].text.as_str());
            push_char(&mut rest, '`');
        } else {
            push_str(&mut rest, ", found the end of the text");
        }
        proof {
            reveal_strlit("\n  = expected ");
            assert(rest@[0] == '\n');
        }
        V2ParseError::SyntaxError(position_message(line, col, rest.as_str()))
    }

    fn expect_word(&mut self, w: &str) -> (r: Result<(), V2ParseError>)
        requires
            old(self).wf(),
        ensures
            err_located(r),
            advanced(*old(self), *final(self)),
            r is Ok <==> tok_is(*old(self), 0, TokKind::Ident, w@),
            r is Ok ==> final(self).pos == old(self).pos + 1,
    {
        if self.eat_word(w) {
            Ok(())
        } else {
            Err(self.fail(w))
        }
    }

    fn expect_sym(&mut self, w: &str) -> (r: Result<(), V2ParseError>)
        requires
            old(self).wf(),
        ensures
            err_located(r),
            advanced(*old(self), *final(self)),
            r is Ok <==> tok_is(*old(self), 0, TokKind::Sym, w@),
            r is Ok ==> final(self).pos == old(self).pos + 1,
    {
        if self.eat_sym(w) {
            Ok(())
        } else {
            Err(self.fail(w))
        }
    }

    /// The text of the next token if it is a word.
    fn word(&self) -> (r: Option<&str>)
        requires
            self.wf(),
        ensures
            r matches Some(t) ==> words_at(self.toks@, self.pos as int, 1) && t@ == text_at(*self, 0),
            r is None ==> !words_at(self.toks@, self.pos as int, 1),
    {
        if self.pos < self.toks.len() && self.toks[self.pos].kind == TokKind::Ident {
            Some(self.toks[self.pos].text.as_str())
        } else {
            None
        }
    }

    /// The words of the next `n` tokens joined by spaces, if they are all words.
    fn joined(&self, n: usize) -> (r: Option<String>)
        requires
            self.wf(),
            1 <= n <= 3,
        ensures
            r is Some <==> words_at(self.toks@, self.pos as int, n as int),
            r matches Some(s) ==> s@ == join_words(self.toks@, self.pos as int, n as int),
    {
        if n > self.toks.len() - self.pos {
            return None;
        }
        let mut s = String::new();
        let mut i: usize = 0;
        while i < n
            invariant
                self.wf(),
                n <= self.toks@.len() - self.pos,
                1 <= n <= 3,
                i <= n,
                i == 0 ==> s@ == Seq::<char>::empty(),
                i > 0 ==> s@ == join_words(self.toks@, self.pos as int, i as int),
                forall|k: int| self.pos <= k < self.pos + i ==> (#[trigger] self.toks@[k]).kind == TokKind::Ident,
            decreases n - i,
        {
            let t = &self.toks[self.pos + i];
            if t.kind != TokKind::Ident {
                proof {
                    assert(self.toks@[self.pos + i as int].kind != TokKind::Ident);
                }
                return None;
            }
            if i > 0 {
                push_char(&mut s, ' ');
            }
            push_str(&mut s, t.text.as_str());
            i += 1;
            proof {
                if i == 1 {
                    assert(s@ =~= join_words(self.toks@, self.pos as int, 1));
                } else {
                    assert(s@ =~= join_words(self.toks@, self.pos as int, i as int));
                }
            }
        }
        Some(s)
    }

    /// A string literal; its text without the quotes.
    fn string(&mut self) -> (r: Result<String, V2ParseError>)
        requires
            old(self).wf(),
        ensures
            err_located(r),
            advanced(*old(self), *final(self)),
            r is Ok ==> final(self).pos == old(self).pos + 1,
            r matches Ok(s) ==> old(self).toks@[old(self).pos as int].kind == TokKind::Str
                && s@ == text_at(*old(self), 0),
            r is Ok <==> (old(self).pos < old(self).toks@.len() && old(self).toks@[old(self).pos as int].kind
                == TokKind::Str),
    {
        if self.at_kind(TokKind::Str) {
            let s = self.toks[self.pos].text.clone();
            self.pos = self.pos + 1;
            Ok(s)
        } else {
            Err(self.fail("a string"))
        }
    }

    /// A word used as a name (a binding).
    fn ident(&mut self) -> (r: Result<String, V2ParseError>)
        requires
            old(self).wf(),
        ensures
            err_located(r),
            advanced(*old(self), *final(self)),
            r is Ok ==> final(self).pos == old(self).pos + 1,
            r matches Ok(s) ==> words_at(old(self).toks@, old(self).pos as int, 1)
                && s@ == text_at(*old(self), 0),
            r is Ok <==> word_at(old(self).toks@, old(self).pos as int),
    {
        if self.at_kind(TokKind::Ident) {
            let s = self.toks[self.pos].text.clone();
            self.pos = self.pos + 1;
            Ok(s)
        } else {
            Err(self.fail("a name"))
        }
    }

    /// A decimal number no larger than `max`.
    fn number(&mut self, max: u64, what: &str) -> (r: Result<u64, V2ParseError>)
        requires
            old(self).wf(),
        ensures
            err_located(r),
            advanced(*old(self), *final(self)),
            r is Ok ==> final(self).pos == old(self).pos + 1,
            r matches Ok(v) ==> old(self).toks@[old(self).pos as int].kind == TokKind::Number
                && v == decimal_value(text_at(*old(self), 0)) && v <= max,
            (old(self).pos < old(self).toks@.len() && old(self).toks@[old(self).pos as int].kind == TokKind::Number
                && all_digits(text_at(*old(self), 0)) && decimal_value(text_at(*old(self), 0)) <= max) ==> r is Ok,
    {
        if self.at_kind(TokKind::Number) {
            match decimal_of(self.toks[self.pos].text.as_str(), max) {
                Some(v) => {
                    self.pos = self.pos + 1;
                    Ok(v)
                },
                None => {
                    let mut m = String::new();
                    push_str(&mut m, what);
                    push_str(&mut m, ": ");
                    push_str(&mut m, self.toks[self.pos].text.as_str());
                    Err(V2ParseError::InvalidValue(m))
                },
            }
        } else {
            Err(self.fail("a number"))
        }
    }

    fn number_u32(&mut self, what: &str) -> (r: Result<u32, V2ParseError>)
        requires
            old(self).wf(),
        ensures
            err_located(r),
            advanced(*old(self), *final(self)),
            r is Ok ==> final(self).pos == old(self).pos + 1,
            r matches Ok(v) ==> v == decimal_value(text_at(*old(self), 0)),
            number_fits(old(self).toks@, old(self).pos as int, 4294967295) ==> r is Ok,
    {
        let v = self.number(4294967295, what)?;
        Ok(v as u32)
    }

    fn kw_zone(&mut self) -> (r: Result<Zone, V2ParseError>)
        requires
            old(self).wf(),
        ensures
            err_located(r),
            advanced(*old(self), *final(self)),
            r is Ok ==> final(self).pos == old(self).pos + 1,
            r matches Ok(v) ==> old(self).toks@[old(self).pos as int].kind == TokKind::Ident
                && spec_zone_of(text_at(*old(self), 0)) == Some(v),
            r is Ok <==> word_at(old(self).toks@, old(self).pos as int) && spec_zone_of(text_at(*old(self), 0)) is Some,
    {
        if self.pos < self.toks.len() && self.toks[self.pos].kind == TokKind::Ident {
            if let Some(v) = zone_of(self.toks[self.pos].text.as_str()) {
                self.pos = self.pos + 1;
                return Ok(v);
            }
        }
        Err(self.fail("a zone"))
    }

    fn kw_attribute(&mut self) -> (r: Result<Attribute, V2ParseError>)
        requires
            old(self).wf(),
        ensures
            err_located(r),
            advanced(*old(self), *final(self)),
            r is Ok ==> final(self).pos == old(self).pos + 1,
            r matches Ok(v) ==> old(self).toks@[old(self).pos as int].kind == TokKind::Ident
                && spec_attribute_of(text_at(*old(self), 0)) == Some(v),
            r is Ok <==> word_at(old(self).toks@, old(self).pos as int) && spec_attribute_of(text_at(*old(self), 0)) is Some,
    {
        if self.pos < self.toks.len() && self.toks[self.pos].kind == TokKind::Ident {
            if let Some(v) = attribute_of(self.toks[self.pos].text.as_str()) {
                self.pos = self.pos + 1;
                return Ok(v);
            }
        }
        Err(self.fail("an attribute"))
    }

    fn kw_player_who(&mut self) -> (r: Result<PlayerWho, V2ParseError>)
        requires
            old(self).wf(),
        ensures
            err_located(r),
            advanced(*old(self), *final(self)),
            r is Ok ==> final(self).pos == old(self).pos + 1,
            r matches Ok(v) ==> old(self).toks@[old(self).pos as int].kind == TokKind::Ident
                && spec_player_who_of(text_at(*old(self), 0)) == Some(v),
            r is Ok <==> word_at(old(self).toks@, old(self).pos as int) && spec_player_who_of(text_at(*old(self), 0)) is Some,
    {
        if self.pos < self.toks.len() && self.toks[self.pos].kind == TokKind::Ident {
            if let Some(v) = player_who_of(self.toks[self.pos].text.as_str()) {
                self.pos = self.pos + 1;
                return Ok(v);
            }
        }
        Err(self.fail("a player"))
    }

    fn kw_stat_field(&mut self) -> (r: Result<StatField, V2ParseError>)
        requires
            old(self).wf(),
        ensures
            err_located(r),
            advanced(*old(self), *final(self)),
            r is Ok ==> final(self).pos == old(self).pos + 1,
            r matches Ok(v) ==> old(self).toks@[old(self).pos as int].kind == TokKind::Ident
                && spec_stat_field_of(text_at(*old(self), 0)) == Some(v),
            r is Ok <==> word_at(old(self).toks@, old(self).pos as int) && spec_stat_field_of(text_at(*old(self), 0)) is Some,
    {
        if self.pos < self.toks.len() && self.toks[self.pos].kind == TokKind::Ident {
            if let Some(v) = stat_field_of(self.toks[self.pos].text.as_str()) {
                self.pos = self.pos + 1;
                return Ok(v);
            }
        }
        Err(self.fail("a stat"))
    }

    fn kw_stat_name(&mut self) -> (r: Result<StatName, V2ParseError>)
        requires
            old(self).wf(),
        ensures
            err_located(r),
            advanced(*old(self), *final(self)),
            r is Ok ==> final(self).pos == old(self).pos + 1,
            r matches Ok(v) ==> old(self).toks@[old(self).pos as int].kind == TokKind::Ident
                && spec_stat_name_of(text_at(*old(self), 0)) == Some(v),
            r is Ok <==> word_at(old(self).toks@, old(self).pos as int) && spec_stat_name_of(text_at(*old(self), 0)) is Some,
    {
        if self.pos < self.toks.len() && self.toks[self.pos].kind == TokKind::Ident {
            if let Some(v) = stat_name_of(self.toks[self.pos].text.as_str()) {
                self.pos = self.pos + 1;
                return Ok(v);
            }
        }
        Err(self.fail("`atk` or `def`"))
    }

    fn kw_card_state(&mut self) -> (r: Result<CardState, V2ParseError>)
        requires
            old(self).wf(),
        ensures
            err_located(r),
            advanced(*old(self), *final(self)),
            r is Ok ==> final(self).pos == old(self).pos + 1,
            r matches Ok(v) ==> old(self).toks@[old(self).pos as int].kind == TokKind::Ident
                && spec_card_state_of(text_at(*old(self), 0)) == Some(v),
            r is Ok <==> word_at(old(self).toks@, old(self).pos as int) && spec_card_state_of(text_at(*old(self), 0)) is Some,
    {
        if self.pos < self.toks.len() && self.toks[self.pos].kind == TokKind::Ident {
            if let Some(v) = card_state_of(self.toks[self.pos].text.as_str()) {
                self.pos = self.pos + 1;
                return Ok(v);
            }
        }
        Err(self.fail("a card state"))
    }

    fn kw_phase_name(&mut self) -> (r: Result<PhaseName, V2ParseError>)
        requires
            old(self).wf(),
        ensures
            err_located(r),
            advanced(*old(self), *final(self)),
            r is Ok ==> final(self).pos == old(self).pos + 1,
            r matches Ok(v) ==> old(self).toks@[old(self).pos as int].kind == TokKind::Ident
                && spec_phase_name_of(text_at(*old(self), 0)) == Some(v),
            r is Ok <==> word_at(old(self).toks@, old(self).pos as int) && spec_phase_name_of(text_at(*old(self), 0)) is Some,
    {
        if self.pos < self.toks.len() && self.toks[self.pos].kind == TokKind::Ident {
            if let Some(v) = phase_name_of(self.toks[self.pos].text.as_str()) {
                self.pos = self.pos + 1;
                return Ok(v);
            }
        }
        Err(self.fail("a phase"))
    }

    fn kw_category(&mut self) -> (r: Result<Category, V2ParseError>)
        requires
            old(self).wf(),
        ensures
            err_located(r),
            advanced(*old(self), *final(self)),
            r is Ok ==> final(self).pos == old(self).pos + 1,
            r matches Ok(v) ==> old(self).toks@[old(self).pos as int].kind == TokKind::Ident
                && spec_category_of(text_at(*old(self), 0)) == Some(v),
            r is Ok <==> word_at(old(self).toks@, old(self).pos as int) && spec_category_of(text_at(*old(self), 0)) is Some,
    {
        if self.pos < self.toks.len() && self.toks[self.pos].kind == TokKind::Ident {
            if let Some(v) = category_of(self.toks[self.pos].text.as_str()) {
                self.pos = self.pos + 1;
                return Ok(v);
            }
        }
        Err(self.fail("a category"))
    }

    fn kw_summon_method(&mut self) -> (r: Result<SummonMethod, V2ParseError>)
        requires
            old(self).wf(),
        ensures
            err_located(r),
            advanced(*old(self), *final(self)),
            r is Ok ==> final(self).pos == old(self).pos + 1,
            r matches Ok(v) ==> old(self).toks@[old(self).pos as int].kind == TokKind::Ident
                && spec_summon_method_of(text_at(*old(self), 0)) == Some(v),
            r is Ok <==> word_at(old(self).toks@, old(self).pos as int) && spec_summon_method_of(text_at(*old(self), 0)) is Some,
    {
        if self.pos < self.toks.len() && self.toks[self.pos].kind == TokKind::Ident {
            if let Some(v) = summon_method_of(self.toks[self.pos].text.as_str()) {
                self.pos = self.pos + 1;
                return Ok(v);
            }
        }
        Err(self.fail("a summon method"))
    }

    fn kw_announce_what(&mut self) -> (r: Result<AnnounceWhat, V2ParseError>)
        requires
            old(self).wf(),
        ensures
            err_located(r),
            advanced(*old(self), *final(self)),
            r is Ok ==> final(self).pos == old(self).pos + 1,
            r matches Ok(v) ==> old(self).toks@[old(self).pos as int].kind == TokKind::Ident
                && spec_announce_what_of(text_at(*old(self), 0)) == Some(v),
            r is Ok <==> word_at(old(self).toks@, old(self).pos as int) && spec_announce_what_of(text_at(*old(self), 0)) is Some,
    {
        if self.pos < self.toks.len() && self.toks[self.pos].kind == TokKind::Ident {
            if let Some(v) = announce_what_of(self.toks[self.pos].text.as_str()) {
                self.pos = self.pos + 1;
                return Ok(v);
            }
        }
        Err(self.fail("what to announce"))
    }

    fn kw_replaceable_event(&mut self) -> (r: Result<ReplaceableEvent, V2ParseError>)
        requires
            old(self).wf(),
        ensures
            err_located(r),
            advanced(*old(self), *final(self)),
            r is Ok ==> final(self).pos == old(self).pos + 1,
            r matches Ok(v) ==> old(self).toks@[old(self).pos as int].kind == TokKind::Ident
                && spec_replaceable_event_of(text_at(*old(self), 0)) == Some(v),
            r is Ok <==> word_at(old(self).toks@, old(self).pos as int) && spec_replaceable_event_of(text_at(*old(self), 0)) is Some,
    {
        if self.pos < self.toks.len() && self.toks[self.pos].kind == TokKind::Ident {
            if let Some(v) = replaceable_event_of(self.toks[self.pos].text.as_str()) {
                self.pos = self.pos + 1;
                return Ok(v);
            }
        }
        Err(self.fail("a replaceable event"))
    }

    fn kw_field_target(&mut self) -> (r: Result<FieldTarget, V2ParseError>)
        requires
            old(self).wf(),
        ensures
            err_located(r),
            advanced(*old(self), *final(self)),
            r is Ok ==> final(self).pos == old(self).pos + 1,
            r matches Ok(v) ==> old(self).toks@[old(self).pos as int].kind == TokKind::Ident
                && spec_field_target_of(text_at(*old(self), 0)) == Some(v),
            r is Ok <==> word_at(old(self).toks@, old(self).pos as int) && spec_field_target_of(text_at(*old(self), 0)) is Some,
    {
        if self.pos < self.toks.len() && self.toks[self.pos].kind == TokKind::Ident {
            if let Some(v) = field_target_of(self.toks[self.pos].text.as_str()) {
                self.pos = self.pos + 1;
                return Ok(v);
            }
        }
        Err(self.fail("a field"))
    }

    fn kw_redirect_scope(&mut self) -> (r: Result<RedirectScope, V2ParseError>)
        requires
            old(self).wf(),
        ensures
            err_located(r),
            advanced(*old(self), *final(self)),
            r is Ok ==> final(self).pos == old(self).pos + 1,
            r matches Ok(v) ==> old(self).toks@[old(self).pos as int].kind == TokKind::Ident
                && spec_redirect_scope_of(text_at(*old(self), 0)) == Some(v),
            r is Ok <==> word_at(old(self).toks@, old(self).pos as int) && spec_redirect_scope_of(text_at(*old(self), 0)) is Some,
    {
        if self.pos < self.toks.len() && self.toks[self.pos].kind == TokKind::Ident {
            if let Some(v) = redirect_scope_of(self.toks[self.pos].text.as_str()) {
                self.pos = self.pos + 1;
                return Ok(v);
            }
        }
        Err(self.fail("a redirect scope"))
    }

    fn kw_battle_position(&mut self) -> (r: Result<BattlePosition, V2ParseError>)
        requires
            old(self).wf(),
        ensures
            err_located(r),
            advanced(*old(self), *final(self)),
            r is Ok ==> final(self).pos == old(self).pos + 1,
            r matches Ok(v) ==> old(self).toks@[old(self).pos as int].kind == TokKind::Ident
                && spec_battle_position_of(text_at(*old(self), 0)) == Some(v),
            r is Ok <==> word_at(old(self).toks@, old(self).pos as int) && spec_battle_position_of(text_at(*old(self), 0)) is Some,
    {
        if self.pos < self.toks.len() && self.toks[self.pos].kind == TokKind::Ident {
            if let Some(v) = battle_position_of(self.toks[self.pos].text.as_str()) {
                self.pos = self.pos + 1;
                return Ok(v);
            }
        }
        Err(self.fail("a battle position"))
    }

    fn kw_arrow(&mut self) -> (r: Result<Arrow, V2ParseError>)
        requires
            old(self).wf(),
        ensures
            err_located(r),
            advanced(*old(self), *final(self)),
            r is Ok ==> final(self).pos == old(self).pos + 1,
            r matches Ok(v) ==> old(self).toks@[old(self).pos as int].kind == TokKind::Ident
                && spec_arrow_of(text_at(*old(self), 0)) == Some(v),
            r is Ok <==> word_at(old(self).toks@, old(self).pos as int) && spec_arrow_of(text_at(*old(self), 0)) is Some,
    {
        if self.pos < self.toks.len() && self.toks[self.pos].kind == TokKind::Ident {
            if let Some(v) = arrow_of(self.toks[self.pos].text.as_str()) {
                self.pos = self.pos + 1;
                return Ok(v);
            }
        }
        Err(self.fail("a link arrow"))
    }

    fn kw_compare_op(&mut self) -> (r: Result<CompareOp, V2ParseError>)
        requires
            old(self).wf(),
        ensures
            err_located(r),
            advanced(*old(self), *final(self)),
            r is Ok ==> final(self).pos == old(self).pos + 1,
            r matches Ok(v) ==> old(self).toks@[old(self).pos as int].kind == TokKind::Sym
                && spec_compare_op_of(text_at(*old(self), 0)) == Some(v),
    {
        if self.pos < self.toks.len() && self.toks[self.pos].kind == TokKind::Sym {
            if let Some(v) = compare_op_of(self.toks[self.pos].text.as_str()) {
                self.pos = self.pos + 1;
                return Ok(v);
            }
        }
        Err(self.fail("a comparison"))
    }

    fn kw_bin_op(&mut self) -> (r: Result<BinOp, V2ParseError>)
        requires
            old(self).wf(),
        ensures
            err_located(r),
            advanced(*old(self), *final(self)),
            r is Ok ==> final(self).pos == old(self).pos + 1,
            r matches Ok(v) ==> old(self).toks@[old(self).pos as int].kind == TokKind::Sym
                && spec_bin_op_of(text_at(*old(self), 0)) == Some(v),
    {
        if self.pos < self.toks.len() && self.toks[self.pos].kind == TokKind::Sym {
            if let Some(v) = bin_op_of(self.toks[self.pos].text.as_str()) {
                self.pos = self.pos + 1;
                return Ok(v);
            }
        }
        Err(self.fail("an operator"))
    }

    fn kw_card_type(&mut self) -> (r: Result<CardType, V2ParseError>)
        requires
            old(self).wf(),
        ensures
            err_located(r),
            advanced(*old(self), *final(self)),
            r is Ok ==> final(self).pos > old(self).pos,
            r matches Ok(v) ==> exists|n: int|
                1 <= n <= 2 && final(self).pos == old(self).pos + n
                    && words_at(old(self).toks@, old(self).pos as int, n)
                    && spec_card_type_of(#[trigger] join_words(old(self).toks@, old(self).pos as int, n)) == Some(v),
    {
        if let Some(w) = self.joined(2) {
            if let Some(v) = card_type_of(w.as_str()) {
                proof {
                    assert(spec_card_type_of(join_words(old(self).toks@, old(self).pos as int, 2)) == Some(v));
                }
                self.pos = self.pos + 2;
                return Ok(v);
            }
        }
        if let Some(w) = self.joined(1) {
            if let Some(v) = card_type_of(w.as_str()) {
                proof {
                    assert(spec_card_type_of(join_words(old(self).toks@, old(self).pos as int, 1)) == Some(v));
                }
                self.pos = self.pos + 1;
                return Ok(v);
            }
        }
        Err(self.fail("a card type"))
    }

    fn kw_race(&mut self) -> (r: Result<Race, V2ParseError>)
        requires
            old(self).wf(),
        ensures
            err_located(r),
            advanced(*old(self), *final(self)),
            r is Ok ==> final(self).pos > old(self).pos,
            r matches Ok(v) ==> exists|n: int|
                1 <= n <= 2 && final(self).pos == old(self).pos + n
                    && words_at(old(self).toks@, old(self).pos as int, n)
                    && spec_race_of(#[trigger] join_words(old(self).toks@, old(self).pos as int, n)) == Some(v),
    {
        if let Some(w) = self.joined(2) {
            if let Some(v) = race_of(w.as_str()) {
                proof {
                    assert(spec_race_of(join_words(old(self).toks@, old(self).pos as int, 2)) == Some(v));
                }
                self.pos = self.pos + 2;
                return Ok(v);
            }
        }
        if let Some(w) = self.joined(1) {
            if let Some(v) = race_of(w.as_str()) {
                proof {
                    assert(spec_race_of(join_words(old(self).toks@, old(self).pos as int, 1)) == Some(v));
                }
                self.pos = self.pos + 1;
                return Ok(v);
            }
        }
        Err(self.fail("a race"))
    }

    fn kw_card_filter_kind(&mut self) -> (r: Result<CardFilterKind, V2ParseError>)
        requires
            old(self).wf(),
        ensures
            err_located(r),
            advanced(*old(self), *final(self)),
            r is Ok ==> final(self).pos > old(self).pos,
            r matches Ok(v) ==> exists|n: int|
                1 <= n <= 2 && final(self).pos == old(self).pos + n
                    && words_at(old(self).toks@, old(self).pos as int, n)
                    && spec_card_filter_kind_of(#[trigger] join_words(old(self).toks@, old(self).pos as int, n)) == Some(v),
    {
        if let Some(w) = self.joined(2) {
            if let Some(v) = card_filter_kind_of(w.as_str()) {
                proof {
                    assert(spec_card_filter_kind_of(join_words(old(self).toks@, old(self).pos as int, 2)) == Some(v));
                }
                self.pos = self.pos + 2;
                return Ok(v);
            }
        }
        if let Some(w) = self.joined(1) {
            if let Some(v) = card_filter_kind_of(w.as_str()) {
                proof {
                    assert(spec_card_filter_kind_of(join_words(old(self).toks@, old(self).pos as int, 1)) == Some(v));
                }
                self.pos = self.pos + 1;
                return Ok(v);
            }
        }
        Err(self.fail("a card kind"))
    }

    fn kw_controller(&mut self) -> (r: Result<Controller, V2ParseError>)
        requires
            old(self).wf(),
        ensures
            err_located(r),
            advanced(*old(self), *final(self)),
            r is Ok ==> final(self).pos > old(self).pos,
            r matches Ok(v) ==> exists|n: int|
                1 <= n <= 2 && final(self).pos == old(self).pos + n
                    && words_at(old(self).toks@, old(self).pos as int, n)
                    && spec_controller_of(#[trigger] join_words(old(self).toks@, old(self).pos as int, n)) == Some(v),
    {
        if let Some(w) = self.joined(2) {
            if let Some(v) = controller_of(w.as_str()) {
                proof {
                    assert(spec_controller_of(join_words(old(self).toks@, old(self).pos as int, 2)) == Some(v));
                }
                self.pos = self.pos + 2;
                return Ok(v);
            }
        }
        if let Some(w) = self.joined(1) {
            if let Some(v) = controller_of(w.as_str()) {
                proof {
                    assert(spec_controller_of(join_words(old(self).toks@, old(self).pos as int, 1)) == Some(v));
                }
                self.pos = self.pos + 1;
                return Ok(v);
            }
        }
        Err(self.fail("a controller"))
    }

    fn kw_position_filter(&mut self) -> (r: Result<PositionFilter, V2ParseError>)
        requires
            old(self).wf(),
        ensures
            err_located(r),
            advanced(*old(self), *final(self)),
            r is Ok ==> final(self).pos > old(self).pos,
            r matches Ok(v) ==> exists|n: int|
                1 <= n <= 2 && final(self).pos == old(self).pos + n
                    && words_at(old(self).toks@, old(self).pos as int, n)
                    && spec_position_filter_of(#[trigger] join_words(old(self).toks@, old(self).pos as int, n)) == Some(v),
    {
        if let Some(w) = self.joined(2) {
            if let Some(v) = position_filter_of(w.as_str()) {
                proof {
                    assert(spec_position_filter_of(join_words(old(self).toks@, old(self).pos as int, 2)) == Some(v));
                }
                self.pos = self.pos + 2;
                return Ok(v);
            }
        }
        if let Some(w) = self.joined(1) {
            if let Some(v) = position_filter_of(w.as_str()) {
                proof {
                    assert(spec_position_filter_of(join_words(old(self).toks@, old(self).pos as int, 1)) == Some(v));
                }
                self.pos = self.pos + 1;
                return Ok(v);
            }
        }
        Err(self.fail("a position"))
    }

    fn kw_grant_ability(&mut self) -> (r: Result<GrantAbility, V2ParseError>)
        requires
            old(self).wf(),
        ensures
            err_located(r),
            advanced(*old(self), *final(self)),
            r is Ok ==> final(self).pos > old(self).pos,
            r matches Ok(v) ==> exists|n: int|
                1 <= n <= 3 && final(self).pos == old(self).pos + n
                    && words_at(old(self).toks@, old(self).pos as int, n)
                    && spec_grant_ability_of(#[trigger] join_words(old(self).toks@, old(self).pos as int, n)) == Some(v),
    {
        if let Some(w) = self.joined(3) {
            if let Some(v) = grant_ability_of(w.as_str()) {
                proof {
                    assert(spec_grant_ability_of(join_words(old(self).toks@, old(self).pos as int, 3)) == Some(v));
                }
                self.pos = self.pos + 3;
                return Ok(v);
            }
        }
        if let Some(w) = self.joined(2) {
            if let Some(v) = grant_ability_of(w.as_str()) {
                proof {
                    assert(spec_grant_ability_of(join_words(old(self).toks@, old(self).pos as int, 2)) == Some(v));
                }
                self.pos = self.pos + 2;
                return Ok(v);
            }
        }
        if let Some(w) = self.joined(1) {
            if let Some(v) = grant_ability_of(w.as_str()) {
                proof {
                    assert(spec_grant_ability_of(join_words(old(self).toks@, old(self).pos as int, 1)) == Some(v));
                }
                self.pos = self.pos + 1;
                return Ok(v);
            }
        }
        Err(self.fail("an ability"))
    }

    /// `this_turn`, ..., or `N_turns`.
    fn duration(&mut self) -> (r: Result<Duration, V2ParseError>)
        requires
            old(self).wf(),
        ensures
            err_located(r),
            advanced(*old(self), *final(self)),
            r is Ok ==> final(self).pos == old(self).pos + 1,
            r matches Ok(v) ==> (spec_duration_word_of(text_at(*old(self), 0)) == Some(v)
                || v is NTurns),
    {
        if let Some(w) = self.word() {
            if let Some(d) = duration_word_of(w) {
                self.pos = self.pos + 1;
                return Ok(d);
            }
            let cs = chars_of(w);
            let n = cs.len();
            if n > 6 && cs[n - 6] == '_' && cs[n - 5] == 't' && cs[n - 4] == 'u' && cs[n - 3] == 'r'
                && cs[n - 2] == 'n' && cs[n - 1] == 's' {
                let digits = super::text::string_of(&cs, 0, n - 6);
                if let Some(k) = decimal_of(digits.as_str(), 4294967295) {
                    self.pos = self.pos + 1;
                    return Ok(Duration::NTurns(k as u32));
                }
            }
        }
        Err(self.fail("a duration"))
    }

    /// A stat value: a number, a negative number, or `?`.
    fn stat_val(&mut self) -> (r: Result<StatVal, V2ParseError>)
        requires
            old(self).wf(),
        ensures
            err_located(r),
            advanced(*old(self), *final(self)),
            r is Ok ==> moved(*old(self), *final(self)),
            tok_is(*old(self), 0, TokKind::Sym, "?"@) ==> r == Ok::<StatVal, V2ParseError>(StatVal::Unknown),
            number_fits(old(self).toks@, old(self).pos as int, 2147483647) ==> r
                == Ok::<StatVal, V2ParseError>(StatVal::Number(decimal_value(text_at(*old(self), 0)) as i32)),
    {
        if self.eat_sym("?") {
            return Ok(StatVal::Unknown);
        }
        if self.eat_sym("-") {
            let v = self.number(2147483648, "stat_val")?;
            if v == 2147483648 {
                return Ok(StatVal::Number(i32::MIN));
            }
            return Ok(StatVal::Number(-(v as i32)));
        }
        let v = self.number(2147483647, "stat_val")?;
        Ok(StatVal::Number(v as i32))
    }

    /// `as name` after a cost or a target, if present.
    fn binding(&mut self) -> (r: Result<Option<String>, V2ParseError>)
        requires
            old(self).wf(),
        ensures
            err_located(r),
            advanced(*old(self), *final(self)),
            r matches Ok(None) ==> final(self).pos == old(self).pos,
    {
        if self.eat_word("as") {
            let b = self.ident()?;
            Ok(Some(b))
        } else {
            Ok(None)
        }
    }

    /// `from zone`, if present.
    fn from_zone(&mut self) -> (r: Result<Option<Zone>, V2ParseError>)
        requires
            old(self).wf(),
        ensures
            err_located(r),
            advanced(*old(self), *final(self)),
            r matches Ok(None) ==> final(self).pos == old(self).pos,
            match from_zone_at(*old(self)) {
                Some(v) => r == Ok::<Option<Zone>, V2ParseError>(v) && final(self).pos == old(self).pos + (if v is Some {
                    2int
                } else {
                    0int
                }),
                None => r is Err,
            },
    {
        if self.at_word("from") {
            self.pos = self.pos + 1;
            let z = self.kw_zone()?;
            Ok(Some(z))
        } else {
            Ok(None)
        }
    }

    /// `until duration`, if present.
    fn until_duration(&mut self) -> (r: Result<Option<Duration>, V2ParseError>)
        requires
            old(self).wf(),
        ensures
            err_located(r),
            advanced(*old(self), *final(self)),
            r matches Ok(None) ==> final(self).pos == old(self).pos,
    {
        if self.eat_word("until") {
            let d = self.duration()?;
            Ok(Some(d))
        } else {
            Ok(None)
        }
    }

    /// `[ item, item, ... ]` of zones.
    fn zone_list(&mut self) -> (r: Result<Vec<Zone>, V2ParseError>)
        requires
            old(self).wf(),
        ensures
            err_located(r),
            advanced(*old(self), *final(self)),
            r is Ok ==> moved(*old(self), *final(self)),
    {
        self.expect_sym("[")?;
        let mut v: Vec<Zone> = Vec::new();
        if self.eat_sym("]") {
            return Ok(v);
        }
        loop
            invariant
                advanced(*old(self), *self),
                old(self).pos < self.pos,
            decreases self.toks@.len() - self.pos,
        {
            let z = self.kw_zone()?;
            v.push(z);
            if self.eat_sym("]") {
                return Ok(v);
            }
            self.expect_sym(",")?;
        }
    }

    /// `[ category, ... ]`.
    fn category_list(&mut self) -> (r: Result<Vec<Category>, V2ParseError>)
        requires
            old(self).wf(),
        ensures
            err_located(r),
            advanced(*old(self), *final(self)),
            r is Ok ==> moved(*old(self), *final(self)),
            r is Ok <==> categories_at(old(self).toks@, old(self).pos as int) is Some,
            r matches Ok(v) ==> categories_at(old(self).toks@, old(self).pos as int) == Some(
                (v@, final(self).pos as int),
            ),
    {
        self.expect_sym("[")?;
        let mut v: Vec<Category> = Vec::new();
        if self.eat_sym("]") {
            return Ok(v);
        }
        loop
            invariant
                advanced(*old(self), *self),
                old(self).pos < self.pos,
                categories_at(old(self).toks@, old(self).pos as int) == categories_from(
                    self.toks@,
                    self.pos as int,
                    v@,
                ),
            decreases self.toks@.len() - self.pos,
        {
            let c = self.kw_category()?;
            v.push(c);
            if self.eat_sym("]") {
                return Ok(v);
            }
            self.expect_sym(",")?;
        }
    }

    /// An error for text nested more deeply than `MAX_NESTING`.
    fn too_deep(&self) -> (e: V2ParseError)
        requires
            self.wf(),
        ensures
            e matches V2ParseError::SyntaxError(m) && located(m@),
    {
        self.fail("less deeply nested text")
    }

    // ── Selectors ────────────────────────────────────────────

    /// `self`, `target`, `equipped_card`, `negated_card`, `searched`,
    /// `linked_card`, a binding name, or `(quantity, filter, clauses...)`.
    fn selector(&mut self, depth: u32) -> (r: Result<Selector, V2ParseError>)
        requires
            old(self).wf(),
        ensures
            err_located(r),
            advanced(*old(self), *final(self)),
            r is Ok ==> moved(*old(self), *final(self)),
        decreases depth,
    {
        if depth == 0 {
            return Err(self.too_deep());
        }
        if self.eat_word("self") {
            Ok(Selector::SelfCard)
        } else if self.eat_word("target") {
            Ok(Selector::Target)
        } else if self.eat_word("equipped_card") {
            Ok(Selector::EquippedCard)
        } else if self.eat_word("negated_card") {
            Ok(Selector::NegatedCard)
        } else if self.eat_word("searched") {
            Ok(Selector::Searched)
        } else if self.eat_word("linked_card") {
            Ok(Selector::LinkedCard)
        } else if self.at_sym("(") {
            self.counted_selector(depth - 1)
        } else if self.at_kind(TokKind::Ident) {
            let name = self.ident()?;
            Ok(Selector::Binding(name))
        } else {
            Err(self.fail("a selector"))
        }
    }

    /// `all`, `N` or `N+`.
    fn quantity(&mut self) -> (r: Result<Quantity, V2ParseError>)
        requires
            old(self).wf(),
        ensures
            err_located(r),
            advanced(*old(self), *final(self)),
            r is Ok ==> moved(*old(self), *final(self)),
    {
        if self.eat_word("all") {
            return Ok(Quantity::All);
        }
        let n = self.number_u32("quantity")?;
        if self.eat_sym("+") {
            Ok(Quantity::AtLeast(n))
        } else {
            Ok(Quantity::Exact(n))
        }
    }

    /// `kind` or `"Name" kind`; a named filter keeps only whether it names
    /// a monster.
    fn card_filter(&mut self) -> (r: Result<CardFilter, V2ParseError>)
        requires
            old(self).wf(),
        ensures
            err_located(r),
            advanced(*old(self), *final(self)),
            r is Ok ==> moved(*old(self), *final(self)),
    {
        if self.at_kind(TokKind::Str) {
            let name = self.string()?;
            let mut kind = CardFilterKind::Card;
            if self.at_kind(TokKind::Ident) {
                let save = self.pos;
                match self.kw_card_filter_kind() {
                    Ok(k) => {
                        kind = match k {
                            CardFilterKind::Spell | CardFilterKind::Trap | CardFilterKind::Card => CardFilterKind::Card,
                            _ => CardFilterKind::Monster,
                        };
                    },
                    Err(_) => {
                        self.pos = save;
                    },
                }
            }
            Ok(CardFilter { name: Some(name), kind })
        } else {
            let kind = self.kw_card_filter_kind()?;
            Ok(CardFilter { name: None, kind })
        }
    }

    /// `zone or zone or ...`.
    fn zone_alternatives(&mut self) -> (r: Result<Vec<Zone>, V2ParseError>)
        requires
            old(self).wf(),
        ensures
            err_located(r),
            advanced(*old(self), *final(self)),
            r is Ok ==> moved(*old(self), *final(self)),
    {
        let mut v: Vec<Zone> = Vec::new();
        let z = self.kw_zone()?;
        v.push(z);
        loop
            invariant
                advanced(*old(self), *self),
                old(self).pos < self.pos,
            decreases self.toks@.len() - self.pos,
        {
            if !self.eat_word("or") {
                return Ok(v);
            }
            let z = self.kw_zone()?;
            v.push(z);
        }
    }

    fn counted_selector(&mut self, depth: u32) -> (r: Result<Selector, V2ParseError>)
        requires
            old(self).wf(),
        ensures
            err_located(r),
            advanced(*old(self), *final(self)),
            r is Ok ==> moved(*old(self), *final(self)),
        decreases depth,
    {
        if depth == 0 {
            return Err(self.too_deep());
        }
        self.expect_sym("(")?;
        let quantity = self.quantity()?;
        self.expect_sym(",")?;
        let filter = self.card_filter()?;
        let mut controller: Option<Controller> = None;
        let mut zone: Option<ZoneFilter> = None;
        let mut position: Option<PositionFilter> = None;
        let mut where_clause: Option<Predicate> = None;
        loop
            invariant
                advanced(*old(self), *self),
                depth > 0,
                old(self).pos < self.pos,
            decreases self.toks@.len() - self.pos,
        {
            if self.eat_sym(")") {
                return Ok(Selector::Counted { quantity, filter, controller, zone, position, where_clause });
            }
            self.expect_sym(",")?;
            if self.eat_word("where") {
                let p = self.predicate(depth - 1)?;
                where_clause = Some(p);
            } else if self.at_word("in") && !self.at(1, TokKind::Ident, "attack_position")
                && !self.at(1, TokKind::Ident, "defense_position") {
                self.pos = self.pos + 1;
                let zs = self.zone_alternatives()?;
                zone = Some(ZoneFilter::In(zs));
            } else if self.eat_word("from") {
                let zs = self.zone_alternatives()?;
                zone = Some(ZoneFilter::From(zs));
            } else if self.eat_word("on") {
                let owner = if self.eat_word("your") {
                    FieldOwner::Your
                } else if self.eat_word("opponent") {
                    FieldOwner::Opponent
                } else {
                    self.expect_word("either")?;
                    FieldOwner::Either
                };
                self.expect_word("field")?;
                zone = Some(ZoneFilter::OnField(owner));
            } else if self.at_word("in") || self.at_word("face_up") || self.at_word("face_down")
                || self.at_word("except") {
                let p = self.kw_position_filter()?;
                position = Some(p);
            } else {
                let c = self.kw_controller()?;
                controller = Some(c);
            }
        }
    }

    // ── Predicates ───────────────────────────────────────────

    /// Atoms joined by `and` / `or`: one atom stands alone; otherwise the
    /// last conjunction decides between all-of and any-of.
    fn predicate(&mut self, depth: u32) -> (r: Result<Predicate, V2ParseError>)
        requires
            old(self).wf(),
        ensures
            err_located(r),
            advanced(*old(self), *final(self)),
            r is Ok ==> moved(*old(self), *final(self)),
        decreases depth,
    {
        if depth == 0 {
            return Err(self.too_deep());
        }
        let first = self.pred_atom(depth - 1)?;
        let mut atoms: Vec<PredicateAtom> = Vec::new();
        atoms.push(first);
        let mut last_or = false;
        loop
            invariant
                advanced(*old(self), *self),
                depth > 0,
                old(self).pos < self.pos,
                atoms@.len() >= 1,
            decreases self.toks@.len() - self.pos,
        {
            if self.eat_word("and") {
                last_or = false;
            } else if self.eat_word("or") {
                last_or = true;
            } else {
                break;
            }
            let a = self.pred_atom(depth - 1)?;
            atoms.push(a);
        }
        if atoms.len() == 1 {
            let a = atoms.pop().unwrap();
            Ok(Predicate::Single(a))
        } else if last_or {
            Ok(Predicate::Or(atoms))
        } else {
            Ok(Predicate::And(atoms))
        }
    }

    fn pred_atom(&mut self, depth: u32) -> (r: Result<PredicateAtom, V2ParseError>)
        requires
            old(self).wf(),
        ensures
            err_located(r),
            advanced(*old(self), *final(self)),
            r is Ok ==> moved(*old(self), *final(self)),
        decreases depth,
    {
        if depth == 0 {
            return Err(self.too_deep());
        }
        if self.eat_word("not") {
            let inner = self.pred_atom(depth - 1)?;
            return Ok(PredicateAtom::Not(Box::new(inner)));
        }
        if self.eat_sym("(") {
            let p = self.predicate(depth - 1)?;
            self.expect_sym(")")?;
            return match p {
                Predicate::Single(a) => Ok(a),
                Predicate::And(mut atoms) => {
                    if atoms.len() == 0 {
                        Err(V2ParseError::UnknownRule(super::text::string_from("nested predicate")))
                    } else {
                        let first = atoms.remove(0);
                        Ok(PredicateAtom::Not(Box::new(first)))
                    }
                },
                Predicate::Or(_) => Err(V2ParseError::UnknownRule(super::text::string_from("nested predicate"))),
            };
        }
        if self.at_kind(TokKind::Ident) && self.pos + 1 < self.toks.len()
            && self.toks[self.pos + 1].kind == TokKind::Sym {
            if let Some(w) = self.word() {
                if let Some(f) = stat_field_of(w) {
                    self.pos = self.pos + 1;
                    let op = self.kw_compare_op()?;
                    let e = self.expr(depth - 1)?;
                    return Ok(PredicateAtom::StatCompare(f, op, e));
                }
            }
        }
        if self.eat_word("attribute") {
            self.expect_sym("==")?;
            let a = self.kw_attribute()?;
            return Ok(PredicateAtom::AttributeIs(a));
        }
        if self.eat_word("race") {
            self.expect_sym("==")?;
            let a = self.kw_race()?;
            return Ok(PredicateAtom::RaceIs(a));
        }
        if self.eat_word("type") {
            self.expect_sym("==")?;
            let a = self.kw_card_type()?;
            return Ok(PredicateAtom::TypeIs(a));
        }
        if self.eat_word("name") {
            self.expect_sym("==")?;
            let a = self.string()?;
            return Ok(PredicateAtom::NameIs(a));
        }
        if self.eat_word("archetype") {
            self.expect_sym("==")?;
            let a = self.string()?;
            return Ok(PredicateAtom::ArchetypeIs(a));
        }
        let atom = if self.at_word("is_face_up") {
            PredicateAtom::IsFaceUp
        } else if self.at_word("is_face_down") {
            PredicateAtom::IsFaceDown
        } else if self.at_word("is_monster") {
            PredicateAtom::IsMonster
        } else if self.at_word("is_spell") {
            PredicateAtom::IsSpell
        } else if self.at_word("is_trap") {
            PredicateAtom::IsTrap
        } else if self.at_word("is_effect") {
            PredicateAtom::IsEffect
        } else if self.at_word("is_normal") {
            PredicateAtom::IsNormal
        } else if self.at_word("is_tuner") {
            PredicateAtom::IsTuner
        } else if self.at_word("is_fusion") {
            PredicateAtom::IsFusion
        } else if self.at_word("is_synchro") {
            PredicateAtom::IsSynchro
        } else if self.at_word("is_xyz") {
            PredicateAtom::IsXyz
        } else if self.at_word("is_link") {
            PredicateAtom::IsLink
        } else if self.at_word("is_ritual") {
            PredicateAtom::IsRitual
        } else if self.at_word("is_pendulum") {
            PredicateAtom::IsPendulum
        } else if self.at_word("is_token") {
            PredicateAtom::IsToken
        } else if self.at_word("is_flip") {
            PredicateAtom::IsFlip
        } else {
            return Err(self.fail("a predicate"));
        };
        self.pos = self.pos + 1;
        Ok(atom)
    }

    // ── Expressions ──────────────────────────────────────────

    /// Operands joined by `+ - * /`, grouped from the left.
    fn expr(&mut self, depth: u32) -> (r: Result<Expr, V2ParseError>)
        requires
            old(self).wf(),
        ensures
            err_located(r),
            advanced(*old(self), *final(self)),
            r is Ok ==> moved(*old(self), *final(self)),
            depth >= 2 && literal_at(*old(self), 0) && !operator_at(*old(self), 1) ==> r == Ok::<Expr, V2ParseError>(
                Expr::Literal(decimal_value(text_at(*old(self), 0)) as i32),
            ) && final(self).pos == old(self).pos + 1,
        decreases depth,
    {
        if depth == 0 {
            return Err(self.too_deep());
        }
        let mut e = self.expr_atom(depth - 1)?;
        loop
            invariant
                advanced(*old(self), *self),
                depth > 0,
                old(self).pos < self.pos,
                (depth >= 2 && literal_at(*old(self), 0) && self.pos == old(self).pos + 1) ==> e == Expr::Literal(
                    decimal_value(text_at(*old(self), 0)) as i32,
                ),
                (depth >= 2 && literal_at(*old(self), 0) && !operator_at(*old(self), 1)) ==> self.pos == old(self).pos
                    + 1,
            decreases self.toks@.len() - self.pos,
        {
            let op = if self.at_sym("+") {
                BinOp::Add
            } else if self.at_sym("-") {
                BinOp::Sub
            } else if self.at_sym("*") {
                BinOp::Mul
            } else if self.at_sym("/") {
                BinOp::Div
            } else {
                return Ok(e);
            };
            self.pos = self.pos + 1;
            let right = self.expr_atom(depth - 1)?;
            e = Expr::BinOp { left: Box::new(e), op, right: Box::new(right) };
        }
    }

    fn expr_atom(&mut self, depth: u32) -> (r: Result<Expr, V2ParseError>)
        requires
            old(self).wf(),
        ensures
            err_located(r),
            advanced(*old(self), *final(self)),
            r is Ok ==> moved(*old(self), *final(self)),
            depth > 0 && literal_at(*old(self), 0) ==> r == Ok::<Expr, V2ParseError>(
                Expr::Literal(decimal_value(text_at(*old(self), 0)) as i32),
            ) && final(self).pos == old(self).pos + 1,
        decreases depth,
    {
        if depth == 0 {
            return Err(self.too_deep());
        }
        if self.eat_word("half") {
            return Ok(Expr::Half);
        }
        if self.eat_sym("(") {
            let e = self.expr(depth - 1)?;
            self.expect_sym(")")?;
            return Ok(e);
        }
        if self.at_word("count") && self.at(1, TokKind::Sym, "(") {
            self.pos = self.pos + 2;
            let sel = self.selector(depth - 1)?;
            self.expect_sym(")")?;
            return Ok(Expr::Count(Box::new(sel)));
        }
        if self.eat_word("your_lp") {
            return Ok(Expr::PlayerLp(LpOwner::Your));
        }
        if self.eat_word("opponent_lp") {
            return Ok(Expr::PlayerLp(LpOwner::Opponent));
        }
        if self.eat_word("controller_lp") {
            return Ok(Expr::PlayerLp(LpOwner::Controller));
        }
        if self.at_kind(TokKind::Number) {
            let v = self.number(2147483647, "literal")?;
            return Ok(Expr::Literal(v as i32));
        }
        if self.at_kind(TokKind::Ident) && self.at(1, TokKind::Sym, ".") {
            let entity = self.ident()?;
            self.pos = self.pos + 1;
            let f = self.kw_stat_field()?;
            let e = entity.as_str();
            if str_eq(e, "self") || str_eq(e, "target") || str_eq(e, "searched")
                || str_eq(e, "equipped_card") || str_eq(e, "negated_card") || str_eq(e, "linked_card") {
                return Ok(Expr::StatRef(entity, f));
            }
            return Ok(Expr::BindingRef(entity, f));
        }
        Err(self.fail("an expression"))
    }

    // ── Conditions ───────────────────────────────────────────

    /// Atoms joined by `and` / `or`, as for predicates.
    fn condition(&mut self, depth: u32) -> (r: Result<Condition, V2ParseError>)
        requires
            old(self).wf(),
        ensures
            err_located(r),
            advanced(*old(self), *final(self)),
            r is Ok ==> moved(*old(self), *final(self)),
        decreases depth,
    {
        if depth == 0 {
            return Err(self.too_deep());
        }
        let first = self.condition_atom(depth - 1)?;
        let mut atoms: Vec<ConditionAtom> = Vec::new();
        atoms.push(first);
        let mut last_or = false;
        loop
            invariant
                advanced(*old(self), *self),
                depth > 0,
                old(self).pos < self.pos,
                atoms@.len() >= 1,
            decreases self.toks@.len() - self.pos,
        {
            if self.eat_word("and") {
                last_or = false;
            } else if self.eat_word("or") {
                last_or = true;
            } else {
                break;
            }
            let a = self.condition_atom(depth - 1)?;
            atoms.push(a);
        }
        if atoms.len() == 1 {
            let a = atoms.pop().unwrap();
            Ok(Condition::Single(a))
        } else if last_or {
            Ok(Condition::Or(atoms))
        } else {
            Ok(Condition::And(atoms))
        }
    }

    /// `compare_op expr`.
    fn comparison(&mut self, depth: u32) -> (r: Result<(CompareOp, Expr), V2ParseError>)
        requires
            old(self).wf(),
        ensures
            err_located(r),
            advanced(*old(self), *final(self)),
            r is Ok ==> moved(*old(self), *final(self)),
        decreases depth,
    {
        if depth == 0 {
            return Err(self.too_deep());
        }
        let op = self.kw_compare_op()?;
        let e = self.expr(depth - 1)?;
        Ok((op, e))
    }

    fn condition_atom(&mut self, depth: u32) -> (r: Result<ConditionAtom, V2ParseError>)
        requires
            old(self).wf(),
        ensures
            err_located(r),
            advanced(*old(self), *final(self)),
            r is Ok ==> moved(*old(self), *final(self)),
            depth == 0 ==> r is Err,
            depth > 0 && tok_is(*old(self), 0, TokKind::Ident, "self"@) ==> (r is Ok <==> (word_at(
                old(self).toks@,
                old(self).pos + 1,
            ) && spec_card_state_of(text_at(*old(self), 1)) is Some)) && (r is Ok ==> r == Ok::<
                ConditionAtom,
                V2ParseError,
            >(ConditionAtom::SelfState(spec_card_state_of(text_at(*old(self), 1))->0)) && final(self).pos
                == old(self).pos + 2),
            depth > 0 && !controls_follow(*old(self)) && tok_is(*old(self), 0, TokKind::Ident, "phase"@) ==> (r is Ok
                <==> (tok_is(*old(self), 1, TokKind::Sym, "=="@) && word_at(old(self).toks@, old(self).pos + 2)
                && spec_phase_name_of(text_at(*old(self), 2)) is Some)) && (r is Ok ==> r == Ok::<
                ConditionAtom,
                V2ParseError,
            >(ConditionAtom::PhaseIs(spec_phase_name_of(text_at(*old(self), 2))->0)) && final(self).pos
                == old(self).pos + 3),
            depth > 0 && !controls_follow(*old(self)) && tok_is(*old(self), 0, TokKind::Ident, "has_flag"@) ==> (r
                is Ok <==> (old(self).pos + 1 < old(self).toks@.len() && old(self).toks@[old(self).pos + 1].kind
                == TokKind::Str)) && (r matches Ok(a) ==> (a matches ConditionAtom::HasFlag(n) && n@ == text_at(
                *old(self),
                1,
            )) && final(self).pos == old(self).pos + 2),
            depth > 0 && !controls_follow(*old(self)) && simple_atom_at(*old(self)) is Some ==> r == Ok::<
                ConditionAtom,
                V2ParseError,
            >(simple_atom_at(*old(self))->0) && final(self).pos == old(self).pos + 1,
        decreases depth,
    {
        proof {
            reveal_strlit("not");
            reveal_strlit("self");
            reveal_strlit("controls");
            reveal_strlit("control");
            reveal_strlit("no");
            reveal_strlit("lp");
            reveal_strlit("opponent_lp");
            reveal_strlit("hand_size");
            reveal_strlit("cards_in_gy");
            reveal_strlit("cards_in_banished");
            reveal_strlit("phase");
            reveal_strlit("chain_includes");
            reveal_strlit("has_counter");
            reveal_strlit("has_flag");
            reveal_strlit("on_field");
            reveal_strlit("in_gy");
            reveal_strlit("in_hand");
            reveal_strlit("in_banished");
            assert("has_flag"@[0] != "on_field"@[0]);
            assert("has_flag"@[0] != "hand_size"@[0] || "has_flag"@.len() != "hand_size"@.len());
            assert("phase"@[0] != "in_gy"@[0]);
            assert("in_hand"@[0] != "no"@[0] || "in_hand"@.len() != "no"@.len());
            assert("on_field"@[0] != "has_flag"@[0]);
            assert("in_banished"@[0] != "cards_in_gy"@[0]);
            assert("self"@.len() != "not"@.len());
            assert("in_banished"@[0] != "opponent_lp"@[0]);
            assert("on_field"@.len() != "not"@.len());
            assert("in_gy"@.len() != "not"@.len());
            assert("in_hand"@.len() != "not"@.len());
            assert("in_banished"@.len() != "not"@.len());
            assert("phase"@.len() != "not"@.len());
            assert("has_flag"@.len() != "not"@.len());
        }
        if depth == 0 {
            return Err(self.too_deep());
        }
        if self.eat_word("not") {
            let inner = self.condition_atom(depth - 1)?;
            return Ok(ConditionAtom::Not(Box::new(inner)));
        }
        if self.eat_word("self") {
            let st = self.kw_card_state()?;
            return Ok(ConditionAtom::SelfState(st));
        }
        if self.at_kind(TokKind::Ident) && (self.at(1, TokKind::Ident, "controls") || self.at(1, TokKind::Ident, "control")) {
            let who = self.kw_player_who()?;
            self.pos = self.pos + 1;
            let sel = self.selector(depth - 1)?;
            return Ok(ConditionAtom::Controls(who, sel));
        }
        if self.eat_word("no") {
            let kind = self.kw_card_filter_kind()?;
            self.expect_word("on")?;
            let owner = if self.eat_word("your") {
                FieldOwner::Your
            } else if self.eat_word("opponent") {
                FieldOwner::Opponent
            } else {
                self.expect_word("either")?;
                FieldOwner::Either
            };
            self.expect_word("field")?;
            return Ok(ConditionAtom::NoCardsOnField(kind, owner));
        }
        if self.eat_word("lp") {
            let (op, e) = self.comparison(depth - 1)?;
            return Ok(ConditionAtom::LpCompare(op, e));
        }
        if self.eat_word("opponent_lp") {
            let (op, e) = self.comparison(depth - 1)?;
            return Ok(ConditionAtom::OpponentLpCompare(op, e));
        }
        if self.eat_word("hand_size") {
            let (op, e) = self.comparison(depth - 1)?;
            return Ok(ConditionAtom::HandSize(op, e));
        }
        if self.eat_word("cards_in_gy") {
            let (op, e) = self.comparison(depth - 1)?;
            return Ok(ConditionAtom::CardsInGy(op, e));
        }
        if self.eat_word("cards_in_banished") {
            let (op, e) = self.comparison(depth - 1)?;
            return Ok(ConditionAtom::CardsInBanished(op, e));
        }
        if self.eat_word("phase") {
            self.expect_sym("==")?;
            let ph = self.kw_phase_name()?;
            return Ok(ConditionAtom::PhaseIs(ph));
        }
        if self.eat_word("chain_includes") {
            let cats = self.category_list()?;
            return Ok(ConditionAtom::ChainIncludes(cats));
        }
        if self.eat_word("has_counter") {
            let name = self.string()?;
            let mut op: Option<CompareOp> = None;
            let mut threshold: Option<Expr> = None;
            if self.at_kind(TokKind::Sym) {
                let (o, e) = self.comparison(depth - 1)?;
                op = Some(o);
                threshold = Some(e);
            }
            self.expect_word("on")?;
            let target = if self.eat_word("self") {
                CounterTarget::OnSelf
            } else {
                let _ = self.selector(depth - 1)?;
                CounterTarget::OnSelector
            };
            return Ok(ConditionAtom::HasCounter(name, op, threshold, target));
        }
        if self.eat_word("has_flag") {
            let name = self.string()?;
            return Ok(ConditionAtom::HasFlag(name));
        }
        let atom = if self.at_word("on_field") {
            ConditionAtom::OnField
        } else if self.at_word("in_gy") {
            ConditionAtom::InGy
        } else if self.at_word("in_hand") {
            ConditionAtom::InHand
        } else if self.at_word("in_banished") {
            ConditionAtom::InBanished
        } else {
            return Err(self.fail("a condition"));
        };
        self.pos = self.pos + 1;
        Ok(atom)
    }

    // ── Triggers ─────────────────────────────────────────────

    /// `by method`, if present.
    fn by_method(&mut self) -> (r: Result<Option<SummonMethod>, V2ParseError>)
        requires
            old(self).wf(),
        ensures
            err_located(r),
            advanced(*old(self), *final(self)),
            r is Ok <==> by_method_at(old(self).toks@, old(self).pos as int) is Some,
            r matches Ok(m) ==> by_method_at(old(self).toks@, old(self).pos as int) == Some(
                (m, final(self).pos as int),
            ),
    {
        if self.eat_word("by") {
            let m = self.kw_summon_method()?;
            Ok(Some(m))
        } else {
            Ok(None)
        }
    }

    fn trigger(&mut self) -> (r: Result<Trigger, V2ParseError>)
        requires
            old(self).wf(),
        ensures
            err_located(r),
            advanced(*old(self), *final(self)),
            r is Ok ==> moved(*old(self), *final(self)),
            r is Ok <==> trigger_ok(old(self).toks@, old(self).pos as int),
            r matches Ok(t) ==> trigger_spelled(old(self).toks@, old(self).pos as int, t, final(self).pos as int),
    {
        if self.eat_word("summoned") {
            let m = self.by_method()?;
            return Ok(Trigger::Summoned(m));
        }
        if self.eat_word("special_summoned") {
            let m = self.by_method()?;
            return Ok(Trigger::SpecialSummoned(m));
        }
        if self.eat_word("destroyed") {
            if self.eat_word("by") {
                let how = if self.eat_word("battle") {
                    DestroyBy::Battle
                } else if self.eat_word("card_effect") {
                    DestroyBy::CardEffect
                } else {
                    self.expect_word("effect")?;
                    DestroyBy::Effect
                };
                return Ok(Trigger::Destroyed(Some(how)));
            }
            return Ok(Trigger::Destroyed(None));
        }
        if self.eat_word("sent_to") {
            let z = self.kw_zone()?;
            if self.at_word("from") && self.pos + 1 < self.toks.len()
                && self.toks[self.pos + 1].kind == TokKind::Ident {
                if let Some(from) = zone_of(self.toks[self.pos + 1].text.as_str()) {
                    self.pos = self.pos + 2;
                    return Ok(Trigger::SentTo(z, Some(from)));
                }
            }
            return Ok(Trigger::SentTo(z, None));
        }
        if self.eat_word("returned_to") {
            let z = self.kw_zone()?;
            return Ok(Trigger::ReturnedTo(z));
        }
        if self.eat_word("battle_damage") {
            if self.eat_word("to") {
                let who = if self.eat_word("you") {
                    PlayerWho::You
                } else if self.eat_word("opponent") {
                    PlayerWho::Opponent
                } else if self.eat_word("controller") {
                    PlayerWho::Controller
                } else {
                    self.expect_word("either")?;
                    PlayerWho::Both
                };
                return Ok(Trigger::BattleDamage(Some(who)));
            }
            return Ok(Trigger::BattleDamage(None));
        }
        if self.eat_word("standby_phase") {
            if self.eat_word("of") {
                let owner = if self.eat_word("yours") {
                    PhaseOwner::Yours
                } else if self.eat_word("opponents") {
                    PhaseOwner::Opponents
                } else {
                    self.expect_word("either")?;
                    PhaseOwner::Either
                };
                return Ok(Trigger::StandbyPhase(Some(owner)));
            }
            return Ok(Trigger::StandbyPhase(None));
        }
        if self.eat_word("opponent_activates") {
            if self.at_sym("[") {
                let cats = self.category_list()?;
                return Ok(Trigger::OpponentActivates(cats));
            }
            return Ok(Trigger::OpponentActivates(Vec::new()));
        }
        if self.eat_word("used_as_material") {
            if self.eat_word("for") {
                let m = self.kw_summon_method()?;
                return Ok(Trigger::UsedAsMaterial(Some(m)));
            }
            if self.at_kind(TokKind::Ident) {
                if let Some(w) = self.word() {
                    if let Some(m) = summon_method_of(w) {
                        self.pos = self.pos + 1;
                        return Ok(Trigger::UsedAsMaterial(Some(m)));
                    }
                }
            }
            return Ok(Trigger::UsedAsMaterial(None));
        }
        if self.eat_word("custom") {
            let name = self.string()?;
            return Ok(Trigger::Custom(name));
        }
        let t = if self.at_word("normal_summoned") {
            Trigger::NormalSummoned
        } else if self.at_word("tribute_summoned") {
            Trigger::TributeSummoned
        } else if self.at_word("flip_summoned") {
            Trigger::FlipSummoned
        } else if self.at_word("flipped") {
            Trigger::Flipped
        } else if self.at_word("destroyed_by_battle") {
            Trigger::DestroyedByBattle
        } else if self.at_word("destroyed_by_effect") {
            Trigger::DestroyedByEffect
        } else if self.at_word("destroys_by_battle") {
            Trigger::DestroysByBattle
        } else if self.at_word("leaves_field") {
            Trigger::LeavesField
        } else if self.at_word("banished") {
            Trigger::Banished
        } else if self.at_word("attack_declared") {
            Trigger::AttackDeclared
        } else if self.at_word("opponent_attack_declared") {
            Trigger::OpponentAttackDeclared
        } else if self.at_word("attacked") {
            Trigger::Attacked
        } else if self.at_word("direct_attack_damage") {
            Trigger::DirectAttackDamage
        } else if self.at_word("damage_calculation") {
            Trigger::DamageCalculation
        } else if self.at_word("end_phase") {
            Trigger::EndPhase
        } else if self.at_word("draw_phase") {
            Trigger::DrawPhase
        } else if self.at_word("main_phase") {
            Trigger::MainPhase
        } else if self.at_word("battle_phase") {
            Trigger::BattlePhase
        } else if self.at_word("summon_attempt") {
            Trigger::SummonAttempt
        } else if self.at_word("spell_trap_activated") {
            Trigger::SpellTrapActivated
        } else if self.at_word("chain_link") {
            Trigger::ChainLink
        } else if self.at_word("targeted") {
            Trigger::Targeted
        } else if self.at_word("position_changed") {
            Trigger::PositionChanged
        } else if self.at_word("control_changed") {
            Trigger::ControlChanged
        } else if self.at_word("equipped") {
            Trigger::Equipped
        } else if self.at_word("unequipped") {
            Trigger::Unequipped
        } else {
            return Err(self.fail("a trigger"));
        };
        self.pos = self.pos + 1;
        Ok(t)
    }

    // ── Costs ────────────────────────────────────────────────

    /// `{ cost_action* }`.
    fn cost_block(&mut self, depth: u32) -> (r: Result<Vec<CostAction>, V2ParseError>)
        requires
            old(self).wf(),
        ensures
            err_located(r),
            advanced(*old(self), *final(self)),
            r is Ok ==> moved(*old(self), *final(self)),
        decreases depth,
    {
        if depth == 0 {
            return Err(self.too_deep());
        }
        self.expect_sym("{")?;
        let mut v: Vec<CostAction> = Vec::new();
        loop
            invariant
                advanced(*old(self), *self),
                depth > 0,
                old(self).pos < self.pos,
            decreases self.toks@.len() - self.pos,
        {
            if self.eat_sym("}") {
                return Ok(v);
            }
            let c = self.cost_action(depth - 1)?;
            v.push(c);
        }
    }

    /// `from self` or `from selector`, for detaching and removing counters.
    fn from_self_or(&mut self, depth: u32) -> (r: Result<Selector, V2ParseError>)
        requires
            old(self).wf(),
        ensures
            err_located(r),
            advanced(*old(self), *final(self)),
            r is Ok ==> moved(*old(self), *final(self)),
        decreases depth,
    {
        if depth == 0 {
            return Err(self.too_deep());
        }
        self.expect_word("from")?;
        self.selector(depth - 1)
    }

    fn cost_action(&mut self, depth: u32) -> (r: Result<CostAction, V2ParseError>)
        requires
            old(self).wf(),
        ensures
            err_located(r),
            advanced(*old(self), *final(self)),
            r is Ok ==> moved(*old(self), *final(self)),
        decreases depth,
    {
        if depth == 0 {
            return Err(self.too_deep());
        }
        if self.eat_word("pay_lp") {
            let e = self.expr(depth - 1)?;
            return Ok(CostAction::PayLp(e));
        }
        if self.eat_word("discard") {
            let sel = self.selector(depth - 1)?;
            let b = self.binding()?;
            return Ok(CostAction::Discard(sel, b));
        }
        if self.eat_word("tribute") {
            let sel = self.selector(depth - 1)?;
            let b = self.binding()?;
            return Ok(CostAction::Tribute(sel, b));
        }
        if self.eat_word("banish") {
            let sel = self.selector(depth - 1)?;
            let z = self.from_zone()?;
            let b = self.binding()?;
            return Ok(CostAction::Banish(sel, z, b));
        }
        if self.eat_word("send") {
            let sel = self.selector(depth - 1)?;
            self.expect_word("to")?;
            let z = self.kw_zone()?;
            let b = self.binding()?;
            return Ok(CostAction::Send(sel, z, b));
        }
        if self.eat_word("detach") {
            let n = self.number_u32("detach count")?;
            let sel = self.from_self_or(depth - 1)?;
            return Ok(CostAction::Detach(n, sel));
        }
        if self.eat_word("remove_counter") {
            let name = self.string()?;
            let n = self.number_u32("counter count")?;
            let sel = self.from_self_or(depth - 1)?;
            return Ok(CostAction::RemoveCounter(name, n, sel));
        }
        if self.eat_word("reveal") {
            let sel = self.selector(depth - 1)?;
            return Ok(CostAction::Reveal(sel));
        }
        if self.eat_word("announce") {
            let w = self.kw_announce_what()?;
            let b = self.binding()?;
            return Ok(CostAction::Announce(w, b));
        }
        if self.eat_word("none") {
            return Ok(CostAction::NoCost);
        }
        Err(self.fail("a cost"))
    }

    // ── Targets, choices, restrictions ───────────────────────

    /// `selector [as name]`, after `target` (with or without `:`).
    fn target_decl(&mut self, depth: u32) -> (r: Result<TargetDecl, V2ParseError>)
        requires
            old(self).wf(),
        ensures
            err_located(r),
            advanced(*old(self), *final(self)),
            r is Ok ==> moved(*old(self), *final(self)),
        decreases depth,
    {
        if depth == 0 {
            return Err(self.too_deep());
        }
        self.expect_word("target")?;
        let _ = self.eat_sym(":");
        let selector = self.selector(depth - 1)?;
        let binding = self.binding()?;
        Ok(TargetDecl { selector, binding })
    }

    /// `choose { option "label" { ... } ... }`.
    fn choose_block(&mut self, depth: u32) -> (r: Result<ChooseBlock, V2ParseError>)
        requires
            old(self).wf(),
        ensures
            err_located(r),
            advanced(*old(self), *final(self)),
            r is Ok ==> moved(*old(self), *final(self)),
        decreases depth,
    {
        if depth == 0 {
            return Err(self.too_deep());
        }
        self.expect_word("choose")?;
        self.expect_sym("{")?;
        let mut options: Vec<ChooseOption> = Vec::new();
        loop
            invariant
                advanced(*old(self), *self),
                depth > 0,
                old(self).pos < self.pos,
            decreases self.toks@.len() - self.pos,
        {
            if self.eat_sym("}") {
                return Ok(ChooseBlock { options });
            }
            let o = self.option_block(depth - 1)?;
            options.push(o);
        }
    }

    fn option_block(&mut self, depth: u32) -> (r: Result<ChooseOption, V2ParseError>)
        requires
            old(self).wf(),
        ensures
            err_located(r),
            advanced(*old(self), *final(self)),
            r is Ok ==> moved(*old(self), *final(self)),
        decreases depth,
    {
        if depth == 0 {
            return Err(self.too_deep());
        }
        self.expect_word("option")?;
        let label = self.string()?;
        self.expect_sym("{")?;
        let mut option = ChooseOption { label, target: None, cost: Vec::new(), trigger: None, resolve: Vec::new() };
        loop
            invariant
                advanced(*old(self), *self),
                depth > 0,
                old(self).pos < self.pos,
            decreases self.toks@.len() - self.pos,
        {
            if self.eat_sym("}") {
                return Ok(option);
            }
            if self.at_word("target") {
                let t = self.target_decl(depth - 1)?;
                option.target = Some(t);
            } else if self.eat_word("cost") {
                let c = self.cost_block(depth - 1)?;
                option.cost = c;
            } else if self.eat_word("trigger") {
                self.expect_sym(":")?;
                let t = self.trigger()?;
                option.trigger = Some(t);
            } else if self.eat_word("resolve") {
                let a = self.action_block(depth - 1)?;
                option.resolve = a;
            } else {
                return Err(self.fail("an option item"));
            }
        }
    }

    /// `restriction ["name"] { item* }`.
    fn restriction(&mut self, depth: u32) -> (r: Result<Restriction, V2ParseError>)
        requires
            old(self).wf(),
        ensures
            err_located(r),
            advanced(*old(self), *final(self)),
            r is Ok ==> moved(*old(self), *final(self)),
        decreases depth,
    {
        if depth == 0 {
            return Err(self.too_deep());
        }
        self.expect_word("restriction")?;
        let name = if self.at_kind(TokKind::Str) {
            let n = self.string()?;
            Some(n)
        } else {
            None
        };
        self.expect_sym("{")?;
        let mut r = Restriction {
            name,
            apply_to: None,
            target: None,
            abilities: Vec::new(),
            duration: None,
            trigger: None,
            condition: None,
        };
        loop
            invariant
                advanced(*old(self), *self),
                depth > 0,
                old(self).pos < self.pos,
            decreases self.toks@.len() - self.pos,
        {
            if self.eat_sym("}") {
                return Ok(r);
            }
            if self.at_word("apply_to") && self.at(1, TokKind::Sym, ":") {
                self.pos = self.pos + 2;
                let w = self.kw_player_who()?;
                r.apply_to = Some(w);
            } else if self.at_word("target") && self.at(1, TokKind::Sym, ":") {
                self.pos = self.pos + 2;
                let s = self.selector(depth - 1)?;
                r.target = Some(s);
            } else if self.at_word("duration") && self.at(1, TokKind::Sym, ":") {
                self.pos = self.pos + 2;
                let d = self.duration()?;
                r.duration = Some(d);
            } else if self.at_word("trigger") && self.at(1, TokKind::Sym, ":") {
                self.pos = self.pos + 2;
                let t = self.trigger()?;
                r.trigger = Some(t);
            } else if self.at_word("condition") && self.at(1, TokKind::Sym, ":") {
                self.pos = self.pos + 2;
                let c = self.condition(depth - 1)?;
                r.condition = Some(c);
            } else {
                let g = self.kw_grant_ability()?;
                r.abilities.push(g);
            }
        }
    }

    /// `create_token { field: value ... }`; a restriction block inside is read
    /// and not kept.
    fn create_token(&mut self, depth: u32) -> (r: Result<TokenSpec, V2ParseError>)
        requires
            old(self).wf(),
        ensures
            err_located(r),
            advanced(*old(self), *final(self)),
            r is Ok ==> moved(*old(self), *final(self)),
        decreases depth,
    {
        if depth == 0 {
            return Err(self.too_deep());
        }
        self.expect_sym("{")?;
        let mut t = TokenSpec {
            name: None,
            attribute: None,
            race: None,
            level: None,
            atk: StatVal::Number(0),
            def: StatVal::Number(0),
            count: 1,
            position: None,
            restriction: None,
        };
        loop
            invariant
                advanced(*old(self), *self),
                depth > 0,
                old(self).pos < self.pos,
            decreases self.toks@.len() - self.pos,
        {
            if self.eat_sym("}") {
                return Ok(t);
            }
            if self.at_word("restriction") {
                let _ = self.restriction(depth - 1)?;
            } else {
                let field = self.ident()?;
                self.expect_sym(":")?;
                let f = field.as_str();
                if str_eq(f, "name") {
                    let n = self.string()?;
                    t.name = Some(n);
                } else if str_eq(f, "attribute") {
                    let a = self.kw_attribute()?;
                    t.attribute = Some(a);
                } else if str_eq(f, "race") {
                    let a = self.kw_race()?;
                    t.race = Some(a);
                } else if str_eq(f, "level") {
                    let n = self.number_u32("token level")?;
                    t.level = Some(n);
                } else if str_eq(f, "atk") {
                    let v = self.stat_val()?;
                    t.atk = v;
                } else if str_eq(f, "def") {
                    let v = self.stat_val()?;
                    t.def = v;
                } else if str_eq(f, "count") {
                    let n = self.number_u32("token count")?;
                    t.count = n;
                } else if str_eq(f, "position") {
                    let p = self.kw_battle_position()?;
                    t.position = Some(p);
                } else {
                    return Err(V2ParseError::UnknownRule(field));
                }
            }
        }
    }

    // ── Actions ──────────────────────────────────────────────

    /// `{ action* }`.
    fn action_block(&mut self, depth: u32) -> (r: Result<Vec<Action>, V2ParseError>)
        requires
            old(self).wf(),
        ensures
            err_located(r),
            advanced(*old(self), *final(self)),
            r is Ok ==> moved(*old(self), *final(self)),
        decreases depth,
    {
        if depth == 0 {
            return Err(self.too_deep());
        }
        self.expect_sym("{")?;
        let mut v: Vec<Action> = Vec::new();
        loop
            invariant
                advanced(*old(self), *self),
                depth > 0,
                old(self).pos < self.pos,
            decreases self.toks@.len() - self.pos,
        {
            if self.eat_sym("}") {
                return Ok(v);
            }
            let a = self.action(depth - 1)?;
            v.push(a);
        }
    }

    /// `using selector`, if present.
    fn using_selector(&mut self, depth: u32) -> (r: Result<Option<Selector>, V2ParseError>)
        requires
            old(self).wf(),
        ensures
            err_located(r),
            advanced(*old(self), *final(self)),
            depth == 0 ==> r is Err,
            depth > 0 && !tok_is(*old(self), 0, TokKind::Ident, "using"@) ==> (r matches Ok(None) && final(self).pos
                == old(self).pos),
            depth > 0 && tok_is(*old(self), 0, TokKind::Ident, "using"@) ==> !(r matches Ok(None)) && (r is Ok
                ==> final(self).pos >= old(self).pos + 2),
        decreases depth,
    {
        if depth == 0 {
            return Err(self.too_deep());
        }
        if self.eat_word("using") {
            let s = self.selector(depth - 1)?;
            Ok(Some(s))
        } else {
            Ok(None)
        }
    }

    /// `your_deck` / `opponent_deck` after `from`.
    fn deck_owner(&mut self) -> (r: Result<DeckOwner, V2ParseError>)
        requires
            old(self).wf(),
        ensures
            err_located(r),
            advanced(*old(self), *final(self)),
            r is Ok ==> moved(*old(self), *final(self)),
    {
        if self.eat_word("your_deck") {
            Ok(DeckOwner::Yours)
        } else if self.eat_word("opponent_deck") {
            Ok(DeckOwner::Opponents)
        } else {
            Err(self.fail("`your_deck` or `opponent_deck`"))
        }
    }

    /// One action of a resolve, do, or nested block.
    fn action(&mut self, depth: u32) -> (r: Result<Action, V2ParseError>)
        requires
            old(self).wf(),
        ensures
            err_located(r),
            advanced(*old(self), *final(self)),
            r is Ok ==> moved(*old(self), *final(self)),
            depth == 0 ==> r is Err,
            depth >= 3 && tok_is(*old(self), 0, TokKind::Ident, "draw"@) && literal_at(*old(self), 1) && !operator_at(
                *old(self),
                2,
            ) ==> r == Ok::<Action, V2ParseError>(
                Action::Draw(Expr::Literal(decimal_value(text_at(*old(self), 1)) as i32)),
            ) && final(self).pos == old(self).pos + 2,
            depth > 0 && tok_is(*old(self), 0, TokKind::Ident, "negate"@) ==> r == Ok::<Action, V2ParseError>(
                Action::Negate(negate_and_destroy(*old(self))),
            ) && final(self).pos == old(self).pos + if negate_and_destroy(*old(self)) {
                3int
            } else {
                1int
            },
        decreases depth,
    {
        proof {
            reveal_strlit("draw");
            reveal_strlit("discard");
            reveal_strlit("destroy");
            reveal_strlit("banish");
            reveal_strlit("send");
            reveal_strlit("return");
            reveal_strlit("search");
            reveal_strlit("add_to_hand");
            reveal_strlit("special_summon");
            reveal_strlit("ritual_summon");
            reveal_strlit("fusion_summon");
            reveal_strlit("synchro_summon");
            reveal_strlit("xyz_summon");
            reveal_strlit("normal_summon");
            reveal_strlit("set");
            reveal_strlit("flip_down");
            reveal_strlit("change_position");
            reveal_strlit("take_control");
            reveal_strlit("equip");
            reveal_strlit("negate");
            reveal_strlit("and");
            assert("negate"@[0] != "banish"@[0]);
            assert("negate"@[0] != "return"@[0]);
            assert("negate"@[0] != "search"@[0]);
            assert("negate"@.len() != "draw"@.len());
            assert("negate"@.len() != "discard"@.len());
            assert("negate"@.len() != "destroy"@.len());
            assert("negate"@.len() != "send"@.len());
            assert("negate"@.len() != "add_to_hand"@.len());
            assert("negate"@.len() != "special_summon"@.len());
            assert("negate"@.len() != "ritual_summon"@.len());
            assert("negate"@.len() != "fusion_summon"@.len());
            assert("negate"@.len() != "synchro_summon"@.len());
            assert("negate"@.len() != "xyz_summon"@.len());
            assert("negate"@.len() != "normal_summon"@.len());
            assert("negate"@.len() != "set"@.len());
            assert("negate"@.len() != "flip_down"@.len());
            assert("negate"@.len() != "change_position"@.len());
            assert("negate"@.len() != "take_control"@.len());
            assert("negate"@.len() != "equip"@.len());
        }
        if depth == 0 {
            return Err(self.too_deep());
        }
        let d = depth - 1;
        if self.eat_word("draw") {
            let e = self.expr(d)?;
            return Ok(Action::Draw(e));
        }
        if self.eat_word("discard") {
            let s = self.selector(d)?;
            return Ok(Action::Discard(s));
        }
        if self.eat_word("destroy") {
            let s = self.selector(d)?;
            return Ok(Action::Destroy(s));
        }
        if self.eat_word("banish") {
            let s = self.selector(d)?;
            let z = self.from_zone()?;
            let face_down = self.eat_word("face_down");
            return Ok(Action::Banish(s, z, face_down));
        }
        if self.eat_word("send") {
            let s = self.selector(d)?;
            self.expect_word("to")?;
            let z = self.kw_zone()?;
            return Ok(Action::Send(s, z));
        }
        if self.eat_word("return") {
            let s = self.selector(d)?;
            self.expect_word("to")?;
            let dest = if self.eat_word("hand") {
                ReturnDest::Hand
            } else if self.eat_word("extra_deck") {
                ReturnDest::ExtraDeck
            } else if self.eat_word("owner") {
                ReturnDest::Owner
            } else {
                self.expect_word("deck")?;
                if self.eat_word("top") {
                    ReturnDest::Deck(Some(DeckPosition::Top))
                } else if self.eat_word("bottom") {
                    ReturnDest::Deck(Some(DeckPosition::Bottom))
                } else if self.eat_word("shuffle") {
                    ReturnDest::Deck(Some(DeckPosition::Shuffle))
                } else {
                    ReturnDest::Deck(None)
                }
            };
            return Ok(Action::Return(s, dest));
        }
        if self.eat_word("search") {
            let s = self.selector(d)?;
            let z = self.from_zone()?;
            return Ok(Action::Search(s, z));
        }
        if self.eat_word("add_to_hand") {
            let s = self.selector(d)?;
            let z = self.from_zone()?;
            return Ok(Action::AddToHand(s, z));
        }
        if self.eat_word("special_summon") {
            let s = self.selector(d)?;
            let z = self.from_zone()?;
            let p = if self.eat_word("in") {
                let p = self.kw_battle_position()?;
                Some(p)
            } else {
                None
            };
            return Ok(Action::SpecialSummon(s, z, p));
        }
        if self.eat_word("ritual_summon") {
            let target = self.selector(d)?;
            let materials = self.using_selector(d)?;
            let mut level_op: Option<CompareOp> = None;
            let mut level_expr: Option<Expr> = None;
            if self.eat_word("where") {
                self.expect_word("total_level")?;
                let (op, e) = self.comparison(d)?;
                level_op = Some(op);
                level_expr = Some(e);
            }
            return Ok(Action::RitualSummon { target, materials, level_op, level_expr });
        }
        if self.eat_word("fusion_summon") {
            let target = self.selector(d)?;
            let materials = self.using_selector(d)?;
            return Ok(Action::FusionSummon { target, materials });
        }
        if self.eat_word("synchro_summon") {
            let target = self.selector(d)?;
            let materials = self.using_selector(d)?;
            return Ok(Action::SynchroSummon { target, materials });
        }
        if self.eat_word("xyz_summon") {
            let target = self.selector(d)?;
            let materials = self.using_selector(d)?;
            return Ok(Action::XyzSummon { target, materials });
        }
        if self.eat_word("normal_summon") {
            let s = self.selector(d)?;
            return Ok(Action::NormalSummon(s));
        }
        if self.eat_word("set") {
            let s = self.selector(d)?;
            let z = self.from_zone()?;
            return Ok(Action::SetCard(s, z));
        }
        if self.eat_word("flip_down") {
            let s = self.selector(d)?;
            return Ok(Action::FlipDown(s));
        }
        if self.eat_word("change_position") {
            let s = self.selector(d)?;
            let p = if self.eat_word("to") {
                let p = self.kw_battle_position()?;
                Some(p)
            } else {
                None
            };
            return Ok(Action::ChangePosition(s, p));
        }
        if self.eat_word("take_control") {
            let s = self.selector(d)?;
            let dur = self.until_duration()?;
            return Ok(Action::TakeControl(s, dur));
        }
        if self.eat_word("equip") {
            let card = self.selector(d)?;
            self.expect_word("to")?;
            let target = self.selector(d)?;
            return Ok(Action::Equip(card, target));
        }
        if self.eat_word("negate") {
            if self.at_word("and") && self.at(1, TokKind::Ident, "destroy") {
                self.pos = self.pos + 2;
                return Ok(Action::Negate(true));
            }
            return Ok(Action::Negate(false));
        }
        if self.eat_word("negate_effects") {
            let s = self.selector(d)?;
            let _ = self.eat_word("until");
            let dur = if self.at_kind(TokKind::Ident) {
                let save = self.pos;
                match self.duration() {
                    Ok(x) => Some(x),
                    Err(_) => {
                        self.pos = save;
                        None
                    },
                }
            } else {
                None
            };
            return Ok(Action::NegateEffects(s, dur));
        }
        if self.eat_word("damage") {
            let who = self.kw_player_who()?;
            let e = self.expr(d)?;
            return Ok(Action::Damage(who, e));
        }
        if self.eat_word("gain_lp") {
            let e = self.expr(d)?;
            return Ok(Action::GainLp(e));
        }
        if self.eat_word("pay_lp") {
            let e = self.expr(d)?;
            return Ok(Action::PayLp(e));
        }
        self.action_more(d)
    }

    fn stat_action(&mut self, stat: StatName, modify: bool, depth: u32) -> (r: Result<Action, V2ParseError>)
        requires
            old(self).wf(),
        ensures
            err_located(r),
            advanced(*old(self), *final(self)),
            r is Ok ==> moved(*old(self), *final(self)),
        decreases depth,
    {
        if depth == 0 {
            return Err(self.too_deep());
        }
        let s = self.selector(depth - 1)?;
        if modify {
            let negative = if self.eat_sym("+") {
                false
            } else {
                self.expect_sym("-")?;
                true
            };
            let e = self.expr(depth - 1)?;
            let dur = self.until_duration()?;
            Ok(Action::ModifyStat(stat, s, negative, e, dur))
        } else {
            let e = self.expr(depth - 1)?;
            let dur = self.until_duration()?;
            Ok(Action::SetStat(stat, s, e, dur))
        }
    }

    fn action_more(&mut self, depth: u32) -> (r: Result<Action, V2ParseError>)
        requires
            old(self).wf(),
        ensures
            err_located(r),
            advanced(*old(self), *final(self)),
            r is Ok ==> moved(*old(self), *final(self)),
        decreases depth,
    {
        if depth == 0 {
            return Err(self.too_deep());
        }
        let d = depth - 1;
        if self.eat_word("modify_atk") {
            return self.stat_action(StatName::Atk, true, d);
        }
        if self.eat_word("modify_def") {
            return self.stat_action(StatName::Def, true, d);
        }
        if self.eat_word("set_atk") {
            return self.stat_action(StatName::Atk, false, d);
        }
        if self.eat_word("set_def") {
            return self.stat_action(StatName::Def, false, d);
        }
        if self.eat_word("change_level") || self.eat_word("change_rank") {
            let s = self.selector(d)?;
            self.expect_word("to")?;
            let e = self.expr(d)?;
            return Ok(Action::ChangeLevel(s, e));
        }
        if self.eat_word("change_attribute") {
            let s = self.selector(d)?;
            self.expect_word("to")?;
            let a = self.kw_attribute()?;
            return Ok(Action::ChangeAttribute(s, a));
        }
        if self.eat_word("change_race") {
            let s = self.selector(d)?;
            self.expect_word("to")?;
            let a = self.kw_race()?;
            return Ok(Action::ChangeRace(s, a));
        }
        if self.eat_word("change_name") {
            let s = self.selector(d)?;
            self.expect_word("to")?;
            let n = self.string()?;
            let dur = self.until_duration()?;
            return Ok(Action::ChangeName(s, n, dur));
        }
        if self.eat_word("set_scale") {
            let s = self.selector(d)?;
            self.expect_word("to")?;
            let e = self.expr(d)?;
            return Ok(Action::SetScale(s, e));
        }
        if self.eat_word("create_token") {
            let t = self.create_token(d)?;
            return Ok(Action::CreateToken(t));
        }
        if self.eat_word("attach") {
            let card = self.selector(d)?;
            self.expect_word("to")?;
            let target = self.selector(d)?;
            let _ = self.eat_word("as_material");
            return Ok(Action::Attach(card, target));
        }
        if self.eat_word("detach") {
            let n = self.number_u32("detach count")?;
            let s = self.from_self_or(d)?;
            return Ok(Action::Detach(n, s));
        }
        if self.eat_word("place_counter") {
            let name = self.string()?;
            let n = self.number_u32("counter count")?;
            self.expect_word("on")?;
            let s = self.selector(d)?;
            return Ok(Action::PlaceCounter(name, n, s));
        }
        if self.eat_word("remove_counter") {
            let name = self.string()?;
            let n = self.number_u32("counter count")?;
            let s = self.from_self_or(d)?;
            return Ok(Action::RemoveCounter(name, n, s));
        }
        if self.eat_word("mill") {
            let e = self.expr(d)?;
            let owner = if self.eat_word("from") {
                let o = self.deck_owner()?;
                Some(o)
            } else {
                None
            };
            return Ok(Action::Mill(e, owner));
        }
        if self.eat_word("excavate") {
            let e = self.expr(d)?;
            let owner = if self.eat_word("from") {
                self.deck_owner()?
            } else {
                DeckOwner::Yours
            };
            return Ok(Action::Excavate(e, owner));
        }
        if self.eat_word("reveal") {
            let s = self.selector(d)?;
            return Ok(Action::Reveal(s));
        }
        if self.eat_word("look_at") {
            let s = self.selector(d)?;
            let z = self.from_zone()?;
            return Ok(Action::LookAt(s, z));
        }
        if self.eat_word("shuffle_deck") {
            let owner = if self.eat_word("opponents") {
                Some(DeckOwner::Opponents)
            } else if self.eat_word("yours") || self.eat_word("both") {
                Some(DeckOwner::Yours)
            } else {
                None
            };
            return Ok(Action::ShuffleDeck(owner));
        }
        if self.eat_word("announce") {
            let w = self.kw_announce_what()?;
            let b = self.binding()?;
            return Ok(Action::Announce(w, b));
        }
        if self.eat_word("link") {
            let a = self.selector(d)?;
            self.expect_word("to")?;
            let b = self.selector(d)?;
            return Ok(Action::LinkTo(a, b));
        }
        if self.eat_word("swap_control") {
            let a = self.selector(d)?;
            self.expect_word("and")?;
            let b = self.selector(d)?;
            return Ok(Action::SwapControl(a, b));
        }
        if self.eat_word("swap_stats") {
            let s = self.selector(d)?;
            return Ok(Action::SwapStats(s));
        }
        if self.eat_word("grant") {
            let s = self.selector(d)?;
            let g = self.kw_grant_ability()?;
            let dur = self.until_duration()?;
            return Ok(Action::Grant(s, g, dur));
        }
        self.action_blocks(d)
    }

    /// The actions that hold blocks of other actions.
    fn action_blocks(&mut self, depth: u32) -> (r: Result<Action, V2ParseError>)
        requires
            old(self).wf(),
        ensures
            err_located(r),
            advanced(*old(self), *final(self)),
            r is Ok ==> moved(*old(self), *final(self)),
        decreases depth,
    {
        if depth == 0 {
            return Err(self.too_deep());
        }
        let d = depth - 1;
        if self.eat_word("flip_coin") {
            self.expect_sym("{")?;
            self.expect_word("heads")?;
            let mut heads = self.action_block(d)?;
            self.expect_word("tails")?;
            let tails_block = self.action_block(d)?;
            self.expect_sym("}")?;
            let tails = if heads.len() == 0 {
                heads = tails_block;
                Vec::new()
            } else {
                tails_block
            };
            return Ok(Action::CoinFlip { heads, tails });
        }
        if self.eat_word("roll_dice") {
            let body = self.action_block(d)?;
            return Ok(Action::DiceRoll(body));
        }
        if self.eat_word("if") {
            let paren = self.eat_sym("(");
            let condition = self.condition(d)?;
            if paren {
                self.expect_sym(")")?;
            }
            let mut then = self.action_block(d)?;
            let mut otherwise: Vec<Action> = Vec::new();
            if self.eat_word("else") {
                let e = self.action_block(d)?;
                if then.len() == 0 {
                    then = e;
                } else {
                    otherwise = e;
                }
            }
            return Ok(Action::If { condition, then, otherwise });
        }
        if self.eat_word("for_each") {
            let selector = self.selector(d)?;
            self.expect_word("in")?;
            let zone = self.kw_zone()?;
            let body = self.action_block(d)?;
            return Ok(Action::ForEach { selector, zone, body });
        }
        if self.at_word("choose") {
            let b = self.choose_block(d)?;
            return Ok(Action::Choose(b));
        }
        if self.eat_word("delayed") {
            self.expect_word("until")?;
            let until = self.kw_phase_name()?;
            let body = self.action_block(d)?;
            return Ok(Action::Delayed { until, body });
        }
        if self.eat_word("and_if_you_do") {
            let body = self.action_block(d)?;
            return Ok(Action::AndIfYouDo(body));
        }
        if self.eat_word("then") {
            let body = self.action_block(d)?;
            return Ok(Action::Then(body));
        }
        if self.eat_word("also") {
            let body = self.action_block(d)?;
            return Ok(Action::Also(body));
        }
        if self.eat_word("install_watcher") {
            let name = self.string()?;
            self.expect_sym("{")?;
            let mut event: Option<Trigger> = None;
            let mut duration = Duration::EndOfTurn;
            let mut check: Vec<Action> = Vec::new();
            loop
                invariant
                    advanced(*old(self), *self),
                    depth > 0,
                    d == depth - 1,
                    old(self).pos < self.pos,
                decreases self.toks@.len() - self.pos,
            {
                if self.eat_sym("}") {
                    break;
                }
                if self.eat_word("event") {
                    self.expect_sym(":")?;
                    let t = self.trigger()?;
                    event = Some(t);
                } else if self.eat_word("duration") {
                    self.expect_sym(":")?;
                    duration = self.duration()?;
                } else if self.eat_word("check") {
                    check = self.action_block(d)?;
                } else {
                    return Err(self.fail("`event`, `duration` or `check`"));
                }
            }
            return match event {
                Some(event) => Ok(Action::InstallWatcher { name, event, duration, check }),
                None => Err(V2ParseError::MissingField("watcher event")),
            };
        }
        Err(self.fail("an action"))
    }

    // ── Cards ────────────────────────────────────────────────

    /// `name: value` lines of the card header.
    fn field_decl(&mut self, fields: &mut CardFields) -> (r: Result<(), V2ParseError>)
        requires
            old(self).wf(),
        ensures
            err_located(r),
            advanced(*old(self), *final(self)),
            r is Ok ==> moved(*old(self), *final(self)),
            r is Ok ==> header_same_but(*old(fields), *final(fields), old(self).toks@[old(self).pos as int].text@),
            r is Ok && text_at(*old(self), 0) == "id"@ ==> final(fields).id
                == Some(decimal_value(text_at(*old(self), 2)) as u64),
            r is Ok && text_at(*old(self), 0) == "level"@ ==> final(fields).level
                == Some(decimal_value(text_at(*old(self), 2)) as u32),
            r is Ok && text_at(*old(self), 0) == "rank"@ ==> final(fields).rank
                == Some(decimal_value(text_at(*old(self), 2)) as u32),
            r is Ok && text_at(*old(self), 0) == "link"@ ==> final(fields).link
                == Some(decimal_value(text_at(*old(self), 2)) as u32),
            r is Ok && text_at(*old(self), 0) == "scale"@ ==> final(fields).scale
                == Some(decimal_value(text_at(*old(self), 2)) as u32),
            r is Ok && text_at(*old(self), 0) == "atk"@ ==> final(fields).atk is Some,
            r is Ok && text_at(*old(self), 0) == "def"@ ==> final(fields).def is Some,
            r is Ok && text_at(*old(self), 0) == "atk"@ && number_fits(old(self).toks@, old(self).pos + 2, 2147483647)
                ==> final(fields).atk == Some(StatVal::Number(decimal_value(text_at(*old(self), 2)) as i32)),
            r is Ok && text_at(*old(self), 0) == "def"@ && number_fits(old(self).toks@, old(self).pos + 2, 2147483647)
                ==> final(fields).def == Some(StatVal::Number(decimal_value(text_at(*old(self), 2)) as i32)),
            r is Ok && text_at(*old(self), 0) == "atk"@ && tok_is(*old(self), 2, TokKind::Sym, "?"@)
                ==> final(fields).atk == Some(StatVal::Unknown),
            r is Ok && text_at(*old(self), 0) == "def"@ && tok_is(*old(self), 2, TokKind::Sym, "?"@)
                ==> final(fields).def == Some(StatVal::Unknown),
            numeric_field_at(old(self).toks@, old(self).pos as int) ==> r is Ok,
    {
        let field = self.ident()?;
        self.expect_sym(":")?;
        let f = field.as_str();
        proof {
            lemma_field_names_differ();
        }
        if str_eq(f, "id") {
            let v = self.number(18446744073709551615, "id")?;
            fields.id = Some(v);
        } else if str_eq(f, "type") {
            let t = self.kw_card_type()?;
            fields.card_types.push(t);
            loop
                invariant
                    advanced(*old(self), *self),
                    header_same_but(*old(fields), *fields, "type"@),
                    !numeric_field_at(old(self).toks@, old(self).pos as int),
                    old(self).pos < self.pos,
                decreases self.toks@.len() - self.pos,
            {
                if !self.eat_sym("|") {
                    break;
                }
                let t = self.kw_card_type()?;
                fields.card_types.push(t);
            }
        } else if str_eq(f, "attribute") {
            let a = self.kw_attribute()?;
            fields.attribute = Some(a);
        } else if str_eq(f, "race") {
            let a = self.kw_race()?;
            fields.race = Some(a);
        } else if str_eq(f, "level") {
            let v = self.number_u32("level")?;
            assert(v == decimal_value(text_at(*old(self), 2)));
            fields.level = Some(v);
        } else if str_eq(f, "rank") {
            let v = self.number_u32("rank")?;
            assert(v == decimal_value(text_at(*old(self), 2)));
            fields.rank = Some(v);
        } else if str_eq(f, "link") {
            let v = self.number_u32("link")?;
            assert(v == decimal_value(text_at(*old(self), 2)));
            fields.link = Some(v);
        } else if str_eq(f, "scale") {
            let v = self.number_u32("scale")?;
            assert(v == decimal_value(text_at(*old(self), 2)));
            fields.scale = Some(v);
        } else if str_eq(f, "atk") {
            let v = self.stat_val()?;
            fields.atk = Some(v);
        } else if str_eq(f, "def") {
            let v = self.stat_val()?;
            fields.def = Some(v);
        } else if str_eq(f, "link_arrows") {
            self.expect_sym("[")?;
            loop
                invariant
                    advanced(*old(self), *self),
                    header_same_but(*old(fields), *fields, "link_arrows"@),
                    !numeric_field_at(old(self).toks@, old(self).pos as int),
                    old(self).pos < self.pos,
                decreases self.toks@.len() - self.pos,
            {
                if self.eat_sym("]") {
                    break;
                }
                let a = self.kw_arrow()?;
                fields.link_arrows.push(a);
                if !self.eat_sym(",") {
                    self.expect_sym("]")?;
                    break;
                }
            }
        } else if str_eq(f, "archetype") {
            if self.eat_sym("[") {
                loop
                    invariant
                        advanced(*old(self), *self),
                        header_same_but(*old(fields), *fields, "archetype"@),
                    !numeric_field_at(old(self).toks@, old(self).pos as int),
                        old(self).pos < self.pos,
                    decreases self.toks@.len() - self.pos,
                {
                    if self.eat_sym("]") {
                        break;
                    }
                    let a = self.string()?;
                    fields.archetypes.push(a);
                    if !self.eat_sym(",") {
                        self.expect_sym("]")?;
                        break;
                    }
                }
            } else {
                let a = self.string()?;
                fields.archetypes.push(a);
            }
        } else {
            return Err(V2ParseError::UnknownRule(field));
        }
        Ok(())
    }

    /// `special_summon_procedure { item* }`.
    fn ssp(&mut self, depth: u32) -> (r: Result<SpecialSummonProcedure, V2ParseError>)
        requires
            old(self).wf(),
        ensures
            err_located(r),
            advanced(*old(self), *final(self)),
            r is Ok ==> moved(*old(self), *final(self)),
        decreases depth,
    {
        if depth == 0 {
            return Err(self.too_deep());
        }
        self.expect_sym("{")?;
        let mut p = SpecialSummonProcedure { from: None, to: None, cost: Vec::new(), condition: None, restriction: None };
        loop
            invariant
                advanced(*old(self), *self),
                depth > 0,
                old(self).pos < self.pos,
            decreases self.toks@.len() - self.pos,
        {
            if self.eat_sym("}") {
                return Ok(p);
            }
            if self.eat_word("from") {
                self.expect_sym(":")?;
                let z = self.kw_zone()?;
                p.from = Some(z);
            } else if self.eat_word("to") {
                self.expect_sym(":")?;
                let t = self.kw_field_target()?;
                p.to = Some(t);
            } else if self.eat_word("cost") {
                let c = self.cost_block(depth - 1)?;
                p.cost = c;
            } else if self.eat_word("condition") {
                self.expect_sym(":")?;
                let c = self.condition(depth - 1)?;
                p.condition = Some(c);
            } else if self.at_word("restriction") {
                let r = self.restriction(depth - 1)?;
                p.restriction = Some(r);
            } else {
                return Err(self.fail("a special summon procedure item"));
            }
        }
    }

    /// `summon { item* }`.
    fn summon_block(&mut self, depth: u32) -> (r: Result<SummonBlock, V2ParseError>)
        requires
            old(self).wf(),
        ensures
            err_located(r),
            advanced(*old(self), *final(self)),
            r is Ok ==> moved(*old(self), *final(self)),
        decreases depth,
    {
        if depth == 0 {
            return Err(self.too_deep());
        }
        let d = depth - 1;
        self.expect_sym("{")?;
        let mut sb = SummonBlock {
            cannot_normal_summon: false,
            cannot_special_summon: false,
            tributes: None,
            special_summon_procedure: None,
            fusion_materials: None,
            synchro_materials: None,
            xyz_materials: None,
            link_materials: None,
            ritual_materials: None,
            pendulum_from: Vec::new(),
        };
        loop
            invariant
                advanced(*old(self), *self),
                depth > 0,
                d == depth - 1,
                old(self).pos < self.pos,
            decreases self.toks@.len() - self.pos,
        {
            let ghost iter_start = self.pos;
            if self.eat_sym("}") {
                return Ok(sb);
            }
            if self.eat_word("cannot_normal_summon") {
                sb.cannot_normal_summon = true;
            } else if self.eat_word("cannot_special_summon") {
                sb.cannot_special_summon = true;
            } else if self.eat_word("tributes") {
                self.expect_sym(":")?;
                let n = self.number_u32("tributes")?;
                sb.tributes = Some(n);
            } else if self.eat_word("special_summon_procedure") {
                let p = self.ssp(d)?;
                sb.special_summon_procedure = Some(p);
            } else if self.eat_word("fusion") {
                self.expect_word("materials")?;
                self.expect_sym(":")?;
                let mut items: Vec<MaterialItem> = Vec::new();
                loop
                    invariant
                        advanced(*old(self), *self),
                        depth > 0,
                        d == depth - 1,
                        old(self).pos < self.pos,
                        iter_start < self.pos,
                    decreases self.toks@.len() - self.pos,
                {
                    if self.at_kind(TokKind::Str) {
                        let n = self.string()?;
                        items.push(MaterialItem::Named(n));
                    } else {
                        let s = self.selector(d)?;
                        items.push(MaterialItem::Generic(s));
                    }
                    if !self.eat_sym("+") {
                        break;
                    }
                }
                sb.fusion_materials = Some(MaterialList { items });
            } else if self.eat_word("synchro") {
                self.expect_word("materials")?;
                self.expect_sym("{")?;
                let mut tuner: Option<Selector> = None;
                let mut non_tuner: Option<Selector> = None;
                loop
                    invariant
                        advanced(*old(self), *self),
                        depth > 0,
                        d == depth - 1,
                        old(self).pos < self.pos,
                        iter_start < self.pos,
                    decreases self.toks@.len() - self.pos,
                {
                    if self.eat_sym("}") {
                        break;
                    }
                    if self.eat_word("tuner") {
                        self.expect_sym(":")?;
                        let s = self.selector(d)?;
                        tuner = Some(s);
                    } else {
                        self.expect_word("non_tuner")?;
                        self.expect_sym(":")?;
                        let s = self.selector(d)?;
                        non_tuner = Some(s);
                    }
                }
                match (tuner, non_tuner) {
                    (Some(tuner), Some(non_tuner)) => {
                        sb.synchro_materials = Some(SynchroMaterials { tuner, non_tuner });
                    },
                    (None, _) => {
                        return Err(V2ParseError::MissingField("synchro tuner"));
                    },
                    (_, None) => {
                        return Err(V2ParseError::MissingField("synchro non_tuner"));
                    },
                }
            } else if self.eat_word("xyz") {
                self.expect_word("materials")?;
                self.expect_sym(":")?;
                let s = self.selector(d)?;
                sb.xyz_materials = Some(s);
            } else if self.eat_word("link") {
                self.expect_word("materials")?;
                self.expect_sym(":")?;
                let s = self.selector(d)?;
                sb.link_materials = Some(s);
            } else if self.eat_word("ritual") {
                self.expect_word("materials")?;
                self.expect_sym(":")?;
                let materials = self.selector(d)?;
                let mut level_constraint: Option<LevelConstraint> = None;
                if self.eat_word("where") {
                    let kind = if self.eat_word("total_level") {
                        LevelConstraintKind::TotalLevel
                    } else {
                        self.expect_word("exact_level")?;
                        LevelConstraintKind::ExactLevel
                    };
                    let (op, value) = self.comparison(d)?;
                    level_constraint = Some(LevelConstraint { kind, op, value });
                }
                sb.ritual_materials = Some(RitualMaterials { materials, level_constraint });
            } else if self.eat_word("pendulum") {
                self.expect_word("from")?;
                self.expect_sym(":")?;
                let zs = self.zone_list()?;
                sb.pendulum_from = zs;
            } else {
                return Err(self.fail("a summon item"));
            }
        }
    }

    /// A frequency line: `once_per_turn[: soft|hard]`, `twice_per_turn`,
    /// `once_per_duel`.
    fn frequency(&mut self) -> (r: Option<Frequency>)
        requires
            old(self).wf(),
        ensures
            advanced(*old(self), *final(self)),
            r is Some ==> moved(*old(self), *final(self)),
            r is None ==> final(self).pos == old(self).pos,
            match frequency_at(*old(self)) {
                Some((f, k)) => r == Some(f) && final(self).pos == old(self).pos + k,
                None => r is None,
            },
    {
        if self.eat_word("once_per_turn") {
            if self.at_sym(":") && self.at(1, TokKind::Ident, "soft") {
                self.pos = self.pos + 2;
                return Some(Frequency::OncePerTurn(OptKind::Soft));
            }
            if self.at_sym(":") && self.at(1, TokKind::Ident, "hard") {
                self.pos = self.pos + 2;
            }
            Some(Frequency::OncePerTurn(OptKind::Hard))
        } else if self.eat_word("twice_per_turn") {
            Some(Frequency::TwicePerTurn)
        } else if self.eat_word("once_per_duel") {
            Some(Frequency::OncePerDuel)
        } else {
            None
        }
    }

    /// `effect "name" { item* }`.
    fn effect_block(&mut self, depth: u32) -> (r: Result<Effect, V2ParseError>)
        requires
            old(self).wf(),
        ensures
            err_located(r),
            advanced(*old(self), *final(self)),
            r is Ok ==> moved(*old(self), *final(self)),
        decreases depth,
    {
        if depth == 0 {
            return Err(self.too_deep());
        }
        let d = depth - 1;
        self.expect_word("effect")?;
        let name = self.string()?;
        self.expect_sym("{")?;
        let mut e = Effect {
            name,
            speed: None,
            frequency: None,
            mandatory: false,
            simultaneous: false,
            timing: None,
            trigger: None,
            who: None,
            condition: None,
            activate_from: Vec::new(),
            damage_step: None,
            target: None,
            cost: Vec::new(),
            resolve: Vec::new(),
            choose: None,
        };
        loop
            invariant
                advanced(*old(self), *self),
                depth > 0,
                d == depth - 1,
                old(self).pos < self.pos,
            decreases self.toks@.len() - self.pos,
        {
            if self.eat_sym("}") {
                return Ok(e);
            }
            if let Some(f) = self.frequency() {
                e.frequency = Some(f);
            } else if self.eat_word("speed") {
                self.expect_sym(":")?;
                let v = self.number(255, "speed")?;
                e.speed = Some(v as u8);
            } else if self.eat_word("mandatory") {
                e.mandatory = true;
            } else if self.eat_word("simultaneous") {
                e.simultaneous = true;
            } else if self.eat_word("timing") {
                self.expect_sym(":")?;
                if self.eat_word("when") {
                    e.timing = Some(Timing::When);
                } else {
                    self.expect_word("if")?;
                    e.timing = Some(Timing::If);
                }
            } else if self.eat_word("trigger") {
                self.expect_sym(":")?;
                let t = self.trigger()?;
                e.trigger = Some(t);
            } else if self.eat_word("who") {
                self.expect_sym(":")?;
                let w = self.kw_player_who()?;
                e.who = Some(w);
            } else if self.eat_word("condition") {
                self.expect_sym(":")?;
                let c = self.condition(d)?;
                e.condition = Some(c);
            } else if self.eat_word("activate_from") {
                self.expect_sym(":")?;
                let zs = self.zone_list()?;
                e.activate_from = zs;
            } else if self.eat_word("damage_step") {
                self.expect_sym(":")?;
                if self.eat_word("true") {
                    e.damage_step = Some(true);
                } else {
                    self.expect_word("false")?;
                    e.damage_step = Some(false);
                }
            } else if self.at_word("target") {
                let t = self.target_decl(d)?;
                e.target = Some(t);
            } else if self.eat_word("cost") {
                let c = self.cost_block(d)?;
                e.cost = c;
            } else if self.eat_word("resolve") {
                let a = self.action_block(d)?;
                e.resolve = a;
            } else if self.at_word("choose") {
                let c = self.choose_block(d)?;
                e.choose = Some(c);
            } else {
                return Err(self.fail("an effect item"));
            }
        }
    }

    /// `passive "name" { item* }`.
    fn passive_block(&mut self, depth: u32) -> (r: Result<Passive, V2ParseError>)
        requires
            old(self).wf(),
        ensures
            err_located(r),
            advanced(*old(self), *final(self)),
            r is Ok ==> moved(*old(self), *final(self)),
        decreases depth,
    {
        if depth == 0 {
            return Err(self.too_deep());
        }
        let d = depth - 1;
        self.expect_word("passive")?;
        let name = self.string()?;
        self.expect_sym("{")?;
        let mut p = Passive {
            name,
            scope: None,
            target: None,
            condition: None,
            modifiers: Vec::new(),
            grants: Vec::new(),
            negate_effects: false,
            set_atk: None,
            set_def: None,
        };
        loop
            invariant
                advanced(*old(self), *self),
                depth > 0,
                d == depth - 1,
                old(self).pos < self.pos,
            decreases self.toks@.len() - self.pos,
        {
            if self.eat_sym("}") {
                return Ok(p);
            }
            if self.eat_word("scope") {
                self.expect_sym(":")?;
                if self.eat_word("field") {
                    p.scope = Some(Scope::Field);
                } else {
                    self.expect_word("self")?;
                    p.scope = Some(Scope::Self_);
                }
            } else if self.eat_word("target") {
                self.expect_sym(":")?;
                let s = self.selector(d)?;
                p.target = Some(s);
            } else if self.eat_word("condition") {
                self.expect_sym(":")?;
                let c = self.condition(d)?;
                p.condition = Some(c);
            } else if self.eat_word("modifier") {
                self.expect_sym(":")?;
                let stat = self.kw_stat_name()?;
                let positive = if self.eat_sym("+") {
                    true
                } else {
                    self.expect_sym("-")?;
                    false
                };
                let value = self.expr(d)?;
                p.modifiers.push(Modifier { stat, positive, value });
            } else if self.eat_word("grant") {
                self.expect_sym(":")?;
                let g = self.kw_grant_ability()?;
                p.grants.push(g);
            } else if self.eat_word("negate_effects") {
                p.negate_effects = true;
            } else if self.eat_word("set_atk") {
                self.expect_sym(":")?;
                let e = self.expr(d)?;
                p.set_atk = Some(e);
            } else if self.eat_word("set_def") {
                self.expect_sym(":")?;
                let e = self.expr(d)?;
                p.set_def = Some(e);
            } else {
                return Err(self.fail("a passive item"));
            }
        }
    }

    /// `replacement ["name"] { instead_of: event, [condition: ...], do { ... } }`.
    fn replacement_block(&mut self, depth: u32) -> (r: Result<Replacement, V2ParseError>)
        requires
            old(self).wf(),
        ensures
            err_located(r),
            advanced(*old(self), *final(self)),
            r is Ok ==> moved(*old(self), *final(self)),
        decreases depth,
    {
        if depth == 0 {
            return Err(self.too_deep());
        }
        let d = depth - 1;
        self.expect_word("replacement")?;
        let name = if self.at_kind(TokKind::Str) {
            let n = self.string()?;
            Some(n)
        } else {
            None
        };
        self.expect_sym("{")?;
        let mut instead_of: Option<ReplaceableEvent> = None;
        let mut actions: Vec<Action> = Vec::new();
        let mut condition: Option<Condition> = None;
        loop
            invariant
                advanced(*old(self), *self),
                depth > 0,
                d == depth - 1,
                old(self).pos < self.pos,
            decreases self.toks@.len() - self.pos,
        {
            if self.eat_sym("}") {
                break;
            }
            if self.eat_word("instead_of") {
                self.expect_sym(":")?;
                let ev = self.kw_replaceable_event()?;
                instead_of = Some(ev);
            } else if self.eat_word("condition") {
                self.expect_sym(":")?;
                let c = self.condition(d)?;
                condition = Some(c);
            } else if self.eat_word("do") {
                actions = self.action_block(d)?;
            } else {
                return Err(self.fail("a replacement item"));
            }
        }
        match instead_of {
            Some(instead_of) => Ok(Replacement { name, instead_of, actions, condition }),
            None => Err(V2ParseError::MissingField("instead_of")),
        }
    }

    /// `redirect ["name"] { scope: ..., from: zone, to: zone, [when: selector] }`.
    fn redirect_block(&mut self, depth: u32) -> (r: Result<Redirect, V2ParseError>)
        requires
            old(self).wf(),
        ensures
            err_located(r),
            advanced(*old(self), *final(self)),
            r is Ok ==> moved(*old(self), *final(self)),
        decreases depth,
    {
        if depth == 0 {
            return Err(self.too_deep());
        }
        self.expect_word("redirect")?;
        let name = if self.at_kind(TokKind::Str) {
            let n = self.string()?;
            Some(n)
        } else {
            None
        };
        self.expect_sym("{")?;
        let mut scope: Option<RedirectScope> = None;
        let mut from: Option<Zone> = None;
        let mut to: Option<Zone> = None;
        let mut filter: Option<Selector> = None;
        loop
            invariant
                advanced(*old(self), *self),
                depth > 0,
                old(self).pos < self.pos,
            decreases self.toks@.len() - self.pos,
        {
            if self.eat_sym("}") {
                break;
            }
            if self.eat_word("scope") {
                self.expect_sym(":")?;
                let sc = self.kw_redirect_scope()?;
                scope = Some(sc);
            } else if self.eat_word("from") {
                self.expect_sym(":")?;
                let z = self.kw_zone()?;
                from = Some(z);
            } else if self.eat_word("to") {
                self.expect_sym(":")?;
                let z = self.kw_zone()?;
                to = Some(z);
            } else if self.eat_word("when") {
                self.expect_sym(":")?;
                let s = self.selector(depth - 1)?;
                filter = Some(s);
            } else {
                return Err(self.fail("a redirect item"));
            }
        }
        match (scope, from, to) {
            (Some(scope), Some(from), Some(to)) => Ok(Redirect { name, scope, from, to, filter }),
            (None, _, _) => Err(V2ParseError::MissingField("redirect scope")),
            (_, None, _) => Err(V2ParseError::MissingField("redirect from")),
            (_, _, None) => Err(V2ParseError::MissingField("redirect to")),
        }
    }

    /// `card "name" { item* }`.
    fn card(&mut self, depth: u32) -> (r: Result<Card, V2ParseError>)
        requires
            old(self).wf(),
        ensures
            err_located(r),
            advanced(*old(self), *final(self)),
            r is Ok ==> moved(*old(self), *final(self)),
            r matches Ok(c) ==> card_named(old(self).toks@, old(self).pos as int, c.name@),
            depth > 0 && empty_card_at(*old(self)) ==> (r matches Ok(c) && bare_card(c)) && final(self).pos
                == old(self).pos + 4,
        decreases depth,
    {
        if depth == 0 {
            return Err(self.too_deep());
        }
        let d = depth - 1;
        self.expect_word("card")?;
        let name = self.string()?;
        self.expect_sym("{")?;
        let mut card = Card {
            name,
            fields: CardFields::default(),
            summon: None,
            effects: Vec::new(),
            passives: Vec::new(),
            restrictions: Vec::new(),
            replacements: Vec::new(),
            redirects: Vec::new(),
        };
        loop
            invariant
                advanced(*old(self), *self),
                depth > 0,
                d == depth - 1,
                old(self).pos < self.pos,
                card_named(old(self).toks@, old(self).pos as int, card.name@),
                empty_card_at(*old(self)) ==> self.pos == old(self).pos + 3 && bare_card(card),
            decreases self.toks@.len() - self.pos,
        {
            if self.eat_sym("}") {
                return Ok(card);
            }
            if self.at_word("summon") && self.at(1, TokKind::Sym, "{") {
                self.pos = self.pos + 1;
                let sb = self.summon_block(d)?;
                card.summon = Some(sb);
            } else if self.at_word("effect") {
                let e = self.effect_block(d)?;
                card.effects.push(e);
            } else if self.at_word("passive") {
                let p = self.passive_block(d)?;
                card.passives.push(p);
            } else if self.at_word("restriction") {
                let r = self.restriction(d)?;
                card.restrictions.push(r);
            } else if self.at_word("replacement") {
                let r = self.replacement_block(d)?;
                card.replacements.push(r);
            } else if self.at_word("redirect") {
                let r = self.redirect_block(d)?;
                card.redirects.push(r);
            } else {
                self.field_decl(&mut card.fields)?;
            }
        }
    }
}

/// Parse a DuelScript v2 source text into its cards.
///
/// Whitespace and `//` comments separate tokens; a text that holds no card
/// gives a file with no cards.
pub fn parse_v2(source: &str) -> (r: Result<File, V2ParseError>)
    ensures
        err_located(r),
        blank_text(source@) ==> (r matches Ok(f) && f.cards@.len() == 0),
        r matches Ok(f) ==> forall|k: int| 0 <= k < f.cards@.len() ==> quoted_in(source@, #[trigger] f.cards@[k].name@),
        lex(source@) is Err ==> r is Err,
        (lex(source@) matches Ok(ts) && ts.len() == 0) ==> (r matches Ok(f) && f.cards@.len() == 0),
        (lex(source@) matches Ok(ts) && ts.len() > 0 && !opens_card(source@, ts)) ==> r is Err,
        r matches Ok(f) ==> (lex(source@) matches Ok(ts) && (f.cards@.len() == 0 <==> ts.len() == 0) && (ts.len() > 0
            ==> f.cards@[0].name@ == first_card_name(source@, ts))),
        (lex(source@) matches Ok(ts) && bare_card_source(source@, ts)) ==> (r matches Ok(f) && f.cards@.len() == 1
            && bare_card(f.cards@[0])),
{
    let toks = match tokenize(source) {
        Ok(t) => t,
        Err(e) => {
            let src = chars_of(source);
            let (line, col) = line_col_of(&src, e.offset);
            proof {
                reveal_strlit("\n  = unterminated string");
                reveal_strlit("\n  = unexpected character");
            }
            let m = if e.unterminated {
                position_message(line, col, "\n  = unterminated string")
            } else {
                position_message(line, col, "\n  = unexpected character")
            };
            return Err(V2ParseError::SyntaxError(m));
        },
    };
    let n = toks.len();
    let ghost ts = toks@;
    let ghost lts = lex(source@)->Ok_0;
    let mut p = V2Parser { toks, src: chars_of(source), pos: 0 };
    let mut cards: Vec<Card> = Vec::new();
    while p.pos < p.toks.len()
        invariant
            p.wf(),
            p.toks@.len() == n,
            blank_text(source@) ==> n == 0 && cards@.len() == 0,
            p.toks@ == ts,
            tokens_of(source@, ts),
            lex(source@) == Ok::<Seq<(TokKind, int, int)>, LexError>(lts),
            same_tokens(ts, lts),
            (p.pos == 0) == (cards@.len() == 0),
            cards@.len() > 0 ==> opens_card(source@, lts) && cards@[0].name@ == first_card_name(source@, lts),
            bare_card_source(source@, lts) ==> (p.pos == 0 && cards@.len() == 0) || (p.pos == 4 && cards@.len() == 1
                && bare_card(cards@[0])),
            forall|k: int| 0 <= k < cards@.len() ==> quoted_in(source@, #[trigger] cards@[k].name@),
        decreases p.toks@.len() - p.pos,
    {
        let ghost at = p.pos as int;
        proof {
            if bare_card_source(source@, lts) && at == 0 {
                assert(ts[0].kind == lts[0].0 && ts[0].start == lts[0].1 && ts[0].end == lts[0].2);
                assert(ts[1].kind == lts[1].0);
                assert(ts[2].kind == lts[2].0 && ts[2].start == lts[2].1 && ts[2].end == lts[2].2);
                assert(ts[3].kind == lts[3].0 && ts[3].start == lts[3].1 && ts[3].end == lts[3].2);
                assert(ts[0].text@ == source@.subrange(ts[0].start as int, ts[0].end as int));
                assert(ts[2].text@ == source@.subrange(ts[2].start as int, ts[2].end as int));
                assert(ts[3].text@ == source@.subrange(ts[3].start as int, ts[3].end as int));
                assert(empty_card_at(p));
            }
        }
        let c = p.card(MAX_NESTING)?;
        proof {
            let t = ts[at + 1];
            assert(card_named(ts, at, c.name@));
            assert(t.kind == TokKind::Str);
            let a = t.start + 1;
            assert(t.text@ == source@.subrange(t.start + 1, t.end - 1));
            assert(source@.subrange(a, a + c.name@.len()) == c.name@);
            assert(quoted_in(source@, c.name@));
        }
        proof {
            if at == 0 {
                let t0 = ts[0];
                assert(t0.kind == lts[0].0 && t0.start == lts[0].1 && t0.end == lts[0].2);
                assert(ts[1].kind == lts[1].0 && ts[1].start == lts[1].1 && ts[1].end == lts[1].2);
                assert(t0.text@ == source@.subrange(t0.start as int, t0.end as int));
                assert(opens_card(source@, lts));
            }
            if bare_card_source(source@, lts) {
                assert(at == 0);
            }
        }
        let ghost before = cards@;
        cards.push(c);
        proof {
            assert forall|k: int| 0 <= k < cards@.len() implies quoted_in(source@, #[trigger] cards@[k].name@) by {
                if k < before.len() {
                    assert(cards@[k] == before[k]);
                }
            }
        }
    }
    Ok(File { cards })
}

} // verus!
