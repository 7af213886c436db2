// Editor support logic: diagnostics for a source text, the word under the
// cursor, hover help and the completion keywords. The language-server
// transport lives outside the library and turns these into protocol values.

use vstd::prelude::*;
use super::parser::{
    all_digits, decimal_of, decimal_value, err_located, law_decimal_digits_read_back, parse_v2, position_prefix,
    V2ParseError,
};
use super::ast::File;
use super::validator::{validate_v2, Severity};
use super::text::{blank_text, chars_of, digits, str_eq, string_from, string_of};

verus! {

/// How serious an editor diagnostic is.
#[derive(Debug, Clone, Copy, PartialEq, Eq, Structural)]
pub enum DiagnosticSeverity {
    Error,
    Warning,
}

/// An editor diagnostic: a range of zero-based lines and characters, a
/// severity, a message and the name of the tool that found it.
#[derive(Debug, Clone)]
pub struct Diagnostic {
    pub start_line: u32,
    pub start_character: u32,
    pub end_line: u32,
    pub end_character: u32,
    pub severity: DiagnosticSeverity,
    pub message: String,
    pub source: String,
}

/// The words the hover help explains, each with its text.
pub open spec fn spec_hover_help(w: Seq<char>) -> Option<Seq<char>> {
    if w == "card"@ {
        Some("**card** — Top-level card declaration.\n\n```\ncard \"Name\" {\n    id: 12345\n    type: Normal Spell\n}\n```"@)
    } else if w == "effect"@ {
        Some("**effect** — Activated or trigger effect.\n\nProperties: speed, trigger, condition, cost, resolve, mandatory, once_per_turn"@)
    } else if w == "passive"@ {
        Some("**passive** — Continuous effect (always on while face-up)."@)
    } else if w == "restriction"@ {
        Some("**restriction** — Grant or deny abilities."@)
    } else if w == "replacement"@ {
        Some("**replacement** — Replace events with alternate outcomes."@)
    } else if w == "summon"@ {
        Some("**summon** — Summon block: tributes, materials, special summon procedures."@)
    } else if w == "speed"@ {
        Some("**speed** — Spell speed.\n\n- `1` — Ignition/Trigger (Normal Spells)\n- `2` — Quick (Traps, Quick-Play)\n- `3` — Counter Traps only"@)
    } else if w == "mandatory"@ {
        Some("**mandatory** — This effect must activate when triggered."@)
    } else if w == "once_per_turn"@ {
        Some("**once_per_turn: hard | soft**\n\n- `hard` — tied to card name, can't retry if negated\n- `soft` — can retry if negated"@)
    } else if w == "trigger"@ {
        Some("**trigger** — What activates this effect.\n\nExamples: `summoned`, `destroyed_by_battle`, `end_phase`, `opponent_activates [negate]`, `you_activates [discard]`, `any_activates [equip]`"@)
    } else if w == "condition"@ {
        Some("**condition** — Must be true to activate.\n\nExamples: `lp >= 1000`, `cards_in_gy >= 5`, `on_field`"@)
    } else if w == "cost"@ {
        Some("**cost** — Paid on activation.\n\nExamples: `pay_lp 1000`, `discard (1, card)`, `tribute self`"@)
    } else if w == "resolve"@ {
        Some("**resolve** — Actions performed when effect resolves."@)
    } else if w == "draw"@ {
        Some("**draw N** — Draw N cards from deck."@)
    } else if w == "destroy"@ {
        Some("**destroy (selector)** — Destroy matching cards."@)
    } else if w == "banish"@ {
        Some("**banish (selector)** — Banish (remove from play)."@)
    } else if w == "special_summon"@ {
        Some("**special_summon (selector)** — Special Summon from hand/gy/deck/banished."@)
    } else if w == "negate"@ {
        Some("**negate** or **negate and destroy** — Negate activation and optionally destroy."@)
    } else if w == "damage"@ {
        Some("**damage player amount** — Inflict damage.\n\nExample: `damage opponent 1000`"@)
    } else if w == "ritual_summon"@ {
        Some("**ritual_summon (selector) using (materials) where total_level >= N**"@)
    } else if w == "fusion_summon"@ {
        Some("**fusion_summon (selector) using (materials)**"@)
    } else {
        None
    }
}

/// Hover help for a word of the language, if there is any.
pub fn hover_help(word: &str) -> (r: Option<String>)
    ensures
        r is Some <==> spec_hover_help(word@) is Some,
        r matches Some(s) ==> spec_hover_help(word@) == Some(s@),
{
    if str_eq(word, "card") {
        Some(string_from("**card** — Top-level card declaration.\n\n```\ncard \"Name\" {\n    id: 12345\n    type: Normal Spell\n}\n```"))
    } else if str_eq(word, "effect") {
        Some(string_from("**effect** — Activated or trigger effect.\n\nProperties: speed, trigger, condition, cost, resolve, mandatory, once_per_turn"))
    } else if str_eq(word, "passive") {
        Some(string_from("**passive** — Continuous effect (always on while face-up)."))
    } else if str_eq(word, "restriction") {
        Some(string_from("**restriction** — Grant or deny abilities."))
    } else if str_eq(word, "replacement") {
        Some(string_from("**replacement** — Replace events with alternate outcomes."))
    } else if str_eq(word, "summon") {
        Some(string_from("**summon** — Summon block: tributes, materials, special summon procedures."))
    } else if str_eq(word, "speed") {
        Some(string_from("**speed** — Spell speed.\n\n- `1` — Ignition/Trigger (Normal Spells)\n- `2` — Quick (Traps, Quick-Play)\n- `3` — Counter Traps only"))
    } else if str_eq(word, "mandatory") {
        Some(string_from("**mandatory** — This effect must activate when triggered."))
    } else if str_eq(word, "once_per_turn") {
        Some(string_from("**once_per_turn: hard | soft**\n\n- `hard` — tied to card name, can't retry if negated\n- `soft` — can retry if negated"))
    } else if str_eq(word, "trigger") {
        Some(string_from("**trigger** — What activates this effect.\n\nExamples: `summoned`, `destroyed_by_battle`, `end_phase`, `opponent_activates [negate]`, `you_activates [discard]`, `any_activates [equip]`"))
    } else if str_eq(word, "condition") {
        Some(string_from("**condition** — Must be true to activate.\n\nExamples: `lp >= 1000`, `cards_in_gy >= 5`, `on_field`"))
    } else if str_eq(word, "cost") {
        Some(string_from("**cost** — Paid on activation.\n\nExamples: `pay_lp 1000`, `discard (1, card)`, `tribute self`"))
    } else if str_eq(word, "resolve") {
        Some(string_from("**resolve** — Actions performed when effect resolves."))
    } else if str_eq(word, "draw") {
        Some(string_from("**draw N** — Draw N cards from deck."))
    } else if str_eq(word, "destroy") {
        Some(string_from("**destroy (selector)** — Destroy matching cards."))
    } else if str_eq(word, "banish") {
        Some(string_from("**banish (selector)** — Banish (remove from play)."))
    } else if str_eq(word, "special_summon") {
        Some(string_from("**special_summon (selector)** — Special Summon from hand/gy/deck/banished."))
    } else if str_eq(word, "negate") {
        Some(string_from("**negate** or **negate and destroy** — Negate activation and optionally destroy."))
    } else if str_eq(word, "damage") {
        Some(string_from("**damage player amount** — Inflict damage.\n\nExample: `damage opponent 1000`"))
    } else if str_eq(word, "ritual_summon") {
        Some(string_from("**ritual_summon (selector) using (materials) where total_level >= N**"))
    } else if str_eq(word, "fusion_summon") {
        Some(string_from("**fusion_summon (selector) using (materials)**"))
    } else {
        None
    }
}

/// The completion keywords, each with a short description.
pub open spec fn keyword_table() -> Seq<(&'static str, &'static str)> {
    seq![
        ("card", "card declaration"),
        ("effect", "effect block"),
        ("passive", "continuous effect"),
        ("restriction", "restriction block"),
        ("replacement", "replacement block"),
        ("summon", "summon block"),
        ("id", "card passcode"),
        ("type", "card type"),
        ("attribute", "monster attribute"),
        ("race", "monster race"),
        ("level", "monster level"),
        ("rank", "xyz rank"),
        ("link", "link rating"),
        ("scale", "pendulum scale"),
        ("atk", "attack"),
        ("def", "defense"),
        ("speed", "spell speed"),
        ("mandatory", "mandatory trigger"),
        ("once_per_turn", "frequency"),
        ("trigger", "activation trigger"),
        ("condition", "activation condition"),
        ("cost", "cost block"),
        ("resolve", "resolve block"),
        ("target", "target declaration"),
        ("draw", "draw cards"),
        ("destroy", "destroy cards"),
        ("banish", "banish cards"),
        ("send", "send to zone"),
        ("return", "return to zone"),
        ("search", "search deck"),
        ("add_to_hand", "add to hand"),
        ("special_summon", "special summon"),
        ("normal_summon", "normal summon"),
        ("negate", "negate activation"),
        ("damage", "deal damage"),
        ("gain_lp", "gain LP"),
        ("pay_lp", "pay LP"),
        ("modify_atk", "modify ATK"),
        ("modify_def", "modify DEF"),
        ("discard", "discard"),
        ("mill", "mill from deck"),
        ("ritual_summon", "ritual summon"),
        ("fusion_summon", "fusion summon"),
        ("synchro_summon", "synchro summon"),
        ("xyz_summon", "xyz summon"),
        ("swap_control", "swap control"),
        ("swap_stats", "swap ATK/DEF"),
        ("grant", "grant ability"),
        ("change_level", "change level")
    ]
}

/// The completion keywords, each with a short description.
pub fn keywords() -> (r: Vec<(&'static str, &'static str)>)
    ensures
        r@ == keyword_table(),
{
    let v = vec![
        ("card", "card declaration"),
        ("effect", "effect block"),
        ("passive", "continuous effect"),
        ("restriction", "restriction block"),
        ("replacement", "replacement block"),
        ("summon", "summon block"),
        ("id", "card passcode"),
        ("type", "card type"),
        ("attribute", "monster attribute"),
        ("race", "monster race"),
        ("level", "monster level"),
        ("rank", "xyz rank"),
        ("link", "link rating"),
        ("scale", "pendulum scale"),
        ("atk", "attack"),
        ("def", "defense"),
        ("speed", "spell speed"),
        ("mandatory", "mandatory trigger"),
        ("once_per_turn", "frequency"),
        ("trigger", "activation trigger"),
        ("condition", "activation condition"),
        ("cost", "cost block"),
        ("resolve", "resolve block"),
        ("target", "target declaration"),
        ("draw", "draw cards"),
        ("destroy", "destroy cards"),
        ("banish", "banish cards"),
        ("send", "send to zone"),
        ("return", "return to zone"),
        ("search", "search deck"),
        ("add_to_hand", "add to hand"),
        ("special_summon", "special summon"),
        ("normal_summon", "normal summon"),
        ("negate", "negate activation"),
        ("damage", "deal damage"),
        ("gain_lp", "gain LP"),
        ("pay_lp", "pay LP"),
        ("modify_atk", "modify ATK"),
        ("modify_def", "modify DEF"),
        ("discard", "discard"),
        ("mill", "mill from deck"),
        ("ritual_summon", "ritual summon"),
        ("fusion_summon", "fusion summon"),
        ("synchro_summon", "synchro summon"),
        ("xyz_summon", "xyz summon"),
        ("swap_control", "swap control"),
        ("swap_stats", "swap ATK/DEF"),
        ("grant", "grant ability"),
        ("change_level", "change level")
    ];
    proof {
        assert(v@ =~= keyword_table());
    }
    v
}

// ── Diagnostics ──────────────────────────────────────────────

pub open spec fn is_blank(c: char) -> bool {
    c == ' ' || c == '\t' || c == '\n' || c == '\r'
}

/// Whether ` --> ` starts at index `i` of `s`.
pub open spec fn marker_at(s: Seq<char>, i: int) -> bool {
    &&& 0 <= i && i + 5 <= s.len()
    &&& s[i] == ' ' && s[i + 1] == '-' && s[i + 2] == '-' && s[i + 3] == '>' && s[i + 4] == ' '
}

/// The first index at or after `from` where ` --> ` starts.
pub open spec fn marker_from(s: Seq<char>, from: int) -> Option<int>
    decreases s.len() - from,
{
    if from < 0 || from + 5 > s.len() {
        None
    } else if marker_at(s, from) {
        Some(from)
    } else {
        marker_from(s, from + 1)
    }
}

/// The first index at or after `from` holding `c`, or the length.
pub open spec fn first_of(s: Seq<char>, c: char, from: int) -> int
    decreases s.len() - from,
{
    if from < 0 || from >= s.len() {
        s.len() as int
    } else if s[from] == c {
        from
    } else {
        first_of(s, c, from + 1)
    }
}

/// Past the blanks that start `s[from..to]`.
pub open spec fn skip_blanks(s: Seq<char>, from: int, to: int) -> int
    decreases to - from,
{
    if from < to && is_blank(s[from]) {
        skip_blanks(s, from + 1, to)
    } else {
        from
    }
}

/// Before the blanks that end `s[from..to]`.
pub open spec fn trim_end(s: Seq<char>, from: int, to: int) -> int
    decreases to - from,
{
    if to > from && is_blank(s[to - 1]) {
        trim_end(s, from, to - 1)
    } else {
        to
    }
}

/// Past the non-blank characters that start `s[from..to]`.
pub open spec fn skip_word(s: Seq<char>, from: int, to: int) -> int
    decreases to - from,
{
    if from < to && !is_blank(s[from]) {
        skip_word(s, from + 1, to)
    } else {
        from
    }
}

/// The decimal number that `d` spells, or 1 when it spells none that fits.
pub open spec fn number_or_one_of(d: Seq<char>) -> nat {
    if all_digits(d) && decimal_value(d) <= usize::MAX {
        decimal_value(d)
    } else {
        1
    }
}

/// The position a message gives after ` --> `: the trimmed text before the
/// next `:` is the line, the first blank-separated word after it the
/// column; each is 1 where it is not a number, and both are 1 when the
/// message has no ` --> ` or no `:` after it.
pub open spec fn spec_line_col(s: Seq<char>) -> (nat, nat) {
    match marker_from(s, 0) {
        None => (1, 1),
        Some(m) => {
            let rest = m + 5;
            let c = first_of(s, ':', rest);
            if c >= s.len() {
                (1, 1)
            } else {
                let a = skip_blanks(s, rest, c);
                let b = trim_end(s, a, c);
                let x = skip_blanks(s, c + 1, s.len() as int);
                let y = skip_word(s, x, s.len() as int);
                (
                    number_or_one_of(s.subrange(a, b)),
                    if x == y { 1 } else { number_or_one_of(s.subrange(x, y)) },
                )
            }
        },
    }
}

/// The decimal number in `cs[from..to]`, or 1 when it holds anything else.
fn number_or_one(cs: &Vec<char>, from: usize, to: usize) -> (r: usize)
    requires
        from <= to <= cs@.len(),
    ensures
        r == number_or_one_of(cs@.subrange(from as int, to as int)),
{
    let s = string_of(cs, from, to);
    match decimal_of(s.as_str(), usize::MAX as u64) {
        Some(v) => v as usize,
        None => 1,
    }
}

fn blank(c: char) -> (r: bool)
    ensures
        r == is_blank(c),
{
    c == ' ' || c == '\t' || c == '\n' || c == '\r'
}

proof fn lemma_marker_skip(s: Seq<char>, from: int, to: int)
    requires
        0 <= from <= to,
        to + 5 <= s.len(),
        forall|i: int| from <= i < to ==> !marker_at(s, i),
    ensures
        marker_from(s, from) == marker_from(s, to),
    decreases to - from,
{
    if from < to {
        lemma_marker_skip(s, from + 1, to);
    }
}

proof fn lemma_first_of_run(s: Seq<char>, c: char, from: int, k: int)
    requires
        0 <= from <= k < s.len(),
        s[k] == c,
        forall|i: int| from <= i < k ==> s[i] != c,
    ensures
        first_of(s, c, from) == k,
    decreases k - from,
{
    if from < k {
        lemma_first_of_run(s, c, from + 1, k);
    }
}

proof fn lemma_skip_word_run(s: Seq<char>, from: int, k: int, to: int)
    requires
        from <= k < to,
        to <= s.len(),
        is_blank(s[k]),
        forall|i: int| from <= i < k ==> !is_blank(s[i]),
    ensures
        skip_word(s, from, to) == k,
    decreases k - from,
{
    if from < k {
        lemma_skip_word_run(s, from + 1, k, to);
    }
}

/// A syntax error's position reaches the editor: for a parse error whose
/// message begins ` --> line:col` and a line break, the line and column
/// read back from the displayed message `Parse error: ...` are that line
/// and column (the ones `diagnostics_for` places the diagnostic at).
pub proof fn law_error_position_read_back(m: Seq<char>, line: nat, col: nat)
    requires
        line <= usize::MAX,
        col <= usize::MAX,
        position_prefix(line, col).len() <= m.len(),
        m.subrange(0, position_prefix(line, col).len() as int) == position_prefix(line, col),
    ensures
        spec_line_col("Parse error: "@ + m) == (line, col),
{
    let head = "Parse error: "@;
    let s = head + m;
    let d1 = digits(line, 10);
    let d2 = digits(col, 10);
    let p = position_prefix(line, col);
    let n1 = d1.len() as int;
    let n2 = d2.len() as int;
    assert(n1 >= 1 && n2 >= 1);
    reveal_strlit("Parse error: ");
    reveal_strlit(" --> ");
    reveal_strlit(":");
    reveal_strlit("\n");
    law_decimal_digits_read_back(line);
    law_decimal_digits_read_back(col);
    assert(head.len() == 13);
    assert(p.len() == 5 + n1 + 1 + n2 + 1);
    assert forall|j: int| 0 <= j < p.len() implies s[13 + j] == #[trigger] p[j] by {
        assert(s[13 + j] == m[j]);
        assert(m.subrange(0, p.len() as int)[j] == m[j]);
    }
    assert forall|i: int| 18 <= i < 18 + n1 implies #[trigger] s[i] == d1[i - 18] by {
        assert(p[5 + (i - 18)] == d1[i - 18]);
        assert(s[13 + (5 + (i - 18))] == p[5 + (i - 18)]);
    }
    let c: int = 18 + n1;
    assert(s[c] == ':') by {
        assert(p[5 + n1] == ':');
        assert(s[13 + (5 + n1)] == p[5 + n1]);
    }
    assert forall|i: int| c + 1 <= i < c + 1 + n2 implies #[trigger] s[i] == d2[i - c - 1] by {
        assert(p[6 + n1 + (i - c - 1)] == d2[i - c - 1]);
        assert(s[13 + (6 + n1 + (i - c - 1))] == p[6 + n1 + (i - c - 1)]);
    }
    let e: int = c + 1 + n2;
    assert(s[e] == '\n') by {
        assert(p[6 + n1 + n2] == '\n');
        assert(s[13 + (6 + n1 + n2)] == p[6 + n1 + n2]);
    }
    // ` --> ` first starts at 13.
    assert(s[14] == '-' && s[15] == '-' && s[16] == '>' && s[17] == ' ' && s[13] == ' ') by {
        assert(s[13] == p[0] && s[14] == p[1] && s[15] == p[2] && s[16] == p[3] && s[17] == p[4]);
    }
    assert forall|i: int| 0 <= i < 13 implies !marker_at(s, i) by {
        assert(s[i + 1] != '-');
    }
    lemma_marker_skip(s, 0, 13);
    assert(marker_at(s, 13));
    assert(marker_from(s, 0) == Some(13int));
    // The line runs up to the colon.
    assert forall|i: int| 18 <= i < c implies s[i] != ':' by {
        assert(s[i] == d1[i - 18]);
    }
    lemma_first_of_run(s, ':', 18, c);
    assert(s[18] == d1[0]);
    assert(skip_blanks(s, 18, c) == 18);
    assert(s[c - 1] == d1[n1 - 1]);
    assert(trim_end(s, 18, c) == c);
    assert forall|j: int| 0 <= j < n1 implies #[trigger] s.subrange(18, c)[j] == d1[j] by {
        assert(s[18 + j] == d1[j]);
    }
    assert(s.subrange(18, c) =~= d1);
    // The column is the word after the colon.
    assert(s[c + 1] == d2[0]);
    assert(skip_blanks(s, c + 1, s.len() as int) == c + 1);
    assert forall|i: int| c + 1 <= i < e implies !is_blank(s[i]) by {
        assert(s[i] == d2[i - c - 1]);
    }
    lemma_skip_word_run(s, c + 1, e, s.len() as int);
    assert forall|j: int| 0 <= j < n2 implies #[trigger] s.subrange(c + 1, e)[j] == d2[j] by {
        assert(s[c + 1 + j] == d2[j]);
    }
    assert(s.subrange(c + 1, e) =~= d2);
}

/// The line and column a syntax error message gives after ` --> `
/// (`line:col`), or (1, 1) when it gives none.
pub fn extract_line_col(msg: &str) -> (r: (usize, usize))
    ensures
        r.0 == spec_line_col(msg@).0,
        r.1 == spec_line_col(msg@).1,
{
    let cs = chars_of(msg);
    let n = cs.len();
    let ghost s = cs@;
    let mut k: usize = 0;
    while n - k >= 5 && !(cs[k] == ' ' && cs[k + 1] == '-' && cs[k + 2] == '-' && cs[k + 3] == '>'
        && cs[k + 4] == ' ')
        invariant
            n == s.len(),
            s == cs@,
            s == msg@,
            k <= n,
            marker_from(s, 0) == marker_from(s, k as int),
        decreases n - k,
    {
        k += 1;
    }
    if n - k < 5 {
        return (1, 1);
    }
    let rest = k + 5;
    assert(marker_from(s, 0) == Some(k as int));
    let mut c = rest;
    while c < n && cs[c] != ':'
        invariant
            rest <= c <= n,
            n == s.len(),
            s == cs@,
            first_of(s, ':', rest as int) == first_of(s, ':', c as int),
        decreases n - c,
    {
        c += 1;
    }
    if c >= n {
        return (1, 1);
    }
    let mut a = rest;
    while a < c && blank(cs[a])
        invariant
            rest <= a <= c,
            c < n,
            n == s.len(),
            s == cs@,
            skip_blanks(s, rest as int, c as int) == skip_blanks(s, a as int, c as int),
        decreases c - a,
    {
        a += 1;
    }
    let mut b = c;
    while b > a && blank(cs[b - 1])
        invariant
            a <= b <= c,
            c < n,
            n == s.len(),
            s == cs@,
            trim_end(s, a as int, c as int) == trim_end(s, a as int, b as int),
        decreases b - a,
    {
        b -= 1;
    }
    let line = number_or_one(&cs, a, b);
    let mut x = c + 1;
    while x < n && blank(cs[x])
        invariant
            c + 1 <= x <= n,
            n == s.len(),
            s == cs@,
            skip_blanks(s, c + 1, n as int) == skip_blanks(s, x as int, n as int),
        decreases n - x,
    {
        x += 1;
    }
    let mut y = x;
    while y < n && !blank(cs[y])
        invariant
            x <= y <= n,
            n == s.len(),
            s == cs@,
            skip_word(s, x as int, n as int) == skip_word(s, y as int, n as int),
        decreases n - y,
    {
        y += 1;
    }
    let col = if x == y { 1 } else { number_or_one(&cs, x, y) };
    (line, col)
}

/// A diagnostic at the start of the text for a validation finding.
pub open spec fn finding_diagnostic_ok(d: Diagnostic, f: super::validator::Diag) -> bool {
    &&& d.start_line == 0 && d.start_character == 0 && d.end_line == 0 && d.end_character == 1
    &&& d.severity == (if f.1 == Severity::Error { DiagnosticSeverity::Error } else { DiagnosticSeverity::Warning })
    &&& d.message@ == f.2
    &&& d.source@ == "duelscript"@
}

/// A validation finding keeps its severity on the way to the editor: a
/// warning is shown as a warning and an error as an error.
pub proof fn law_finding_severity_kept(d: Diagnostic, f: super::validator::Diag)
    requires
        finding_diagnostic_ok(d, f),
    ensures
        f.1 == Severity::Warning ==> d.severity == DiagnosticSeverity::Warning,
        f.1 == Severity::Error ==> d.severity == DiagnosticSeverity::Error,
{
}

/// A validation finding is shown over the first character of the text,
/// with the finding's own message, from the source "duelscript".
pub proof fn law_finding_shown_at_start(d: Diagnostic, f: super::validator::Diag)
    requires
        finding_diagnostic_ok(d, f),
    ensures
        d.start_line == 0,
        d.start_character == 0,
        d.end_line == 0,
        d.end_character == 1,
        d.message@ == f.2,
        d.source@ == "duelscript"@,
{
}

/// A parse error is shown as an error with the error's message, on the
/// line its message names (counted from 0 in the protocol, from 1 in the
/// message), from the character before the named column to that column
/// (positions that fit the protocol's 32-bit numbers).
pub proof fn law_parse_error_shown(d: Diagnostic, e: V2ParseError)
    requires
        error_diagnostic_ok(d, e),
    ensures
        d.severity == DiagnosticSeverity::Error,
        d.message@ == super::parser::spec_error_message(e),
        ({
            let (line, col) = spec_line_col(super::parser::spec_error_message(e));
            &&& 0 < line <= 0xffff_ffff ==> d.start_line == line - 1 && d.end_line == line - 1
            &&& line == 0 ==> d.start_line == 0 && d.end_line == 0
            &&& 0 < col <= 0xffff_ffff ==> d.start_character == col - 1 && d.end_character == col
        }),
{
}

/// The zero-based coordinate for a one-based one (0 stays 0), as the
/// protocol's 32-bit number.
pub open spec fn zero_based(k: nat) -> u32 {
    (if k > 0 { k - 1 } else { 0 }) as u32
}

/// The diagnostic of a parse error: an error whose message is the error's
/// message and whose range runs on the line the message gives, from the
/// character before its column to the column.
pub open spec fn error_diagnostic_ok(d: Diagnostic, e: V2ParseError) -> bool {
    let m = super::parser::spec_error_message(e);
    let (line, col) = spec_line_col(m);
    &&& d.severity == DiagnosticSeverity::Error
    &&& d.message@ == m
    &&& d.source@ == "duelscript"@
    &&& d.start_line == zero_based(line) && d.end_line == zero_based(line)
    &&& d.start_character == zero_based(col) && d.end_character == col as u32
}

/// The diagnostics for a parse outcome: the one of the parse error, or one
/// per validation finding, in order.
pub open spec fn diagnostics_of(parsed: Result<File, V2ParseError>, r: Seq<Diagnostic>) -> bool {
    match parsed {
        Err(e) => r.len() == 1 && error_diagnostic_ok(r[0], e),
        Ok(f) => r.len() == super::validator::file_diags(f).len() && forall|i: int|
            0 <= i < r.len() ==> finding_diagnostic_ok(r[i], #[trigger] super::validator::file_diags(f)[i]),
    }
}

/// The diagnostics for the result of parsing a text: the parse error, or
/// one diagnostic per validation finding, in order.
pub fn diagnostics_for(parsed: &Result<File, V2ParseError>) -> (r: Vec<Diagnostic>)
    ensures
        diagnostics_of(*parsed, r@),
        *parsed matches Ok(f) ==> forall|i: int| 0 <= i < r@.len() ==> {
            &&& (#[trigger] super::validator::file_diags(f)[i]).1 == Severity::Warning
                ==> r@[i].severity == DiagnosticSeverity::Warning
            &&& super::validator::file_diags(f)[i].1 == Severity::Error ==> r@[i].severity == DiagnosticSeverity::Error
        },
{
    let mut out: Vec<Diagnostic> = Vec::new();
    match parsed {
        Err(e) => {
            let msg = e.message();
            let (line, col) = extract_line_col(msg.as_str());
            let l: usize = if line > 0 { line - 1 } else { 0 };
            let c: usize = if col > 0 { col - 1 } else { 0 };
            out.push(Diagnostic {
                start_line: l as u32,
                start_character: c as u32,
                end_line: l as u32,
                end_character: col as u32,
                severity: DiagnosticSeverity::Error,
                message: msg,
                source: string_from("duelscript"),
            });
        },
        Ok(file) => {
            let report = validate_v2(file);
            let ghost ds = super::validator::file_diags(*file);
            let mut i: usize = 0;
            while i < report.errors.len()
                invariant
                    i <= report.errors@.len(),
                    super::validator::views(report.errors@) == ds,
                    out@.len() == i,
                    forall|j: int| 0 <= j < i ==> finding_diagnostic_ok(out@[j], #[trigger] ds[j]),
                    forall|j: int| 0 <= j < i ==> {
                        &&& (#[trigger] ds[j]).1 == Severity::Warning ==> out@[j].severity == DiagnosticSeverity::Warning
                        &&& ds[j].1 == Severity::Error ==> out@[j].severity == DiagnosticSeverity::Error
                    },
                decreases report.errors.len() - i,
            {
                let f = &report.errors[i];
                proof {
                    assert(ds[i as int] == f@);
                }
                let sev = match f.severity {
                    Severity::Error => DiagnosticSeverity::Error,
                    Severity::Warning => DiagnosticSeverity::Warning,
                };
                out.push(Diagnostic {
                    start_line: 0,
                    start_character: 0,
                    end_line: 0,
                    end_character: 1,
                    severity: sev,
                    message: f.message.clone(),
                    source: string_from("duelscript"),
                });
                i += 1;
            }
        },
    }
    out
}

/// The diagnostics of a source text: its parse error, or what the
/// validator finds in it.
pub fn compute_diagnostics(source: &str) -> (r: Vec<Diagnostic>)
    ensures
        exists|parsed: Result<File, V2ParseError>|
            {
                &&& err_located(parsed)
                &&& (blank_text(source@) ==> (parsed matches Ok(f) && f.cards@.len() == 0))
                &&& diagnostics_of(parsed, r@)
                &&& (parsed matches Ok(f) ==> forall|i: int| 0 <= i < r@.len() ==> {
                    &&& (#[trigger] super::validator::file_diags(f)[i]).1 == Severity::Warning
                        ==> r@[i].severity == DiagnosticSeverity::Warning
                    &&& super::validator::file_diags(f)[i].1 == Severity::Error
                        ==> r@[i].severity == DiagnosticSeverity::Error
                })
            },
        blank_text(source@) ==> r@.len() == 0,
{
    let parsed = parse_v2(source);
    let r = diagnostics_for(&parsed);
    proof {
        assert(err_located(parsed) && diagnostics_of(parsed, r@));
        if blank_text(source@) {
            assert(super::validator::file_diags(parsed->Ok_0).len() == 0);
        }
    }
    r
}

// ── The word under the cursor ────────────────────────────────

pub open spec fn is_word_char(c: char) -> bool {
    ('a' <= c && c <= 'z') || ('A' <= c && c <= 'Z') || ('0' <= c && c <= '9') || c == '_'
}

fn word_char(c: char) -> (r: bool)
    ensures
        r == is_word_char(c),
{
    ('a' <= c && c <= 'z') || ('A' <= c && c <= 'Z') || ('0' <= c && c <= '9') || c == '_'
}

/// Where line `k` (from 0) of `s` starts, when `s` has that many lines.
pub open spec fn line_start(s: Seq<char>, k: nat) -> Option<int>
    decreases k,
{
    if k == 0 {
        Some(0)
    } else {
        match line_start(s, (k - 1) as nat) {
            Some(st) => if first_of(s, '\n', st) < s.len() {
                Some(first_of(s, '\n', st) + 1)
            } else {
                None
            },
            None => None,
        }
    }
}

/// Where the line starting at `st` ends, before its `\n` and a `\r` just
/// before that.
pub open spec fn line_end(s: Seq<char>, st: int) -> int {
    let e = first_of(s, '\n', st);
    if e > st && s[e - 1] == '\r' {
        e - 1
    } else {
        e
    }
}

/// Back from `p` over the word characters of `s[lo..p]`.
pub open spec fn word_start(s: Seq<char>, lo: int, p: int) -> int
    decreases p - lo,
{
    if p > lo && is_word_char(s[p - 1]) {
        word_start(s, lo, p - 1)
    } else {
        p
    }
}

/// On from `p` over the word characters of `s[p..hi]`.
pub open spec fn word_end(s: Seq<char>, p: int, hi: int) -> int
    decreases hi - p,
{
    if p < hi && is_word_char(s[p]) {
        word_end(s, p + 1, hi)
    } else {
        p
    }
}

/// The word around column `col` of line `line` of `s`: the word characters
/// just before the column and from it on; empty when the line does not
/// exist or is not longer than the column.
pub open spec fn spec_word_at(s: Seq<char>, line: nat, col: nat) -> Seq<char> {
    match line_start(s, line) {
        None => Seq::empty(),
        Some(st) => {
            let end = line_end(s, st);
            if col >= end - st {
                Seq::empty()
            } else {
                let p = st + col;
                s.subrange(word_start(s, st, p), word_end(s, p, end))
            }
        },
    }
}

proof fn lemma_no_line_after(s: Seq<char>, k: nat, m: nat)
    requires
        k <= m,
        line_start(s, k) is None,
    ensures
        line_start(s, m) is None,
    decreases m - k,
{
    if k < m {
        lemma_no_line_after(s, k, (m - 1) as nat);
    }
}

/// The word (letters, digits, `_`) at or just before character `character`
/// of line `line` of `text` (both from 0); empty when the line does not
/// exist or is shorter.
pub fn word_at_position(text: &str, line: u32, character: u32) -> (r: String)
    ensures
        r@ == spec_word_at(text@, line as nat, character as nat),
{
    let cs = chars_of(text);
    let n = cs.len();
    let ghost s = cs@;
    let mut start: usize = 0;
    let mut k: u32 = 0;
    while k < line
        invariant
            start <= n,
            n == s.len(),
            s == cs@,
            s == text@,
            k <= line,
            line_start(s, k as nat) == Some(start as int),
        decreases line - k,
    {
        let mut j = start;
        while j < n && cs[j] != '\n'
            invariant
                start <= j <= n,
                n == s.len(),
                s == cs@,
                first_of(s, '\n', start as int) == first_of(s, '\n', j as int),
            decreases n - j,
        {
            j += 1;
        }
        if j >= n {
            proof {
                assert(line_start(s, (k + 1) as nat) is None);
                lemma_no_line_after(s, (k + 1) as nat, line as nat);
            }
            return String::new();
        }
        start = j + 1;
        k += 1;
    }
    if start >= n {
        proof {
            assert(first_of(s, '\n', start as int) == n);
        }
        return String::new();
    }
    let mut end = start;
    while end < n && cs[end] != '\n'
        invariant
            start <= end <= n,
            n == s.len(),
            s == cs@,
            first_of(s, '\n', start as int) == first_of(s, '\n', end as int),
        decreases n - end,
    {
        end += 1;
    }
    if end > start && cs[end - 1] == '\r' {
        end -= 1;
    }
    assert(end as int == line_end(s, start as int));
    let len = end - start;
    let col = character as usize;
    if col >= len {
        return String::new();
    }
    let p = start + col;
    let mut a = p;
    while a > start && word_char(cs[a - 1])
        invariant
            start <= a <= p,
            p < end <= n,
            n == s.len(),
            s == cs@,
            word_start(s, start as int, p as int) == word_start(s, start as int, a as int),
        decreases a - start,
    {
        a -= 1;
    }
    let mut b = p;
    while b < end && word_char(cs[b])
        invariant
            p <= b <= end,
            end <= n,
            n == s.len(),
            s == cs@,
            word_end(s, p as int, end as int) == word_end(s, b as int, end as int),
        decreases end - b,
    {
        b += 1;
    }
    string_of(&cs, a, b)
}
} // verus!
