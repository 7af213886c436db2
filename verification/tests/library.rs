use duelscript::v2::ast::{
    BinOp, CardType, Category, CompareOp, Controller, DestroyBy, Expr, LpOwner, PhaseOwner, PlayerWho,
    ReplaceableEvent, SummonMethod, Trigger, Zone,
};
use duelscript::v2::fmt::format_file;
use duelscript::v2::interp::{compare_i32, eval_v2_expr, player_who_to_idx};
use duelscript::v2::keywords::{
    card_type_name, card_type_of, controller_name, controller_of, replaceable_event_name,
    replaceable_event_of, zone_name, zone_of,
};
use duelscript::v2::lsp::{
    compute_diagnostics, diagnostics_for, extract_line_col, hover_help, keywords, word_at_position,
    DiagnosticSeverity,
};
use duelscript::v2::mock_runtime::MockRuntime;
use duelscript::v2::runtime::DuelScriptRuntime;
use duelscript::v2::parser::{decimal_of, parse_v2, V2ParseError};
use duelscript::v2::segoc::{PendingTrigger, SegocQueue};
use duelscript::v2::text::{fmt_i64, str_contains};
use duelscript::validator::{Severity, ValidationError, ValidationReport};

const BURN_CARD: &str = r#"
card "Ookazi" {
    id: 19523799
    type: Normal Spell

    effect "Burn" {
        speed: 1
        resolve {
            damage opponent 800
        }
    }
}
"#;

const TWO_CARDS: &str = r#"
card "Pot of Greed" {
    id: 55144522
    type: Normal Spell
    effect "Draw 2" {
        speed: 1
        resolve {
            draw 2
        }
    }
}

card "Sangan" {
    id: 26202165
    type: Effect Monster
    attribute: DARK
    race: Fiend
    level: 3
    atk: 1000
    def: 600
    effect "Search" {
        speed: 1
        mandatory
        once_per_turn
        trigger: sent_to gy from field
        resolve {
            search (1, monster, from deck)
        }
    }
}
"#;

// ── Formatter ────────────────────────────────────────────────

#[test]
fn formatted_text_parses_back_to_the_same_cards() {
    for src in [BURN_CARD, TWO_CARDS] {
        let file = parse_v2(src).unwrap();
        let text = format_file(&file);
        let again = parse_v2(&text).unwrap();
        assert_eq!(again.cards.len(), file.cards.len());
        assert_eq!(format_file(&again), text, "formatting is not stable for:\n{}", text);
    }
}

#[test]
fn formatter_writes_the_card_header_and_fields() {
    let file = parse_v2(BURN_CARD).unwrap();
    let text = format_file(&file);
    assert!(text.starts_with("card \"Ookazi\" {\n"), "got:\n{}", text);
    assert!(text.contains("id: 19523799"), "got:\n{}", text);
    assert!(text.contains("type: Normal Spell"), "got:\n{}", text);
    assert!(text.contains("damage opponent 800"), "got:\n{}", text);
}

#[test]
fn formatter_of_no_cards_is_empty() {
    let file = parse_v2("").unwrap();
    assert_eq!(file.cards.len(), 0);
    assert_eq!(format_file(&file), "");
}

// ── Parser ───────────────────────────────────────────────────

#[test]
fn parser_reads_two_cards_in_order() {
    let file = parse_v2(TWO_CARDS).unwrap();
    assert_eq!(file.cards.len(), 2);
    assert_eq!(file.cards[0].name, "Pot of Greed");
    assert_eq!(file.cards[1].name, "Sangan");
    assert_eq!(file.cards[1].fields.level, Some(3));
}

#[test]
fn parser_reports_syntax_error_position() {
    let err = parse_v2("card \"X\" {\n    id: 1\n    bogus_item {\n}").unwrap_err();
    match &err {
        V2ParseError::SyntaxError(m) => assert!(m.contains(" --> "), "message: {}", m),
        V2ParseError::UnknownRule(_) => {}
        other => panic!("unexpected error {:?}", other),
    }
    assert!(!err.message().is_empty());
}

#[test]
fn parser_missing_instead_of_is_missing_field() {
    let src = r#"
card "Shield" {
    id: 5
    type: Continuous Trap
    replacement {
        do {
            draw 1
        }
    }
}
"#;
    let err = parse_v2(src).unwrap_err();
    assert!(matches!(err, V2ParseError::MissingField("instead_of")), "got {:?}", err);
    assert_eq!(err.message(), "Missing field: instead_of");
}

#[test]
fn parser_unknown_field_is_unknown_rule() {
    let err = parse_v2("card \"X\" { colour: 3 }").unwrap_err();
    match err {
        V2ParseError::UnknownRule(m) => assert_eq!(m, "colour"),
        other => panic!("unexpected error {:?}", other),
    }
}

#[test]
fn parser_error_messages_have_their_prefixes() {
    assert_eq!(V2ParseError::SyntaxError("x".to_string()).message(), "Parse error: x");
    assert_eq!(V2ParseError::InvalidValue("y".to_string()).message(), "Invalid value: y");
    assert_eq!(V2ParseError::UnknownRule("z".to_string()).message(), "Unknown rule: z");
}

#[test]
fn decimal_of_reads_digits_within_bound() {
    assert_eq!(decimal_of("55144522", u64::MAX), Some(55144522));
    assert_eq!(decimal_of("256", 255), None);
    assert_eq!(decimal_of("255", 255), Some(255));
    assert_eq!(decimal_of("", 10), None);
    assert_eq!(decimal_of("12a", 100), None);
}

#[test]
fn parser_counted_selector_keeps_controller() {
    let src = r#"
card "Raigeki" {
    id: 12580477
    type: Normal Spell
    effect "Destroy" {
        speed: 1
        resolve {
            destroy (all, monster, opponent controls)
        }
    }
}
"#;
    let file = parse_v2(src).unwrap();
    let text = format_file(&file);
    assert!(text.contains("destroy (all, monster, opponent controls)"), "got:\n{}", text);
}

// ── Keywords ─────────────────────────────────────────────────

#[test]
fn keyword_names_read_back() {
    assert_eq!(zone_name(&Zone::Gy), "gy");
    assert_eq!(zone_of("gy"), Some(Zone::Gy));
    assert_eq!(zone_of("graveyard_typo"), None);
    assert_eq!(card_type_name(&CardType::QuickPlaySpell), "Quick-Play Spell");
    assert_eq!(card_type_of("Quick-Play Spell"), Some(CardType::QuickPlaySpell));
    assert_eq!(controller_of(controller_name(&Controller::Opponent)), Some(Controller::Opponent));
    assert_eq!(
        replaceable_event_of(replaceable_event_name(&ReplaceableEvent::SentToGy)),
        Some(ReplaceableEvent::SentToGy)
    );
}

// ── Interpreter ──────────────────────────────────────────────

#[test]
fn expressions_evaluate_against_the_runtime() {
    let mut rt = MockRuntime::new();
    rt.effect_player = 0;
    assert_eq!(eval_v2_expr(&Expr::Literal(1200), &rt), 1200);
    assert_eq!(eval_v2_expr(&Expr::PlayerLp(LpOwner::Your), &rt), 8000);
    let sum = Expr::BinOp { left: Box::new(Expr::Literal(500)), op: BinOp::Add, right: Box::new(Expr::Literal(700)) };
    assert_eq!(eval_v2_expr(&sum, &rt), 1200);
    let div0 = Expr::BinOp { left: Box::new(Expr::Literal(5)), op: BinOp::Div, right: Box::new(Expr::Literal(0)) };
    assert_eq!(eval_v2_expr(&div0, &rt), 0);
}

#[test]
fn comparisons_follow_their_operator() {
    assert!(compare_i32(5, &CompareOp::Gte, 5));
    assert!(!compare_i32(4, &CompareOp::Gte, 5));
    assert!(compare_i32(4, &CompareOp::Lt, 5));
    assert!(compare_i32(5, &CompareOp::Eq, 5));
    assert!(compare_i32(6, &CompareOp::Neq, 5));
}

#[test]
fn player_words_map_to_indices() {
    assert_eq!(player_who_to_idx(&PlayerWho::You, 0), 0);
    assert_eq!(player_who_to_idx(&PlayerWho::Opponent, 0), 1);
    assert_eq!(player_who_to_idx(&PlayerWho::Opponent, 1), 0);
}

// ── SEGOC ────────────────────────────────────────────────────

#[test]
fn segoc_chain_is_a_reordering_of_the_queue() {
    let mut q = SegocQueue::new(1);
    q.push(PendingTrigger::new(1, 0, false, "a", 1102));
    q.push(PendingTrigger::new(2, 1, true, "b", 1102));
    q.push(PendingTrigger::new(3, 0, true, "c", 1102));
    q.push(PendingTrigger::new(4, 1, false, "d", 1102));
    assert_eq!(q.len(), 4);
    let chain = q.build_chain();
    let ids: Vec<u32> = chain.iter().map(|t| t.card_id).collect();
    assert_eq!(ids, vec![2, 4, 3, 1]);
}

// ── Editor support ───────────────────────────────────────────

#[test]
fn line_and_column_are_read_from_the_message() {
    assert_eq!(extract_line_col("Parse error:  --> 3:5\n  = expected x"), (3, 5));
    assert_eq!(extract_line_col("no position here"), (1, 1));
}

#[test]
fn parse_error_becomes_one_error_diagnostic() {
    let parsed = parse_v2("card \"X\" {\n  id: 1\n  ??? \n}");
    assert!(parsed.is_err());
    let diags = diagnostics_for(&parsed);
    assert_eq!(diags.len(), 1);
    assert_eq!(diags[0].severity, DiagnosticSeverity::Error);
    assert_eq!(diags[0].source, "duelscript");
    assert!(diags[0].message.starts_with("Parse error:  --> 3:3\n"), "got {}", diags[0].message);
    assert_eq!((diags[0].start_line, diags[0].start_character), (2, 2));
    assert_eq!((diags[0].end_line, diags[0].end_character), (2, 3));
}

#[test]
fn validation_findings_become_diagnostics() {
    let diags = compute_diagnostics("card \"Nothing\" { }");
    assert!(!diags.is_empty());
    assert!(diags.iter().any(|d| d.message.contains("at least one type")));
    assert!(diags.iter().all(|d| d.start_line == 0 && d.end_character == 1));
}

#[test]
fn hover_and_completion_tables() {
    let h = hover_help("card").unwrap();
    assert!(h.starts_with("**card**"));
    assert_eq!(hover_help("nonsense"), None);
    let ks = keywords();
    assert_eq!(ks.len(), 49);
    assert!(ks.iter().any(|(k, _)| *k == "resolve"));
}

#[test]
fn word_under_the_cursor() {
    let text = "card \"X\" {\n    speed: 1\n}";
    assert_eq!(word_at_position(text, 1, 6), "speed");
    assert_eq!(word_at_position(text, 0, 2), "card");
    assert_eq!(word_at_position(text, 9, 0), "");
}

// ── Text helpers ─────────────────────────────────────────────

#[test]
fn text_helpers() {
    assert_eq!(fmt_i64(-42), "-42");
    assert_eq!(fmt_i64(0), "0");
    assert!(str_contains("hello world", "o w"));
    assert!(!str_contains("hello", "world"));
}

// ── First-generation report ──────────────────────────────────

#[test]
fn report_splits_findings_by_severity_in_order() {
    let mk = |n: &str, m: &str, s: Severity| ValidationError {
        card_name: n.to_string(),
        message: m.to_string(),
        severity: s,
    };
    let report = ValidationReport::from(vec![
        mk("A", "one", Severity::Warning),
        mk("B", "two", Severity::Error),
        mk("C", "three", Severity::Error),
    ]);
    assert_eq!(report.errors.len(), 2);
    assert_eq!(report.errors[0].card_name, "B");
    assert_eq!(report.errors[1].card_name, "C");
    assert_eq!(report.warnings.len(), 1);
    assert!(!report.is_clean());
    assert_eq!(report.errors[0].to_text(), "[ERROR] B: two");
    assert_eq!(report.warnings[0].to_text(), "[WARN ] A: one");
    assert_eq!(
        report.lines(),
        vec!["[ERROR] B: two", "[ERROR] C: three", "[WARN ] A: one", "\n2 error(s), 1 warning(s)"]
    );
    let clean = ValidationReport::from(vec![mk("A", "w", Severity::Warning)]);
    assert!(clean.is_clean());
    assert_eq!(ValidationReport::from(vec![]).lines(), vec!["\u{2713} All cards valid."]);
}

// ── Mock runtime read-back ───────────────────────────────────

#[test]
fn mock_counters_and_bindings_read_back() {
    let mut rt = MockRuntime::fresh();
    rt.place_counter(7, "Spell Counter", 2);
    rt.place_counter(7, "Spell Counter", 1);
    assert_eq!(rt.get_counter_count(7, "Spell Counter"), 3);
    rt.remove_counter(7, "Spell Counter", 5);
    assert_eq!(rt.get_counter_count(7, "Spell Counter"), 0);
    assert_eq!(rt.get_counter_count(8, "Spell Counter"), 0);
    rt.set_binding("chosen", 42);
    assert_eq!(rt.get_binding_card("chosen"), Some(42));
    assert_eq!(rt.get_binding_card("other"), None);
    let picked = rt.select_cards(0, &[5, 6, 7], 2, 2);
    assert_eq!(picked, vec![5, 6]);
    rt.bind_last_selection("pair");
    assert_eq!(rt.get_binding_card("pair"), Some(5));
    assert_eq!(rt.get_binding_card("chosen"), Some(42));
}

#[test]
fn mock_draw_takes_from_the_top_of_the_deck() {
    let mut rt = MockRuntime::fresh();
    rt.state.players[0].deck = vec![1, 2, 3];
    assert_eq!(rt.draw(0, 5), 3);
    assert_eq!(rt.state.players[0].hand, vec![3, 2, 1]);
    assert!(rt.state.players[0].deck.is_empty());
    assert_eq!(rt.draw(0, 1), 0);
    rt.recover(1, 500);
    assert_eq!(rt.get_lp(1), 8500);
}

#[test]
fn blank_text_parses_to_no_cards() {
    let file = parse_v2("  \n\t \r\n").unwrap();
    assert_eq!(file.cards.len(), 0);
}

#[test]
fn mock_destroy_and_discard_move_cards_to_the_graveyard() {
    let mut rt = MockRuntime::fresh();
    rt.state.players[0].field_monsters = vec![10, 11];
    rt.state.players[1].field_spells = vec![20];
    rt.state.players[1].hand = vec![30, 31, 30];
    assert_eq!(rt.destroy(&[11, 20, 99]), 2);
    assert_eq!(rt.state.players[0].field_monsters, vec![10]);
    assert_eq!(rt.state.players[0].graveyard, vec![11]);
    assert_eq!(rt.state.players[1].graveyard, vec![20]);
    assert!(rt.state.players[1].field_spells.is_empty());
    assert_eq!(rt.discard(&[30, 40]), 1);
    assert_eq!(rt.state.players[1].hand, vec![31, 30]);
    assert_eq!(rt.state.players[1].graveyard, vec![20, 30]);
    assert_eq!(rt.call_count("destroy"), 1);
    assert_eq!(rt.call_count("discard"), 1);
}

fn trigger_of(words: &str) -> Trigger {
    let src = format!(
        "card \"T\" {{ id: 1 type: Effect Monster effect \"E\" {{ speed: 1 trigger: {} resolve {{ draw 1 }} }} }}",
        words
    );
    let file = parse_v2(&src).unwrap_or_else(|e| panic!("{}: {}", words, e.message()));
    file.cards[0].effects[0].trigger.clone().unwrap()
}

#[test]
fn triggers_read_as_written() {
    assert!(matches!(trigger_of("summoned"), Trigger::Summoned(None)));
    assert!(matches!(trigger_of("summoned by fusion"), Trigger::Summoned(Some(SummonMethod::Fusion))));
    assert!(matches!(trigger_of("destroyed by battle"), Trigger::Destroyed(Some(DestroyBy::Battle))));
    assert!(matches!(trigger_of("sent_to gy from field"), Trigger::SentTo(Zone::Gy, Some(Zone::Field))));
    assert!(matches!(trigger_of("sent_to gy"), Trigger::SentTo(Zone::Gy, None)));
    assert!(matches!(trigger_of("battle_damage to either"), Trigger::BattleDamage(Some(PlayerWho::Both))));
    assert!(matches!(trigger_of("standby_phase of opponents"), Trigger::StandbyPhase(Some(PhaseOwner::Opponents))));
    match trigger_of("opponent_activates [negate, destroy]") {
        Trigger::OpponentActivates(v) => assert_eq!(v, vec![Category::Negate, Category::Destroy]),
        other => panic!("got {:?}", other),
    }
    match trigger_of("custom \"my_event\"") {
        Trigger::Custom(n) => assert_eq!(n, "my_event"),
        other => panic!("got {:?}", other),
    }
    assert!(matches!(trigger_of("end_phase"), Trigger::EndPhase));
    assert!(parse_v2("card \"T\" { effect \"E\" { trigger: destroyed by nothing } }").is_err());
}

#[test]
fn right_nested_subtraction_keeps_its_grouping_through_format_and_parse() {
    let src = "card \"Grouping\" {\n    type: Normal Spell\n    effect \"E\" {\n        speed: 1\n        resolve {\n            draw 5 - (3 - 1)\n        }\n    }\n}\n";
    let f = parse_v2(src).unwrap();
    let out = format_file(&f);
    assert!(out.contains("5 - (3 - 1)"));
    let again = parse_v2(&out).unwrap();
    assert_eq!(format_file(&again), out);
}

#[test]
fn empty_card_parses_to_a_bare_card() {
    let f = parse_v2("card \"Blank\" { }").unwrap();
    assert_eq!(f.cards.len(), 1);
    assert_eq!(f.cards[0].name, "Blank");
    assert!(f.cards[0].effects.is_empty());
}
