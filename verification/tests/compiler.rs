use duelscript::v2::ast::{
    BattlePosition, Condition, ConditionAtom, PlayerWho, Trigger,
    Action, Attribute, Card, CardFields, CardFilter, CardFilterKind, CardType, CompareOp, Controller,
    Duration, Expr, FieldTarget, GrantAbility, PositionFilter, Predicate, PredicateAtom, Quantity,
    Race, ReplaceableEvent, Replacement, Restriction, Selector, SpecialSummonProcedure, StatField,
    StatVal, SummonBlock, SynchroMaterials, Zone, ZoneFilter,
};
use duelscript::v2::compiler::{compile_card_v2, compile_replacement, trigger_to_event_code};
use duelscript::v2::interp::{execute_v2_action, resolve_v2_selector};
use duelscript::v2::mock_runtime::{CardSnapshot, MockRuntime};
use duelscript::v2::parser::parse_v2;
use duelscript::v2::runtime::DuelScriptRuntime;

fn run_exotic_atom_test(
    atom: PredicateAtom,
    match_type_bits: u64,
) -> Vec<u32> {
    let sel = Selector::Counted {
        quantity: Quantity::All,
        filter: CardFilter { name: None, kind: CardFilterKind::Monster },
        controller: Some(Controller::Opponent),
        zone: None,
        position: None,
        where_clause: Some(Predicate::Single(atom)),
    };
    let mut rt = MockRuntime::new();
    rt.effect_player = 0;
    rt.effect_card_id = 0;
    // Match candidate — type_bits carries the atom's bit.
    rt.state.add_card(
        CardSnapshot::monster(1001, "MatchMon", 1000, 1000, 4)
            .with_type(match_type_bits),
    );
    // Non-match candidate — default Effect monster (0x1 | 0x20).
    rt.state.add_card(CardSnapshot::monster(1002, "NonMatchMon", 1000, 1000, 4));
    rt.state.players[1].field_monsters.extend([1001, 1002]);
    resolve_v2_selector(&sel, &mut rt, 0)
}


#[test]
fn test_change_level_executes() {
    let CARD_ID: u32 = 99001;
    let src = r#"
card "Level Changer" {
    id: 99001
    type: Effect Monster
    attribute: DARK
    race: Spellcaster
    level: 6
    atk: 2000
    def: 1500

    effect "Level Down" {
    speed: 1
    resolve {
        change_level self to 4
    }
}
}
"#;
    let file = parse_v2(src).unwrap();
    let compiled = compile_card_v2(&file.cards[0]);
    let effect = compiled.effects.iter().find(|e| e.label == "Level Down").unwrap();

    let mut rt = MockRuntime::new();
    rt.effect_player = 0;
    rt.effect_card_id = CARD_ID;
    // register the card so SelfCard selector can find its id
    rt.state.add_card(CardSnapshot::monster(CARD_ID, "Level Changer", 2000, 1500, 6));
    rt.state.players[0].field_monsters.push(CARD_ID);

    effect.operation.as_ref().unwrap().run(&mut rt);
    assert!(rt.was_called_with("change_level", "level=4"),
        "expected change_level call; calls: {}", rt.dump_calls());
}

#[test]
fn test_ritual_summon_action_parses_and_executes() {
    let source = r#"
        card "Test Ritual" {
            id: 12345
            type: Ritual Spell

            effect "Summon" {
                speed: 1
                resolve {
                    ritual_summon (1, monster) using (1+, monster, you control) where total_level >= 8
                }
            }
        }
    "#;
    let file = parse_v2(source).unwrap();
    let compiled = compile_card_v2(&file.cards[0]);
    assert_eq!(compiled.effects.len(), 1);
    let mut rt = MockRuntime::new();
    rt.effect_card_id = 12345;
    rt.effect_player = 0;
    // Provide a monster on the field so the selector can resolve something
    rt.state.add_card(CardSnapshot::monster(12345, "Test Ritual", 0, 0, 8));
    rt.state.players[0].field_monsters.push(12345);
    if let Some(ref op) = compiled.effects[0].operation {
        op.run(&mut rt);
    }
    let log = rt.dump_calls();
    assert!(log.contains("ritual_summon"), "Expected ritual_summon, got: {}", log);
}

#[test]
fn test_multi_zone_selector() {
    let source = r#"
        card "Test Multi Zone" {
            id: 88888888
            type: Normal Spell
            effect "Search" {
                speed: 1
                resolve {
                    search (1, monster, from gy or banished)
                }
            }
        }
    "#;
    let file = parse_v2(source).unwrap();
    assert_eq!(file.cards.len(), 1);
    let compiled = compile_card_v2(&file.cards[0]);
    assert_eq!(compiled.effects.len(), 1);

    // Verify the AST has both zones in the From filter
    if let Action::Search(Selector::Counted { zone: Some(ZoneFilter::From(zones)), .. }, _) =
        &file.cards[0].effects[0].resolve[0]
    {
        assert_eq!(zones.len(), 2);
        assert!(zones.contains(&Zone::Gy));
        assert!(zones.contains(&Zone::Banished));
    } else {
        panic!("Expected Action::Search with Selector::Counted ZoneFilter::From([Gy, Banished])");
    }

    // Verify runtime execution: a monster in GY is found and added to hand
    let mut rt = MockRuntime::new();
    rt.effect_card_id = 88888888;
    rt.effect_player = 0;
    let monster_id: u32 = 99999999;
    rt.state.add_card(CardSnapshot::monster(monster_id, "Test Monster", 1800, 1000, 4));
    rt.state.players[0].graveyard.push(monster_id);
    if let Some(ref op) = compiled.effects[0].operation {
        op.run(&mut rt);
    }
    let log = rt.dump_calls();
    assert!(log.contains("send_to_hand"), "Expected send_to_hand, got: {}", log);
}

#[test]
fn test_counter_threshold_condition() {
    let source = r#"
        card "Counter Card" {
            id: 77777777
            type: Continuous Spell
            effect "Spell Economy" {
                speed: 1
                condition: has_counter "Spell Counter" >= 3 on self
                resolve {
                    draw 1
                }
            }
        }
    "#;
    let file = parse_v2(source).unwrap();
    assert_eq!(file.cards.len(), 1);
    let compiled = compile_card_v2(&file.cards[0]);
    assert_eq!(compiled.effects.len(), 1);

    // Default MockRuntime returns 0 counters, so condition should be false
    let mut rt = MockRuntime::new();
    rt.effect_card_id = 77777777;
    rt.effect_player = 0;
    if let Some(ref cond) = compiled.effects[0].condition {
        let result = cond.eval(&rt);
        assert!(!result, "Expected false with 0 counters vs threshold of 3");
    } else {
        panic!("Expected a condition callback");
    }

    // Now place 3 counters and verify it becomes true
    rt.place_counter(77777777, "Spell Counter", 3);
    if let Some(ref cond) = compiled.effects[0].condition {
        let result = cond.eval(&rt);
        assert!(result, "Expected true with 3 counters >= threshold of 3");
    }
}

#[test]
fn test_swap_actions() {
    let source = r#"
        card "Test Swap" {
            id: 66666666
            type: Normal Spell
            effect "Swap Everything" {
                speed: 1
                resolve {
                    swap_stats (all, monster, you control)
                    swap_control (1, monster, you control) and (1, monster, opponent controls)
                }
            }
        }
    "#;
    let file = parse_v2(source).unwrap();
    assert_eq!(file.cards.len(), 1);
    let compiled = compile_card_v2(&file.cards[0]);
    let mut rt = MockRuntime::new();
    rt.effect_card_id = 66666666;
    rt.effect_player = 0;
    // Add monsters to field so selectors resolve to something
    let mon_a: u32 = 11111111;
    let mon_b: u32 = 22222222;
    rt.state.add_card(CardSnapshot::monster(mon_a, "Monster A", 1800, 1000, 4));
    rt.state.add_card(CardSnapshot::monster(mon_b, "Monster B", 2000, 1500, 5));
    rt.state.players[0].field_monsters.push(mon_a);
    rt.state.players[1].field_monsters.push(mon_b);
    if let Some(ref op) = compiled.effects[0].operation {
        op.run(&mut rt);
    }
    let log = rt.dump_calls();
    assert!(log.contains("swap_stats") || log.contains("swap_control"),
        "Expected swap call in log: {}", log);
}

#[test]
fn test_return_to_owner() {
    let source = r#"
        card "Compulsory Device" {
            id: 94192409
            type: Normal Trap
            effect "Evacuate" {
                speed: 2
                resolve {
                    return (1, monster, opponent controls) to owner
                }
            }
        }
    "#;
    let file = parse_v2(source).unwrap();
    assert_eq!(file.cards.len(), 1);
    let compiled = compile_card_v2(&file.cards[0]);
    assert_eq!(compiled.effects.len(), 1);
    let mut rt = MockRuntime::new();
    rt.effect_card_id = 94192409;
    rt.effect_player = 0;
    // Add a monster to opponent's field so the selector resolves
    let opp_monster: u32 = 77777777;
    rt.state.add_card(CardSnapshot::monster(opp_monster, "Opp Monster", 1800, 0, 4));
    rt.state.players[1].field_monsters.push(opp_monster);
    if let Some(ref op) = compiled.effects[0].operation {
        op.run(&mut rt);
    }
    let log = rt.dump_calls();
    assert!(log.contains("return_to_owner"), "Expected return_to_owner, got: {}", log);
}

#[test]
fn test_passive_set_atk_emits_set_atk() {
    let src = r#"
card "ATK Setter" {
    id: 10001
    type: Effect Monster
    attribute: LIGHT
    race: Warrior
    level: 4
    atk: 0
    def: 0
    passive "Lock ATK" {
    scope: self
    set_atk: 1500
}
}
"#;
    let file = parse_v2(src).unwrap();
    let compiled = compile_card_v2(&file.cards[0]);
    let passive = compiled.effects.iter().find(|e| e.label == "Lock ATK").unwrap();
    assert!(passive.operation.is_some(), "set_atk passive should have operation; got None");
    let mut rt = MockRuntime::new();
    rt.effect_card_id = 10001;
    rt.effect_player = 0;
    rt.state.add_card(CardSnapshot::monster(10001, "ATK Setter", 0, 0, 4));
    passive.operation.as_ref().unwrap().run(&mut rt);
    assert!(rt.was_called_with("set_atk", "value=1500"),
        "expected set_atk value=1500; calls: {}", rt.dump_calls());
}

#[test]
fn test_passive_set_def_emits_set_def() {
    let src = r#"
card "DEF Setter" {
    id: 10002
    type: Effect Monster
    attribute: WATER
    race: Aqua
    level: 3
    atk: 0
    def: 0
    passive "Lock DEF" {
    scope: self
    set_def: 2000
}
}
"#;
    let file = parse_v2(src).unwrap();
    let compiled = compile_card_v2(&file.cards[0]);
    let passive = compiled.effects.iter().find(|e| e.label == "Lock DEF").unwrap();
    assert!(passive.operation.is_some(), "set_def passive should have operation; got None");
    let mut rt = MockRuntime::new();
    rt.effect_card_id = 10002;
    rt.effect_player = 0;
    rt.state.add_card(CardSnapshot::monster(10002, "DEF Setter", 0, 0, 3));
    passive.operation.as_ref().unwrap().run(&mut rt);
    assert!(rt.was_called_with("set_def", "value=2000"),
        "expected set_def value=2000; calls: {}", rt.dump_calls());
}

#[test]
fn test_passive_empty_body_yields_none_operation() {
    let src = r#"
card "Empty Passive" {
    id: 10003
    type: Effect Monster
    attribute: EARTH
    race: Rock
    level: 1
    atk: 0
    def: 0
    passive "Nothing" {
    scope: self
}
}
"#;
    let file = parse_v2(src).unwrap();
    let compiled = compile_card_v2(&file.cards[0]);
    let passive = compiled.effects.iter().find(|e| e.label == "Nothing").unwrap();
    assert!(passive.operation.is_none(),
        "passive with empty body should have operation=None");
}

#[test]
fn test_passive_condition_emits_condition_closure() {
    let src = r#"
card "Conditional Passive" {
    id: 10004
    type: Effect Monster
    attribute: FIRE
    race: Pyro
    level: 4
    atk: 1500
    def: 1000
    passive "LP Boost" {
    scope: self
    condition: lp >= 4000
    modifier: atk + 500
}
}
"#;
    let file = parse_v2(src).unwrap();
    let compiled = compile_card_v2(&file.cards[0]);
    let passive = compiled.effects.iter().find(|e| e.label == "LP Boost").unwrap();
    assert!(passive.condition.is_some(), "conditional passive should have condition closure");
    let mut rt = MockRuntime::new(); // 8000 LP by default
    rt.effect_player = 0;
    rt.effect_card_id = 10004;
    let result = passive.condition.as_ref().unwrap().eval(&rt);
    assert!(result, "condition should be true at 8000 LP >= 4000");
}

#[test]
fn test_restriction_with_abilities_emits_operation() {
    // Lava Golem's special summon procedure includes a restriction block
    // with cannot_normal_summon; verify that restriction compiled from inline source.
    let src = r#"
card "Restricted Card" {
    id: 20001
    type: Effect Monster
    attribute: DARK
    race: Fiend
    level: 4
    atk: 1600
    def: 1000
    restriction "No Attack" {
    cannot_attack
    duration: this_turn
}
}
"#;
    let file = parse_v2(src).unwrap();
    let compiled = compile_card_v2(&file.cards[0]);
    let restr = compiled.effects.iter().find(|e| e.label == "No Attack").unwrap();
    assert!(restr.operation.is_some(),
        "restriction with abilities should have operation; got None");
    let mut rt = MockRuntime::new();
    rt.effect_card_id = 20001;
    rt.effect_player = 0;
    restr.operation.as_ref().unwrap().run(&mut rt);
    // EFFECT_CANNOT_ATTACK = 16 = 0x10
    assert!(rt.was_called_with("register_grant", "grant=0x10"),
        "expected register_grant with cannot_attack code 0x10; calls: {}", rt.dump_calls());
}

#[test]
fn test_restriction_condition_emits_condition_closure() {
    let src = r#"
card "Conditional Restriction" {
    id: 20002
    type: Effect Monster
    attribute: WIND
    race: Winged Beast
    level: 3
    atk: 1200
    def: 800
    restriction "LP Guard" {
    condition: lp <= 2000
    cannot_attack
}
}
"#;
    let file = parse_v2(src).unwrap();
    let compiled = compile_card_v2(&file.cards[0]);
    let restr = compiled.effects.iter().find(|e| e.label == "LP Guard").unwrap();
    // The condition closure must be present — correct evaluation is a parser concern.
    assert!(restr.condition.is_some(), "restriction with condition should have condition closure");
    let mut rt = MockRuntime::new();
    rt.effect_player = 0;
    rt.effect_card_id = 20002;
    // Calling the closure must not panic.
    let _ = restr.condition.as_ref().unwrap().eval(&rt);
}

#[test]
fn test_restriction_no_abilities_yields_none_operation() {
    let src = r#"
card "Duration-only Restriction" {
    id: 20003
    type: Effect Monster
    attribute: LIGHT
    race: Fairy
    level: 2
    atk: 800
    def: 600
    restriction "Timing Only" {
    duration: this_turn
}
}
"#;
    let file = parse_v2(src).unwrap();
    let compiled = compile_card_v2(&file.cards[0]);
    let restr = compiled.effects.iter().find(|e| e.label == "Timing Only").unwrap();
    assert!(restr.operation.is_none(),
        "restriction with no ability entries should have operation=None");
}

#[test]
fn test_replacement_banish_emits_operation() {
    let src = r#"
card "Banish Replacement" {
    id: 30001
    type: Effect Monster
    attribute: DARK
    race: Fiend
    level: 4
    atk: 1600
    def: 1000
    replacement "Evade" {
    instead_of: destroyed
    do {
        banish self
    }
}
}
"#;
    let file = parse_v2(src).unwrap();
    let compiled = compile_card_v2(&file.cards[0]);
    let repl = compiled.effects.iter().find(|e| e.label == "Evade").unwrap();
    assert!(repl.operation.is_some(),
        "replacement with banish action should have operation; got None");
    let mut rt = MockRuntime::new();
    rt.effect_card_id = 30001;
    rt.effect_player = 0;
    rt.state.add_card(CardSnapshot::monster(30001, "Banish Replacement", 1600, 1000, 4));
    rt.state.players[0].field_monsters.push(30001);
    repl.operation.as_ref().unwrap().run(&mut rt);
    assert!(rt.was_called_with("banish", ""),
        "expected banish call; calls: {}", rt.dump_calls());
}

#[test]
fn test_replacement_destroy_emits_operation() {
    let src = r#"
card "Destroy Replacement" {
    id: 30002
    type: Effect Monster
    attribute: FIRE
    race: Pyro
    level: 3
    atk: 1200
    def: 800
    replacement "Self Destruct" {
    instead_of: sent_to_gy
    do {
        destroy self
    }
}
}
"#;
    let file = parse_v2(src).unwrap();
    let compiled = compile_card_v2(&file.cards[0]);
    let repl = compiled.effects.iter().find(|e| e.label == "Self Destruct").unwrap();
    assert!(repl.operation.is_some(),
        "replacement with destroy action should have operation; got None");
    let mut rt = MockRuntime::new();
    rt.effect_card_id = 30002;
    rt.effect_player = 0;
    rt.state.add_card(CardSnapshot::monster(30002, "Destroy Replacement", 1200, 800, 3));
    rt.state.players[0].field_monsters.push(30002);
    repl.operation.as_ref().unwrap().run(&mut rt);
    assert!(rt.was_called_with("destroy", ""),
        "expected destroy call; calls: {}", rt.dump_calls());
}

#[test]
fn test_replacement_send_to_gy_emits_operation() {
    let src = r#"
card "GY Replacement" {
    id: 30003
    type: Effect Monster
    attribute: WATER
    race: Aqua
    level: 2
    atk: 800
    def: 600
    replacement "Go to Grave" {
    instead_of: banished
    do {
        send self to gy
    }
}
}
"#;
    let file = parse_v2(src).unwrap();
    let compiled = compile_card_v2(&file.cards[0]);
    let repl = compiled.effects.iter().find(|e| e.label == "Go to Grave").unwrap();
    assert!(repl.operation.is_some(),
        "replacement with send_to_grave action should have operation; got None");
    let mut rt = MockRuntime::new();
    rt.effect_card_id = 30003;
    rt.effect_player = 0;
    rt.state.add_card(CardSnapshot::monster(30003, "GY Replacement", 800, 600, 2));
    rt.state.players[0].field_monsters.push(30003);
    repl.operation.as_ref().unwrap().run(&mut rt);
    assert!(rt.was_called_with("send_to_grave", ""),
        "expected send_to_grave call; calls: {}", rt.dump_calls());
}

#[test]
fn test_replacement_condition_emits_condition_closure() {
    let src = r#"
card "Conditional Replacement" {
    id: 30004
    type: Effect Monster
    attribute: LIGHT
    race: Fairy
    level: 4
    atk: 1500
    def: 1000
    replacement "LP Shield" {
    instead_of: destroyed
    condition: lp >= 4000
    do {
        banish self
    }
}
}
"#;
    let file = parse_v2(src).unwrap();
    let compiled = compile_card_v2(&file.cards[0]);
    let repl = compiled.effects.iter().find(|e| e.label == "LP Shield").unwrap();
    assert!(repl.condition.is_some(),
        "replacement with condition should have condition closure; got None");
    // Default MockRuntime starts at 8000 LP — condition lp >= 4000 is true.
    let mut rt = MockRuntime::new();
    rt.effect_player = 0;
    rt.effect_card_id = 30004;
    let result = repl.condition.as_ref().unwrap().eval(&rt);
    assert!(result, "condition lp >= 4000 should be true at 8000 LP");
}

#[test]
fn test_replacement_empty_actions_yields_none_operation() {
    // The grammar requires at least one action in `do { }`, so we construct
    // the AST directly rather than parsing source.
    let dummy_card_src = r#"
card "Empty Replacement Card" {
    id: 30005
    type: Effect Monster
    attribute: EARTH
    race: Rock
    level: 1
    atk: 100
    def: 100
}
"#;
    let file = parse_v2(dummy_card_src).unwrap();
    let card = &file.cards[0];
    let repl = Replacement {
        name: Some("No-op".into()),
        instead_of: ReplaceableEvent::Destroyed,
        actions: vec![], // explicitly empty
        condition: None,
    };
    let compiled_effect = compile_replacement(&repl, card);
    assert!(compiled_effect.operation.is_none(),
        "replacement with empty actions should have operation=None");
}

#[test]
fn test_synchro_summon_op_calls_synchro_summon() {

    // Construct the AST by hand to bypass the parser limitation.
    let card = Card {
        name: "Test Synchro".into(),
        fields: CardFields {
            id: Some(99100001),
            card_types: vec![CardType::SynchroMonster],
            attribute: Some(Attribute::Wind),
            race: Some(Race::Dragon),
            level: Some(8),
            rank: None,
            link: None,
            scale: None,
            atk: Some(StatVal::Number(2800)),
            def: Some(StatVal::Number(2000)),
            link_arrows: vec![],
            archetypes: vec![],
        },
        summon: Some(SummonBlock {
            cannot_normal_summon: true,
            cannot_special_summon: false,
            tributes: None,
            special_summon_procedure: None,
            fusion_materials: None,
            synchro_materials: Some(SynchroMaterials {
                tuner: Selector::Counted {
                    quantity: Quantity::Exact(1),
                    filter: CardFilter { name: None, kind: CardFilterKind::TunerMonster },
                    controller: None,
                    zone: None,
                    position: None,
                    where_clause: None,
                },
                non_tuner: Selector::Counted {
                    quantity: Quantity::Exact(1),
                    filter: CardFilter { name: None, kind: CardFilterKind::Monster },
                    controller: None,
                    zone: None,
                    position: None,
                    where_clause: None,
                },
            }),
            xyz_materials: None,
            link_materials: None,
            ritual_materials: None,
            pendulum_from: vec![],
        }),
        effects: vec![],
        passives: vec![],
        restrictions: vec![],
        replacements: vec![], redirects: vec![],
    };
    let compiled = compile_card_v2(&card);
    let proc_effect = compiled.effects.iter().find(|e| e.label == "Summon Procedure")
        .expect("expected 'Summon Procedure' effect");
    assert!(proc_effect.operation.is_some(),
        "synchro monster should have operation=Some(_) on Summon Procedure");

    let mut rt = MockRuntime::new();
    rt.effect_player = 0;
    if let Some(ref op) = proc_effect.operation {
        op.run(&mut rt);
    }
    let log = rt.dump_calls();
    assert!(log.contains("synchro_summon"),
        "operation should call synchro_summon; got: {}", log);
}

#[test]
fn test_xyz_summon_op_calls_xyz_summon() {

    let card = Card {
        name: "Test Xyz".into(),
        fields: CardFields {
            id: Some(99100002),
            card_types: vec![CardType::XyzMonster],
            attribute: Some(Attribute::Dark),
            race: Some(Race::Warrior),
            level: None,
            rank: Some(4),
            link: None,
            scale: None,
            atk: Some(StatVal::Number(2500)),
            def: Some(StatVal::Number(2000)),
            link_arrows: vec![],
            archetypes: vec![],
        },
        summon: Some(SummonBlock {
            cannot_normal_summon: true,
            cannot_special_summon: false,
            tributes: None,
            special_summon_procedure: None,
            fusion_materials: None,
            synchro_materials: None,
            xyz_materials: Some(Selector::Counted {
                quantity: Quantity::Exact(2),
                filter: CardFilter { name: None, kind: CardFilterKind::Monster },
                controller: None,
                zone: None,
                position: None,
                where_clause: None,
            }),
            link_materials: None,
            ritual_materials: None,
            pendulum_from: vec![],
        }),
        effects: vec![],
        passives: vec![],
        restrictions: vec![],
        replacements: vec![], redirects: vec![],
    };
    let compiled = compile_card_v2(&card);
    let proc_effect = compiled.effects.iter().find(|e| e.label == "Summon Procedure")
        .expect("expected 'Summon Procedure' effect");
    assert!(proc_effect.operation.is_some(),
        "xyz monster should have operation=Some(_) on Summon Procedure");

    let mut rt = MockRuntime::new();
    rt.effect_player = 0;
    if let Some(ref op) = proc_effect.operation {
        op.run(&mut rt);
    }
    let log = rt.dump_calls();
    assert!(log.contains("xyz_summon"),
        "operation should call xyz_summon; got: {}", log);
}

#[test]
fn test_xyz_check_effect_has_no_operation() {

    let card = Card {
        name: "Test Xyz Check".into(),
        fields: CardFields {
            id: Some(99100003),
            card_types: vec![CardType::XyzMonster],
            attribute: Some(Attribute::Light),
            race: Some(Race::Fairy),
            level: None,
            rank: Some(4),
            link: None,
            scale: None,
            atk: Some(StatVal::Number(2000)),
            def: Some(StatVal::Number(1200)),
            link_arrows: vec![],
            archetypes: vec![],
        },
        summon: Some(SummonBlock {
            cannot_normal_summon: true,
            cannot_special_summon: false,
            tributes: None,
            special_summon_procedure: None,
            fusion_materials: None,
            synchro_materials: None,
            xyz_materials: Some(Selector::Counted {
                quantity: Quantity::Exact(2),
                filter: CardFilter { name: None, kind: CardFilterKind::Monster },
                controller: None,
                zone: None,
                position: None,
                where_clause: None,
            }),
            link_materials: None,
            ritual_materials: None,
            pendulum_from: vec![],
        }),
        effects: vec![],
        passives: vec![],
        restrictions: vec![],
        replacements: vec![], redirects: vec![],
    };
    let compiled = compile_card_v2(&card);
    // Xyz Check should have code 946 and operation=None.
    let xyz_check = compiled.effects.iter().find(|e| e.code == 946 && e.label == "Xyz Check")
        .expect("expected 'Xyz Check' effect with code 946");
    assert!(xyz_check.operation.is_none(),
        "Xyz Check is a pure type-system tag — operation must be None");
    assert!(xyz_check.condition.is_none(),
        "Xyz Check should have condition=None");
}

#[test]
fn test_cannot_normal_summon_effect_has_no_operation() {
    // An Effect Monster that cannot be normal summoned (not extra deck).
    let src = r#"
card "Test Cannot NS" {
    id: 99100004
    type: Effect Monster
    attribute: FIRE
    race: Fiend
    level: 8
    atk: 3000
    def: 2500

    summon {
    cannot_normal_summon
    special_summon_procedure {
        from: hand
    }
}
}
"#;
    let file = parse_v2(src).unwrap();
    let compiled = compile_card_v2(&file.cards[0]);
    let cns = compiled.effects.iter().find(|e| e.code == 42 && e.label == "Cannot Normal Summon")
        .expect("expected 'Cannot Normal Summon' effect with code 42");
    assert!(cns.operation.is_none(),
        "Cannot Normal Summon is a pure metadata flag — operation must be None");
    assert!(cns.condition.is_none(),
        "Cannot Normal Summon should have condition=None");
}

#[test]
fn test_ssp_nested_restriction_has_operation() {

    let card = Card {
        name: "Test SSP Restriction".into(),
        fields: CardFields {
            id: Some(99100005),
            card_types: vec![CardType::EffectMonster],
            attribute: Some(Attribute::Fire),
            race: Some(Race::Fiend),
            level: Some(8),
            rank: None,
            link: None,
            scale: None,
            atk: Some(StatVal::Number(3000)),
            def: Some(StatVal::Number(2500)),
            link_arrows: vec![],
            archetypes: vec![],
        },
        summon: Some(SummonBlock {
            cannot_normal_summon: true,
            cannot_special_summon: false,
            tributes: None,
            special_summon_procedure: Some(SpecialSummonProcedure {
                from: Some(Zone::Hand),
                to: Some(FieldTarget::OpponentField),
                cost: vec![],
                condition: None,
                restriction: Some(Restriction {
                    name: Some("No Normal Summon This Turn".into()),
                    apply_to: None,
                    target: None,
                    abilities: vec![GrantAbility::CannotNormalSummon],
                    duration: Some(Duration::ThisTurn),
                    trigger: None,
                    condition: None,
                }),
            }),
            fusion_materials: None,
            synchro_materials: None,
            xyz_materials: None,
            link_materials: None,
            ritual_materials: None,
            pendulum_from: vec![],
        }),
        effects: vec![],
        passives: vec![],
        restrictions: vec![],
        replacements: vec![], redirects: vec![],
    };
    let compiled = compile_card_v2(&card);

    // Should produce "Special Summon Procedure" + "No Normal Summon This Turn"
    let nested = compiled.effects.iter().find(|e| e.label == "No Normal Summon This Turn")
        .expect("should produce a 'No Normal Summon This Turn' effect from nested restriction");
    assert!(nested.operation.is_some(),
        "Nested restriction should have operation=Some(_) from gen_continuous_grants_op");

    let mut rt = MockRuntime::new();
    rt.effect_player = 0;
    if let Some(ref op) = nested.operation {
        op.run(&mut rt);
    }
    let log = rt.dump_calls();
    assert!(log.contains("register_grant"),
        "nested restriction operation should call register_grant; got: {}", log);
}

#[test]
fn test_ssp_opponent_field_targets_opponent() {

    let card = Card {
        name: "Test Opponent SSP".into(),
        fields: CardFields {
            id: Some(99100006),
            card_types: vec![CardType::EffectMonster],
            attribute: Some(Attribute::Fire),
            race: Some(Race::Fiend),
            level: Some(8),
            rank: None,
            link: None,
            scale: None,
            atk: Some(StatVal::Number(3000)),
            def: Some(StatVal::Number(2500)),
            link_arrows: vec![],
            archetypes: vec![],
        },
        summon: Some(SummonBlock {
            cannot_normal_summon: true,
            cannot_special_summon: false,
            tributes: None,
            special_summon_procedure: Some(SpecialSummonProcedure {
                from: Some(Zone::Hand),
                to: Some(FieldTarget::OpponentField),
                cost: vec![],
                condition: None,
                restriction: None,
            }),
            fusion_materials: None,
            synchro_materials: None,
            xyz_materials: None,
            link_materials: None,
            ritual_materials: None,
            pendulum_from: vec![],
        }),
        effects: vec![],
        passives: vec![],
        restrictions: vec![],
        replacements: vec![], redirects: vec![],
    };
    let compiled = compile_card_v2(&card);

    let ssp = compiled.effects.iter().find(|e| e.label == "Special Summon Procedure")
        .expect("should produce 'Special Summon Procedure' effect");
    assert!(ssp.operation.is_some(),
        "SSP should have operation=Some(_)");

    let mut rt = MockRuntime::new();
    rt.effect_player = 0; // summoner is player 0 → target should be opponent (player 1)
    if let Some(ref op) = ssp.operation {
        op.run(&mut rt);
    }
    let log = rt.dump_calls();
    assert!(log.contains("special_summon"),
        "SSP operation should call special_summon; got: {}", log);
    assert!(log.contains("player=1"),
        "to:opponent_field should target player 1 when summoner is player 0; got: {}", log);
}

#[test]
fn counted_quantity_limit_respected() {
    // Compile a card that destroys (1, monster, opponent controls).
    let source = r#"
        card "Fissure Stand-in" {
            id: 66000001
            type: Normal Spell
            effect "Destroy One" {
                speed: 1
                resolve {
                    destroy (1, monster, opponent controls)
                }
            }
        }
    "#;
    let file = parse_v2(source).unwrap();
    let compiled = compile_card_v2(&file.cards[0]);
    let op = compiled.effects[0].operation.as_ref().unwrap();

    let mut rt = MockRuntime::new();
    rt.effect_player = 0;
    rt.effect_card_id = 66000001;
    // Two opponent monsters.
    rt.state.add_card(CardSnapshot::monster(201, "MonA", 1500, 1000, 4));
    rt.state.add_card(CardSnapshot::monster(202, "MonB", 2000, 1000, 4));
    rt.state.players[1].field_monsters.push(201);
    rt.state.players[1].field_monsters.push(202);

    op.run(&mut rt);

    // MockRuntime::destroy removes cards from the field; exactly 1 should
    // remain (select_cards deterministically picks the first).
    let remaining = rt.state.players[1].field_monsters.len();
    assert_eq!(remaining, 1, "destroy (1, ...) should destroy exactly 1 monster; got {} remaining", remaining);
    // select_cards should have been called exactly once.
    assert_eq!(rt.call_count("select_cards"), 1, "select_cards should be called to pick from 2 candidates");
}

#[test]
fn counted_filter_predicate_applied() {
    let source = r#"
        card "Spell Sweeper" {
            id: 66000002
            type: Normal Spell
            effect "Destroy Spells" {
                speed: 1
                resolve {
                    destroy (all, spell, opponent controls)
                }
            }
        }
    "#;
    let file = parse_v2(source).unwrap();
    let compiled = compile_card_v2(&file.cards[0]);
    let op = compiled.effects[0].operation.as_ref().unwrap();

    let mut rt = MockRuntime::new();
    rt.effect_player = 0;
    rt.effect_card_id = 66000002;
    // Opponent has one monster and one spell.
    rt.state.add_card(CardSnapshot::monster(301, "OppMonster", 1800, 1000, 4));
    rt.state.add_card(CardSnapshot::spell(302, "OppSpell"));
    rt.state.players[1].field_monsters.push(301);
    rt.state.players[1].field_spells.push(302);

    op.run(&mut rt);

    // The monster should survive; the spell should be destroyed.
    assert!(!rt.state.players[1].field_monsters.is_empty(), "monster should not be destroyed by spell filter");
    assert!(rt.state.players[1].field_spells.is_empty(), "spell should be destroyed");
}

#[test]
fn counted_zone_restriction_gy() {
    let source = r#"
        card "GY Picker" {
            id: 66000003
            type: Normal Spell
            effect "Retrieve" {
                speed: 1
                resolve {
                    search (1, monster, from gy)
                }
            }
        }
    "#;
    let file = parse_v2(source).unwrap();
    let compiled = compile_card_v2(&file.cards[0]);
    let op = compiled.effects[0].operation.as_ref().unwrap();

    let mut rt = MockRuntime::new();
    rt.effect_player = 0;
    rt.effect_card_id = 66000003;
    let gy_card: u32 = 401;
    let field_card: u32 = 402;
    rt.state.add_card(CardSnapshot::monster(gy_card, "GY Monster", 1500, 1000, 4));
    rt.state.add_card(CardSnapshot::monster(field_card, "Field Monster", 2000, 1200, 5));
    rt.state.players[0].graveyard.push(gy_card);
    rt.state.players[0].field_monsters.push(field_card);

    op.run(&mut rt);

    // send_to_hand should have been called; field card should still be there.
    assert!(rt.was_called_with("send_to_hand", &format!("{}", gy_card)),
        "GY card should be sent to hand; calls: {}", rt.dump_calls());
    assert!(!rt.state.players[0].field_monsters.is_empty(),
        "field monster should not be moved by gy-zone search");
}

#[test]
fn counted_position_filter_facedown_excludes_faceup() {
    // Build inline: (all, monster, opponent controls, face_down).
    // MockRuntime::is_face_down returns false for all cards by default,
    // so with a FaceDown filter the resolved set should be empty.
    let sel = Selector::Counted {
        quantity: Quantity::All,
        filter: CardFilter { name: None, kind: CardFilterKind::Monster },
        controller: Some(Controller::Opponent),
        zone: None,
        position: Some(PositionFilter::FaceDown),
        where_clause: None,
    };

    let mut rt = MockRuntime::new();
    rt.effect_player = 0;
    rt.effect_card_id = 0;
    rt.state.add_card(CardSnapshot::monster(501, "FaceUpMonster", 1800, 1000, 4));
    rt.state.players[1].field_monsters.push(501);

    let cards = resolve_v2_selector(&sel, &mut rt, 0);
    assert!(cards.is_empty(), "FaceDown filter should yield empty set when all cards are face-up");
}

#[test]
fn counted_where_clause_excludes_nonmatching_candidates() {
    // Selector: (all, monster, opponent controls) where atk >= 9999
    // Both monsters have ATK < 9999, so the where_clause filters both out.
    let sel = Selector::Counted {
        quantity: Quantity::All,
        filter: CardFilter { name: None, kind: CardFilterKind::Monster },
        controller: Some(Controller::Opponent),
        zone: None,
        position: None,
        where_clause: Some(Predicate::Single(PredicateAtom::StatCompare(
            StatField::Atk,
            CompareOp::Gte,
            Expr::Literal(9999),
        ))),
    };

    let mut rt = MockRuntime::new();
    rt.effect_player = 0;
    rt.effect_card_id = 0;
    rt.state.add_card(CardSnapshot::monster(601, "WeakMon", 500, 200, 2));
    rt.state.add_card(CardSnapshot::monster(602, "MidMon", 1800, 1000, 4));
    rt.state.players[1].field_monsters.push(601);
    rt.state.players[1].field_monsters.push(602);

    let cards = resolve_v2_selector(&sel, &mut rt, 0);
    assert!(cards.is_empty(),
        "atk >= 9999 predicate should filter all candidates; got {:?}", cards);
}

#[test]
fn m3b_target_selector_reads_back_binding() {

    let mut rt = MockRuntime::new();
    rt.effect_player = 0;
    rt.effect_card_id = 0;
    rt.set_binding("__target__", 700);

    let cards = resolve_v2_selector(&Selector::Target, &mut rt, 0);
    assert_eq!(cards, vec![700], "Target selector should return the stored __target__ binding");
}

#[test]
fn m3b_target_selector_empty_when_no_binding() {

    let mut rt = MockRuntime::new();
    rt.effect_player = 0;
    rt.effect_card_id = 0;

    let cards = resolve_v2_selector(&Selector::Target, &mut rt, 0);
    assert!(cards.is_empty(), "Target selector should be empty when no __target__ binding exists");
}

#[test]
fn m3b_negated_card_selector_reads_back_binding() {

    let mut rt = MockRuntime::new();
    rt.effect_player = 0;
    rt.effect_card_id = 0;
    rt.set_binding("__negated__", 800);

    let cards = resolve_v2_selector(&Selector::NegatedCard, &mut rt, 0);
    assert_eq!(cards, vec![800], "NegatedCard selector should return the stored __negated__ binding");
}

#[test]
fn m3c_searched_selector_reads_back_binding() {

    let mut rt = MockRuntime::new();
    rt.effect_player = 0;
    rt.effect_card_id = 0;
    rt.set_binding("__searched__", 900);

    let cards = resolve_v2_selector(&Selector::Searched, &mut rt, 0);
    assert_eq!(cards, vec![900], "Searched selector should return the stored __searched__ binding");
}

#[test]
fn m3c_searched_selector_empty_when_no_binding() {

    let mut rt = MockRuntime::new();
    rt.effect_player = 0;
    rt.effect_card_id = 0;

    let cards = resolve_v2_selector(&Selector::Searched, &mut rt, 0);
    assert!(cards.is_empty(), "Searched selector should be empty when no __searched__ binding exists");
}

#[test]
fn m3c_action_search_writes_searched_binding() {
    let source = r#"
        card "Sangan" {
            id: 26202165
            type: Effect Monster
            attribute: DARK
            race: Fiend
            level: 3
            atk: 1000
            def: 600

            effect "Search" {
                speed: 1
                resolve {
                    search (1, monster, from deck)
                }
            }
        }
    "#;
    let file = parse_v2(source).unwrap();
    let compiled = compile_card_v2(&file.cards[0]);
    let effect = compiled.effects.iter().find(|e| e.label == "Search").unwrap();

    let mut rt = MockRuntime::new();
    rt.effect_card_id = 26202165;
    rt.effect_player = 0;
    let monster_id: u32 = 77777777;
    rt.state.add_card(CardSnapshot::monster(monster_id, "Deck Monster", 1200, 800, 3));
    rt.state.players[0].deck.push(monster_id);

    effect.operation.as_ref().unwrap().run(&mut rt);
    assert!(rt.was_called_with("bind_last_selection", "name=\"__searched__\""),
        "Action::Search should call bind_last_selection(\"__searched__\"); calls: {}", rt.dump_calls());
}

#[test]
fn m3c_binding_selector_reads_named_binding() {

    let mut rt = MockRuntime::new();
    rt.effect_player = 0;
    rt.effect_card_id = 0;
    rt.set_binding("my_card", 1001);

    let cards = resolve_v2_selector(&Selector::Binding("my_card".to_string()), &mut rt, 0);
    assert_eq!(cards, vec![1001], "Binding selector should return the stored named binding");
}

#[test]
fn m3c_binding_selector_empty_when_name_unset() {

    let mut rt = MockRuntime::new();
    rt.effect_player = 0;
    rt.effect_card_id = 0;

    let cards = resolve_v2_selector(&Selector::Binding("nonexistent".to_string()), &mut rt, 0);
    assert!(cards.is_empty(), "Binding selector should be empty when the named binding does not exist");
}

#[test]
fn m3b_where_clause_atk_gte_filters_low_atk_monsters() {
    // Selector: (all, monster, opponent controls) where atk >= 1500
    let sel = Selector::Counted {
        quantity: Quantity::All,
        filter: CardFilter { name: None, kind: CardFilterKind::Monster },
        controller: Some(Controller::Opponent),
        zone: None,
        position: None,
        where_clause: Some(Predicate::Single(PredicateAtom::StatCompare(
            StatField::Atk,
            CompareOp::Gte,
            Expr::Literal(1500),
        ))),
    };

    let mut rt = MockRuntime::new();
    rt.effect_player = 0;
    rt.effect_card_id = 0;
    rt.state.add_card(CardSnapshot::monster(701, "LowAtk", 500, 200, 2));
    rt.state.add_card(CardSnapshot::monster(702, "HighAtk", 1800, 1000, 4));
    rt.state.players[1].field_monsters.push(701);
    rt.state.players[1].field_monsters.push(702);

    let cards = resolve_v2_selector(&sel, &mut rt, 0);
    assert_eq!(cards.len(), 1, "Only 1 monster should pass atk >= 1500; got {:?}", cards);
    assert_eq!(cards[0], 702, "The passing monster should be HighAtk (702)");
}

#[test]
fn m3b_where_clause_and_composition() {
    // DARK bitmask = 0x20 (attribute_to_engine)
    let dark_bits: u64 = 0x20;

    let sel = Selector::Counted {
        quantity: Quantity::All,
        filter: CardFilter { name: None, kind: CardFilterKind::Monster },
        controller: Some(Controller::Opponent),
        zone: None,
        position: None,
        where_clause: Some(Predicate::And(vec![
            PredicateAtom::StatCompare(StatField::Atk, CompareOp::Gte, Expr::Literal(2000)),
            PredicateAtom::AttributeIs(Attribute::Dark),
        ])),
    };

    let mut rt = MockRuntime::new();
    rt.effect_player = 0;
    rt.effect_card_id = 0;
    // Mon A: ATK 2500 + DARK — should match
    rt.state.add_card(
        CardSnapshot::monster(801, "DarkBig", 2500, 2000, 8)
            .with_attribute(dark_bits)
    );
    // Mon B: ATK 2500 + LIGHT — should not match (wrong attribute)
    rt.state.add_card(
        CardSnapshot::monster(802, "LightBig", 2500, 2000, 8)
            .with_attribute(0x10) // LIGHT
    );
    // Mon C: ATK 1500 + DARK — should not match (low ATK)
    rt.state.add_card(
        CardSnapshot::monster(803, "DarkSmall", 1500, 1000, 4)
            .with_attribute(dark_bits)
    );
    rt.state.players[1].field_monsters.extend([801, 802, 803]);

    let cards = resolve_v2_selector(&sel, &mut rt, 0);
    assert_eq!(cards, vec![801], "Only DarkBig should pass atk >= 2000 AND attribute == DARK");
}

#[test]
fn m3b_where_clause_or_composition() {
    // Use (all, card, opponent controls) where is_spell or is_trap
    let sel = Selector::Counted {
        quantity: Quantity::All,
        filter: CardFilter { name: None, kind: CardFilterKind::Card },
        controller: Some(Controller::Opponent),
        zone: None,
        position: None,
        where_clause: Some(Predicate::Or(vec![
            PredicateAtom::IsSpell,
            PredicateAtom::IsTrap,
        ])),
    };

    let mut rt = MockRuntime::new();
    rt.effect_player = 0;
    rt.effect_card_id = 0;
    rt.state.add_card(CardSnapshot::monster(901, "SomeMonster", 1000, 500, 3));
    rt.state.add_card(CardSnapshot::spell(902, "SomeSpell"));
    rt.state.add_card(CardSnapshot::trap(903, "SomeTrap"));
    rt.state.players[1].field_monsters.push(901);
    rt.state.players[1].field_spells.extend([902, 903]);

    let mut cards = resolve_v2_selector(&sel, &mut rt, 0);
    cards.sort();
    assert_eq!(cards, vec![902, 903], "Only spell and trap should pass is_spell OR is_trap");
}

#[test]
fn t7_is_effect_matches_effect_monster() {
    // Default `monster()` already has TYPE_EFFECT (0x20). The match
    // candidate retains that default; the non-match candidate is a
    // Normal monster (TYPE_MONSTER | TYPE_NORMAL = 0x1 | 0x10 = 0x11).
    // So instead of the shared helper we handle this atom specifically.
    let sel = Selector::Counted {
        quantity: Quantity::All,
        filter: CardFilter { name: None, kind: CardFilterKind::Monster },
        controller: Some(Controller::Opponent),
        zone: None,
        position: None,
        where_clause: Some(Predicate::Single(PredicateAtom::IsEffect)),
    };
    let mut rt = MockRuntime::new();
    rt.effect_player = 0;
    rt.effect_card_id = 0;
    // Effect monster (default) — should match.
    rt.state.add_card(CardSnapshot::monster(1101, "EffMon", 1000, 1000, 4));
    // Normal monster (TYPE_MONSTER | TYPE_NORMAL) — should NOT match.
    rt.state.add_card(
        CardSnapshot::monster(1102, "NormMon", 1000, 1000, 4).with_type(0x1 | 0x10),
    );
    rt.state.players[1].field_monsters.extend([1101, 1102]);
    let cards = resolve_v2_selector(&sel, &mut rt, 0);
    assert_eq!(cards, vec![1101], "IsEffect should match only the effect monster");
}

#[test]
fn t7_is_normal_matches_normal_monster() {
    // Match = TYPE_MONSTER | TYPE_NORMAL (0x11); non-match = default Effect.
    let cards = run_exotic_atom_test(PredicateAtom::IsNormal, 0x1 | 0x10);
    assert_eq!(cards, vec![1001], "IsNormal should match only the normal monster");
}

#[test]
fn t7_is_tuner_matches_tuner_monster() {
    // TYPE_MONSTER | TYPE_EFFECT | TYPE_TUNER (0x1 | 0x20 | 0x1000).
    let cards = run_exotic_atom_test(PredicateAtom::IsTuner, 0x1 | 0x20 | 0x1000);
    assert_eq!(cards, vec![1001], "IsTuner should match only the tuner monster");
}

#[test]
fn t7_is_fusion_matches_fusion_monster() {
    // TYPE_MONSTER | TYPE_FUSION (0x1 | 0x40).
    let cards = run_exotic_atom_test(PredicateAtom::IsFusion, 0x1 | 0x40);
    assert_eq!(cards, vec![1001], "IsFusion should match only the fusion monster");
}

#[test]
fn t7_is_synchro_matches_synchro_monster() {
    // TYPE_MONSTER | TYPE_SYNCHRO (0x1 | 0x2000).
    let cards = run_exotic_atom_test(PredicateAtom::IsSynchro, 0x1 | 0x2000);
    assert_eq!(cards, vec![1001], "IsSynchro should match only the synchro monster");
}

#[test]
fn t7_is_xyz_matches_xyz_monster() {
    // TYPE_MONSTER | TYPE_XYZ (0x1 | 0x800000).
    let cards = run_exotic_atom_test(PredicateAtom::IsXyz, 0x1 | 0x800000);
    assert_eq!(cards, vec![1001], "IsXyz should match only the xyz monster");
}

#[test]
fn t7_is_link_matches_link_monster() {
    // TYPE_MONSTER | TYPE_LINK (0x1 | 0x4000000).
    let cards = run_exotic_atom_test(PredicateAtom::IsLink, 0x1 | 0x4000000);
    assert_eq!(cards, vec![1001], "IsLink should match only the link monster");
}

#[test]
fn t7_is_ritual_matches_ritual_monster() {
    // TYPE_MONSTER | TYPE_RITUAL (0x1 | 0x80).
    let cards = run_exotic_atom_test(PredicateAtom::IsRitual, 0x1 | 0x80);
    assert_eq!(cards, vec![1001], "IsRitual should match only the ritual monster");
}

#[test]
fn t7_is_pendulum_matches_pendulum_monster() {
    // TYPE_MONSTER | TYPE_PENDULUM (0x1 | 0x1000000).
    let cards = run_exotic_atom_test(PredicateAtom::IsPendulum, 0x1 | 0x1000000);
    assert_eq!(cards, vec![1001], "IsPendulum should match only the pendulum monster");
}

#[test]
fn t7_is_token_matches_token() {
    // TYPE_MONSTER | TYPE_TOKEN (0x1 | 0x2000000).
    let cards = run_exotic_atom_test(PredicateAtom::IsToken, 0x1 | 0x2000000);
    assert_eq!(cards, vec![1001], "IsToken should match only the token");
}

#[test]
fn t7_is_flip_matches_flip_monster() {
    // TYPE_MONSTER | TYPE_EFFECT | TYPE_FLIP (0x1 | 0x20 | 0x200).
    let cards = run_exotic_atom_test(PredicateAtom::IsFlip, 0x1 | 0x20 | 0x200);
    assert_eq!(cards, vec![1001], "IsFlip should match only the flip monster");
}

#[test]
fn t8_equipped_selector_reads_back_binding() {
    let mut rt = MockRuntime::new();
    rt.effect_player = 0;
    rt.effect_card_id = 100;
    rt.set_binding("__equipped__", 777);
    let cards = resolve_v2_selector(&Selector::EquippedCard, &mut rt, 0);
    assert_eq!(cards, vec![777]);
}

#[test]
fn t8_equipped_selector_empty_when_no_binding() {
    let mut rt = MockRuntime::new();
    rt.effect_player = 0;
    rt.effect_card_id = 100;
    let cards = resolve_v2_selector(&Selector::EquippedCard, &mut rt, 0);
    assert!(cards.is_empty(), "No __equipped__ binding should yield empty, got {:?}", cards);
}

#[test]
fn t8_linked_selector_reads_back_binding() {
    let mut rt = MockRuntime::new();
    rt.effect_player = 0;
    rt.effect_card_id = 100;
    rt.set_binding("__linked__", 888);
    let cards = resolve_v2_selector(&Selector::LinkedCard, &mut rt, 0);
    assert_eq!(cards, vec![888]);
}

#[test]
fn t8_linked_selector_empty_when_no_binding() {
    let mut rt = MockRuntime::new();
    rt.effect_player = 0;
    rt.effect_card_id = 100;
    let cards = resolve_v2_selector(&Selector::LinkedCard, &mut rt, 0);
    assert!(cards.is_empty(), "No __linked__ binding should yield empty, got {:?}", cards);
}

#[test]
fn t8_action_equip_writes_equipped_binding() {

    // An Equip spell (id=500) being activated on one of opponent's monsters (id=900).
    let mut rt = MockRuntime::new();
    rt.effect_player = 0;
    rt.effect_card_id = 500;
    rt.state.add_card(CardSnapshot::spell(500, "EquipSpell"));
    rt.state.add_card(CardSnapshot::monster(900, "TargetMon", 1500, 1000, 4));
    rt.state.players[1].field_monsters.push(900);

    // The card selector refers to the equipping spell itself (SelfCard).
    let equip_card_sel = Selector::SelfCard;
    // The target selector: 1 opponent monster on the field.
    let target_sel = Selector::Counted {
        quantity: Quantity::Exact(1),
        filter: CardFilter { name: None, kind: CardFilterKind::Monster },
        controller: Some(Controller::Opponent),
        zone: None,
        position: None,
        where_clause: None,
    };

    execute_v2_action(&Action::Equip(equip_card_sel, target_sel), &mut rt, 0);

    // The "__equipped__" binding should contain the target monster id (900).
    assert_eq!(rt.get_binding_card("__equipped__"), Some(900),
        "Action::Equip should bind __equipped__ to the target monster, got {:?}",
        rt.get_binding_card("__equipped__"));
}



#[test]
fn used_as_material_trigger_maps_to_be_material_event() {
    assert_eq!(trigger_to_event_code(&Some(Trigger::UsedAsMaterial(None))), 1108);
}

#[test]
fn special_summon_in_defense_uses_faceup_defense_code() {
    let mut rt = MockRuntime::new();
    rt.effect_player = 0;
    rt.effect_card_id = 7;
    rt.state.add_card(CardSnapshot::monster(7, "M", 1000, 1000, 4));
    let a = Action::SpecialSummon(Selector::SelfCard, None, Some(BattlePosition::Defense));
    execute_v2_action(&a, &mut rt, 0);
    assert!(rt.was_called_with("special_summon", "position=4"));
    let b = Action::SpecialSummon(Selector::SelfCard, None, Some(BattlePosition::FaceDownDefense));
    execute_v2_action(&b, &mut rt, 0);
    assert!(rt.was_called_with("special_summon", "position=8"));
}

#[test]
fn if_action_runs_only_the_branch_its_condition_picks() {
    let mut rt = MockRuntime::new();
    rt.effect_player = 0;
    let cond = Condition::Single(ConditionAtom::LpCompare(CompareOp::Gte, Expr::Literal(1000)));
    let a = Action::If {
        condition: cond,
        then: vec![Action::GainLp(Expr::Literal(100))],
        otherwise: vec![Action::Damage(PlayerWho::Opponent, Expr::Literal(500))],
    };
    execute_v2_action(&a, &mut rt, 0);
    assert_eq!(rt.call_count("recover"), 1);
    assert_eq!(rt.call_count("damage"), 0);
}
