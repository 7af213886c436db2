use duelscript::v2::ast::{
    Action, Attribute, Card, CardFields, CardFilter, CardFilterKind, CardType, Effect, File, Quantity,
    Race, Selector, TargetDecl, Trigger,
};
use duelscript::v2::validator::{validate_v2, Severity};

fn bare_target_card(target: Option<TargetDecl>, resolve: Vec<Action>) -> File {
    File {
        cards: vec![Card {
            name: "Bare Target".into(),
            fields: CardFields {
                card_types: vec![CardType::NormalSpell],
                ..Default::default()
            },
            summon: None,
            effects: vec![Effect {
                name: "Effect 1".into(),
                speed: Some(1),
                frequency: None,
                mandatory: false,
                simultaneous: false,
                timing: None,
                trigger: None,
                who: None,
                condition: None,
                activate_from: vec![],
                damage_step: None,
                target,
                cost: vec![],
                resolve,
                choose: None,
            }],
            passives: vec![],
            restrictions: vec![],
            replacements: vec![],
            redirects: vec![],
        }],
    }
}

#[test]
fn test_missing_atk() {
    let file = File {
        cards: vec![Card {
            name: "Bad Monster".into(),
            fields: CardFields {
                card_types: vec![CardType::EffectMonster],
                attribute: Some(Attribute::Dark),
                race: Some(Race::Fiend),
                level: Some(4),
                ..Default::default()
            },
            summon: None,
            effects: vec![],
            passives: vec![],
            restrictions: vec![],
            replacements: vec![],
            redirects: vec![],
        }],
    };
    let report = validate_v2(&file);
    assert!(report.has_errors());
    assert!(report.errors.iter().any(|e| e.message.contains("atk")));
}

#[test]
fn test_monster_spell_conflict() {
    let file = File {
        cards: vec![Card {
            name: "Impossible Card".into(),
            fields: CardFields {
                card_types: vec![CardType::EffectMonster, CardType::NormalSpell],
                ..Default::default()
            },
            summon: None,
            effects: vec![],
            passives: vec![],
            restrictions: vec![],
            replacements: vec![],
            redirects: vec![],
        }],
    };
    let report = validate_v2(&file);
    assert!(report.errors.iter().any(|e| e.message.contains("Monster and Spell")));
}

#[test]
fn test_counter_trap_speed() {
    let file = File {
        cards: vec![Card {
            name: "Bad Counter".into(),
            fields: CardFields {
                card_types: vec![CardType::CounterTrap],
                ..Default::default()
            },
            summon: None,
            effects: vec![Effect {
                name: "Negate".into(),
                speed: Some(2), // wrong — should be 3
                frequency: None,
                mandatory: false,
                simultaneous: false,
                timing: None,
                trigger: None,
                who: None,
                condition: None,
                activate_from: vec![],
                damage_step: None,
                target: None,
                cost: vec![],
                resolve: vec![Action::Negate(false)],
                choose: None,
            }],
            passives: vec![],
            restrictions: vec![],
            replacements: vec![],
            redirects: vec![],
        }],
    };
    let report = validate_v2(&file);
    assert!(report.errors.iter().any(|e| e.message.contains("Counter Trap must use speed: 3")));
}

#[test]
fn test_effect_needs_resolve() {
    let file = File {
        cards: vec![Card {
            name: "Empty Effect".into(),
            fields: CardFields {
                card_types: vec![CardType::NormalSpell],
                ..Default::default()
            },
            summon: None,
            effects: vec![Effect {
                name: "Nothing".into(),
                speed: Some(1),
                frequency: None,
                mandatory: false,
                simultaneous: false,
                timing: None,
                trigger: None,
                who: None,
                condition: None,
                activate_from: vec![],
                damage_step: None,
                target: None,
                cost: vec![],
                resolve: vec![], // empty!
                choose: None,
            }],
            passives: vec![],
            restrictions: vec![],
            replacements: vec![],
            redirects: vec![],
        }],
    };
    let report = validate_v2(&file);
    assert!(report.errors.iter().any(|e| e.message.contains("resolve or choose")));
}

#[test]
fn test_bare_target_without_declaration_warns() {
    let file = bare_target_card(None, vec![Action::Destroy(Selector::Target)]);
    let report = validate_v2(&file);
    assert!(
        report.errors.iter().any(|e| e.severity == Severity::Warning
            && e.message.contains("references `target`")),
        "expected bare-target warning; got: {:?}", report.errors
    );
}

#[test]
fn test_bare_target_nested_in_then_warns() {
    let file = bare_target_card(
        None,
        vec![Action::Then(vec![Action::Banish(Selector::Target, None, false)])],
    );
    let report = validate_v2(&file);
    assert!(report.errors.iter().any(|e| e.message.contains("references `target`")));
}

#[test]
fn test_target_with_declaration_no_warning() {
    let file = bare_target_card(
        Some(TargetDecl {
            selector: Selector::Counted {
                quantity: Quantity::Exact(1),
                filter: CardFilter { name: None, kind: CardFilterKind::Card },
                controller: None,
                zone: None,
                position: None,
                where_clause: None,
            },
            binding: None,
        }),
        vec![Action::Destroy(Selector::Target)],
    );
    let report = validate_v2(&file);
    assert!(
        !report.errors.iter().any(|e| e.message.contains("references `target`")),
        "declared target must not warn; got: {:?}", report.errors
    );
}

#[test]
fn test_permanent_passive_activation_allows_empty_resolve() {
    let mk_card = |ct: CardType, name: &str| Card {
        name: name.into(),
        fields: CardFields {
            card_types: vec![ct],
            ..Default::default()
        },
        summon: None,
        effects: vec![Effect {
            name: "Effect 1".into(),
            speed: Some(1),
            frequency: None,
            mandatory: false,
            simultaneous: false,
            timing: None,
            trigger: None,
            who: None,
            condition: None,
            activate_from: vec![],
            damage_step: None,
            target: None,
            cost: vec![],
            resolve: vec![],
            choose: None,
        }],
        passives: vec![],
        restrictions: vec![],
        replacements: vec![],
        redirects: vec![],
    };
    for ct in [
        CardType::ContinuousSpell,
        CardType::ContinuousTrap,
        CardType::FieldSpell,
        CardType::EquipSpell,
    ] {
        let file = File { cards: vec![mk_card(ct.clone(), &format!("{:?}", ct))] };
        let report = validate_v2(&file);
        assert!(
            !report.errors.iter().any(|e| e.message.contains("resolve or choose")),
            "{:?} should not require resolve on activation effect; got {:?}",
            ct, report.errors
        );
    }
}

#[test]
fn test_non_permanent_spells_still_need_resolve() {
    let mk_card = |ct: CardType, name: &str| Card {
        name: name.into(),
        fields: CardFields {
            card_types: vec![ct],
            ..Default::default()
        },
        summon: None,
        effects: vec![Effect {
            name: "Effect 1".into(),
            speed: Some(1),
            frequency: None,
            mandatory: false,
            simultaneous: false,
            timing: None,
            trigger: None,
            who: None,
            condition: None,
            activate_from: vec![],
            damage_step: None,
            target: None,
            cost: vec![],
            resolve: vec![],
            choose: None,
        }],
        passives: vec![],
        restrictions: vec![],
        replacements: vec![],
        redirects: vec![],
    };
    for ct in [
        CardType::NormalSpell,
        CardType::QuickPlaySpell,
        CardType::NormalTrap,
        CardType::CounterTrap,
    ] {
        let file = File { cards: vec![mk_card(ct.clone(), &format!("{:?}", ct))] };
        let report = validate_v2(&file);
        assert!(
            report.errors.iter().any(|e| e.message.contains("resolve or choose")),
            "{:?} should still require resolve; got {:?}",
            ct, report.errors
        );
    }
}

#[test]
fn test_permanent_passive_with_trigger_still_needs_resolve() {
    let file = File {
        cards: vec![Card {
            name: "Triggered Continuous".into(),
            fields: CardFields {
                card_types: vec![CardType::ContinuousSpell],
                ..Default::default()
            },
            summon: None,
            effects: vec![Effect {
                name: "Effect 1".into(),
                speed: Some(1),
                frequency: None,
                mandatory: false,
                simultaneous: false,
                timing: None,
                trigger: Some(Trigger::EndPhase),
                who: None,
                condition: None,
                activate_from: vec![],
                damage_step: None,
                target: None,
                cost: vec![],
                resolve: vec![],
                choose: None,
            }],
            passives: vec![],
            restrictions: vec![],
            replacements: vec![],
            redirects: vec![],
        }],
    };
    let report = validate_v2(&file);
    assert!(
        report.errors.iter().any(|e| e.message.contains("resolve or choose")),
        "trigger on Continuous Spell should still require resolve; got {:?}",
        report.errors
    );
}


