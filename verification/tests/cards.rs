use duelscript::v2::ast::{Attribute, CardType, PlayerWho, Race};
use duelscript::v2::compiler::compile_card_v2;
use duelscript::v2::constants as tm;
use duelscript::v2::mock_runtime::{CardSnapshot, MockRuntime};
use duelscript::v2::runtime::DuelScriptRuntime;
use duelscript::v2::fmt::format_file;
use duelscript::v2::parser::parse_v2;
use duelscript::v2::validator::validate_v2;

const POT_OF_GREED: &str = r#"
card "Pot of Greed" {
    id: 55144522
    type: Normal Spell

    effect "Draw 2" {
        speed: 1
        resolve {
            draw 2
        }
    }
}
"#;

const LAVA_GOLEM: &str = r#"
card "Lava Golem" {
    id: 102380
    type: Effect Monster
    attribute: FIRE
    race: Fiend
    level: 8
    atk: 3000
    def: 2500

    summon {
        cannot_normal_summon
        special_summon_procedure {
            from: hand
            to: opponent_field
            cost {
                tribute (2, monster, opponent controls)
            }
        }
    }

    effect "Burn" {
        speed: 1
        mandatory
        who: controller
        trigger: standby_phase of yours
        resolve {
            damage controller 1000
        }
    }
}
"#;

const MIRROR_FORCE: &str = r#"
card "Mirror Force" {
    id: 44095762
    type: Normal Trap

    effect "Reflect Attack" {
        speed: 2
        trigger: opponent_attack_declared
        resolve {
            destroy (all, monster, opponent controls, in attack_position)
        }
    }
}
"#;

const SANGAN: &str = r#"
card "Sangan" {
    id: 26202165
    type: Effect Monster
    attribute: DARK
    race: Fiend
    level: 3
    atk: 1000
    def: 600

    effect "Search Low ATK Monster" {
        speed: 1
        mandatory
        once_per_turn
        trigger: sent_to gy from field
        resolve {
            search (1, monster, from deck)
            shuffle_deck
        }
    }
}
"#;

const SOLEMN_JUDGMENT: &str = r#"
card "Solemn Judgment" {
    id: 41420027
    type: Counter Trap

    effect "Negate Summon or Activation" {
        speed: 3
        trigger: summon_attempt
        cost {
            pay_lp half
        }
        resolve {
            negate and destroy
        }
    }
}
"#;

const RAIGEKI: &str = r#"
card "Raigeki" {
    id: 12580477
    type: Normal Spell

    effect "Destroy Opponent Monsters" {
        speed: 1
        resolve {
            destroy (all, monster, opponent controls)
        }
    }
}
"#;

const HEAVY_STORM: &str = r#"
card "Heavy Storm" {
    id: 19613556
    type: Normal Spell

    effect "Destroy Spells and Traps" {
        speed: 1
        resolve {
            destroy (all, spell, either controls)
            destroy (all, trap, either controls)
        }
    }
}
"#;

const BOOK_OF_MOON: &str = r#"
card "Book of Moon" {
    id: 14087893
    type: Quick-Play Spell

    effect "Flip Face Down" {
        speed: 2
        target (1, monster, either controls, face_up)
        resolve {
            change_position target to face_down_defense
        }
    }
}
"#;

const WABOKU: &str = r#"
card "Waboku" {
    id: 12607053
    type: Normal Trap

    effect "Protect" {
        speed: 2
        resolve {
            grant (all, monster, you control) cannot_be_destroyed by battle until end_of_turn
        }
    }
}
"#;

const GRACEFUL_CHARITY: &str = r#"
card "Graceful Charity" {
    id: 79571449
    type: Normal Spell

    effect "Draw 3 Discard 2" {
        speed: 1
        resolve {
            draw 3
            discard (2, card, from hand)
        }
    }
}
"#;

const SCAPEGOAT: &str = r#"
card "Scapegoat" {
    id: 73915051
    type: Quick-Play Spell

    effect "Summon Sheep Tokens" {
        speed: 2
        resolve {
            create_token {
                name: "Sheep Token"
                attribute: EARTH
                race: Beast
                level: 1
                atk: 0
                def: 0
                count: 4
                position: defense_position
            }
        }
    }
}
"#;

const SPIRIT_REAPER: &str = r#"
card "Spirit Reaper" {
    id: 23205979
    type: Effect Monster
    attribute: DARK
    race: Zombie
    level: 3
    atk: 300
    def: 200

    passive "Indestructible" {
        scope: self
        grant: cannot_be_destroyed by battle
    }

    effect "Self-Destruct" {
        speed: 1
        mandatory
        trigger: targeted
        resolve {
            destroy self
        }
    }

    effect "Hand Rip" {
        speed: 1
        mandatory
        trigger: direct_attack_damage
        resolve {
            discard (1, card, opponent controls, in hand)
        }
    }
}
"#;

const AIRKNIGHT_PARSHATH: &str = r#"
card "Airknight Parshath" {
    id: 18036057
    type: Effect Monster
    attribute: LIGHT
    race: Fairy
    level: 5
    atk: 1900
    def: 1400

    summon {
        tributes: 1
    }

    passive "Piercing" {
        scope: self
        grant: piercing
    }

    effect "Draw On Damage" {
        speed: 1
        mandatory
        trigger: battle_damage to opponent
        resolve {
            draw 1
        }
    }
}
"#;

const GRAVEKEEPERS_SPY: &str = r#"
card "Gravekeeper's Spy" {
    id: 24317029
    type: Effect Monster | Flip
    attribute: DARK
    race: Spellcaster
    level: 4
    atk: 1200
    def: 2000

    effect "Summon Gravekeeper" {
        speed: 1
        mandatory
        trigger: flipped
        resolve {
            special_summon (1, monster, from deck)
        }
    }
}
"#;

const JINZO: &str = r#"
card "Jinzo" {
    id: 77585513
    type: Effect Monster
    attribute: DARK
    race: Machine
    level: 6
    atk: 2400
    def: 1500

    summon {
        tributes: 1
    }

    passive "Trap Lockdown" {
        scope: field
        negate_effects
    }
}
"#;

const THESTALOS: &str = r#"
card "Thestalos the Firestorm Monarch" {
    id: 26205777
    type: Effect Monster
    attribute: FIRE
    race: Pyro
    level: 6
    atk: 2400
    def: 1000

    summon {
        tributes: 1
    }

    effect "Discard and Burn" {
        speed: 1
        mandatory
        trigger: tribute_summoned
        resolve {
            discard (1, card, opponent controls, in hand)
        }
    }
}
"#;

const DARK_PALADIN: &str = r#"
card "Dark Paladin" {
    id: 98502113
    type: Fusion Monster | Effect Monster
    attribute: DARK
    race: Spellcaster
    level: 8
    atk: 2900
    def: 2400

    summon {
        cannot_normal_summon
        fusion materials: "Dark Magician" + "Buster Blader"
    }

    passive "Dragon Power" {
        scope: self
        modifier: atk + 500
    }

    effect "Negate Spell" {
        speed: 2
        trigger: spell_trap_activated
        cost {
            discard (1, card, from hand)
        }
        resolve {
            negate and destroy
        }
    }
}
"#;

const ENRAGED_BATTLE_OX: &str = r#"
card "Enraged Battle Ox" {
    id: 76909279
    type: Effect Monster
    attribute: EARTH
    race: Beast-Warrior
    level: 4
    atk: 1700
    def: 1000

    passive "Piercing Damage" {
        scope: field
        grant: piercing
    }
}
"#;

const DARK_FLARE_KNIGHT: &str = r#"
card "Dark Flare Knight" {
    id: 13722870
    type: Fusion Monster | Effect Monster
    attribute: DARK
    race: Warrior
    level: 6
    atk: 2200
    def: 800

    summon {
        cannot_normal_summon
        fusion materials: "Dark Magician" + "Mirage Dragon"
    }
}
"#;

const CYBER_DRAGON: &str = r#"
card "Cyber Dragon" {
    id: 70095154
    type: Effect Monster
    attribute: LIGHT
    race: Machine
    level: 5
    atk: 2100
    def: 1600

    summon {
        tributes: 1
        special_summon_procedure {
            from: hand
        }
    }
}
"#;

#[test]
fn test_pot_of_greed() {
    let source = POT_OF_GREED;
    let file = parse_v2(source).unwrap();
    assert_eq!(file.cards.len(), 1);
    let card = &file.cards[0];
    assert_eq!(card.name, "Pot of Greed");
    assert_eq!(card.fields.id, Some(55144522));
    assert_eq!(card.fields.card_types, vec![CardType::NormalSpell]);
    assert_eq!(card.effects.len(), 1);
    assert_eq!(card.effects[0].name, "Draw 2");
    assert_eq!(card.effects[0].speed, Some(1));
    assert_eq!(card.effects[0].resolve.len(), 1);
}

#[test]
fn test_lava_golem() {
    let source = LAVA_GOLEM;
    let file = parse_v2(source).unwrap();
    assert_eq!(file.cards.len(), 1);
    let card = &file.cards[0];
    assert_eq!(card.name, "Lava Golem");
    assert_eq!(card.fields.id, Some(102380));
    assert_eq!(card.fields.attribute, Some(Attribute::Fire));
    assert_eq!(card.fields.race, Some(Race::Fiend));
    assert!(card.summon.is_some());
    let summon = card.summon.as_ref().unwrap();
    assert!(summon.cannot_normal_summon);
    assert!(summon.special_summon_procedure.is_some());
    assert_eq!(card.effects.len(), 1);
    assert!(card.effects[0].mandatory);
    assert_eq!(card.effects[0].who, Some(PlayerWho::Controller));
}

#[test]
fn test_mirror_force() {
    let source = MIRROR_FORCE;
    let file = parse_v2(source).unwrap();
    assert_eq!(file.cards.len(), 1);
    let card = &file.cards[0];
    assert_eq!(card.name, "Mirror Force");
    assert_eq!(card.fields.card_types, vec![CardType::NormalTrap]);
    assert_eq!(card.effects.len(), 1);
    assert_eq!(card.effects[0].speed, Some(2));
    assert_eq!(card.effects[0].resolve.len(), 1);
}

#[test]
fn test_sangan() {
    let source = SANGAN;
    let file = parse_v2(source).unwrap();
    assert_eq!(file.cards.len(), 1);
    let card = &file.cards[0];
    assert_eq!(card.name, "Sangan");
    assert_eq!(card.fields.attribute, Some(Attribute::Dark));
    assert_eq!(card.effects.len(), 1);
    assert!(card.effects[0].mandatory);
    assert!(card.effects[0].frequency.is_some());
    assert_eq!(card.effects[0].resolve.len(), 2);
}

#[test]
fn test_solemn_judgment() {
    let source = SOLEMN_JUDGMENT;
    let file = parse_v2(source).unwrap();
    assert_eq!(file.cards.len(), 1);
    let card = &file.cards[0];
    assert_eq!(card.name, "Solemn Judgment");
    assert_eq!(card.fields.card_types, vec![CardType::CounterTrap]);
    assert_eq!(card.effects.len(), 1);
    assert_eq!(card.effects[0].speed, Some(3));
    assert_eq!(card.effects[0].cost.len(), 1);
    assert_eq!(card.effects[0].resolve.len(), 1);
}

#[test]
fn test_raigeki() {
    let file = parse_v2(RAIGEKI).unwrap();
    assert_eq!(file.cards[0].name, "Raigeki");
    assert_eq!(file.cards[0].effects[0].resolve.len(), 1);
}

#[test]
fn test_heavy_storm() {
    let file = parse_v2(HEAVY_STORM).unwrap();
    assert_eq!(file.cards[0].name, "Heavy Storm");
    assert_eq!(file.cards[0].effects[0].resolve.len(), 2);
}

#[test]
fn test_book_of_moon() {
    let file = parse_v2(BOOK_OF_MOON).unwrap();
    let card = &file.cards[0];
    assert_eq!(card.name, "Book of Moon");
    assert_eq!(card.fields.card_types, vec![CardType::QuickPlaySpell]);
    assert!(card.effects[0].target.is_some());
    assert_eq!(card.effects[0].speed, Some(2));
}

#[test]
fn test_waboku() {
    let file = parse_v2(WABOKU).unwrap();
    assert_eq!(file.cards[0].name, "Waboku");
    assert_eq!(file.cards[0].fields.card_types, vec![CardType::NormalTrap]);
    assert_eq!(file.cards[0].effects[0].resolve.len(), 1);
}

#[test]
fn test_graceful_charity() {
    let file = parse_v2(GRACEFUL_CHARITY).unwrap();
    assert_eq!(file.cards[0].name, "Graceful Charity");
    assert_eq!(file.cards[0].effects[0].resolve.len(), 2);
}

#[test]
fn test_scapegoat() {
    let file = parse_v2(SCAPEGOAT).unwrap();
    assert_eq!(file.cards[0].name, "Scapegoat");
    assert_eq!(file.cards[0].effects[0].speed, Some(2));
}

#[test]
fn test_spirit_reaper() {
    let file = parse_v2(SPIRIT_REAPER).unwrap();
    let card = &file.cards[0];
    assert_eq!(card.name, "Spirit Reaper");
    assert_eq!(card.passives.len(), 1);
    assert_eq!(card.effects.len(), 2);
    assert!(card.effects[0].mandatory);
}

#[test]
fn test_airknight_parshath() {
    let file = parse_v2(AIRKNIGHT_PARSHATH).unwrap();
    let card = &file.cards[0];
    assert_eq!(card.name, "Airknight Parshath");
    assert!(card.summon.is_some());
    assert_eq!(card.passives.len(), 1);
    assert_eq!(card.effects.len(), 1);
}

#[test]
fn test_gravekeepers_spy() {
    let file = parse_v2(GRAVEKEEPERS_SPY).unwrap();
    let card = &file.cards[0];
    assert_eq!(card.name, "Gravekeeper's Spy");
    assert!(card.fields.card_types.contains(&CardType::Flip));
    assert_eq!(card.effects.len(), 1);
}

#[test]
fn test_jinzo() {
    let file = parse_v2(JINZO).unwrap();
    let card = &file.cards[0];
    assert_eq!(card.name, "Jinzo");
    assert!(card.summon.is_some());
    assert_eq!(card.passives.len(), 1);
    assert!(card.passives[0].negate_effects);
}

#[test]
fn test_thestalos() {
    let file = parse_v2(THESTALOS).unwrap();
    let card = &file.cards[0];
    assert_eq!(card.name, "Thestalos the Firestorm Monarch");
    assert!(card.effects[0].mandatory);
    assert_eq!(card.effects[0].resolve.len(), 1);
}

#[test]
fn test_dark_paladin() {
    let file = parse_v2(DARK_PALADIN).unwrap();
    let card = &file.cards[0];
    assert_eq!(card.name, "Dark Paladin");
    assert!(card.fields.card_types.contains(&CardType::FusionMonster));
    assert!(card.summon.is_some());
    assert_eq!(card.effects.len(), 1);
    assert_eq!(card.passives.len(), 1);
    assert_eq!(card.effects[0].cost.len(), 1);
}

#[test]
fn test_pot_of_greed_valid() {
    let file = parse_v2(POT_OF_GREED).unwrap();
    let report = validate_v2(&file);
    assert_eq!(report.error_count(), 0, "errors: {:?}", report.errors);
}

#[test]
fn test_lava_golem_valid() {
    let file = parse_v2(LAVA_GOLEM).unwrap();
    let report = validate_v2(&file);
    assert_eq!(report.error_count(), 0, "errors: {:?}", report.errors);
}

#[test]
fn test_mirror_force_valid() {
    let file = parse_v2(MIRROR_FORCE).unwrap();
    let report = validate_v2(&file);
    assert_eq!(report.error_count(), 0, "errors: {:?}", report.errors);
}

#[test]
fn test_sangan_valid() {
    let file = parse_v2(SANGAN).unwrap();
    let report = validate_v2(&file);
    assert_eq!(report.error_count(), 0, "errors: {:?}", report.errors);
}

#[test]
fn test_solemn_judgment_valid() {
    let file = parse_v2(SOLEMN_JUDGMENT).unwrap();
    let report = validate_v2(&file);
    assert_eq!(report.error_count(), 0, "errors: {:?}", report.errors);
}

#[test]
fn every_sample_card_parses_and_validates_without_errors() {
    let all = [
        POT_OF_GREED, LAVA_GOLEM, MIRROR_FORCE, SANGAN, SOLEMN_JUDGMENT, RAIGEKI, HEAVY_STORM,
        BOOK_OF_MOON, WABOKU, GRACEFUL_CHARITY, SCAPEGOAT, SPIRIT_REAPER, AIRKNIGHT_PARSHATH,
        GRAVEKEEPERS_SPY, JINZO, THESTALOS, DARK_PALADIN,
    ];
    for src in all {
        let file = parse_v2(src).unwrap();
        let report = validate_v2(&file);
        assert_eq!(report.error_count(), 0, "{}: {:?}", file.cards[0].name, report.errors);
    }
}

#[test]
fn every_sample_card_formats_to_text_that_parses_back() {
    let all = [
        POT_OF_GREED, LAVA_GOLEM, MIRROR_FORCE, SANGAN, SOLEMN_JUDGMENT, RAIGEKI, HEAVY_STORM,
        BOOK_OF_MOON, WABOKU, GRACEFUL_CHARITY, SCAPEGOAT, SPIRIT_REAPER, AIRKNIGHT_PARSHATH,
        GRAVEKEEPERS_SPY, JINZO, THESTALOS, DARK_PALADIN,
    ];
    for src in all {
        let file = parse_v2(src).unwrap();
        let text = format_file(&file);
        let again = parse_v2(&text).unwrap_or_else(|e| panic!("{}\n{}", text, e.message()));
        assert_eq!(again.cards.len(), file.cards.len());
        assert_eq!(again.cards[0].name, file.cards[0].name);
        assert_eq!(format_file(&again), text);
    }
}

#[test]
fn test_pot_of_greed_compile() {
    let file = parse_v2(POT_OF_GREED).unwrap();
    let c = compile_card_v2(&file.cards[0]);
    assert_eq!(c.card_id, 55144522);
    assert_eq!(c.effects.len(), 1);
    let e = &c.effects[0];
    assert_eq!(e.effect_type, tm::EFFECT_TYPE_ACTIVATE);
    assert_eq!(e.category, tm::CATEGORY_DRAW);
    assert_eq!(e.code, tm::EVENT_FREE_CHAIN);
    assert_eq!(e.range, tm::LOCATION_SZONE);
}


#[test]
fn test_raigeki_compile() {
    let file = parse_v2(RAIGEKI).unwrap();
    let c = compile_card_v2(&file.cards[0]);
    assert_eq!(c.effects.len(), 1);
    let e = &c.effects[0];
    assert_eq!(e.effect_type, tm::EFFECT_TYPE_ACTIVATE);
    assert_eq!(e.category, tm::CATEGORY_DESTROY);
    assert_eq!(e.code, tm::EVENT_FREE_CHAIN);
}


#[test]
fn test_mirror_force_compile() {
    let file = parse_v2(MIRROR_FORCE).unwrap();
    let c = compile_card_v2(&file.cards[0]);
    assert_eq!(c.effects.len(), 1);
    let e = &c.effects[0];
    assert_eq!(e.effect_type, tm::EFFECT_TYPE_ACTIVATE);
    assert_eq!(e.category, tm::CATEGORY_DESTROY);
    assert_eq!(e.code, tm::EVENT_ATTACK_ANNOUNCE);
    assert_eq!(e.range, tm::LOCATION_SZONE);
}


#[test]
fn test_solemn_judgment_compile() {
    let file = parse_v2(SOLEMN_JUDGMENT).unwrap();
    let c = compile_card_v2(&file.cards[0]);
    // Solemn expands to 3 effects (summon + flip_summon + spsummon)
    assert_eq!(c.effects.len(), 3);
    assert_eq!(c.effects[0].code, tm::EVENT_SUMMON);
    assert_eq!(c.effects[1].code, tm::EVENT_FLIP_SUMMON);
    assert_eq!(c.effects[2].code, tm::EVENT_SPSUMMON);
    assert_eq!(c.effects[0].category, tm::CATEGORY_NEGATE);
}


#[test]
fn test_sangan_compile() {
    let file = parse_v2(SANGAN).unwrap();
    let c = compile_card_v2(&file.cards[0]);
    assert_eq!(c.effects.len(), 1);
    let e = &c.effects[0];
    // Mandatory trigger on monster
    assert_ne!(e.effect_type & tm::EFFECT_TYPE_TRIGGER_F, 0);
    assert_ne!(e.effect_type & tm::EFFECT_TYPE_SINGLE, 0); // self-trigger
    assert_eq!(e.code, tm::EVENT_TO_GRAVE);
    assert_eq!(e.count_limit, Some((1, 26202165)));
    assert_eq!(e.range, 0); // self-trigger → range 0
}


#[test]
fn test_lava_golem_compile() {
    let file = parse_v2(LAVA_GOLEM).unwrap();
    let c = compile_card_v2(&file.cards[0]);
    // Special summon procedure + cannot normal summon + effect
    assert!(c.effects.len() >= 2);
    // Find the triggered effect
    let burn = c.effects.iter().find(|e| e.label == "Burn").unwrap();
    assert_ne!(burn.effect_type & tm::EFFECT_TYPE_TRIGGER_F, 0); // mandatory
    assert_eq!(burn.code, tm::EVENT_PHASE | tm::PHASE_STANDBY);
    assert_eq!(burn.category, tm::CATEGORY_DAMAGE);
}


#[test]
fn test_book_of_moon_compile() {
    let file = parse_v2(BOOK_OF_MOON).unwrap();
    let c = compile_card_v2(&file.cards[0]);
    assert_eq!(c.effects.len(), 1);
    let e = &c.effects[0];
    assert_eq!(e.effect_type, tm::EFFECT_TYPE_ACTIVATE);
    assert_ne!(e.property & tm::EFFECT_FLAG_CARD_TARGET, 0); // targets
    assert_eq!(e.range, tm::LOCATION_SZONE);
}


#[test]
fn test_graceful_charity_compile() {
    let file = parse_v2(GRACEFUL_CHARITY).unwrap();
    let c = compile_card_v2(&file.cards[0]);
    assert_eq!(c.effects.len(), 1);
    let e = &c.effects[0];
    assert_eq!(e.category, tm::CATEGORY_DRAW | tm::CATEGORY_HANDES);
}


#[test]
fn test_jinzo_compile() {
    let file = parse_v2(JINZO).unwrap();
    let c = compile_card_v2(&file.cards[0]);
    // summon (tributes: 1) + passive
    let passive = c.effects.iter().find(|e| e.label == "Trap Lockdown").unwrap();
    assert_ne!(passive.effect_type & tm::EFFECT_TYPE_FIELD, 0);
    assert_ne!(passive.effect_type & tm::EFFECT_TYPE_CONTINUOUS, 0);
    assert_eq!(passive.category, tm::CATEGORY_DISABLE);
    assert_eq!(passive.range, tm::LOCATION_MZONE);
}


#[test]
fn test_dark_paladin_compile() {
    let file = parse_v2(DARK_PALADIN).unwrap();
    let c = compile_card_v2(&file.cards[0]);
    // summon proc + passive + negate effect
    let negate = c.effects.iter().find(|e| e.label == "Negate Spell").unwrap();
    assert_eq!(negate.effect_type, tm::EFFECT_TYPE_QUICK_O); // speed 2 monster = Quick Effect
    assert_eq!(negate.code, tm::EVENT_CHAINING);
    assert_eq!(negate.category, tm::CATEGORY_NEGATE);

    let boost = c.effects.iter().find(|e| e.label == "Dragon Power").unwrap();
    assert_ne!(boost.effect_type & tm::EFFECT_TYPE_CONTINUOUS, 0);
    assert_eq!(boost.code, 100); // EFFECT_UPDATE_ATTACK
}


#[test]
fn test_spirit_reaper_compile() {
    let file = parse_v2(SPIRIT_REAPER).unwrap();
    let c = compile_card_v2(&file.cards[0]);
    // passive (indestructible) + 2 triggered effects
    let passive = c.effects.iter().find(|e| e.label == "Indestructible").unwrap();
    assert_ne!(passive.effect_type & tm::EFFECT_TYPE_SINGLE, 0);
    assert_eq!(passive.code, 30); // EFFECT_INDESTRUCTABLE_BATTLE

    let selfdestruct = c.effects.iter().find(|e| e.label == "Self-Destruct").unwrap();
    assert_ne!(selfdestruct.effect_type & tm::EFFECT_TYPE_TRIGGER_F, 0); // mandatory

    let rip = c.effects.iter().find(|e| e.label == "Hand Rip").unwrap();
    assert_eq!(rip.category, tm::CATEGORY_HANDES);
}


#[test]
fn test_pot_of_greed_executes() {
    let file = parse_v2(POT_OF_GREED).unwrap();
    let c = compile_card_v2(&file.cards[0]);
    let effect = &c.effects[0];
    let mut rt = MockRuntime::new();
    rt.effect_player = 0;
    rt.effect_card_id = 55144522;
    effect.operation.as_ref().unwrap().run(&mut rt);
    assert!(rt.was_called_with("draw", "count=2"));
}


#[test]
fn test_solemn_cost_pays_half_lp() {
    let file = parse_v2(SOLEMN_JUDGMENT).unwrap();
    let c = compile_card_v2(&file.cards[0]);
    let effect = &c.effects[0];
    let mut rt = MockRuntime::new();
    rt.effect_player = 0;
    rt.effect_card_id = 41420027;
    let cost_fn = effect.cost.as_ref().unwrap();
    assert!(cost_fn.run(&mut rt, true));
    cost_fn.run(&mut rt, false);
    assert_eq!(rt.get_lp(0), 4000);
}


#[test]
fn test_negate_and_destroy_executes() {
    let file = parse_v2(SOLEMN_JUDGMENT).unwrap();
    let c = compile_card_v2(&file.cards[0]);
    let effect = &c.effects[0];
    let mut rt = MockRuntime::new();
    rt.effect_player = 0;
    rt.effect_card_id = 41420027;
    effect.operation.as_ref().unwrap().run(&mut rt);
    assert!(rt.was_called_with("negate_activation", ""));
}


#[test]
fn test_lava_golem_damage_executes() {
    let file = parse_v2(LAVA_GOLEM).unwrap();
    let c = compile_card_v2(&file.cards[0]);
    let burn = c.effects.iter().find(|e| e.label == "Burn").unwrap();
    let mut rt = MockRuntime::new();
    rt.effect_player = 0;
    rt.effect_card_id = 102380;
    burn.operation.as_ref().unwrap().run(&mut rt);
    assert!(rt.was_called_with("damage", "1000"));
}


#[test]
fn test_graceful_charity_executes() {
    let file = parse_v2(GRACEFUL_CHARITY).unwrap();
    let c = compile_card_v2(&file.cards[0]);
    let effect = &c.effects[0];
    let mut rt = MockRuntime::new();
    rt.effect_player = 0;
    rt.effect_card_id = 79571449;
    effect.operation.as_ref().unwrap().run(&mut rt);
    assert!(rt.was_called_with("draw", "count=3"));
}


#[test]
fn test_thestalos_compile() {
    let file = parse_v2(THESTALOS).unwrap();
    let c = compile_card_v2(&file.cards[0]);
    let eff = c.effects.iter().find(|e| e.label == "Discard and Burn").unwrap();
    assert_ne!(eff.effect_type & tm::EFFECT_TYPE_TRIGGER_F, 0);
    assert_eq!(eff.code, tm::EVENT_SUMMON_SUCCESS);
    assert_eq!(eff.category, tm::CATEGORY_HANDES);
}



#[test]
fn test_passive_grant_emits_operation() {
    let file = parse_v2(ENRAGED_BATTLE_OX).unwrap();
    let c = compile_card_v2(&file.cards[0]);
    let passive = c.effects.iter().find(|e| e.label == "Piercing Damage").unwrap();
    assert!(passive.operation.is_some(),
        "passive with grant should have operation; got None");
    let mut rt = MockRuntime::new();
    rt.effect_card_id = 76909279;
    rt.effect_player = 0;
    passive.operation.as_ref().unwrap().run(&mut rt);
    assert!(rt.was_called_with("register_grant", "grant=0x60"),
        "expected register_grant with piercing code 0x60; calls: {}", rt.dump_calls());
}


#[test]
fn test_passive_negate_effects_emits_operation() {
    let file = parse_v2(JINZO).unwrap();
    let c = compile_card_v2(&file.cards[0]);
    let passive = c.effects.iter().find(|e| e.label == "Trap Lockdown").unwrap();
    assert!(passive.operation.is_some(),
        "negate_effects passive should have operation; got None");
    let mut rt = MockRuntime::new();
    rt.effect_card_id = 77585513;
    rt.effect_player = 0;
    passive.operation.as_ref().unwrap().run(&mut rt);
    assert!(rt.was_called_with("negate_effect", ""),
        "expected negate_effect call; calls: {}", rt.dump_calls());
}


#[test]
fn test_passive_atk_modifier_emits_modify_atk() {
    let file = parse_v2(DARK_PALADIN).unwrap();
    let c = compile_card_v2(&file.cards[0]);
    let passive = c.effects.iter().find(|e| e.label == "Dragon Power").unwrap();
    assert!(passive.operation.is_some(),
        "ATK modifier passive should have operation; got None");
    let mut rt = MockRuntime::new();
    rt.effect_card_id = 98502113;
    rt.effect_player = 0;
    // No dragons on field → count = 0, delta = 0*500 = 0; call still happens
    rt.state.add_card(CardSnapshot::monster(98502113, "Dark Paladin", 2900, 2400, 8));
    rt.state.players[0].field_monsters.push(98502113);
    passive.operation.as_ref().unwrap().run(&mut rt);
    assert!(rt.was_called_with("modify_atk", ""),
        "expected modify_atk call; calls: {}", rt.dump_calls());
}


#[test]
fn test_fusion_summon_op_calls_fusion_summon() {
    let file = parse_v2(DARK_FLARE_KNIGHT).unwrap();
    let c = compile_card_v2(&file.cards[0]);
    let proc_effect = c.effects.iter().find(|e| e.label == "Summon Procedure")
        .expect("expected 'Summon Procedure' effect");
    assert!(proc_effect.operation.is_some(),
        "fusion monster should have operation=Some(_) on Summon Procedure");

    let mut rt = MockRuntime::new();
    rt.effect_player = 0;
    if let Some(ref op) = proc_effect.operation {
        op.run(&mut rt);
    }
    let log = rt.dump_calls();
    assert!(log.contains("fusion_summon"),
        "operation should call fusion_summon; got: {}", log);
}


#[test]
fn test_special_summon_proc_op_calls_special_summon() {
    let file = parse_v2(CYBER_DRAGON).unwrap();
    let c = compile_card_v2(&file.cards[0]);
    let ssp = c.effects.iter().find(|e| e.label == "Special Summon Procedure")
        .expect("expected 'Special Summon Procedure' effect");
    assert!(ssp.operation.is_some(),
        "Cyber Dragon should have operation=Some(_) on Special Summon Procedure");

    let mut rt = MockRuntime::new();
    rt.effect_player = 0;
    if let Some(ref op) = ssp.operation {
        op.run(&mut rt);
    }
    let log = rt.dump_calls();
    assert!(log.contains("special_summon"),
        "operation should call special_summon; got: {}", log);
}



fn roundtrip(source: &str) {
    let file = parse_v2(source).unwrap_or_else(|e| panic!("parse error: {}", e.message()));
    let formatted = format_file(&file);
    let reparsed = parse_v2(&formatted)
        .unwrap_or_else(|e| panic!("roundtrip failed:\n=== output ===\n{}\n=== error ===\n{}", formatted, e.message()));
    assert_eq!(reparsed.cards.len(), file.cards.len());
    assert_eq!(reparsed.cards[0].name, file.cards[0].name);
}

#[test]
fn test_pot_of_greed_roundtrips() { roundtrip(POT_OF_GREED); }
#[test]
fn test_raigeki_roundtrips() { roundtrip(RAIGEKI); }
#[test]
fn test_mirror_force_roundtrips() { roundtrip(MIRROR_FORCE); }
#[test]
fn test_sangan_roundtrips() { roundtrip(SANGAN); }
#[test]
fn test_solemn_judgment_roundtrips() { roundtrip(SOLEMN_JUDGMENT); }
#[test]
fn test_lava_golem_roundtrips() { roundtrip(LAVA_GOLEM); }
#[test]
fn test_graceful_charity_roundtrips() { roundtrip(GRACEFUL_CHARITY); }
#[test]
fn test_scapegoat_roundtrips() { roundtrip(SCAPEGOAT); }
#[test]
fn test_dark_paladin_roundtrips() { roundtrip(DARK_PALADIN); }
#[test]
fn test_jinzo_roundtrips() { roundtrip(JINZO); }
