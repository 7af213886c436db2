use duelscript::v2::compiler::{compile_card_v2, CompiledEffectV2};
use duelscript::v2::constants::EVENT_SPSUMMON_SUCCESS;
use duelscript::v2::parser::parse_v2;
use duelscript::v2::segoc::{collect_simultaneous_triggers, PendingTrigger, SegocQueue};

fn pt(card_id: u32, controller: u8, mandatory: bool, label: &str) -> PendingTrigger {
    PendingTrigger::new(card_id, controller, mandatory, label, 1102)
}

#[test]
fn empty_queue_builds_empty_chain() {
    let queue = SegocQueue::new(0);
    assert!(queue.build_chain().is_empty());
}

#[test]
fn single_trigger_is_unchanged() {
    let mut queue = SegocQueue::new(0);
    queue.push(pt(1, 0, false, "Solo"));
    let chain = queue.build_chain();
    assert_eq!(chain.len(), 1);
    assert_eq!(chain[0].label, "Solo");
}

#[test]
fn simultaneous_triggers_turn_player_first() {
    // Turn player = 0. Two optional triggers: one from player 0, one from player 1.
    let mut queue = SegocQueue::new(0);
    // Pushed in reverse order to verify sorting, not insertion order, governs output.
    queue.push(pt(200, 1, false, "Opponent Trigger"));
    queue.push(pt(100, 0, false, "Turn Player Trigger"));

    let chain = queue.build_chain();
    assert_eq!(chain.len(), 2);
    // Turn-player's trigger must be index 0.
    assert_eq!(chain[0].card_id, 100, "expected turn-player trigger first");
    assert_eq!(chain[0].label, "Turn Player Trigger");
    assert_eq!(chain[1].card_id, 200, "expected opponent trigger second");
    assert_eq!(chain[1].label, "Opponent Trigger");
}

#[test]
fn mandatory_before_optional_same_player() {
    let mut queue = SegocQueue::new(0);
    // Turn-player optional first, then mandatory (insertion order).
    queue.push(pt(10, 0, false, "TP Optional"));
    queue.push(pt(20, 0, true,  "TP Mandatory"));
    let chain = queue.build_chain();
    assert_eq!(chain.len(), 2);
    assert_eq!(chain[0].label, "TP Mandatory");
    assert_eq!(chain[1].label, "TP Optional");
}

#[test]
fn full_four_bucket_ordering() {
    // Verify the canonical order: tp_mandatory, tp_optional, ntp_mandatory, ntp_optional.
    let mut queue = SegocQueue::new(0);
    queue.push(pt(4, 1, false, "NTP Optional"));
    queue.push(pt(3, 1, true,  "NTP Mandatory"));
    queue.push(pt(2, 0, false, "TP Optional"));
    queue.push(pt(1, 0, true,  "TP Mandatory"));

    let chain = queue.build_chain();
    assert_eq!(chain.len(), 4);
    assert_eq!(chain[0].label, "TP Mandatory",  "slot 0 = tp mandatory");
    assert_eq!(chain[1].label, "TP Optional",   "slot 1 = tp optional");
    assert_eq!(chain[2].label, "NTP Mandatory", "slot 2 = ntp mandatory");
    assert_eq!(chain[3].label, "NTP Optional",  "slot 3 = ntp optional");
}

#[test]
fn insertion_order_preserved_within_group() {
    // Both triggers belong to the turn player and are optional.
    // Insertion order must be preserved within the group.
    let mut queue = SegocQueue::new(0);
    queue.push(pt(1, 0, false, "First"));
    queue.push(pt(2, 0, false, "Second"));
    queue.push(pt(3, 0, false, "Third"));
    let chain = queue.build_chain();
    assert_eq!(chain.len(), 3);
    assert_eq!(chain[0].label, "First");
    assert_eq!(chain[1].label, "Second");
    assert_eq!(chain[2].label, "Third");
}

#[test]
fn peek_chain_does_not_consume() {
    let mut queue = SegocQueue::new(0);
    queue.push(pt(1, 0, false, "A"));
    queue.push(pt(2, 1, false, "B"));
    let _ = queue.peek_chain();
    // Queue should still be intact.
    assert_eq!(queue.len(), 2);
}

#[test]
fn segoc_two_triggers_same_event_correct_order() {

    // Card A: turn player (player 0) — optional trigger on special summon.
    let card_a_src = r#"
card "Segoc Card Alpha" {
    id: 99101
    type: Effect Monster
    attribute: LIGHT
    race: Warrior
    level: 4
    atk: 1800
    def: 1200

    effect "Alpha Trigger" {
    speed: 1
    trigger: special_summoned
    timing: if
    resolve {
        draw 1
    }
}
}
"#;
    // Card B: opponent (player 1) — optional trigger on special summon.
    let card_b_src = r#"
card "Segoc Card Beta" {
    id: 99102
    type: Effect Monster
    attribute: DARK
    race: Spellcaster
    level: 4
    atk: 1600
    def: 1400

    effect "Beta Trigger" {
    speed: 1
    trigger: special_summoned
    timing: if
    resolve {
        gain_lp 500
    }
}
}
"#;
    let file_a = parse_v2(card_a_src).unwrap();
    let compiled_a = compile_card_v2(&file_a.cards[0]);
    let file_b = parse_v2(card_b_src).unwrap();
    let compiled_b = compile_card_v2(&file_b.cards[0]);

    // Both cards have exactly one trigger effect.
    let effect_a = &compiled_a.effects[0];
    let effect_b = &compiled_b.effects[0];
    assert_eq!(effect_a.label, "Alpha Trigger");
    assert_eq!(effect_b.label, "Beta Trigger");

    // The event both respond to is EVENT_SPSUMMON_SUCCESS (1102).
    let event = EVENT_SPSUMMON_SUCCESS;

    // Build SEGOC queue. Player 0 is the turn player.
    // Alpha belongs to player 0, Beta to player 1.
    let effects: Vec<(&CompiledEffectV2, u32)> = vec![
        (effect_a, 99101u32),
        (effect_b, 99102u32),
    ];
    let controller_for = |card_id: u32| -> u8 {
        if card_id == 99101 { 0 } else { 1 }
    };

    let queue = collect_simultaneous_triggers(&effects, event, 0, controller_for);
    assert_eq!(queue.len(), 2, "both triggers must be collected");

    let chain = queue.build_chain();
    assert_eq!(chain.len(), 2);

    // Turn player's trigger must come first.
    assert_eq!(chain[0].card_id, 99101, "Alpha (tp) must be chain[0]");
    assert_eq!(chain[0].label, "Alpha Trigger");
    assert_eq!(chain[1].card_id, 99102, "Beta (opponent) must be chain[1]");
    assert_eq!(chain[1].label, "Beta Trigger");

    // Neither is mandatory — both should be optional triggers.
    assert!(!chain[0].is_mandatory);
    assert!(!chain[1].is_mandatory);
}

#[test]
fn segoc_mandatory_ntp_before_optional_ntp() {
    let mut queue = SegocQueue::new(0);
    queue.push(pt(10, 0, false, "TP Optional A"));
    queue.push(pt(20, 1, false, "NTP Optional"));
    queue.push(pt(30, 1, true,  "NTP Mandatory"));
    let chain = queue.build_chain();
    assert_eq!(chain.len(), 3);
    assert_eq!(chain[0].label, "TP Optional A");
    assert_eq!(chain[1].label, "NTP Mandatory");
    assert_eq!(chain[2].label, "NTP Optional");
}

#[test]
fn segoc_turn_player_1_goes_first() {
    let mut queue = SegocQueue::new(1); // player 1 is the turn player
    queue.push(pt(10, 0, false, "Player 0 Effect"));
    queue.push(pt(20, 1, false, "Player 1 Effect"));
    let chain = queue.build_chain();
    assert_eq!(chain.len(), 2);
    assert_eq!(chain[0].card_id, 20, "player 1 (turn player) must go first");
    assert_eq!(chain[1].card_id, 10);
}


