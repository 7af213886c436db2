use duelscript::v2::mock_runtime::MockRuntime;
use duelscript::v2::runtime::{DamageType, DuelScriptRuntime};

#[test]
fn fresh_runtime_has_8000_lp() {
    let rt = MockRuntime::fresh();
    assert_eq!(rt.get_lp(0), 8000);
    assert_eq!(rt.get_lp(1), 8000);
}

#[test]
fn draw_records_and_moves_cards() {
    let mut rt = MockRuntime::fresh();
    rt.state.players[0].deck = vec![1, 2, 3];
    let drawn = rt.draw(0, 2);
    assert_eq!(drawn, 2);
    assert_eq!(rt.get_hand_count(0), 2);
    assert_eq!(rt.get_deck_count(0), 1);
    assert_eq!(rt.call_count("draw"), 1);
    assert!(rt.was_called_with("draw", "count=2"));
}

#[test]
fn damage_reduces_lp_and_records() {
    let mut rt = MockRuntime::fresh();
    rt.damage(1, 1500, DamageType::Effect);
    assert_eq!(rt.get_lp(1), 6500);
    assert_eq!(rt.call_count("damage"), 1);
}

#[test]
fn flag_set_clear_query() {
    let mut rt = MockRuntime::fresh();
    assert!(!rt.has_flag(42, "marked"));
    rt.register_flag(42, "marked", 0, 0);
    assert!(rt.has_flag(42, "marked"));
    rt.clear_flag(42, "marked");
    assert!(!rt.has_flag(42, "marked"));
}


