use tamagotchi::face::FacialExpression;
use tamagotchi::pet::{ActionReport, Recovery, RenderSnapshot, Tamagotchi};

fn history(p: &Tamagotchi) -> Vec<String> {
    p.recent_actions()
}

#[test]
fn new_pet_starts_calm_and_healthy() {
    let p = Tamagotchi::new();
    assert_eq!(p.face(), FacialExpression::Calm);
    assert_eq!(p.pleasure_scale(), 0);
    assert_eq!(p.check_hp(), 10);
    assert!(p.light_on());
    assert_eq!(p.sleep_since(), 0);
    assert!(history(&p).is_empty());
}

#[test]
fn change_face_sets_expression() {
    let mut p = Tamagotchi::new();
    p.change_face(FacialExpression::Surprised);
    assert_eq!(p.face(), FacialExpression::Surprised);
    assert_eq!(p.display_face(), "ヽ(°〇°)ﾉ");
}

#[test]
fn three_eats_then_refusal() {
    let mut p = Tamagotchi::new();
    assert_eq!(p.process_action("E", 0), ActionReport::Ate);
    assert_eq!(p.pleasure_scale(), 1);
    assert_eq!(p.face(), FacialExpression::Calm);
    assert_eq!(p.process_action("E", 1), ActionReport::Ate);
    assert_eq!(p.pleasure_scale(), 2);
    assert_eq!(p.face(), FacialExpression::Calm);
    assert_eq!(p.process_action("E", 2), ActionReport::Ate);
    assert_eq!(p.pleasure_scale(), 3);
    assert_eq!(history(&p), vec!["E".to_string(), "E".to_string(), "E".to_string()]);
    assert_eq!(p.process_action("E", 3), ActionReport::Refused);
    assert_eq!(p.face(), FacialExpression::Angry);
    assert_eq!(p.pleasure_scale(), 2);
    assert_eq!(history(&p), vec!["E".to_string(), "E".to_string(), "E".to_string()]);
}

#[test]
fn repeated_refusals_cost_one_point_each_down_to_zero() {
    let mut p = Tamagotchi::new();
    for t in 0..3u64 {
        p.process_action("e", t);
    }
    assert_eq!(p.pleasure_scale(), 3);
    let expected = [2u32, 1, 0, 0, 0];
    for (i, want) in expected.iter().enumerate() {
        assert_eq!(p.process_action("e", 10 + i as u64), ActionReport::Refused);
        assert_eq!(p.face(), FacialExpression::Angry);
        assert_eq!(p.pleasure_scale(), *want);
        assert_eq!(history(&p).len(), 3);
    }
}

#[test]
fn pleasure_is_capped_at_ten() {
    let mut p = Tamagotchi::new();
    for i in 0..14u64 {
        let t = if i % 2 == 0 { "E" } else { "e" };
        assert_eq!(p.process_action(t, i), ActionReport::Ate);
        assert!(p.pleasure_scale() <= 10);
    }
    assert_eq!(p.pleasure_scale(), 10);
}

#[test]
fn history_keeps_three_most_recent_eats() {
    let mut p = Tamagotchi::new();
    p.process_action("E", 0);
    p.process_action("e", 1);
    p.process_action("E", 2);
    p.process_action("E", 3);
    assert_eq!(history(&p), vec!["e".to_string(), "E".to_string(), "E".to_string()]);
    assert_eq!(p.process_action("E", 4), ActionReport::Ate);
    assert_eq!(history(&p), vec!["E".to_string(), "E".to_string(), "E".to_string()]);
    assert_eq!(p.process_action("E", 5), ActionReport::Refused);
}

#[test]
fn case_change_bypasses_refusal() {
    let mut p = Tamagotchi::new();
    for t in 0..3u64 {
        p.process_action("E", t);
    }
    assert_eq!(p.process_action("e", 3), ActionReport::Ate);
    assert_eq!(p.pleasure_scale(), 4);
    assert_eq!(p.face(), FacialExpression::Calm);
}

#[test]
fn light_and_hp_are_never_refused() {
    let mut p = Tamagotchi::new();
    for t in 0..6u64 {
        assert_eq!(p.process_action("H", t), ActionReport::Hp(10));
    }
    for t in 0..6u64 {
        let r = p.process_action("L", 10 + t);
        assert!(r == ActionReport::LightOff || r == ActionReport::LightOn);
    }
    assert!(history(&p).is_empty());
    assert_eq!(p.face(), FacialExpression::Calm);
}

#[test]
fn light_off_sleeps_and_light_on_wakes_calm() {
    let mut p = Tamagotchi::new();
    assert_eq!(p.process_action("L", 5), ActionReport::LightOff);
    assert!(!p.light_on());
    assert_eq!(p.face(), FacialExpression::Sleeping);
    assert_eq!(p.sleep_since(), 5);
    assert_eq!(p.process_action("l", 9), ActionReport::LightOn);
    assert!(p.light_on());
    assert_eq!(p.face(), FacialExpression::Calm);
    assert_eq!(p.sleep_since(), 9);
}

#[test]
fn light_off_from_angry_sleeps_and_light_on_keeps_other_mood() {
    let mut p = Tamagotchi::new();
    for t in 0..4u64 {
        p.process_action("E", t);
    }
    assert_eq!(p.face(), FacialExpression::Angry);
    assert!(!p.toggle_light(10));
    assert_eq!(p.face(), FacialExpression::Sleeping);
    p.eat();
    assert_eq!(p.face(), FacialExpression::Calm);
    assert!(p.toggle_light(11));
    assert_eq!(p.face(), FacialExpression::Calm);
    p.change_face(FacialExpression::Angry);
    assert!(!p.toggle_light(12));
    assert!(p.toggle_light(13));
    assert_eq!(p.face(), FacialExpression::Calm);
}

#[test]
fn recovery_waits_twenty_seconds() {
    let mut p = Tamagotchi::new();
    p.process_action("L", 100);
    assert_eq!(p.restore_hp(119), Recovery::NotYetEligible);
    assert_eq!(p.sleep_since(), 100);
    assert_eq!(p.check_hp(), 10);
    assert_eq!(p.restore_hp(120), Recovery::Restored);
    assert_eq!(p.check_hp(), 10);
    assert_eq!(p.sleep_since(), 120);
    assert_eq!(p.restore_hp(139), Recovery::NotYetEligible);
    assert_eq!(p.restore_hp(145), Recovery::Restored);
    assert_eq!(p.sleep_since(), 145);
}

#[test]
fn fresh_pet_light_off_then_recovery_stays_capped() {
    let mut p = Tamagotchi::new();
    p.process_action("L", 0);
    assert_eq!(p.restore_hp(20), Recovery::Restored);
    assert_eq!(p.check_hp(), 10);
    assert_eq!(p.sleep_since(), 20);
}

#[test]
fn recovery_before_sleep_start_is_not_due() {
    let mut p = Tamagotchi::new();
    p.process_action("L", 50);
    assert_eq!(p.restore_hp(10), Recovery::NotYetEligible);
    assert_eq!(p.sleep_since(), 50);
}

#[test]
fn unknown_token_changes_nothing() {
    let mut p = Tamagotchi::new();
    p.process_action("E", 0);
    let before = p.snapshot();
    assert_eq!(p.process_action("Q", 1), ActionReport::Invalid);
    assert_eq!(p.snapshot(), before);
    assert_eq!(p.face(), FacialExpression::Calm);
    assert_eq!(p.pleasure_scale(), 1);
    assert_eq!(history(&p), vec!["E".to_string()]);
    assert_eq!(p.process_action("EE", 2), ActionReport::Invalid);
}

#[test]
fn hp_token_reports_health() {
    let mut p = Tamagotchi::new();
    assert_eq!(p.process_action("h", 0), ActionReport::Hp(10));
    assert_eq!(p.check_hp(), 10);
}

#[test]
fn glyphs_are_exact() {
    assert_eq!(FacialExpression::Calm.glyph(), "(─‿‿─)");
    assert_eq!(FacialExpression::Happy.glyph(), "o(≧▽≦)o");
    assert_eq!(FacialExpression::Sad.glyph(), "(￣ヘ￣)");
    assert_eq!(FacialExpression::Confused.glyph(), "╮(￣ω￣;)╭");
    assert_eq!(FacialExpression::Surprised.glyph(), "ヽ(°〇°)ﾉ");
    assert_eq!(FacialExpression::Angry.glyph(), "(╯°□°)╯︵ ┻━┻");
    assert_eq!(FacialExpression::Sleeping.glyph(), "(－ω－) zzZ");
}

#[test]
fn menu_follows_the_light() {
    let mut p = Tamagotchi::new();
    assert_eq!(
        p.show_action_window(),
        vec!["Action Window:", "Press 'E' to eat.", "Press 'L' to turn off the light.", "Press 'X' to exit."]
    );
    p.toggle_light(1);
    assert_eq!(p.show_action_window()[2], "Press 'L' to turn on the light.");
    assert_eq!(p.display_face(), "(－ω－) zzZ");
}

#[test]
fn pleasure_bar_shows_filled_and_empty_cells() {
    let mut p = Tamagotchi::new();
    assert_eq!(p.display_pleasure_scale(), "┌░░░░░░░░░░┐");
    p.process_action("E", 0);
    p.process_action("e", 1);
    assert_eq!(p.display_pleasure_scale(), "┌▓▓░░░░░░░░┐");
    for i in 0..10u64 {
        let t = if i % 2 == 0 { "E" } else { "e" };
        p.process_action(t, 2 + i);
    }
    assert_eq!(p.display_pleasure_scale(), "┌▓▓▓▓▓▓▓▓▓▓┐");
}

#[test]
fn snapshot_reports_state() {
    let mut p = Tamagotchi::new();
    p.process_action("E", 0);
    p.process_action("L", 1);
    assert_eq!(
        p.snapshot(),
        RenderSnapshot { face: FacialExpression::Sleeping, hp: 10, pleasure: 1, light_on: false }
    );
}

#[test]
fn levels_stay_in_range_over_a_long_run() {
    let mut p = Tamagotchi::new();
    let tokens = ["E", "E", "E", "E", "L", "e", "x", "H", "L", "e", "e", "E", "l", "Q"];
    let mut now: u64 = 0;
    for round in 0..20u64 {
        for t in tokens.iter() {
            now += 7 + round;
            p.process_action(t, now);
            if !p.light_on() && p.face() == FacialExpression::Sleeping {
                p.restore_hp(now);
            }
            assert!(p.check_hp() <= 10);
            assert!(p.pleasure_scale() <= 10);
            assert!(history(&p).len() <= 3);
        }
    }
}
