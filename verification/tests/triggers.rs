use openpresenter::triggers::{
    macro_add, macro_remove, macro_toggle_loop, trigger_fired, Macro, Timer, TriggerAction,
    TriggerEffect,
};

#[test]
fn clock_tick_shows_time_of_day_and_running_seconds() {
    let mut t = Timer::new();
    t.tick_at(86_400 * 3 + 3_725);
    assert_eq!(t.clock_secs, 3_725);
    assert_eq!(t.secs, 0);
    t.toggle_at(1_000);
    assert!(t.running);
    assert_eq!(t.start_epoch, 1_000);
    t.tick_at(1_042);
    assert_eq!(t.secs, 42);
    // A clock that reads before the start shows zero.
    t.tick_at(900);
    assert_eq!(t.secs, 0);
}

#[test]
fn paused_time_is_not_counted() {
    let mut t = Timer::new();
    t.toggle_at(100);
    t.tick_at(130);
    assert_eq!(t.secs, 30);
    t.toggle_at(130);
    assert!(!t.running);
    t.tick_at(500);
    assert_eq!(t.secs, 30);
    t.toggle_at(500);
    assert_eq!(t.start_epoch, 470);
    t.tick_at(510);
    assert_eq!(t.secs, 40);
}

#[test]
fn reset_stops_at_zero() {
    let mut t = Timer::new();
    t.toggle_at(10);
    t.tick_at(20);
    t.reset_at(25);
    assert!(!t.running);
    assert_eq!(t.secs, 0);
    assert_eq!(t.start_epoch, 25);
}

#[test]
fn trigger_actions() {
    let mut t = Timer::new();
    assert!(matches!(trigger_fired(&mut t, TriggerAction::NextSlide), TriggerEffect::NextSlide));
    assert!(matches!(trigger_fired(&mut t, TriggerAction::PrevSlide), TriggerEffect::PrevSlide));
    assert!(matches!(trigger_fired(&mut t, TriggerAction::GotoSlide(4)), TriggerEffect::GotoSlide(4)));
    assert!(matches!(trigger_fired(&mut t, TriggerAction::ClearOutput), TriggerEffect::SetBlack(true)));
    assert!(matches!(
        trigger_fired(&mut t, TriggerAction::BlackScreen(false)),
        TriggerEffect::SetBlack(false)
    ));
    match trigger_fired(&mut t, TriggerAction::TriggerProp("logo".to_string())) {
        TriggerEffect::ToggleProp(id) => assert_eq!(id, "logo"),
        other => panic!("unexpected {:?}", other),
    }
    assert_eq!(t, Timer::new());

    t.tick_at(3_600);
    assert!(matches!(trigger_fired(&mut t, TriggerAction::StartTimer), TriggerEffect::TimerOnly));
    assert!(t.running);
    assert_eq!(t.start_epoch, 3_600);
    t.start_epoch = 7;
    trigger_fired(&mut t, TriggerAction::StartTimer);
    assert_eq!(t.start_epoch, 7);
    t.secs = 12;
    trigger_fired(&mut t, TriggerAction::StopTimer);
    assert!(!t.running);
    assert_eq!(t.secs, 12);
    trigger_fired(&mut t, TriggerAction::ResetTimer);
    assert_eq!(t.secs, 0);
    assert!(!t.running);
}

#[test]
fn macro_names_and_looping() {
    let mut added = Vec::new();
    assert!(macro_add(&mut added, "  Walk-in  "));
    assert!(!macro_add(&mut added, "   "));
    assert_eq!(added.len(), 1);
    assert_eq!(added[0].name, "Walk-in");
    assert!(!added[0].looping);
    assert_eq!(added[0].id.len(), 36);
    let mut ms = vec![
        Macro { id: "m1".to_string(), name: "A".to_string(), looping: false },
        Macro { id: "m2".to_string(), name: "B".to_string(), looping: true },
    ];
    macro_toggle_loop(&mut ms, &"m2".to_string());
    assert!(!ms[0].looping);
    assert!(!ms[1].looping);
    macro_toggle_loop(&mut ms, &"m1".to_string());
    assert!(ms[0].looping);
    macro_toggle_loop(&mut ms, &"none".to_string());
    assert!(ms[0].looping && !ms[1].looping);
}

#[test]
fn removing_macros() {
    let mut ms = vec![
        Macro { id: "m1".to_string(), name: "A".to_string(), looping: false },
        Macro { id: "m2".to_string(), name: "B".to_string(), looping: true },
        Macro { id: "m1".to_string(), name: "C".to_string(), looping: false },
    ];
    macro_remove(&mut ms, &"m1".to_string());
    assert_eq!(ms.len(), 1);
    assert_eq!(ms[0].name, "B");
    macro_remove(&mut ms, &"zz".to_string());
    assert_eq!(ms.len(), 1);
}

#[test]
fn stopping_and_resetting_keep_the_clock() {
    let mut t = Timer::new();
    t.tick_at(500);
    t.toggle_at(400);
    trigger_fired(&mut t, TriggerAction::StopTimer);
    assert_eq!((t.start_epoch, t.clock_secs), (400, 500));
    trigger_fired(&mut t, TriggerAction::ResetTimer);
    assert_eq!((t.start_epoch, t.clock_secs, t.secs), (400, 500, 0));
}
