use jam_games::fnaf::{
    bear_door_open, defeat, discharge_sources, faz_clock, handle_faz, handle_faz_time, handle_game_logic,
    handle_rects, init_rects, play_mem, roll_bear, time_suffix, win, MemTimer, Battery, BearData, BearEvent, BearPresence, BearRolls,
    DefeatStep, EnvironmentData, FazTime, FnafPointer, FnafSound, MousePos, WinStep,
};
use jam_games::states::AppState;

fn nothing() -> FnafPointer {
    FnafPointer { faz: false, red_left: false, red_right: false, white_left: false, white_right: false }
}

#[test]
fn night_starts_with_doors_open() {
    let e = EnvironmentData::new();
    assert!(e.left_door_open && e.right_door_open && !e.left_light_on && !e.right_light_on);
    let d = EnvironmentData::default();
    assert!(!d.left_door_open && !d.right_door_open);
}

#[test]
fn buttons_under_the_cursor() {
    let rects = init_rects();
    assert_eq!(rects.pointer(&MousePos(None)), nothing());
    let p = rects.pointer(&MousePos(Some((-14000, 10000))));
    assert!(p.faz && !p.red_left && !p.white_right);
    let p = rects.pointer(&MousePos(Some((-77000, 0))));
    assert!(p.red_left && !p.faz);
    let p = rects.pointer(&MousePos(Some((78000, -15000))));
    assert!(p.white_right && !p.red_right);
    let edge = rects.pointer(&MousePos(Some((-80952, -3675))));
    assert!(edge.red_left);
    let outside = rects.pointer(&MousePos(Some((0, 0))));
    assert_eq!(outside, nothing());
}

#[test]
fn door_button_toggles_door_twice_back() {
    let mut env = EnvironmentData::new();
    let click = FnafPointer { red_left: true, ..nothing() };
    let bear = BearPresence { bear_here: false, right: false };
    let fx = handle_rects(&mut env, click, true, false, bear);
    assert!(!env.left_door_open);
    assert_eq!(fx.scene.l_door, Some(true));
    assert_eq!(fx.scene.l_redlight, Some(true));
    assert_eq!(fx.sounds, vec![FnafSound::OpenDoor]);
    let fx = handle_rects(&mut env, click, true, false, bear);
    assert!(env.left_door_open);
    assert_eq!(fx.scene.l_door, Some(false));
    assert_eq!(fx.sounds, vec![FnafSound::CloseDoor]);
    assert!(env.right_door_open);
}

#[test]
fn nose_beats_doors() {
    let mut env = EnvironmentData::new();
    let p = FnafPointer { faz: true, red_left: true, ..nothing() };
    let fx = handle_rects(&mut env, p, true, false, BearPresence { bear_here: false, right: false });
    assert_eq!(fx.sounds, vec![FnafSound::Faz]);
    assert!(env.left_door_open);
}

#[test]
fn light_shows_the_bear() {
    let mut env = EnvironmentData::new();
    let p = FnafPointer { white_left: true, ..nothing() };
    let bear = BearPresence { bear_here: true, right: false };
    let fx = handle_rects(&mut env, p, true, false, bear);
    assert!(env.left_light_on);
    assert_eq!(fx.sounds, vec![FnafSound::Light, FnafSound::Ur]);
    assert_eq!(fx.scene.l_bear, Some(true));
    assert_eq!(fx.scene.l_light, None);
    let fx = handle_rects(&mut env, p, false, true, bear);
    assert!(!env.left_light_on);
    assert!(fx.stop_light_audio);
    assert_eq!(fx.scene.l_bear, Some(false));
    let mut env = EnvironmentData::new();
    let p = FnafPointer { white_right: true, ..nothing() };
    let fx = handle_rects(&mut env, p, true, false, bear);
    assert!(env.right_light_on);
    assert_eq!(fx.sounds, vec![FnafSound::Light]);
    assert_eq!(fx.scene.r_light, Some(true));
}

#[test]
fn battery_drains_by_doors_and_lights() {
    let mut env = EnvironmentData::new();
    assert_eq!(discharge_sources(&env), (0, 0));
    let mut b = Battery::full();
    assert!(!handle_game_logic(&mut b, &env, 1000));
    assert_eq!(b.charge, 100_000_000);
    env.left_door_open = false;
    env.right_light_on = true;
    assert_eq!(discharge_sources(&env), (1, 1));
    assert!(!handle_game_logic(&mut b, &env, 1000));
    assert_eq!(b.charge, 100_000_000 - 1_650_000);
    let mut low = Battery { charge: 1000 };
    assert!(handle_game_logic(&mut low, &env, 1));
    assert_eq!(low.charge, -650);
}

#[test]
fn clock_runs_to_six() {
    assert_eq!(faz_clock(0), Some((12, false)));
    assert_eq!(faz_clock(3), Some((3, false)));
    assert_eq!(faz_clock(6), Some((6, true)));
    assert_eq!(faz_clock(7), None);
    assert_eq!(time_suffix(12), " PM");
    assert_eq!(time_suffix(3), " AM");
    let mut t = FazTime::new();
    assert!(!handle_faz_time(&mut t, 5000));
    assert_eq!(t.start_time, Some(5000));
    assert!(!handle_faz_time(&mut t, 25_000));
    assert_eq!(t.time_to_show, 1);
    assert!(!handle_faz_time(&mut t, 24_999 + 80_000));
    assert_eq!(t.time_to_show, 4);
    assert!(handle_faz_time(&mut t, 125_000));
    assert_eq!(t.time_to_show, 6);
    assert!(!handle_faz_time(&mut t, 200_000));
    assert_eq!(t.time_to_show, 6);
}

#[test]
fn bear_comes_waits_and_strikes() {
    let env = EnvironmentData::new();
    let rolls = BearRolls { comes_in: 25_000, leaves_in: 15_000, right: true };
    let mut bear = BearData::default();
    assert_eq!(handle_faz(&mut bear, &env, 2001, rolls), (BearEvent::Nothing, false));
    assert_eq!(bear.initial_delay, 2001);
    assert_eq!(handle_faz(&mut bear, &env, 16, rolls), (BearEvent::Arrived, false));
    assert!(bear.bear_here && bear.right);
    assert_eq!(bear.bear_until_leaves, 15_000);
    assert!(bear_door_open(&env, bear.right));
    assert_eq!(handle_faz(&mut bear, &env, 9_999, rolls), (BearEvent::Nothing, false));
    assert_eq!(handle_faz(&mut bear, &env, 1, rolls), (BearEvent::Nothing, true));
}

#[test]
fn closed_door_keeps_bear_out() {
    let mut env = EnvironmentData::new();
    env.right_door_open = false;
    let rolls = BearRolls { comes_in: 25_000, leaves_in: 15_000, right: true };
    let mut bear = BearData { initial_delay: 3000, bear_until_comes: 0, bear_until_leaves: 5000, bear_until_kills: 9_000, bear_here: true, right: true };
    assert_eq!(handle_faz(&mut bear, &env, 5_000, rolls), (BearEvent::Nothing, false));
    assert_eq!(bear.bear_until_kills, 0);
    assert_eq!(bear.bear_until_leaves, 0);
    assert_eq!(handle_faz(&mut bear, &env, 16, rolls), (BearEvent::Left, false));
    assert!(!bear.bear_here);
    assert_eq!(bear.bear_until_comes, 25_000);
    assert_eq!(bear.presence(), BearPresence { bear_here: false, right: true });
}

#[test]
fn bear_draws_in_range() {
    for _ in 0..100 {
        let r = roll_bear();
        assert!(20_000 <= r.comes_in && r.comes_in < 30_000);
        assert!(10_000 <= r.leaves_in && r.leaves_in < 20_000);
    }
}

#[test]
fn end_screens() {
    assert_eq!(defeat(0, false), DefeatStep::Show);
    assert_eq!(defeat(500, false), DefeatStep::Wait);
    assert_eq!(defeat(1001, false), DefeatStep::Screenshot);
    assert_eq!(defeat(1001, true), DefeatStep::Wait);
    assert_eq!(win(0), WinStep::Show);
    assert_eq!(win(2000), WinStep::Wait);
    assert_eq!(win(2001), WinStep::Next(AppState::FakeEnd));
}

#[test]
fn phone_rings_once() {
    let mut m = MemTimer { timer: 0, disable: false };
    assert!(play_mem(&mut m, 16));
    assert!(!play_mem(&mut m, 16));
    assert_eq!(m.timer, 32);
    let mut late = MemTimer { timer: 4990, disable: false };
    assert!(!play_mem(&mut late, 16));
}
