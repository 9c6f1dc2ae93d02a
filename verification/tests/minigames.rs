use jam_games::character::{control_player, spawn_player, spawn_player_spawnpoint, SpawnPoint};
use jam_games::dialog::{
    on_boss_dialog_collision, on_entrypoint_dialog_collision, start_boss_dialog, start_dialog, start_entrypoint_dialog,
    start_final_dialog, tick_dialog, BossfightDialog, DialogFlags, DialogPortrait, DialogTick, FinalDialog,
    ShootedDialogs, Speaker,
};
use jam_games::fake_end::{monke_fall, ClimbStart, FallStart, SuperLocalState};
use jam_games::finale::{despawn_shrinked, sprite_index, start_zoom, timing_system, FinaleCue, Played, SpriteType};
use jam_games::flappy::{PipeChoice, Pipes};
use jam_games::geometry::{
    aboba_flip, controller, gd_collisions, gd_player_layers, on_collider_spawned, setup, spawnpoint_handler, CastDir,
    GdAir, GdBlock, GdCollision, GD_ABOBA, GD_END, GD_WHITE, GD_YELLOW,
};
use jam_games::hints::{show_hints, update_hints, HintAtlas, KeyHint};
use jam_games::layers::player_layers;
use jam_games::music::{music_watcher, start_volume_percent, CurrentGlobalMusic, MusicPlan, NewBgMusic};
use jam_games::novel::{tick as novel_tick, NovelMusic, NovelState, NovelTick};
use jam_games::pacman_eat::{tick as pacman_tick, PacmanWalk};
use jam_games::states::AppState;
use jam_games::tilemap::{filter_from, tiled_type_patterns, tiled_types_filter, MapError};
use jam_games::flappy::{collision_handler, spawn_pipe, tick_win as flappy_tick_win};
use jam_games::geometry::{tick_defeat, tick_win as gd_tick_win};
use jam_games::states::{animate_screenshot, LastScreenshot};

#[test]
fn room_player_spawns_at_first_player_point() {
    let b = spawn_player();
    assert_eq!(b.collider_radius, 5);
    assert_eq!(b.layers, player_layers());
    assert_eq!(spawn_player_spawnpoint(&vec![SpawnPoint::Unknown, SpawnPoint::Player, SpawnPoint::Player]), Some(1));
    assert_eq!(spawn_player_spawnpoint(&vec![SpawnPoint::Unknown]), None);
    assert_eq!(control_player(true, false, true, true), (0, 1));
    assert_eq!(control_player(false, true, true, false), (-1, -1));
}

#[test]
fn dialog_runs_its_lines() {
    assert!(start_dialog(vec![]).is_none());
    let mut d = start_dialog(vec![("a".to_string(), Speaker::Pacman), ("b".to_string(), Speaker::Freddy)]).unwrap();
    assert_eq!(d.len(), 2);
    assert_eq!(d.current(), 0);
    let flags = DialogFlags::from_markers(Some(BossfightDialog), None, None);
    assert_eq!(tick_dialog(&mut d, false, flags, false), DialogTick::Idle);
    assert_eq!(tick_dialog(&mut d, true, flags, false), DialogTick::Line { index: 1, portrait_changed: true });
    assert_eq!(d.text(1), "b");
    match tick_dialog(&mut d, true, flags, false) {
        DialogTick::Finished(e) => assert!(e.begin_bossfight && !e.start_freddy && e.close && !e.take_screenshot),
        other => panic!("{:?}", other),
    }
    assert_eq!(tick_dialog(&mut d, true, flags, false), DialogTick::Idle);
}

#[test]
fn final_dialog_takes_screenshot() {
    let mut d = start_final_dialog();
    assert_eq!(d.speaker(0), Speaker::BeatenFreddy);
    let flags = DialogFlags::from_markers(None, None, Some(FinalDialog));
    match tick_dialog(&mut d, true, flags, false) {
        DialogTick::Finished(e) => assert!(e.take_screenshot && !e.close),
        other => panic!("{:?}", other),
    }
    assert_eq!(Speaker::BeatenFreddy.to_asset(), DialogPortrait::BeatenFaz);
    assert_eq!(start_entrypoint_dialog().text(0), "Hello, my dear1");
    assert_eq!(start_boss_dialog().text(0), "Hello, my dear2");
}

#[test]
fn dialogs_trigger_once() {
    let mut shot = ShootedDialogs::default();
    assert!(on_entrypoint_dialog_collision(AppState::Miami, &mut shot, true, true));
    assert!(!on_entrypoint_dialog_collision(AppState::Miami, &mut shot, true, true));
    assert!(!on_boss_dialog_collision(AppState::Miami, &mut shot, false, true));
    assert!(shot.boss);
    assert!(!on_boss_dialog_collision(AppState::Miami, &mut shot, true, true));
}

#[test]
fn runner_blocks_and_flips() {
    assert_eq!(gd_player_layers().filters, GD_YELLOW | GD_ABOBA | GD_END);
    assert_eq!(on_collider_spawned(AppState::Geometry, "yellow_back").unwrap().0, GdBlock::Yellow);
    assert_eq!(on_collider_spawned(AppState::Geometry, "white_end").unwrap().0, GdBlock::End);
    assert_eq!(on_collider_spawned(AppState::Geometry, "yellow_aboba").unwrap().0, GdBlock::Aboba);
    assert_eq!(on_collider_spawned(AppState::Geometry, "sky"), None);
    assert_eq!(on_collider_spawned(AppState::Platformer, "yellow_back"), None);
    assert_eq!(gd_collisions(&vec![None, Some(GdBlock::Yellow), Some(GdBlock::End), Some(GdBlock::Aboba)]), GdCollision::Win);
    assert_eq!(gd_collisions(&vec![]), GdCollision::Nothing);
    let f = aboba_flip(GD_YELLOW | GD_ABOBA | GD_END, false);
    assert!(f.is_left);
    assert_eq!(f.filters, GD_WHITE | GD_ABOBA | GD_END);
    assert_eq!(f.drop_px, 96);
    let back = aboba_flip(f.filters, f.is_left);
    assert_eq!(back.filters, GD_YELLOW | GD_ABOBA | GD_END);
    assert_eq!(back.caster_mask, GD_YELLOW | GD_ABOBA);
    assert!(!back.is_left);
}

#[test]
fn runner_jumps_from_ground() {
    let (p, l) = setup();
    assert!(p.entity.is_none() && !l.is);
    let s = spawnpoint_handler();
    assert_eq!(s.casters, [CastDir::X, CastDir::NEGX, CastDir::Y, CastDir::NEGY]);
    assert_eq!((s.caster_distance, s.size, s.camera_scale), (10, 16, 2));
    let air = GdAir { just_jumped: false, in_air: false };
    let c = controller(true, true, air, false);
    assert!(c.jump && c.snap && !c.spin);
    assert!(c.air.just_jumped);
    let c2 = controller(false, true, c.air, false);
    assert!(!c2.jump && c2.spin);
    assert_eq!(c2.air, GdAir { just_jumped: false, in_air: true });
    let c3 = controller(true, false, c2.air, true);
    assert!(c3.landed && !c3.air.in_air);
}

#[test]
fn pipes_are_reused() {
    let mut pipes = Pipes::new();
    assert_eq!(pipes.tick_pipes(&vec![], 16), PipeChoice::Spawn);
    pipes.add_pipe(7);
    assert_eq!(pipes.since_prev, 0);
    assert_eq!(pipes.tick_pipes(&vec![false], 1000), PipeChoice::Nothing);
    assert_eq!(pipes.tick_pipes(&vec![true], 400), PipeChoice::Nothing);
    assert_eq!(pipes.buffer, vec![7]);
    assert_eq!(pipes.tick_pipes(&vec![true], 200), PipeChoice::Reuse(7));
    assert_eq!(pipes.buffer, vec![7]);
    assert_eq!(pipes.since_prev, 0);
}

#[test]
fn false_ending_runs_once() {
    let mut climb = ClimbStart { num: 0, timer: 0, climbed: false };
    let mut fall = FallStart { start: false, num: 0, timer: 0 };
    let s = monke_fall(&mut climb, &mut fall, 16);
    assert!(s.creak1 && s.climb_rotates && !s.fall_rotates);
    for _ in 1..158 {
        let s = monke_fall(&mut climb, &mut fall, 16);
        assert!(!s.creak1 && s.climb_rotates);
    }
    assert_eq!(climb.num, 158);
    let s = monke_fall(&mut climb, &mut fall, 1999);
    assert!(!s.climb_rotates && !s.fall_rotates);
    let s = monke_fall(&mut climb, &mut fall, 1);
    assert!(s.creak2 && s.fall_rotates);
    assert_eq!(s.next_app_state, Some(AppState::Novel));
    assert_eq!(s.super_state, Some(SuperLocalState::JokerUp));
    let mut last = s;
    for _ in 1..316 {
        last = monke_fall(&mut climb, &mut fall, 16);
        assert_eq!(last.next_app_state, None);
    }
    assert_eq!(last.super_state, Some(SuperLocalState::JokerDown));
}

#[test]
fn finale_cues_in_order_once() {
    let sprites = vec![SpriteType::Black, SpriteType::BearQuestion, SpriteType::CJ];
    let mut played = Played::default();
    assert_eq!(timing_system(50, &mut played, &sprites), vec![]);
    assert_eq!(timing_system(100, &mut played, &sprites), vec![FinaleCue::LightsOut]);
    assert_eq!(timing_system(1100, &mut played, &sprites), vec![FinaleCue::FreddyAppears]);
    assert_eq!(timing_system(5000, &mut played, &sprites), vec![FinaleCue::ZoomOut]);
    assert_eq!(timing_system(6000, &mut played, &sprites), vec![]);
    let mut fresh = Played::default();
    assert_eq!(
        timing_system(4000, &mut fresh, &sprites),
        vec![FinaleCue::ZoomOut, FinaleCue::FreddyAppears, FinaleCue::LightsOut]
    );
    assert_eq!(sprite_index(SpriteType::Black), sprite_index(SpriteType::BearQuestion));
    assert_eq!(sprite_index(SpriteType::Me), 7);
}

#[test]
fn pacman_crosses_the_title() {
    let mut w = PacmanWalk::new();
    assert_eq!(pacman_tick(&mut w, 30), None);
    assert_eq!((w.x, w.index, w.anim_t), (-268_000, 0, 30));
    assert_eq!(pacman_tick(&mut w, 500), None);
    assert_eq!((w.x, w.index, w.anim_t), (-228_000, 1, 0));
    let mut near = PacmanWalk { x: 279_000, anim_t: 0, index: 2 };
    assert_eq!(pacman_tick(&mut near, 60), Some(AppState::FlappyBird));
    assert_eq!(near.index, 0);
}

#[test]
fn hints_animate_then_vanish() {
    assert_eq!(show_hints(&vec![KeyHint::KeysQAD, KeyHint::KeysSpace]), vec![HintAtlas::Qad, HintAtlas::Space]);
    assert_eq!(KeyHint::KeysLmb.get_asset().layout(), (209, 19, 21));
    assert_eq!(update_hints(0), (false, 0));
    assert_eq!(update_hints(334), (false, 1));
    assert_eq!(update_hints(1000), (false, 0));
    assert_eq!(update_hints(10_600), (false, 1));
    assert_eq!(update_hints(10_601).0, true);
}

#[test]
fn music_changes() {
    let req = |h: Option<u64>, i: bool| NewBgMusic { handle: h, instant_translation: i };
    let cur = CurrentGlobalMusic { handle: 3 };
    assert_eq!(music_watcher(&vec![], &vec![cur]), MusicPlan::Nothing);
    assert_eq!(music_watcher(&vec![req(Some(3), false)], &vec![]), MusicPlan::Start { handle: 3, instant: false });
    assert_eq!(music_watcher(&vec![req(None, false)], &vec![]), MusicPlan::Nothing);
    assert_eq!(music_watcher(&vec![req(None, true)], &vec![cur]), MusicPlan::Stop { instant: true });
    assert_eq!(music_watcher(&vec![req(Some(3), true), req(Some(4), true)], &vec![cur]), MusicPlan::Keep);
    assert_eq!(music_watcher(&vec![req(Some(4), false)], &vec![cur]), MusicPlan::Replace { handle: 4, instant: false });
    assert_eq!(start_volume_percent(true), 100);
    assert_eq!(start_volume_percent(false), 0);
}

#[test]
fn novel_script_reads_through() {
    let mut s = NovelState::default().inited();
    assert_eq!(s.stages.len(), 32);
    assert_eq!(s.full_text(), "What a nice evening!");
    assert_eq!(novel_tick(&mut s, false, 30), NovelTick::Typing { typed: false });
    assert_eq!(s.text(), "");
    assert_eq!(s.typing_ms, 30);
    assert_eq!(novel_tick(&mut s, false, 20), NovelTick::Typing { typed: true });
    assert_eq!(s.text(), "W");
    assert_eq!(s.typing_ms, 0);
    assert_eq!(novel_tick(&mut s, false, 500), NovelTick::Typing { typed: true });
    assert_eq!(s.text(), "Wh");
    assert_eq!(novel_tick(&mut s, true, 16), NovelTick::RevealedAll);
    assert!(s.is_all_chars_shown());
    assert_eq!(s.text(), "What a nice evening!");
    assert_eq!(novel_tick(&mut s, false, 16), NovelTick::AwaitingPress);
    assert_eq!(novel_tick(&mut s, true, 16), NovelTick::NextStage { music_changed: false });
    assert_eq!(s.current_stage, 1);
    assert_eq!(s.typing_ms, 0);
    s.read_all_text();
    assert_eq!(novel_tick(&mut s, true, 16), NovelTick::NextStage { music_changed: true });
    assert_eq!(*s.music(), NovelMusic::Battle);
    assert_eq!(s.speaker(), "CJ");
    assert!(!s.is_finished());
}

#[test]
fn map_type_filter_compiles() {
    assert_eq!(tiled_type_patterns().len(), 16);
    let set = tiled_types_filter().expect("patterns compile");
    assert!(set.is_match("game::dev_games::miami::map::VerticalDoor"));
    assert!(set.is_match("avian2d::dynamics::rigid_body::RigidBody"));
    assert!(!set.is_match("bevy_sprite::sprite::Sprite"));
    let kept: Vec<&str> = set.patterns().iter().map(|p| p.as_str()).collect();
    assert_eq!(kept, tiled_type_patterns());
    assert_eq!(kept[0], "^game::.*");
    assert_eq!(kept[15], "^.*::MiamiSpawnPoint$");
}

#[test]
fn invalid_pattern_is_reported() {
    let bad = regex::RegexSet::new(["("]).unwrap_err();
    assert_eq!(filter_from(Err(bad)).unwrap_err(), MapError::InvalidPattern);
    let good = regex::RegexSet::new(["^a$"]);
    assert!(filter_from(good).unwrap().is_match("a"));
}

#[test]
fn flappy_crash_and_exit() {
    let p = spawn_pipe();
    assert_eq!((p.width, p.height, p.scale_percent, p.offset), (120, 884, 25, 150));
    let mut shot: LastScreenshot<u8> = LastScreenshot::default();
    let c = collision_handler(AppState::FlappyBird, false, true, &mut shot);
    assert!(!c.screenshot && !c.stop_pacman);
    let c = collision_handler(AppState::FlappyBird, true, true, &mut shot);
    assert!(c.screenshot && c.stop_pacman);
    let c = collision_handler(AppState::FlappyBird, true, true, &mut shot);
    assert!(!c.screenshot && c.stop_pacman);
    let mut x: i64 = 300_000;
    assert_eq!(flappy_tick_win(&mut x, 1000), None);
    assert_eq!(x, 350_000);
    assert_eq!(flappy_tick_win(&mut x, 80), Some(AppState::Geometry));
    assert_eq!(x, 390_000);
}

#[test]
fn runner_defeat_and_win() {
    let mut shot: LastScreenshot<u8> = LastScreenshot::default();
    assert_eq!(tick_defeat(999, &mut shot), (None, false));
    assert!(!shot.awaiting);
    assert_eq!(tick_defeat(1000, &mut shot), (Some(AppState::Defeat), true));
    assert_eq!(tick_defeat(1016, &mut shot), (Some(AppState::Defeat), false));
    assert_eq!(gd_tick_win(), AppState::Platformer);
}

#[test]
fn hand_snatches_screenshot() {
    assert_eq!(animate_screenshot(100), (false, false));
    assert_eq!(animate_screenshot(251), (true, false));
    assert_eq!(animate_screenshot(451), (true, true));
}

#[test]
fn finale_zoom_waits_for_question() {
    assert_eq!(start_zoom(1000, 16, true), (false, 1016));
    assert_eq!(start_zoom(2000, 16, false), (false, 2000));
    assert_eq!(start_zoom(2000, 16, true), (true, 2000));
    let sprites = vec![(1u64, SpriteType::CJ), (2, SpriteType::Joker), (3, SpriteType::CJ)];
    assert_eq!(despawn_shrinked(Some(SpriteType::CJ), &sprites), vec![1, 3]);
    assert!(despawn_shrinked(None, &sprites).is_empty());
    assert!(despawn_shrinked(Some(SpriteType::Me), &sprites).is_empty());
}
