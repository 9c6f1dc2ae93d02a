use jam_games::layers::CollisionLayerBits;
use jam_games::palette::Rgba8;
use jam_games::platformer::{
    focus_player, frog_next_dir, frog_velocity_dir, handle_enemy_collisions, layer_visible, next_frame,
    on_collider_spawned, on_collision, on_next_spawned, on_stop_spawned, platformer_enemy_layer,
    platformer_player_white_layer, platformer_player_yellow_layer, platformer_raycast_layer, platformer_white_layer,
    platformer_yellow_layer, player_color_white, player_color_yellow, spawn_enemies, swap, tick, toster_heading,
    frog_atlas_handler, toster_atlas_handler, EnemyCollision, EnemyKind, EnemyShape, Frog, FrogCastDir, FrogHits,
    PlatformerSwitchableLayer, Toster, TosterCaster, TosterSprite,
};
use jam_games::states::{AppState, LastScreenshot};

fn no_hits() -> FrogHits {
    FrogHits {
        right: false,
        left: false,
        top: false,
        bottom: false,
        top_left: false,
        top_right: false,
        bottom_left: false,
        bottom_right: false,
    }
}

#[test]
fn layer_tables() {
    assert_eq!(platformer_player_yellow_layer(), CollisionLayerBits { memberships: 0b0100111, filters: 0b0100111 });
    assert_eq!(platformer_player_white_layer(), CollisionLayerBits { memberships: 0b0010111, filters: 0b0010111 });
    assert_eq!(platformer_enemy_layer(), CollisionLayerBits { memberships: 0b0001001, filters: 0b0001001 });
    assert_eq!(platformer_raycast_layer().filters, 0b0110000);
    assert!(platformer_player_yellow_layer().interacts_with(&platformer_yellow_layer()));
    assert!(!platformer_player_yellow_layer().interacts_with(&platformer_white_layer()));
    assert!(platformer_player_white_layer().interacts_with(&platformer_enemy_layer()));
    assert_eq!(player_color_yellow(), Rgba8 { r: 255, g: 185, b: 0, a: 255 });
    assert_eq!(player_color_white(), Rgba8 { r: 255, g: 255, b: 255, a: 255 });
}

#[test]
fn world_switch() {
    assert_eq!(swap(false, false, true), None);
    assert_eq!(swap(true, true, true), None);
    let s = swap(true, false, true).unwrap();
    assert!(s.show_yellow && !s.on_yellow_after);
    assert_eq!(s.switch_caster_mask, 0b0010000);
    let back = swap(true, false, s.on_yellow_after).unwrap();
    assert!(back.on_yellow_after);
    assert_eq!(back.color, player_color_white());
    assert!(layer_visible(PlatformerSwitchableLayer::Yellow, true));
    assert!(!layer_visible(PlatformerSwitchableLayer::White, true));
    assert_eq!(PlatformerSwitchableLayer::default(), PlatformerSwitchableLayer::Yellow);
}

#[test]
fn tile_layers_by_name() {
    let y = on_collider_spawned(AppState::Platformer, "yellow").unwrap();
    assert!(!y.hide_layer);
    assert_eq!(y.layer, platformer_yellow_layer());
    let w = on_collider_spawned(AppState::Platformer, "white").unwrap();
    assert!(w.hide_layer);
    assert_eq!(on_collider_spawned(AppState::Platformer, "grass"), None);
    assert_eq!(on_collider_spawned(AppState::Geometry, "yellow"), None);
}

#[test]
fn frog_turns_at_walls() {
    assert_eq!(frog_next_dir(&no_hits(), FrogCastDir::Left), Some(FrogCastDir::Left));
    let h = FrogHits { bottom: true, ..no_hits() };
    assert_eq!(frog_next_dir(&h, FrogCastDir::Right), Some(FrogCastDir::Left));
    let h = FrogHits { left: true, bottom: true, ..no_hits() };
    assert_eq!(frog_next_dir(&h, FrogCastDir::Left), Some(FrogCastDir::Top));
    let h = FrogHits { top_right: true, ..no_hits() };
    assert_eq!(frog_next_dir(&h, FrogCastDir::Left), Some(FrogCastDir::Top));
    assert_eq!(FrogCastDir::TopRight.handle_orange_case(FrogCastDir::Bottom), FrogCastDir::Right);
    assert_eq!(FrogCastDir::TopRight.handle_orange_case(FrogCastDir::Right), FrogCastDir::Right);
    assert_eq!(FrogCastDir::Top.inverse(), FrogCastDir::Bottom);
    assert_eq!(FrogCastDir::Right.inverse(), FrogCastDir::Left);
    assert_eq!(frog_velocity_dir(FrogCastDir::Bottom), (0, -1));
}

#[test]
fn toaster_turns_on_last_hit() {
    let hits = vec![(TosterCaster::Right, true), (TosterCaster::Left, true), (TosterCaster::Top, false)];
    assert!(!toster_heading(true, &hits));
    let hits = vec![(TosterCaster::Left, true), (TosterCaster::Right, true)];
    assert!(toster_heading(false, &hits));
    assert!(toster_heading(true, &vec![]));
    assert_eq!(next_frame(2, 3), 0);
    assert_eq!(next_frame(0, 8), 1);
}

#[test]
fn enemy_collisions() {
    let stomp = EnemyCollision { collider1: EnemyKind::Other, collider2: EnemyKind::Toster(3) };
    let r = handle_enemy_collisions(&vec![stomp], &vec![true, true, true], true);
    assert!(!r.defeat);
    assert_eq!(r.killed, vec![3]);
    let r = handle_enemy_collisions(&vec![stomp], &vec![true, false, true], true);
    assert!(r.defeat);
    let cactus = EnemyCollision { collider1: EnemyKind::Cactus, collider2: EnemyKind::Other };
    let r = handle_enemy_collisions(&vec![cactus, stomp], &vec![true], true);
    assert!(r.defeat);
    assert!(r.killed.is_empty());
    let r = handle_enemy_collisions(&vec![], &vec![], true);
    assert!(!r.defeat);
}

#[test]
fn enemies_are_placed() {
    let e = spawn_enemies();
    assert_eq!(e.cactus.shape, EnemyShape::Capsule { radius: 10, length: 20 });
    assert!(!e.cactus.dynamic);
    assert_eq!((e.toster.x_centi, e.toster.y_centi), (95000, 131600));
    assert_eq!(e.frog.shape, EnemyShape::Circle { radius: 26 });
    assert!(e.frog.rotation_locked);
    assert_eq!(e.toster_casters[2], (TosterCaster::Top, false));
    assert_eq!(e.frog_casters.len(), 8);
    assert_eq!((e.caster_mask, e.caster_distance, e.caster_scale_percent), (0b0110000, 12, 95));
    assert_eq!(e.toster_state, Toster { curr_is_left: true, delay: 0, is_dead: false });
    assert_eq!(e.frog_state, Frog { current_dir: FrogCastDir::Left, delay: 0 });
}

#[test]
fn player_runs_and_jumps() {
    let m = tick(&vec![false, true], true, false, true, 0, 0, 0, 10);
    assert_eq!(m.vy, 300_000);
    assert_eq!(m.vx, 15_000);
    assert_eq!(m.flip_x, Some(false));
    assert_eq!(m.anim_t, 10);
    assert_eq!(m.atlas_index, 0);
    let m = tick(&vec![], true, true, false, 100_000, -5, 395, 10);
    assert_eq!(m.vy, -5);
    assert_eq!(m.vx, 90_000);
    assert_eq!(m.flip_x, Some(true));
    assert_eq!(m.anim_t, 0);
    assert_eq!(m.atlas_index, 6);
    let m = tick(&vec![], false, false, false, 100_000, 10, 0, 10);
    assert_eq!(m.vx, 100_000);
    assert_eq!(m.atlas_index, 4);
    let m = tick(&vec![true], false, false, false, 50_000, 0, 150, 10);
    assert_eq!(m.vx, 35_000);
    assert_eq!(m.atlas_index, 3);
    let m = tick(&vec![true], false, false, false, 1_000, 0, 190, 100);
    assert_eq!(m.vx, 0);
    assert_eq!(m.atlas_index, 2);
}

#[test]
fn triggers_and_player_spawn() {
    assert!(on_next_spawned(AppState::Platformer, true));
    assert!(!on_next_spawned(AppState::Platformer, false));
    assert!(!on_stop_spawned(AppState::Miami, true));
    let mut shot: LastScreenshot<u8> = LastScreenshot::default();
    let r = on_collision(AppState::Platformer, &mut shot, true, true, false);
    assert!(r.screenshot && !r.stop_player);
    let r = on_collision(AppState::Platformer, &mut shot, true, true, true);
    assert!(!r.screenshot && r.stop_player);
    let r = on_collision(AppState::Platformer, &mut shot, false, true, true);
    assert!(!r.screenshot && !r.stop_player);
    let p = focus_player(AppState::Platformer).unwrap();
    assert_eq!(p.layers, platformer_player_yellow_layer());
    assert_eq!((p.switch_caster_mask, p.ground_caster_mask, p.caster_reach_tenths), (0b0010000, 1, 81));
    assert_eq!(focus_player(AppState::Novel), None);
}

#[test]
fn stomps_in_order() {
    let a = EnemyCollision { collider1: EnemyKind::Toster(5), collider2: EnemyKind::Other };
    let b = EnemyCollision { collider1: EnemyKind::Other, collider2: EnemyKind::Toster(2) };
    let frog = EnemyCollision { collider1: EnemyKind::Frog, collider2: EnemyKind::Other };
    let r = handle_enemy_collisions(&vec![a, b, frog, a], &vec![true, true], true);
    assert!(r.defeat);
    assert_eq!(r.killed, vec![5, 2]);
    let r = handle_enemy_collisions(&vec![a, b], &vec![true, false], true);
    assert!(r.defeat);
    assert_eq!(r.killed, vec![5]);
    let r = handle_enemy_collisions(&vec![a], &vec![true], false);
    assert!(!r.defeat && r.killed.is_empty());
}

#[test]
fn enemy_animations() {
    let mut t = Toster { curr_is_left: true, delay: 0, is_dead: false };
    assert_eq!(toster_atlas_handler(&mut t, 0, 150), TosterSprite::Same);
    assert_eq!(toster_atlas_handler(&mut t, 0, 100), TosterSprite::Same);
    assert_eq!(t.delay, 250);
    assert_eq!(toster_atlas_handler(&mut t, 1, 16), TosterSprite::Frame { index: 0, flip_x: false });
    assert_eq!(t.delay, 0);
    t.is_dead = true;
    assert_eq!(toster_atlas_handler(&mut t, 0, 16), TosterSprite::Dead);
    let mut f = Frog { current_dir: FrogCastDir::Left, delay: 201 };
    assert_eq!(frog_atlas_handler(&mut f, 7, 16), Some(0));
    assert_eq!(frog_atlas_handler(&mut f, 0, 16), None);
    assert_eq!(f.delay, 16);
}
