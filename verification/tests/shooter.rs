use jam_games::chase::{sees_player, update_chasers, ChaserAction, Path};
use jam_games::layers::CollisionLayerBits;
use jam_games::map::{
    block_bossroom, obstacle_watcher, on_boss_dialog_spawned, on_boss_entrypoint_spawned, on_entrypoint_dialog_spawned,
    on_h_door, on_v_door, MapSensor, NavMeshSpec, SensorSetup,
};
use jam_games::miami::{
    begin_bossfight, cleanup_shadows, control_player, dialog_sensor_layer, endoskeleton_for_roll, freddy_fight_ready,
    kill_endoskeletons, miami_character_layers, miami_player_layers, pick_spawner, player_health_watcher,
    propagate_obstacles, propagate_obstacles2, roll_endoskeleton, setup, setup_freddy_fight, setup_freddy_fight2,
    spawn_entity, tick_bonnie_chicka_fight, tick_freddy_fight, update_screenshot, CharacterStats, Fighter,
    FighterAssignment, FreddyFightStage, FreddyStep, MiamiEntity, MiamiTransitionShooted, MouseButton,
    MouseButtonInput, MiamiEntitySpawner, on_entity_spawnpoint,
};
use jam_games::palette::Rgba8;
use jam_games::shadows::{
    miami_shadow_color, miami_shadow_offset, setup_shadows, setup_tilemap_shadows, update_shadows, ShadowOf,
};
use jam_games::states::{AppState, LastScreenshot};
use jam_games::weapon::{
    blood_rotation, enemy_weapon, health_watcher, on_pickup_weapon_collision, on_weapon_spawnpoint, shoot,
    throw_weapon, tick_thrown, ProjectileHit, ProjectileShape, WeaponType, Wound,
};

#[test]
fn character_stats_by_kind() {
    let p = CharacterStats::from_type(&MiamiEntity::Player);
    assert_eq!((p.speed, p.run_speed, p.walk_speed, p.hp), (120, 120, 120, 1200));
    assert_eq!(p.blood_color, Rgba8 { r: 200, g: 32, b: 61, a: 255 });
    let e = CharacterStats::from_type(&MiamiEntity::Endoskeleton);
    assert_eq!((e.walk_speed, e.hp), (60, 100));
    let f = CharacterStats::from_type(&MiamiEntity::Freddy);
    assert_eq!((f.walk_speed, f.hp), (30, 300));
    assert_eq!(f.blood_color, Rgba8 { r: 30, g: 22, b: 64, a: 255 });
}

#[test]
fn chasers_give_up_by_kind() {
    assert_eq!(MiamiEntity::Endoskeleton.to_chaser().max_seek_secs, 1);
    assert_eq!(MiamiEntity::Bonnie.to_chaser().max_seek_secs, 20);
    assert_eq!(MiamiEntity::Bonnie.to_chaser().seek_range, 300);
}

#[test]
fn endoskeleton_rolls_follow_weights() {
    assert_eq!(endoskeleton_for_roll(0), MiamiEntity::CopperEndoskeleton);
    assert_eq!(endoskeleton_for_roll(49), MiamiEntity::CopperEndoskeleton);
    assert_eq!(endoskeleton_for_roll(50), MiamiEntity::GoldenEndoskeleton);
    assert_eq!(endoskeleton_for_roll(59), MiamiEntity::GoldenEndoskeleton);
    assert_eq!(endoskeleton_for_roll(60), MiamiEntity::Endoskeleton);
    assert_eq!(endoskeleton_for_roll(99), MiamiEntity::Endoskeleton);
}

#[test]
fn random_draws_stay_in_range() {
    for _ in 0..200 {
        assert!(roll_endoskeleton().is_endoskeleton());
        assert!(pick_spawner(4) < 4);
        assert!(blood_rotation() < 4);
    }
    let mut seen = [false; 4];
    for _ in 0..400 {
        seen[pick_spawner(4)] = true;
    }
    assert!(seen.iter().filter(|s| **s).count() > 1);
}

#[test]
fn boss_fight_assignments() {
    assert_eq!(
        setup_freddy_fight(MiamiEntity::NewChicka),
        Some(FighterAssignment { role: Fighter::Chicka, invincible: false, waits: false })
    );
    let freddy = setup_freddy_fight(MiamiEntity::Freddy).unwrap();
    assert_eq!(freddy, FighterAssignment { role: Fighter::Freddy, invincible: true, waits: true });
    assert_eq!(setup_freddy_fight(MiamiEntity::Player), None);
    assert_eq!(
        setup_freddy_fight2(freddy),
        FighterAssignment { role: Fighter::Freddy, invincible: false, waits: false }
    );
    let bonnie = FighterAssignment { role: Fighter::Bonnie, invincible: false, waits: true };
    assert_eq!(setup_freddy_fight2(bonnie), bonnie);
    assert_eq!(freddy_fight_ready(true, true, true), Some(FreddyFightStage::BonnieChicka));
    assert_eq!(freddy_fight_ready(true, false, true), None);
    assert_eq!(FreddyFightStage::default(), FreddyFightStage::Idle);
}

#[test]
fn bonnie_chicka_stage_ends_when_both_gone() {
    let s = tick_bonnie_chicka_fight(false, false, None, None);
    assert!(s.to_pre_freddy && !s.spawn_clock_runs);
    let s = tick_bonnie_chicka_fight(false, false, Some(true), Some(true));
    assert!(!s.to_pre_freddy && !s.spawn_clock_runs && s.release_chicka && !s.release_bonnie);
    let s = tick_bonnie_chicka_fight(true, false, None, Some(true));
    assert!(s.spawn_clock_runs && !s.release_chicka && s.release_bonnie);
}

#[test]
fn freddy_stage_steps() {
    assert_eq!(tick_freddy_fight(Some(true), false), FreddyStep::Release);
    assert_eq!(tick_freddy_fight(Some(false), false), FreddyStep::Spawn { delay_secs: 5 });
    assert_eq!(tick_freddy_fight(None, true), FreddyStep::Spawn { delay_secs: 3 });
    assert_eq!(tick_freddy_fight(None, false), FreddyStep::Nothing);
}

#[test]
fn bossfight_releases_all_but_freddy_and_closes_room() {
    let waiting = vec![(1u64, false), (2, true), (3, false)];
    let (released, walls) = begin_bossfight(&waiting, &vec![10, 11]);
    assert!(released.contains(&1) && released.contains(&3) && !released.contains(&2));
    assert_eq!(walls.len(), 2);
    assert_eq!(walls[0].0, 10);
    assert!(!walls[1].1.sensor);
    assert_eq!(walls[1].1.kind, MapSensor::BossEntrypoint);
}

#[test]
fn shadows_follow_their_casters() {
    assert_eq!(miami_shadow_color(), Rgba8 { r: 0, g: 0, b: 0, a: 218 });
    let made = setup_shadows(&vec![5, 6]);
    assert_eq!(made.len(), 2);
    assert_eq!(made[1].of, ShadowOf(6));
    assert_eq!(made[0].offset, miami_shadow_offset());
    let follow = update_shadows(&vec![ShadowOf(6), ShadowOf(9), ShadowOf(5)], &vec![5, 6, 6]);
    assert_eq!(follow, vec![Some(1), None, Some(0)]);
    let gone = cleanup_shadows(&vec![(100, 5), (101, 9)], &vec![5]);
    assert_eq!(gone, vec![101]);
    assert_eq!(setup_tilemap_shadows(AppState::Miami, true), Some((2, -2)));
    assert_eq!(setup_tilemap_shadows(AppState::Miami, false), None);
    assert_eq!(setup_tilemap_shadows(AppState::Fnaf, true), None);
}

#[test]
fn obstacles_only_in_shooter() {
    let obstacles = vec![vec![1u64, 2], vec![3]];
    assert_eq!(
        propagate_obstacles(AppState::Miami, 3, &obstacles),
        Some(NavMeshSpec { extent: 1000, agent_radius_tenths: 60, simplify_tenths: 10, merge_steps: 1, on_demand: false })
    );
    assert_eq!(propagate_obstacles(AppState::Miami, 4, &obstacles), None);
    assert_eq!(propagate_obstacles(AppState::Fnaf, 3, &obstacles), None);
    let (marked, rebuild) = propagate_obstacles2(AppState::Miami, &vec![4, 2], &obstacles);
    assert_eq!(marked, vec![2]);
    assert!(rebuild);
    let (marked, rebuild) = propagate_obstacles2(AppState::Miami, &vec![], &obstacles);
    assert!(marked.is_empty() && !rebuild);
    assert_eq!(
        obstacle_watcher(AppState::Miami),
        Some(NavMeshSpec { extent: 1700, agent_radius_tenths: 65, simplify_tenths: 100, merge_steps: 3, on_demand: true })
    );
    assert_eq!(obstacle_watcher(AppState::Novel), None);
}

#[test]
fn doors_and_sensors() {
    let v = on_v_door(AppState::Miami).unwrap();
    assert_eq!((v.body_dx, v.body_dy, v.angle_limit), (0, -16, 2));
    assert!(v.hinge_despawns_on_exit);
    let h = on_h_door(AppState::Miami).unwrap();
    assert_eq!((h.body_dx, h.body_dy, h.angle_limit, h.body_quarter_turns), (16, 0, 3, 1));
    assert!(!h.hinge_despawns_on_exit);
    assert_eq!(h.layers, CollisionLayerBits { memberships: 0b101010111, filters: 0b000010110 });
    assert_eq!(on_v_door(AppState::Fnaf), None);
    let s = on_entrypoint_dialog_spawned(AppState::Miami, true).unwrap();
    assert_eq!(s, SensorSetup { kind: MapSensor::EntrypointDialog, sensor: true, layers: dialog_sensor_layer() });
    assert_eq!(on_boss_entrypoint_spawned(AppState::Miami, false), None);
    assert_eq!(on_boss_dialog_spawned(AppState::Miami, true).unwrap().kind, MapSensor::BossDialog);
    assert_eq!(block_bossroom(&vec![]).len(), 0);
}

#[test]
fn spawned_characters() {
    let p = spawn_entity(MiamiEntity::Player);
    assert!(p.is_player && p.chaser.is_none() && p.weapon.is_none() && !p.in_place);
    assert_eq!(p.layers, miami_player_layers());
    let e = spawn_entity(MiamiEntity::GoldenEndoskeleton);
    assert!(!e.is_player && e.in_place && !e.invincible_waiting);
    assert_eq!(e.weapon, Some(WeaponType::EnemyFists));
    assert_eq!(e.seeker_mask, Some(0b11));
    assert_eq!(e.layers, miami_character_layers());
    let f = spawn_entity(MiamiEntity::Freddy);
    assert!(f.invincible_waiting);
    assert_eq!(f.weapon, Some(WeaponType::FazStar));
    assert_eq!(f.collider_radius, 7);
    assert_eq!(f.stats.prev_hp, f.stats.hp);
    assert_eq!(p.stats.prev_hp, 1200);
    assert_eq!(enemy_weapon(MiamiEntity::NewBonnie), Some(WeaponType::BonniePlay));
    assert_eq!(enemy_weapon(MiamiEntity::NewChicka), Some(WeaponType::ChickaThrow));
    assert_eq!(enemy_weapon(MiamiEntity::Player), None);
    let star = WeaponType::FazStar.to_weapon();
    assert_eq!(star.weapon_type, WeaponType::FazStar);
    assert_eq!(star.cooldown_ms, WeaponType::EnemyFists.to_weapon().cooldown_ms);
}

#[test]
fn player_controls() {
    let events = vec![
        MouseButtonInput { button: MouseButton::Left, pressed: false },
        MouseButtonInput { button: MouseButton::Right, pressed: true },
    ];
    let i = control_player(true, true, false, false, &events);
    assert_eq!((i.x, i.y), (-1, 1));
    assert!(i.throw && !i.shoot);
    let i = control_player(false, true, true, true, &vec![MouseButtonInput { button: MouseButton::Left, pressed: true }]);
    assert_eq!((i.x, i.y), (0, -1));
    assert!(!i.throw && i.shoot);
}

#[test]
fn endoskeletons_die_at_the_end() {
    let mut chars = vec![(MiamiEntity::Player, 900), (MiamiEntity::CopperEndoskeleton, 40), (MiamiEntity::Freddy, 10)];
    kill_endoskeletons(&mut chars);
    assert_eq!(chars, vec![(MiamiEntity::Player, 900), (MiamiEntity::CopperEndoskeleton, 0), (MiamiEntity::Freddy, 10)]);
}

#[test]
fn shooter_start_and_defeat() {
    let s = setup(None, true);
    assert!(s.mark_transition && s.play_transition);
    let s = setup(Some(MiamiTransitionShooted), true);
    assert!(!s.mark_transition && !s.play_transition);
    assert!(!setup(None, false).play_transition);
    assert!(update_screenshot(501));
    assert!(!update_screenshot(500));
    let mut shot: LastScreenshot<u8> = LastScreenshot::default();
    assert!(!player_health_watcher(1000, &mut shot));
    assert!(!shot.awaiting);
    assert!(player_health_watcher(1001, &mut shot));
    assert!(!player_health_watcher(2000, &mut shot));
}

#[test]
fn weapons_by_kind() {
    let pistol = WeaponType::Pistol.to_weapon();
    assert_eq!((pistol.ammo, pistol.damage, pistol.cooldown_ms, pistol.piercing), (30, 100, 100, 1));
    let axe = WeaponType::Axe.to_weapon();
    assert_eq!((axe.ammo, axe.damage, axe.piercing), (u32::MAX, 200, 128));
    assert_eq!(WeaponType::Baguette.to_weapon().throw_damage, 500);
    assert_eq!(WeaponType::EnemyFists.to_weapon().cooldown_ms, 300);
    assert_eq!(WeaponType::default(), WeaponType::Pistol);
}

#[test]
fn firing_uses_ammunition_and_cooldown() {
    let mut w = WeaponType::Pistol.to_weapon();
    let t = shoot(&mut w, 50, 16, true);
    assert!(!t.fired && t.t_ms == 34);
    assert_eq!(w.ammo, 30);
    let t = shoot(&mut w, 0, 16, true);
    assert!(t.fired && t.t_ms == 100);
    assert_eq!(w.ammo, 29);
    let t = shoot(&mut w, -3, 16, false);
    assert!(!t.fired && t.t_ms == -3);
    w.ammo = 0;
    assert!(!shoot(&mut w, 0, 16, true).fired);
    let mut fists = WeaponType::EnemyFists.to_weapon();
    assert!(shoot(&mut fists, 10, 16, true).attack_pose);
    assert!(!shoot(&mut fists, 0, 16, false).attack_pose);
}

#[test]
fn shots_and_hits() {
    let pistol = WeaponType::Pistol.to_weapon();
    let mut bullet = pistol.on_shoot(false);
    assert_eq!(bullet.shape, ProjectileShape::Bullet);
    assert!(bullet.from_player && bullet.despawn_on_wall);
    assert_eq!(bullet.on_hit(true, false), ProjectileHit::Despawn);
    assert_eq!(bullet.on_hit(false, false), ProjectileHit::Ignore);
    assert_eq!(bullet.on_hit(false, true), ProjectileHit::Damage(100));
    assert_eq!(bullet.piercing, 0);
    assert_eq!(bullet.on_hit(false, true), ProjectileHit::Despawn);
    let blow = WeaponType::EnemyFists.to_weapon().on_shoot(true);
    assert_eq!(blow.shape, ProjectileShape::Fist);
    assert!(!blow.from_player && !blow.despawn_on_wall);
    let mut b = bullet;
    assert!(!b.update_projectile(4000));
    assert!(b.update_projectile(1000));
}

#[test]
fn wounds_by_damage() {
    assert_eq!(health_watcher(100, 100, false), Wound::Unhurt);
    assert_eq!(health_watcher(100, 85, false), Wound::Bleeding { blood: 0 });
    assert_eq!(health_watcher(100, 70, false), Wound::Bleeding { blood: 1 });
    assert_eq!(health_watcher(100, 20, false), Wound::Bleeding { blood: 2 });
    assert_eq!(health_watcher(100, 0, true), Wound::Dead { back: true });
    assert_eq!(health_watcher(10, -50, false), Wound::Dead { back: false });
}

#[test]
fn picking_up_and_throwing() {
    let p = on_weapon_spawnpoint(AppState::Miami, WeaponType::Axe).unwrap();
    assert_eq!(p.weapon, WeaponType::Axe.to_weapon());
    assert_eq!((p.radius, p.damping), (8, 3));
    assert_eq!(on_weapon_spawnpoint(AppState::Fnaf, WeaponType::Axe), None);
    let w = WeaponType::Pistol.to_weapon();
    let pose = on_pickup_weapon_collision(AppState::Miami, &w, true, true).unwrap();
    assert_eq!(pose.char_rect, w.char_rect);
    assert_eq!(pose.weapon_rect, w.held_rect);
    assert_eq!(on_pickup_weapon_collision(AppState::Miami, &w, false, true), None);
    let sprite = MiamiEntity::Player.to_character();
    let thrown = throw_weapon(&w, &sprite, true).unwrap();
    assert_eq!(thrown.char_rect, sprite.default_rect);
    assert_eq!(thrown.weapon_rect, w.rect);
    assert_eq!(throw_weapon(&w, &sprite, false), None);
}

#[test]
fn enemies_hunt() {
    let c = MiamiEntity::Endoskeleton.to_chaser();
    let hits = vec![(7u64, 250u32), (3, 50)];
    assert!(sees_player(&hits, 7, false, &c));
    assert!(!sees_player(&hits, 7, true, &c));
    assert!(sees_player(&hits, 3, true, &c));
    assert!(!sees_player(&hits, 8, false, &c));
    let stats = CharacterStats::from_type(&MiamiEntity::Endoskeleton);
    assert_eq!(update_chasers(&stats, true, true, true, true), (ChaserAction::Chase, Some(100)));
    assert_eq!(update_chasers(&stats, true, false, false, false), (ChaserAction::Watch, None));
    assert_eq!(update_chasers(&stats, false, false, true, true), (ChaserAction::GoHome, Some(60)));
    assert_eq!(update_chasers(&stats, false, false, false, true), (ChaserAction::Wander, Some(60)));
    assert_eq!(update_chasers(&stats, false, false, false, false), (ChaserAction::Wait, None));
}

#[test]
fn paths_are_walked_in_order() {
    assert!(Path::<(i32, i32)>::from_points(&vec![]).is_none());
    let mut p = Path::from_points(&vec![(0, 0), (1, 0), (2, 2)]).unwrap();
    assert_eq!(p.current, (0, 0));
    assert!(!p.is_last());
    assert!(p.advance());
    assert_eq!(p.current, (1, 0));
    assert!(p.advance());
    assert_eq!(p.current, (2, 2));
    assert!(p.is_last());
    assert!(!p.advance());
    assert_eq!(p.current, (2, 2));
}

#[test]
fn thrown_weapons_land_and_spawners_spawn() {
    assert_eq!(tick_thrown(true), Some(CollisionLayerBits { memberships: 0b001000000, filters: 0b001000000 }));
    assert_eq!(tick_thrown(false), None);
    let s = MiamiEntitySpawner { entity_type: MiamiEntity::Chicka, look_dir: (0, -1000) };
    assert_eq!(on_entity_spawnpoint(AppState::Miami, &s), Some(spawn_entity(MiamiEntity::Chicka)));
    assert_eq!(on_entity_spawnpoint(AppState::Fnaf, &s), None);
}
