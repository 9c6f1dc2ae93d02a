use jam_games::layers::{player_layers, room_layers, CollisionLayerBits, GameLayer};
use jam_games::palette::Rgba8;
use jam_games::states::{
    on_defeat, try_translate, AppLoadingAssetsSubState, AppState, GlobalAppState, LastScreenshot, LastState,
    PreGameTasks,
};
use jam_games::text::str_eq;

#[test]
fn layer_bits_interact_only_both_ways() {
    let a = CollisionLayerBits::from_bits(0b01, 0b10);
    let b = CollisionLayerBits::from_bits(0b10, 0b01);
    let c = CollisionLayerBits::from_bits(0b10, 0b00);
    assert!(a.interacts_with(&b));
    assert!(b.interacts_with(&a));
    assert!(!a.interacts_with(&c));
    assert!(!c.interacts_with(&a));
}

#[test]
fn game_layers_are_single_bits() {
    assert_eq!(GameLayer::Default.to_bits(), 1);
    assert_eq!(GameLayer::Player.to_bits(), 2);
    assert_eq!(GameLayer::Room.to_bits(), 4);
    assert_eq!(GameLayer::default(), GameLayer::Default);
}

#[test]
fn player_and_room_collide() {
    let p = player_layers();
    let r = room_layers();
    assert_eq!(p, CollisionLayerBits { memberships: 2, filters: 5 });
    assert_eq!(r, CollisionLayerBits { memberships: 4, filters: 2 });
    assert!(p.interacts_with(&r));
}

#[test]
fn colour_channels_kept() {
    assert_eq!(Rgba8::rgba_u8(1, 2, 3, 4), Rgba8 { r: 1, g: 2, b: 3, a: 4 });
}

#[test]
fn strings_compare_by_characters() {
    assert!(str_eq("yellow", "yellow"));
    assert!(!str_eq("yellow", "white"));
    assert!(!str_eq("yel", "yellow"));
    assert!(str_eq("", ""));
}

#[test]
fn app_starts_at_loading_screen() {
    assert_eq!(AppState::default(), AppState::LoadingScreen);
    assert_eq!(GlobalAppState::default(), GlobalAppState::AssetLoading);
    assert_eq!(AppLoadingAssetsSubState::default(), AppLoadingAssetsSubState::Loading);
}

#[test]
fn last_state_remembers_entered_game() {
    let mut last: LastState<u32> = LastState::default();
    assert_eq!(last.state, AppState::PacmanEnter);
    assert!(last.screenshot.is_none());
    last.enter(AppState::Miami);
    assert_eq!(last.state, AppState::Miami);
}

#[test]
fn one_screenshot_at_a_time() {
    let mut shot: LastScreenshot<u32> = LastScreenshot::default();
    assert!(shot.request());
    assert!(shot.awaiting);
    assert!(!shot.request());
    let next = shot.await_screenshot_and_translate(7, AppState::Defeat);
    assert_eq!(next, AppState::Defeat);
    assert_eq!(shot.image, Some(7));
    assert!(!shot.awaiting);
    assert!(shot.request());
}

#[test]
fn defeat_returns_to_lost_game() {
    let mut last: LastState<u32> = LastState::default();
    last.enter(AppState::Platformer);
    assert_eq!(on_defeat(&last, true, false), Some(AppState::Platformer));
    assert_eq!(on_defeat(&last, false, false), None);
    assert_eq!(on_defeat(&last, true, true), None);
}

#[test]
fn game_starts_when_loaded_and_tasks_done() {
    let mut tasks = PreGameTasks::new();
    assert!(tasks.is_empty());
    assert_eq!(try_translate(AppLoadingAssetsSubState::Done, &tasks), Some(GlobalAppState::InGame));
    assert_eq!(try_translate(AppLoadingAssetsSubState::Loading, &tasks), None);
    tasks.add("font".to_string());
    tasks.add("font".to_string());
    tasks.add("shader".to_string());
    assert!(!tasks.is_empty());
    assert_eq!(try_translate(AppLoadingAssetsSubState::Done, &tasks), None);
    tasks.done("font".to_string());
    assert!(!tasks.is_empty());
    tasks.done("shader".to_string());
    assert!(tasks.is_empty());
    assert_eq!(try_translate(AppLoadingAssetsSubState::Done, &tasks), Some(GlobalAppState::InGame));
}
