use rustopia::scene::{scene_step, GameScene, SceneAction};

#[test]
fn enter_opens_dungeon_from_lobby() {
    assert_eq!(scene_step(GameScene::Lobby, true, false), (GameScene::Dungeon, SceneAction::EnterDungeon));
}

#[test]
fn escape_returns_to_lobby() {
    assert_eq!(scene_step(GameScene::Dungeon, false, true), (GameScene::Lobby, SceneAction::ReturnToLobby));
}

#[test]
fn one_transition_per_frame() {
    assert_eq!(scene_step(GameScene::Lobby, true, true), (GameScene::Dungeon, SceneAction::EnterDungeon));
    assert_eq!(scene_step(GameScene::Dungeon, true, true), (GameScene::Lobby, SceneAction::ReturnToLobby));
}

#[test]
fn foreign_keys_are_ignored() {
    assert_eq!(scene_step(GameScene::Lobby, false, true), (GameScene::Lobby, SceneAction::Stay));
    assert_eq!(scene_step(GameScene::Dungeon, true, false), (GameScene::Dungeon, SceneAction::Stay));
    assert_eq!(scene_step(GameScene::Lobby, false, false), (GameScene::Lobby, SceneAction::Stay));
}

#[test]
fn round_trip() {
    let (scene, _) = scene_step(GameScene::Lobby, true, false);
    let (scene, action) = scene_step(scene, false, true);
    assert_eq!(scene, GameScene::Lobby);
    assert_eq!(action, SceneAction::ReturnToLobby);
}
