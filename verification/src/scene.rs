use vstd::prelude::*;

verus! {

/// The two places the player can be in.
#[derive(Clone, Copy, PartialEq, Eq, Debug, Structural)]
pub enum GameScene {
    Lobby,
    Dungeon,
}

/// What the world has to do after one frame of scene handling.
#[derive(Clone, Copy, PartialEq, Eq, Debug, Structural)]
pub enum SceneAction {
    /// Nothing changes.
    Stay,
    /// Tear the lobby down, build the dungeon and put the player at its entrance.
    EnterDungeon,
    /// Tear the dungeon down, put the player back and rebuild the lobby.
    ReturnToLobby,
}

/// The scene reached from `scene` when the confirm (`Return`) and back (`Escape`)
/// keys have the given "just pressed" states, together with the action to perform.
pub open spec fn scene_transition(scene: GameScene, confirm: bool, back: bool) -> (GameScene, SceneAction) {
    match scene {
        GameScene::Lobby => if confirm {
            (GameScene::Dungeon, SceneAction::EnterDungeon)
        } else {
            (GameScene::Lobby, SceneAction::Stay)
        },
        GameScene::Dungeon => if back {
            (GameScene::Lobby, SceneAction::ReturnToLobby)
        } else {
            (GameScene::Dungeon, SceneAction::Stay)
        },
    }
}

/// One frame of the lobby/dungeon flow. At most one transition happens per frame:
/// entering the dungeon ends the frame, so a back key pressed in the same frame is ignored.
pub fn scene_step(scene: GameScene, confirm_just_pressed: bool, back_just_pressed: bool) -> (r: (GameScene, SceneAction))
    ensures
        r == scene_transition(scene, confirm_just_pressed, back_just_pressed),
{
    if scene == GameScene::Lobby && confirm_just_pressed {
        return (GameScene::Dungeon, SceneAction::EnterDungeon);
    }
    if scene == GameScene::Dungeon && back_just_pressed {
        return (GameScene::Lobby, SceneAction::ReturnToLobby);
    }
    (scene, SceneAction::Stay)
}

/// Entering the dungeon from the lobby and leaving it again brings the player back
/// to the lobby, each time with the matching action.
pub proof fn lemma_round_trip(back_on_entry: bool, confirm_on_exit: bool)
    ensures
        scene_transition(GameScene::Lobby, true, back_on_entry) == (GameScene::Dungeon, SceneAction::EnterDungeon),
        scene_transition(GameScene::Dungeon, confirm_on_exit, true) == (GameScene::Lobby, SceneAction::ReturnToLobby),
{
}

/// The scene changes exactly when an action other than staying is reported, and the
/// action always matches the scene that is reached.
pub proof fn lemma_action_matches_change(scene: GameScene, confirm: bool, back: bool)
    ensures
        (scene_transition(scene, confirm, back).1 != SceneAction::Stay) == (scene_transition(scene, confirm, back).0 != scene),
        scene_transition(scene, confirm, back).1 == SceneAction::EnterDungeon ==> scene_transition(scene, confirm, back).0 == GameScene::Dungeon,
        scene_transition(scene, confirm, back).1 == SceneAction::ReturnToLobby ==> scene_transition(scene, confirm, back).0 == GameScene::Lobby,
{
}

/// Only the key that belongs to the current scene has an effect: the back key does
/// nothing in the lobby and the confirm key does nothing in the dungeon.
pub proof fn lemma_foreign_key_ignored(confirm: bool, back: bool)
    ensures
        scene_transition(GameScene::Lobby, false, back) == (GameScene::Lobby, SceneAction::Stay),
        scene_transition(GameScene::Dungeon, confirm, false) == (GameScene::Dungeon, SceneAction::Stay),
{
}

} // verus!
