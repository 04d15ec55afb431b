//! Which connection a scene action opens, and which scene follows.

use vstd::prelude::*;

use crate::data_types::ServerInfo;

verus! {

/// Extent of each side of a world started from the menu, in micro-units.
pub const LOCAL_WORLD_EXTENT: u64 = 1_000_000_000;

/// What a scene asks of the engine after an update.
#[derive(Debug)]
pub enum SceneAction {
    /// Keep the current scene.
    Stay,
    /// Connect to the remote engine at this address.
    ConnectToServer(String),
    /// Start a local engine (requested width, height and players).
    StartServer((isize, isize, isize)),
}

/// The connection that a scene action asks for.
#[derive(Clone, Debug, PartialEq, Eq)]
pub enum ConnectionChoice {
    Remote(String),
    Local { width: u64, height: u64 },
}

/// The scenes that the render loop switches between.
#[derive(Clone, Copy, Debug, PartialEq, Eq, Structural)]
pub enum SceneKind {
    MainMenu,
    Game,
}

/// The connection to open for `action`, if any. A local engine always
/// gets the fixed extent; the requested sizes are not used.
pub fn connection_for(action: SceneAction) -> (r: Option<ConnectionChoice>)
    ensures
        r == match action {
            SceneAction::Stay => None,
            SceneAction::ConnectToServer(addr) => Some(ConnectionChoice::Remote(addr)),
            SceneAction::StartServer(_) => Some(
                ConnectionChoice::Local { width: LOCAL_WORLD_EXTENT, height: LOCAL_WORLD_EXTENT },
            ),
        },
{
    match action {
        SceneAction::Stay => None,
        SceneAction::ConnectToServer(addr) => Some(ConnectionChoice::Remote(addr)),
        SceneAction::StartServer(_) => Some(
            ConnectionChoice::Local { width: LOCAL_WORLD_EXTENT, height: LOCAL_WORLD_EXTENT },
        ),
    }
}

/// The scene entered after a connection check: the game when the server
/// answered with its status, the menu otherwise.
pub fn scene_after_connection(info: &Option<ServerInfo>) -> (r: SceneKind)
    ensures
        r == if info is Some {
            SceneKind::Game
        } else {
            SceneKind::MainMenu
        },
{
    match info {
        Some(_) => SceneKind::Game,
        None => SceneKind::MainMenu,
    }
}

} // verus!
