//! The list of served games.

use vstd::prelude::*;
use crate::config::Config;
use crate::config::game::Game;

verus! {

/// The answer to `GET /api/game`: every game's name, and the game the
/// request was made for.
pub struct GameList {
    pub list: Vec<String>,
    pub current: Option<String>,
}

/// Lists the configured games' names, in configuration order, with the
/// current game.
pub fn list(cfg: &Config, current: Option<String>) -> (res: GameList)
    ensures
        res.list@.map_values(|s: String| s@) == cfg.game_names(),
        res.current == current,
{
    let n = cfg.game.len();
    let mut names: Vec<String> = Vec::new();
    for i in 0..n
        invariant
            n == cfg.game@.len(),
            names@.len() == i,
            forall|j: int| 0 <= j < i ==> #[trigger] names@[j]@ == cfg.game@[j].name@,
    {
        names.push(cfg.game[i].name.clone());
    }
    assert(names@.map_values(|s: String| s@) =~= cfg.game_names());
    GameList { list: names, current }
}

} // verus!
