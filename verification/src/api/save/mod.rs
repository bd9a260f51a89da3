//! The save API: storing, listing, fetching and deleting the saves of one game.

use vstd::prelude::*;
use crate::api::Reply;
use crate::config::Config;
use crate::config::game::Game;
use crate::web::{join_path, join_spec};

pub mod code;
pub mod list;
pub mod remove;
pub mod save;

verus! {

/// The game a save request is made for; always a configured game.
#[derive(Clone, Debug)]
pub struct GameName(pub String);

/// Lets a save request through only when the game it was resolved to is a
/// configured game; otherwise it gets `404 未找到对应游戏`.
pub fn layer_game_name(cfg: &Config, resolved: Option<String>) -> (res: Result<GameName, Reply>)
    ensures
        res is Ok <==> (resolved is Some && cfg.has_game(resolved->0@)),
        res matches Ok(g) ==> g.0@ == resolved->0@,
        res matches Err(r) ==> r.status == 404 && r.message@ == "未找到对应游戏"@,
{
    match resolved {
        Some(name) => {
            if find_game(cfg, name.as_str()).is_some() {
                Ok(GameName(name))
            } else {
                Err(Reply { status: 404, message: "未找到对应游戏".to_string() })
            }
        },
        None => Err(Reply { status: 404, message: "未找到对应游戏".to_string() }),
    }
}

/// `i` is the first configured game named `name`.
pub open spec fn is_first_game(games: Seq<Game>, name: Seq<char>, i: int) -> bool {
    &&& 0 <= i < games.len()
    &&& games[i].name@ == name
    &&& forall|j: int| 0 <= j < i ==> #[trigger] games[j].name@ != name
}

/// The position of the first configured game named `name`.
pub fn find_game(cfg: &Config, name: &str) -> (res: Option<usize>)
    ensures
        res matches Some(i) ==> is_first_game(cfg.game@, name@, i as int),
        res is None <==> !cfg.has_game(name@),
{
    let key = name.to_string();
    let n = cfg.game.len();
    for i in 0..n
        invariant
            n == cfg.game@.len(),
            key@ == name@,
            forall|j: int| 0 <= j < i ==> #[trigger] cfg.game@[j].name@ != name@,
    {
        if cfg.game[i].name == key {
            return Some(i);
        }
    }
    None
}

/// The first configured game is unique.
pub proof fn lemma_first_game_unique(games: Seq<Game>, name: Seq<char>, i: int, k: int)
    requires
        is_first_game(games, name, i),
        is_first_game(games, name, k),
    ensures
        i == k,
{
    if i < k {
        assert(games[i].name@ != name);
    } else if k < i {
        assert(games[k].name@ != name);
    }
}

/// The game a request for `name` is served by: the first game with that
/// name, or the first configured game when none has it.
pub open spec fn chosen_game(cfg: &Config, name: Seq<char>) -> Game {
    if cfg.has_game(name) {
        cfg.game@[choose|i: int| is_first_game(cfg.game@, name, i)]
    } else {
        cfg.game@[0]
    }
}

/// The game named `name`, or the first configured game when none has that name.
pub fn game<'g>(name: &str, cfg: &'g Config) -> (g: &'g Game)
    requires
        cfg.game@.len() > 0,
    ensures
        *g == chosen_game(cfg, name@),
        cfg.has_game(name@) ==> g.name@ == name@,
{
    match find_game(cfg, name) {
        Some(i) => {
            proof {
                let c = choose|k: int| is_first_game(cfg.game@, name@, k);
                lemma_first_game_unique(cfg.game@, name@, i as int, c);
            }
            &cfg.game[i]
        },
        None => &cfg.game[0],
    }
}

/// The directory that holds `user`'s saves of the game `name`: the user's
/// directory under that game's save directory.
pub fn user_save_dir(cfg: &Config, name: &str, user: &str) -> (dir: String)
    requires
        cfg.game@.len() > 0,
    ensures
        dir@ == join_spec(chosen_game(cfg, name@).save_dir@, user@),
{
    let g = game(name, cfg);
    join_path(g.save_dir.as_str(), user)
}

/// Where `user`'s save file `file` of the game `name` is kept: under the
/// user's directory in the serving game's save directory.
pub open spec fn save_file_path(cfg: &Config, name: Seq<char>, user: Seq<char>, file: Seq<char>) -> Seq<char> {
    join_spec(join_spec(chosen_game(cfg, name).save_dir@, user), file)
}

/// A save file lies in the directory listed for that user and game: for a
/// configured game, under the save directory of the first game with that
/// name; for any other name, under the first game's save directory.
pub proof fn save_file_lies_in_user_dir(cfg: &Config, name: Seq<char>, user: Seq<char>, file: Seq<char>)
    requires
        cfg.game@.len() > 0,
    ensures
        save_file_path(cfg, name, user, file) == join_spec(join_spec(chosen_game(cfg, name).save_dir@, user), file),
        cfg.has_game(name) ==> exists|i: int|
            0 <= i < cfg.game@.len() && cfg.game@[i].name@ == name
            && (forall|j: int| 0 <= j < i ==> #[trigger] cfg.game@[j].name@ != name)
            && save_file_path(cfg, name, user, file) == join_spec(join_spec(cfg.game@[i].save_dir@, user), file),
        !cfg.has_game(name) ==> save_file_path(cfg, name, user, file)
            == join_spec(join_spec(cfg.game@[0].save_dir@, user), file),
{
    if cfg.has_game(name) {
        let w = choose|i: int| 0 <= i < cfg.game@.len() && #[trigger] cfg.game@[i].name@ == name;
        lemma_first_game_exists(cfg.game@, name, w);
        let c = choose|i: int| is_first_game(cfg.game@, name, i);
        assert(is_first_game(cfg.game@, name, c));
    }
}

/// Some game is first among those with a name that some game has.
proof fn lemma_first_game_exists(games: Seq<Game>, name: Seq<char>, w: int)
    requires
        0 <= w < games.len(),
        games[w].name@ == name,
    ensures
        exists|i: int| is_first_game(games, name, i),
    decreases w,
{
    if exists|j: int| 0 <= j < w && #[trigger] games[j].name@ == name {
        let j = choose|j: int| 0 <= j < w && #[trigger] games[j].name@ == name;
        lemma_first_game_exists(games, name, j);
    } else {
        assert(is_first_game(games, name, w));
    }
}

/// The file of `user`'s save `file` of the game `name`.
pub fn user_save_file(cfg: &Config, name: &str, user: &str, file: &str) -> (path: String)
    requires
        cfg.game@.len() > 0,
    ensures
        path@ == save_file_path(cfg, name@, user@, file@),
{
    let dir = user_save_dir(cfg, name, user);
    join_path(dir.as_str(), file)
}

} // verus!
