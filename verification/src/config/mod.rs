//! The server's configuration, as the library sees it once the file has been read.

use vstd::prelude::*;
use crate::config::backup::Backup;
use crate::config::game::Game;
use crate::config::server::Server;

pub mod backup;
pub mod game;
pub mod server;

verus! {

/// The whole configuration.
pub struct Config {
    /// The games that are served; requests name one of them.
    pub game: Vec<Game>,
    /// How the server listens and what it refuses.
    pub server: Server,
    /// Who may log in.
    pub auth: Auth,
    /// How the saves are backed up.
    pub backup: Backup,
}

/// User authentication.
pub struct Auth {
    /// Whether logging in is required at all.
    pub enable: bool,
    /// Whether every page (and not only the API) requires a login.
    pub global: bool,
    /// The accounts that may log in.
    pub users: Vec<User>,
}

/// An account that may log in.
pub struct User {
    pub username: String,
    pub password: String,
}

impl Default for Auth {
    /// Authentication switched off, with no accounts.
    fn default() -> (a: Auth)
        ensures
            !a.enable,
            !a.global,
            a.users@.len() == 0,
    {
        Auth { enable: false, global: false, users: Vec::new() }
    }
}

impl Clone for User {
    fn clone(&self) -> (u: User)
        ensures
            u.username@ == self.username@,
            u.password@ == self.password@,
    {
        User { username: self.username.clone(), password: self.password.clone() }
    }
}

impl Config {
    /// The names of the configured games, in order.
    pub open spec fn game_names(&self) -> Seq<Seq<char>> {
        self.game@.map_values(|g: Game| g.name@)
    }

    /// Whether some configured game has the name `name`.
    pub open spec fn has_game(&self, name: Seq<char>) -> bool {
        exists|i: int| 0 <= i < self.game@.len() && #[trigger] self.game@[i].name@ == name
    }
}

#[verifier::external_type_specification]
#[verifier::external_body]
pub struct ExFormatter<'a>(core::fmt::Formatter<'a>);

#[verifier::external_type_specification]
#[verifier::external_body]
pub struct ExFmtError(core::fmt::Error);

/// Writes a string to a formatter (`Formatter::write_str`). Whether the
/// underlying writer accepts it is not known here, so nothing is promised
/// of the result.
#[verifier::external_body]
fn write_to(f: &mut core::fmt::Formatter<'_>, s: &str) -> (res: Result<(), core::fmt::Error>) {
    f.write_str(s)
}

/// The text that stands for a hidden value in logs.
pub fn hidden_text() -> (s: &'static str)
    ensures
        s@ == "***"@,
{
    "***"
}

/// Formats any value as `***` (the text [`hidden_text`] gives), so that
/// secrets never reach a log; the result is the formatter's answer.
pub fn fmt_hide<D>(_d: &D, f: &mut core::fmt::Formatter<'_>) -> (res: Result<(), core::fmt::Error>) {
    write_to(f, hidden_text())
}

} // verus!
