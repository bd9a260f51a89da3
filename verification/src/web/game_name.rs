//! Which game a request is for, read from its `Referer` header or its own path.

use vstd::prelude::*;
use crate::config::Config;
use crate::text::{opt_view, strip_both, trim_char};

verus! {

/// The game a request was resolved to, if any.
#[derive(Clone, Debug)]
pub struct GameName(pub Option<String>);

/// The path of `text` read as a URI (`text.parse::<http::Uri>()` followed by
/// `Uri::path`), or `None` when it does not parse.
pub uninterp spec fn uri_path(text: Seq<char>) -> Option<Seq<char>>;

/// Parses `text` as an `http::Uri` and takes its path; the outcome is named
/// [`uri_path`].
#[verifier::external_body]
fn parse_uri_path(text: &str) -> (res: Option<String>)
    ensures
        res is Some <==> uri_path(text@) is Some,
        res matches Some(p) ==> p@ == uri_path(text@)->0,
{
    text.parse::<axum::http::Uri>().ok().map(|uri| uri.path().to_string())
}

/// The game a path names: the path without its leading and trailing `/`,
/// when that is not empty and is the name of a configured game.
pub open spec fn path_game(cfg: &Config, path: Seq<char>) -> Option<Seq<char>> {
    let t = strip_both(path, '/');
    if t.len() > 0 && cfg.has_game(t) {
        Some(t)
    } else {
        None
    }
}

/// The game a request is for: the one its `Referer` names, if it names one,
/// and otherwise the one its own path names.
pub open spec fn resolved_game(cfg: &Config, referer: Option<Seq<char>>, path: Seq<char>) -> Option<Seq<char>> {
    let from_referer = match referer {
        Some(r) => match uri_path(r) {
            Some(p) => path_game(cfg, p),
            None => None,
        },
        None => None,
    };
    match from_referer {
        Some(g) => Some(g),
        None => path_game(cfg, path),
    }
}

/// Sets `name` to the game that `path` names, and leaves it as it was when
/// `path` names none.
pub fn set_name(cfg: &Config, path: &str, name: &mut Option<String>)
    ensures
        path_game(cfg, path@) matches Some(g) ==> *final(name) matches Some(n) && n@ == g,
        path_game(cfg, path@) is None ==> *final(name) == *old(name),
{
    let trimmed = trim_char(path, '/');
    if !trimmed.as_str().is_empty() {
        if crate::api::save::find_game(cfg, trimmed.as_str()).is_some() {
            *name = Some(trimmed);
        }
    }
}

/// Resolves the game of a request from its `Referer` header (as text, when
/// the header is readable as text) and its own path.
pub fn layer_game_name(cfg: &Config, referer: Option<String>, path: &str) -> (g: GameName)
    ensures
        g.0 is Some == resolved_game(cfg, opt_view(referer), path@) is Some,
        g.0 matches Some(n) ==> resolved_game(cfg, opt_view(referer), path@) == Some(n@),
{
    let mut name: Option<String> = None;
    match &referer {
        Some(r) => {
            match parse_uri_path(r.as_str()) {
                Some(p) => set_name(cfg, p.as_str(), &mut name),
                None => {},
            }
        },
        None => {},
    }
    if name.is_none() {
        set_name(cfg, path, &mut name);
    }
    GameName(name)
}

/// Every game that a request is resolved to is a configured game, so the
/// save API's game check lets it through.
pub proof fn resolved_game_is_configured(cfg: &Config, referer: Option<Seq<char>>, path: Seq<char>)
    ensures
        resolved_game(cfg, referer, path) matches Some(g) ==> cfg.has_game(g),
{
}

} // verus!
