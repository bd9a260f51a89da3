//! Serving the games' files.

use vstd::prelude::*;
use crate::api::Reply;
use crate::config::Config;
use crate::config::game::Game;
use crate::config::server::Server;
use crate::path::extension_spec;
use crate::text::{concat_str, strip_leading, trim_start_char, views};

pub mod game_name;

verus! {

/// The path of a request as the file service reads it: without its leading `/`.
pub fn web_path(uri_path: &str) -> (res: String)
    ensures
        res@ == strip_leading(uri_path@, '/'),
{
    trim_start_char(uri_path, '/')
}

/// `rel` joined onto `base` (`Path::join` on Unix): `rel` itself when it is
/// absolute, otherwise `base`, a `/` unless `base` is empty or already ends
/// with one, and `rel`.
pub open spec fn join_spec(base: Seq<char>, rel: Seq<char>) -> Seq<char> {
    if rel.len() > 0 && rel[0] == '/' {
        rel
    } else if base.len() == 0 || base.last() == '/' {
        base + rel
    } else {
        base + seq!['/'] + rel
    }
}

/// Joins `rel` onto `base` (see [`join_spec`]).
pub fn join_path(base: &str, rel: &str) -> (res: String)
    ensures
        res@ == join_spec(base@, rel@),
{
    let b = crate::text::chars_of(base);
    let r = crate::text::chars_of(rel);
    if r.len() > 0 && r[0] == '/' {
        rel.to_string()
    } else if b.len() == 0 || b[b.len() - 1] == '/' {
        concat_str(base, rel)
    } else {
        let with_sep = concat_str(base, "/");
        proof { reveal_strlit("/"); }
        concat_str(with_sep.as_str(), rel)
    }
}

/// Where a request for a game's file is sent.
pub enum WebRoute {
    /// The asset built into the server at this path is sent.
    Embedded,
    /// The request is redirected to this location.
    Redirect(String),
    /// The file at this path is read and sent.
    File(String),
}

/// Whether `path` is one of the server's built-in assets.
pub fn is_asset(assets: &Vec<String>, path: &str) -> (b: bool)
    ensures
        b == views(assets@).contains(path@),
{
    let key = path.to_string();
    let n = assets.len();
    for i in 0..n
        invariant
            n == assets@.len(),
            key@ == path@,
            forall|j: int| 0 <= j < i ==> #[trigger] assets@[j]@ != path@,
    {
        if assets[i] == key {
            assert(views(assets@)[i as int] == path@);
            return true;
        }
    }
    assert(!views(assets@).contains(path@)) by {
        if views(assets@).contains(path@) {
            let j = choose|j: int| 0 <= j < views(assets@).len() && views(assets@)[j] == path@;
            assert(assets@[j]@ == path@);
        }
    }
    false
}

/// The game that files are served from: the request's game when it is a
/// configured one, otherwise the first configured game.
pub open spec fn serving_game(cfg: &Config, game: Option<Seq<char>>) -> Game {
    match game {
        Some(n) => crate::api::save::chosen_game(cfg, n),
        None => cfg.game@[0],
    }
}

/// Routes a request (its path already without the leading `/`). A path
/// that names a built-in asset (one of `assets`) gets that asset; otherwise
/// the empty path is redirected to `/game.html`, the serving game's own name
/// gives its index page, and any other path is read under the serving
/// game's root.
pub fn route(cfg: &Config, game: &Option<String>, path: &str, assets: &Vec<String>) -> (r: WebRoute)
    requires
        path@.len() > 0 && !views(assets@).contains(path@) ==> cfg.game@.len() > 0,
    ensures
        views(assets@).contains(path@) ==> r is Embedded,
        !views(assets@).contains(path@) && path@.len() == 0
            ==> (r matches WebRoute::Redirect(to) && to@ == "/game.html"@),
        !views(assets@).contains(path@) && path@.len() > 0 ==> {
            let g = serving_game(cfg, crate::text::opt_view(*game));
            if path@ == g.name@ {
                (r matches WebRoute::File(p) && p@ == g.index@)
            } else {
                (r matches WebRoute::File(p) && p@ == join_spec(g.root@, path@))
            }
        },
{
    if is_asset(assets, path) {
        return WebRoute::Embedded;
    }
    if path.is_empty() {
        return WebRoute::Redirect("/game.html".to_string());
    }
    let g = match game {
        Some(name) => crate::api::save::game(name.as_str(), cfg),
        None => &cfg.game[0],
    };
    let p = path.to_string();
    if p == g.name {
        WebRoute::File(g.index.clone())
    } else {
        WebRoute::File(join_path(g.root.as_str(), path))
    }
}

/// The content type `mime_guess` gives an extension (`from_ext`, then
/// `first_or_text_plain`, then `essence_str`).
pub uninterp spec fn mime_essence_for_extension(ext: Seq<char>) -> Seq<char>;

/// Looks an extension up with `mime_guess::from_ext(ext).first_or_text_plain()`
/// and returns the type's essence. The result is named
/// [`mime_essence_for_extension`]; for the empty extension the guess is
/// empty, so it is `text/plain`.
#[verifier::external_body]
fn mime_for_extension(ext: &str) -> (res: String)
    ensures
        res@ == mime_essence_for_extension(ext@),
        ext@.len() == 0 ==> res@ == "text/plain"@,
{
    mime_guess::from_ext(ext).first_or_text_plain().essence_str().to_string()
}

/// The content type sent with a file: what `mime_guess` gives the path's
/// extension, `text/plain` when it has none.
pub fn content_type(path: &str) -> (res: String)
    ensures
        res@ == match extension_spec(path@) {
            Some(e) => mime_essence_for_extension(e),
            None => mime_essence_for_extension(Seq::<char>::empty()),
        },
        extension_spec(path@) is None ==> res@ == "text/plain"@,
{
    match crate::path::extension(path) {
        Some(e) => mime_for_extension(e.as_str()),
        None => {
            let empty = String::new();
            mime_for_extension(empty.as_str())
        },
    }
}

/// What reading a file came to.
pub enum ReadOutcome {
    /// The file was read; its bytes are the body.
    Read,
    /// There is no such file.
    Missing,
    /// Reading failed otherwise.
    Failed,
}

/// The status (and, on failure, the message) of the answer to a file read:
/// `200` with the file, `404` with nothing, `500 读取文件时发生错误`.
pub fn read_reply(outcome: ReadOutcome) -> (r: Reply)
    ensures
        outcome is Read ==> r.status == 200 && r.message@.len() == 0,
        outcome is Missing ==> r.status == 404 && r.message@.len() == 0,
        outcome is Failed ==> r.status == 500 && r.message@ == "读取文件时发生错误"@,
{
    match outcome {
        ReadOutcome::Read => Reply { status: 200, message: String::new() },
        ReadOutcome::Missing => Reply { status: 404, message: String::new() },
        ReadOutcome::Failed => Reply { status: 500, message: "读取文件时发生错误".to_string() },
    }
}

/// The reason phrase `http` gives a status code (`StatusCode::from_u16`
/// followed by `canonical_reason`).
pub uninterp spec fn canonical_reason(code: u16) -> Option<Seq<char>>;

/// Looks up the reason phrase of a status code with
/// `http::StatusCode::canonical_reason`; `None` when the code is not a valid
/// status or has no phrase. The result is named [`canonical_reason`]; for
/// `404` it is `Not Found`.
#[verifier::external_body]
fn reason_phrase(code: u16) -> (res: Option<String>)
    ensures
        res is Some <==> canonical_reason(code) is Some,
        res matches Some(s) ==> canonical_reason(code) == Some(s@),
        res is Some && res->0@ == "Not Found"@ || code != 404,
{
    match axum::http::StatusCode::from_u16(code) {
        Ok(status) => status.canonical_reason().map(|s| s.to_string()),
        Err(_) => None,
    }
}

/// Refuses a path that a blacklist pattern matches, with `404 Not Found`.
pub fn blacklist_layer(server: &Server, path: &str) -> (res: Option<Reply>)
    ensures
        res is Some == exists|i: int| 0 <= i < server.blacklist.view().len()
            && crate::config::server::ci_regex_is_match(#[trigger] server.blacklist.view()[i], path@),
        res matches Some(r) ==> r.status == 404 && r.message@ == "Not Found"@,
{
    if server.blacklist.is_match(path) {
        match reason_phrase(404) {
            Some(reason) => Some(Reply { status: 404, message: reason }),
            None => None,
        }
    } else {
        None
    }
}

} // verus!
