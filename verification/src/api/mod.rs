//! The JSON API under `/api`: who may call it, and what each call answers.

use vstd::prelude::*;

pub mod auth;
pub mod game;
pub mod save;

verus! {

/// An answer: an HTTP status and the message sent as its body.
pub struct Reply {
    pub status: u16,
    pub message: String,
}

/// The user a request is made for: the name stored in its session, or the
/// empty name when authentication is off and nobody has logged in.
#[derive(Clone, Debug)]
pub struct User(pub String);

/// The session key under which the logged-in user's name is stored.
pub const SESSION_KEY: &'static str = "user";

/// The path of the login call.
pub const LOGIN_PATH: &'static str = "/api/login";

/// The path of the call that tells whether the web app may be installed.
pub const PWA_PATH: &'static str = "/api/pwa/enabled";

/// Whether `path` starts with `/api/`.
pub open spec fn is_api_path(path: Seq<char>) -> bool {
    path.len() >= 5 && path.take(5) == "/api/"@
}

/// Whether a request for `path` needs a logged-in user: never when
/// authentication is off; otherwise for every path but the login and PWA
/// calls when authentication is global, and for the API's paths (the login
/// and PWA calls again excepted) when it is not.
pub open spec fn login_required(enable: bool, global: bool, path: Seq<char>) -> bool {
    enable && (global || is_api_path(path)) && path != LOGIN_PATH@ && path != PWA_PATH@
}

/// Decides whether a request for `path` needs a logged-in user (see [`login_required`]).
pub fn requires_login(auth: &crate::config::Auth, path: &str) -> (b: bool)
    ensures
        b == login_required(auth.enable, auth.global, path@),
{
    if !auth.enable {
        return false;
    }
    let p = path.to_string();
    let login = LOGIN_PATH.to_string();
    let pwa = PWA_PATH.to_string();
    if p == login || p == pwa {
        return false;
    }
    if auth.global {
        return true;
    }
    let v = crate::text::chars_of(path);
    proof { reveal_strlit("/api/"); }
    if v.len() >= 5 && v[0] == '/' && v[1] == 'a' && v[2] == 'p' && v[3] == 'i' && v[4] == '/' {
        assert(v@.take(5) =~= "/api/"@);
        true
    } else {
        assert(!is_api_path(path@)) by {
            if is_api_path(path@) {
                assert(v@.take(5)[0] == '/');
                assert(v@.take(5)[1] == 'a');
                assert(v@.take(5)[2] == 'p');
                assert(v@.take(5)[3] == 'i');
                assert(v@.take(5)[4] == '/');
            }
        }
        false
    }
}

/// Who needs a login. Authentication off: nobody. The login call and the
/// PWA call: never, whatever the settings. Global authentication: every
/// other path. Otherwise: only the other paths under `/api/`.
pub proof fn login_requirement_law(enable: bool, global: bool, path: Seq<char>)
    ensures
        !login_required(enable, global, "/api/login"@),
        !login_required(enable, global, "/api/pwa/enabled"@),
        !enable ==> !login_required(enable, global, path),
        enable && global && path != "/api/login"@ && path != "/api/pwa/enabled"@
            ==> login_required(enable, global, path),
        enable && !global && !(path.len() >= 5 && path.take(5) == "/api/"@)
            ==> !login_required(enable, global, path),
        enable && !global && path.len() >= 5 && path.take(5) == "/api/"@
            && path != "/api/login"@ && path != "/api/pwa/enabled"@
            ==> login_required(enable, global, path),
{
}

/// What the authentication layer does with a request.
pub enum Access {
    /// The request goes on, made for this user.
    Granted(User),
    /// The request is answered at once.
    Denied(Reply),
}

/// Decides whether an API request may go on. `auth_enable` is whether
/// authentication is on; `session_user` is the name stored in the request's
/// session, if any. With authentication off every request goes on; with it
/// on, only those whose session holds a user do; the others get
/// `401 需要登录`.
pub fn auth_layer(auth_enable: bool, session_user: Option<String>) -> (access: Access)
    ensures
        (!auth_enable || session_user is Some) <==> access is Granted,
        access matches Access::Granted(u) ==> u.0@ == match session_user {
            Some(name) => name@,
            None => Seq::<char>::empty(),
        },
        access matches Access::Denied(r) ==> r.status == 401 && r.message@ == "需要登录"@,
{
    if !auth_enable || session_user.is_some() {
        let name = match session_user {
            Some(name) => name,
            None => String::new(),
        };
        Access::Granted(User(name))
    } else {
        Access::Denied(Reply { status: 401, message: "需要登录".to_string() })
    }
}

} // verus!
