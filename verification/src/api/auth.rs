//! Logging in.

use vstd::prelude::*;
use crate::api::Reply;
use crate::config;

verus! {

/// The credentials a client sends to log in.
pub struct User {
    pub username: String,
    pub password: String,
}

impl User {
    /// Whether these credentials are exactly those of `account`.
    pub fn matches(&self, account: &config::User) -> (b: bool)
        ensures
            b == (self.username@ == account.username@ && self.password@ == account.password@),
    {
        self.username == account.username && self.password == account.password
    }
}

/// `i` is the first account of `users` with the name `name`.
pub open spec fn is_first_named(users: Seq<config::User>, name: Seq<char>, i: int) -> bool {
    &&& 0 <= i < users.len()
    &&& users[i].username@ == name
    &&& forall|j: int| 0 <= j < i ==> #[trigger] users[j].username@ != name
}

/// A login with `name` and `password` is accepted: the first account with
/// that name has that password.
pub open spec fn login_accepted(users: Seq<config::User>, name: Seq<char>, password: Seq<char>) -> bool {
    exists|i: int| is_first_named(users, name, i) && users[i].password@ == password
}

/// The position of the first account with the given name.
pub fn find_account(users: &Vec<config::User>, username: &String) -> (res: Option<usize>)
    ensures
        res matches Some(i) ==> is_first_named(users@, username@, i as int),
        res is None ==> forall|j: int| 0 <= j < users@.len() ==> #[trigger] users@[j].username@ != username@,
{
    let n = users.len();
    for i in 0..n
        invariant
            n == users@.len(),
            forall|j: int| 0 <= j < i ==> #[trigger] users@[j].username@ != username@,
    {
        if users[i].username == *username {
            return Some(i);
        }
    }
    None
}

/// Checks a login against the accounts: accepted when the first account
/// with the given name has the given password. With no accounts nothing is
/// accepted.
pub fn check_login(users: &Vec<config::User>, user: &User) -> (ok: bool)
    ensures
        ok == login_accepted(users@, user.username@, user.password@),
        users@.len() == 0 ==> !ok,
{
    if users.len() == 0 {
        return false;
    }
    match find_account(users, &user.username) {
        Some(i) => {
            let ok = user.matches(&users[i]);
            proof {
                if !ok {
                    assert forall|k: int| is_first_named(users@, user.username@, k)
                        implies users@[k].password@ != user.password@ by {
                        if k < i {
                            assert(users@[k].username@ != user.username@);
                        } else if k > i {
                            assert(users@[i as int].username@ != user.username@);
                        }
                    }
                }
            }
            ok
        },
        None => false,
    }
}

/// The answer to a login: `200 登录成功` when the credentials were accepted
/// and the session now holds the user, `400 用户名或密码错误` otherwise.
pub fn login_reply(accepted: bool, session_saved: bool) -> (r: Reply)
    ensures
        accepted && session_saved ==> r.status == 200 && r.message@ == "登录成功"@,
        !(accepted && session_saved) ==> r.status == 400 && r.message@ == "用户名或密码错误"@,
{
    if accepted && session_saved {
        Reply { status: 200, message: "登录成功".to_string() }
    } else {
        Reply { status: 400, message: "用户名或密码错误".to_string() }
    }
}

} // verus!
