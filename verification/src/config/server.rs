//! How the server listens, and which paths it refuses.

use vstd::prelude::*;
use crate::text::views;

verus! {

/// Listening settings.
pub struct Server {
    /// The address to listen on, as written in the configuration.
    pub bind: String,
    /// Whether the save API may be called from other origins.
    pub cors: bool,
    /// Paths that are never served.
    pub blacklist: Blacklist,
    /// TLS settings.
    pub tls: Tls,
    /// Whether the game may be installed as a web app.
    pub pwa_enabled: bool,
}

/// TLS settings.
pub struct Tls {
    pub enable: bool,
    pub key: String,
    pub cert: String,
}

impl Default for Tls {
    /// TLS switched off, with no key and no certificate.
    fn default() -> (t: Tls)
        ensures
            !t.enable,
            t.key@.len() == 0,
            t.cert@.len() == 0,
    {
        Tls { enable: false, key: String::new(), cert: String::new() }
    }
}

/// The blacklist patterns a configuration gives: those it names, or
/// [`default_blacklist`]'s when it names none.
pub open spec fn configured_patterns(blacklist: Option<Vec<String>>) -> Seq<Seq<char>> {
    match blacklist {
        Some(b) => views(b@),
        None => seq![".*\\.toml"@],
    }
}

impl Server {
    /// Builds the listening settings from the configuration's values; the
    /// values it may leave out are `None`. Left out, `cors` and
    /// `pwa_enabled` are off, TLS is off and the blacklist is
    /// [`default_blacklist`]. Fails with the first blacklist pattern that
    /// does not compile.
    pub fn new(
        bind: String,
        cors: Option<bool>,
        blacklist: Option<Vec<String>>,
        tls: Option<Tls>,
        pwa_enabled: Option<bool>,
    ) -> (res: Result<Server, String>)
        ensures
            res is Ok <==> forall|i: int| 0 <= i < configured_patterns(blacklist).len()
                ==> ci_regex_compiles(#[trigger] configured_patterns(blacklist)[i]),
            res matches Ok(s) ==> {
                &&& s.bind@ == bind@
                &&& s.cors == (cors == Some(true))
                &&& s.pwa_enabled == (pwa_enabled == Some(true))
                &&& s.blacklist.view() == configured_patterns(blacklist)
                &&& (tls is None ==> !s.tls.enable && s.tls.key@.len() == 0 && s.tls.cert@.len() == 0)
                &&& (tls matches Some(t) ==> s.tls == t)
            },
            res matches Err(bad) ==> exists|i: int| 0 <= i < configured_patterns(blacklist).len()
                && configured_patterns(blacklist)[i] == bad@ && !ci_regex_compiles(bad@)
                && forall|j: int| 0 <= j < i ==> ci_regex_compiles(#[trigger] configured_patterns(blacklist)[j]),
    {
        let ghost bl = blacklist;
        let patterns = match blacklist {
            Some(b) => b,
            None => default_blacklist(),
        };
        let ghost ps = patterns@;
        let ghost pv = views(patterns@);
        proof {
            if bl is None {
                assert(pv =~= seq![".*\\.toml"@]);
            }
            assert(pv == configured_patterns(bl));
        }
        let list = match Blacklist::new(patterns) {
            Ok(l) => l,
            Err(bad) => {
                proof {
                    let i = choose|i: int| 0 <= i < ps.len() && ps[i]@ == bad@
                        && !ci_regex_compiles(bad@)
                        && forall|j: int| 0 <= j < i ==> ci_regex_compiles(#[trigger] ps[j]@);
                    assert(pv[i] == bad@);
                    assert(!ci_regex_compiles(configured_patterns(bl)[i]));
                    assert forall|j: int| 0 <= j < i implies ci_regex_compiles(#[trigger] configured_patterns(bl)[j]) by {
                        assert(pv[j] == ps[j]@);
                    }
                }
                return Err(bad);
            },
        };
        let tls = match tls {
            Some(t) => t,
            None => Tls::default(),
        };
        let cors = match cors {
            Some(c) => c,
            None => false,
        };
        let pwa_enabled = match pwa_enabled {
            Some(p) => p,
            None => false,
        };
        Ok(Server { bind, cors, blacklist: list, tls, pwa_enabled })
    }
}

/// Whether `pattern` compiles as a regular expression that ignores case
/// (`RegexBuilder::new(pattern).case_insensitive(true).build()` succeeds).
pub uninterp spec fn ci_regex_compiles(pattern: Seq<char>) -> bool;

/// Whether the case-insensitive regular expression `pattern` matches somewhere
/// in `text` (`Regex::is_match`).
pub uninterp spec fn ci_regex_is_match(pattern: Seq<char>, text: Seq<char>) -> bool;

/// Compiles `pattern` with `regex::RegexBuilder`, ignoring case, and reports
/// whether that succeeded; the outcome is named [`ci_regex_compiles`].
#[verifier::external_body]
fn compiles_ci(pattern: &str) -> (ok: bool)
    ensures
        ok == ci_regex_compiles(pattern@),
{
    regex::RegexBuilder::new(pattern).case_insensitive(true).build().is_ok()
}

/// Compiles `pattern` ignoring case and runs `Regex::is_match` on `text`; the
/// outcome is named [`ci_regex_is_match`].
#[verifier::external_body]
fn is_match_ci(pattern: &str, text: &str) -> (m: bool)
    requires
        ci_regex_compiles(pattern@),
    ensures
        m == ci_regex_is_match(pattern@, text@),
{
    match regex::RegexBuilder::new(pattern).case_insensitive(true).build() {
        Ok(re) => re.is_match(text),
        Err(_) => false,
    }
}

/// Patterns (regular expressions, matched without regard to case) of paths
/// that are never served. Every pattern compiles.
pub struct Blacklist {
    patterns: Vec<String>,
}

/// The blacklist used when the configuration names none: TOML files,
/// which hold the configuration itself.
pub fn default_blacklist() -> (patterns: Vec<String>)
    ensures
        patterns@.len() == 1,
        patterns@[0]@ == ".*\\.toml"@,
{
    let mut patterns: Vec<String> = Vec::new();
    patterns.push(".*\\.toml".to_string());
    patterns
}

impl Blacklist {
    #[verifier::type_invariant]
    spec fn compiled(self) -> bool {
        forall|i: int| 0 <= i < self.patterns@.len() ==> ci_regex_compiles(#[trigger] self.patterns@[i]@)
    }

    /// The patterns, in order.
    pub closed spec fn view(&self) -> Seq<Seq<char>> {
        views(self.patterns@)
    }

    /// Builds a blacklist from configured patterns. Fails with the first
    /// pattern that does not compile.
    pub fn new(patterns: Vec<String>) -> (res: Result<Blacklist, String>)
        ensures
            match res {
                Ok(b) => b.view() == views(patterns@)
                    && forall|i: int| 0 <= i < patterns@.len() ==> ci_regex_compiles(#[trigger] patterns@[i]@),
                Err(bad) => exists|i: int| 0 <= i < patterns@.len() && patterns@[i]@ == bad@
                    && !ci_regex_compiles(bad@)
                    && forall|j: int| 0 <= j < i ==> ci_regex_compiles(#[trigger] patterns@[j]@),
            },
    {
        let n = patterns.len();
        for i in 0..n
            invariant
                n == patterns@.len(),
                forall|j: int| 0 <= j < i ==> ci_regex_compiles(#[trigger] patterns@[j]@),
        {
            if !compiles_ci(patterns[i].as_str()) {
                return Err(patterns[i].clone());
            }
        }
        Ok(Blacklist { patterns })
    }

    /// Whether some pattern matches `path`.
    pub fn is_match(&self, path: &str) -> (b: bool)
        ensures
            b == exists|i: int| 0 <= i < self.view().len() && ci_regex_is_match(#[trigger] self.view()[i], path@),
    {
        proof { use_type_invariant(self); }
        let n = self.patterns.len();
        for i in 0..n
            invariant
                n == self.patterns@.len(),
                forall|j: int| 0 <= j < self.patterns@.len() ==> ci_regex_compiles(#[trigger] self.patterns@[j]@),
                forall|j: int| 0 <= j < i ==> !ci_regex_is_match(#[trigger] self.view()[j], path@),
        {
            if is_match_ci(self.patterns[i].as_str(), path) {
                assert(self.view()[i as int] == self.patterns@[i as int]@);
                return true;
            }
            assert(self.view()[i as int] == self.patterns@[i as int]@);
        }
        false
    }
}

} // verus!
