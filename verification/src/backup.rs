//! Backing up the save directory: whether a backup is due, which files go
//! into it and under which names.

use vstd::prelude::*;
use crate::config::backup::Period;
use crate::text::{chars_of, concat_str, string_of, strip_leading, trim_start_char};

verus! {

/// The glob pattern that finds every save under a directory, at any depth.
pub fn saves_pattern(save_dir: &str) -> (p: String)
    ensures
        p@ == save_dir@ + "/**/*.save"@,
{
    concat_str(save_dir, "/**/*.save")
}

/// A save file found under the save directory.
pub struct SaveFile {
    /// Where it is.
    pub path: String,
    /// How long ago it was last changed, when that could be read.
    pub age: Option<Period>,
}

impl SaveFile {
    /// The age, when known, is a well-formed span.
    pub open spec fn wf(&self) -> bool {
        self.age matches Some(a) ==> a.wf()
    }
}

/// A file was changed within the period.
pub open spec fn changed_within(f: SaveFile, period: Period) -> bool {
    f.age matches Some(a) && a.total_nanos() <= period.total_nanos()
}

/// A backup is due when one is forced, or some save changed within the period.
pub open spec fn backup_due(files: Seq<SaveFile>, period: Period, forced: bool) -> bool {
    forced || exists|i: int| 0 <= i < files.len() && changed_within(#[trigger] files[i], period)
}

/// The saves to back up: all of them when a backup is due (see
/// [`backup_due`]), and `None` when none is.
pub fn get_saves(files: Vec<SaveFile>, period: &Period, default_mod: bool) -> (res: Option<Vec<String>>)
    requires
        period.wf(),
        forall|i: int| 0 <= i < files@.len() ==> (#[trigger] files@[i]).wf(),
    ensures
        res is Some <==> backup_due(files@, *period, default_mod),
        res matches Some(paths) ==> paths@.map_values(|p: String| p@) == files@.map_values(|f: SaveFile| f.path@),
{
    let mut changed = default_mod;
    let n = files.len();
    let mut paths: Vec<String> = Vec::new();
    for i in 0..n
        invariant
            n == files@.len(),
            period.wf(),
            forall|j: int| 0 <= j < files@.len() ==> (#[trigger] files@[j]).wf(),
            changed == (default_mod || exists|j: int| 0 <= j < i && changed_within(#[trigger] files@[j], *period)),
            paths@.len() == i,
            forall|j: int| 0 <= j < i ==> #[trigger] paths@[j]@ == files@[j].path@,
    {
        let f = &files[i];
        if !changed {
            match &f.age {
                Some(a) => {
                    if a.le(period) {
                        changed = true;
                        assert(changed_within(files@[i as int], *period));
                    }
                },
                None => {},
            }
        }
        proof {
            if !changed {
                assert(!changed_within(files@[i as int], *period));
            }
        }
        paths.push(f.path.clone());
    }
    if changed {
        assert(paths@.map_values(|p: String| p@) =~= files@.map_values(|f: SaveFile| f.path@));
        Some(paths)
    } else {
        None
    }
}

/// What a backup run does.
pub enum BackupPlan {
    /// Nothing changed within the period: no backup.
    Unchanged,
    /// There are no saves: no backup.
    NoSaves,
    /// These files are archived.
    Archive(Vec<String>),
}

/// Decides a backup run from the saves found (see [`get_saves`]).
pub fn plan_backup(saves: Option<Vec<String>>) -> (plan: BackupPlan)
    ensures
        saves is None ==> plan is Unchanged,
        saves matches Some(v) ==> if v@.len() == 0 { plan is NoSaves } else {
            plan matches BackupPlan::Archive(files) && files@ == v@
        },
{
    match saves {
        None => BackupPlan::Unchanged,
        Some(v) => if v.len() == 0 { BackupPlan::NoSaves } else { BackupPlan::Archive(v) },
    }
}

/// `file` read relative to `dir` (`Path::strip_prefix` on paths written
/// without `.` components or doubled separators): what follows `dir` and
/// the separators after it, when `dir` is a whole-component prefix of `file`.
pub open spec fn relative_to(file: Seq<char>, dir: Seq<char>) -> Option<Seq<char>> {
    if dir.len() <= file.len() && file.take(dir.len() as int) == dir {
        let rest = file.skip(dir.len() as int);
        if dir.len() == 0 || dir.last() == '/' || rest.len() == 0 || rest[0] == '/' {
            Some(strip_leading(rest, '/'))
        } else {
            None
        }
    } else {
        None
    }
}

/// The name a backed-up save is stored under in the archive: its path
/// relative to the save directory, or `None` when it does not lie under it.
pub fn zip_entry_name(file: &str, save_dir: &str) -> (res: Option<String>)
    ensures
        res is Some <==> relative_to(file@, save_dir@) is Some,
        res matches Some(r) ==> relative_to(file@, save_dir@) == Some(r@),
{
    let f = chars_of(file);
    let d = chars_of(save_dir);
    let n = f.len();
    let m = d.len();
    if m > n {
        return None;
    }
    let mut i: usize = 0;
    while i < m
        invariant
            m <= n,
            n == f@.len(),
            m == d@.len(),
            f@ == file@,
            d@ == save_dir@,
            i <= m,
            forall|j: int| 0 <= j < i ==> f@[j] == d@[j],
        decreases m - i,
    {
        if f[i] != d[i] {
            assert(f@.take(m as int)[i as int] != d@[i as int]);
            return None;
        }
        i = i + 1;
    }
    assert(f@.take(m as int) =~= d@);
    if !(m == 0 || d[m - 1] == '/' || n == m || f[m] == '/') {
        return None;
    }
    let mut rest: Vec<char> = Vec::new();
    let mut k: usize = m;
    while k < n
        invariant
            m <= k <= n,
            n == f@.len(),
            rest@ == f@.subrange(m as int, k as int),
        decreases n - k,
    {
        rest.push(f[k]);
        assert(f@.subrange(m as int, k + 1) == f@.subrange(m as int, k as int).push(f@[k as int]));
        k = k + 1;
    }
    assert(f@.subrange(m as int, n as int) == f@.skip(m as int));
    let rest_text = string_of(&rest);
    Some(trim_start_char(rest_text.as_str(), '/'))
}

/// The subject of a backup mail: `<title> - <time>`.
pub fn mail_subject(title: &str, time: &str) -> (s: String)
    ensures
        s@ == title@ + " - "@ + time@,
{
    let a = concat_str(title, " - ");
    concat_str(a.as_str(), time)
}

} // verus!
