//! How and how often the save directory is backed up.

use vstd::prelude::*;

verus! {

/// Nanoseconds in a second.
pub const NANOS_PER_SEC: u32 = 1_000_000_000;

/// A span of time, as `std::time::Duration` holds it: whole seconds and the
/// nanoseconds of the second that is not yet full.
pub struct Period {
    pub secs: u64,
    pub nanos: u32,
}

impl Period {
    /// The span is well formed: its nanoseconds make less than a second.
    pub open spec fn wf(&self) -> bool {
        self.nanos < NANOS_PER_SEC
    }

    /// The length of the span in nanoseconds.
    pub open spec fn total_nanos(&self) -> int {
        self.secs * NANOS_PER_SEC + self.nanos
    }

    /// Whether this span is no longer than `other` (`Duration`'s `<=`).
    pub fn le(&self, other: &Period) -> (b: bool)
        requires
            self.wf(),
            other.wf(),
        ensures
            b == (self.total_nanos() <= other.total_nanos()),
    {
        proof {
            lemma_total_nanos_order(self.secs as int, self.nanos as int, other.secs as int, other.nanos as int);
        }
        self.secs < other.secs || (self.secs == other.secs && self.nanos <= other.nanos)
    }
}

proof fn lemma_total_nanos_order(s1: int, n1: int, s2: int, n2: int)
    requires
        0 <= s1,
        0 <= s2,
        0 <= n1 < 1_000_000_000,
        0 <= n2 < 1_000_000_000,
    ensures
        (s1 * 1_000_000_000 + n1 <= s2 * 1_000_000_000 + n2) == (s1 < s2 || (s1 == s2 && n1 <= n2)),
{
    if s1 < s2 {
        assert(s1 * 1_000_000_000 + 1_000_000_000 <= s2 * 1_000_000_000) by (nonlinear_arith)
            requires s1 < s2;
    } else if s1 > s2 {
        assert(s2 * 1_000_000_000 + 1_000_000_000 <= s1 * 1_000_000_000) by (nonlinear_arith)
            requires s2 < s1;
    }
}

/// The backup settings.
pub struct Backup {
    /// Whether backups are taken at all.
    pub enable: bool,
    /// How often a backup is taken.
    pub period: Period,
    /// Whether a backup is taken as soon as the server starts.
    pub backup_on_start: bool,
    /// Where the backup goes.
    pub method: BackupMethod,
    /// The title that begins a backup mail's subject.
    pub title: String,
}

impl Backup {
    /// Builds the backup settings from the configuration's values; left out,
    /// the period is [`default_period`] and the title is empty.
    pub fn new(enable: bool, period: Option<Period>, backup_on_start: bool, method: BackupMethod, title: Option<String>) -> (b: Backup)
        ensures
            b.enable == enable,
            b.backup_on_start == backup_on_start,
            b.method == method,
            period matches Some(p) ==> b.period == p,
            period is None ==> b.period.secs == 3600 && b.period.nanos == 0,
            title matches Some(t) ==> b.title@ == t@,
            title is None ==> b.title@.len() == 0,
    {
        let period = match period {
            Some(p) => p,
            None => default_period(),
        };
        let title = match title {
            Some(t) => t,
            None => String::new(),
        };
        Backup { enable, period, backup_on_start, method, title }
    }
}

/// Where a backup goes.
pub enum BackupMethod {
    /// Into a directory.
    Fs { dir: String },
    /// As a mail attachment.
    Mail {
        smtp_host: String,
        smtp_port: u16,
        username: String,
        password: String,
        sender: String,
        receiver: Vec<String>,
    },
}

/// The backup period used when the configuration names none: one hour.
pub fn default_period() -> (p: Period)
    ensures
        p.secs == 3600,
        p.nanos == 0,
        p.wf(),
{
    Period { secs: 3600, nanos: 0 }
}

impl Default for BackupMethod {
    /// Backups go into the directory `backup`.
    fn default() -> (m: BackupMethod)
        ensures
            m matches BackupMethod::Fs { dir } && dir@ == "backup"@,
    {
        BackupMethod::Fs { dir: "backup".to_string() }
    }
}

impl Default for Backup {
    /// No backups: disabled, with an empty period, not on start, into
    /// `backup`, with an empty title.
    fn default() -> (b: Backup)
        ensures
            !b.enable,
            b.title@.len() == 0,
            b.period.secs == 0 && b.period.nanos == 0,
            !b.backup_on_start,
            b.method matches BackupMethod::Fs { dir } && dir@ == "backup"@,
    {
        Backup {
            enable: false,
            period: Period { secs: 0, nanos: 0 },
            backup_on_start: false,
            method: BackupMethod::default(),
            title: String::new(),
        }
    }
}

} // verus!
