//! The settings of one scan and cleanup session.
use vstd::prelude::*;

use crate::cleaner::views;
use crate::target::cap_u64;

verus! {

/// Seconds in a day.
pub const SECS_PER_DAY: u64 = 24 * 60 * 60;

/// The staleness age, in days, used when none is configured.
pub const DEFAULT_STALE_DAYS: u64 = 7;

/// The settings of a session. The staleness threshold is in seconds.
#[derive(Clone, Debug)]
pub struct Config {
    pub search_paths: Vec<String>,
    pub exclude_patterns: Vec<String>,
    pub ignore_paths: Vec<String>,
    pub stale_threshold: u64,
    pub last_access_days: u64,
    pub dry_run: bool,
    pub verbose: bool,
    pub clear_terminal: bool,
}

/// The optional settings that a configuration file may give.
pub struct FileSettings {
    pub ignore_paths: Option<Vec<String>>,
    pub dry_run: Option<bool>,
    pub verbose: Option<bool>,
    pub clear_terminal: Option<bool>,
    pub lastseen_days: Option<u64>,
}

/// The patterns excluded by default: version control, dependency caches and
/// toolchain directories.
pub open spec fn default_excludes() -> Seq<Seq<char>> {
    seq![".git"@, "node_modules"@, ".vscode"@, ".cargo"@, ".rustup"@]
}

/// Relies on dirs::home_dir: the current user's home directory, if one is
/// known. What it returns depends on the environment.
#[verifier::external_body]
fn home_dir() -> (r: Option<String>) {
    dirs::home_dir().map(|p| p.to_string_lossy().into_owned())
}

impl Config {
    /// The default settings: one search root (the home directory, else the
    /// current directory), the default exclude patterns, no ignore entries, a
    /// seven-day threshold, dry run on, terminal cleared.
    pub fn new() -> (r: Self)
        ensures
            r.search_paths@.len() == 1,
            views(r.exclude_patterns@) == default_excludes(),
            r.ignore_paths@.len() == 0,
            r.stale_threshold == DEFAULT_STALE_DAYS * SECS_PER_DAY,
            r.last_access_days == DEFAULT_STALE_DAYS,
            r.dry_run,
            !r.verbose,
            r.clear_terminal,
    {
        let root = match home_dir() {
            Some(h) => h,
            None => String::from_str("."),
        };
        let mut search_paths: Vec<String> = Vec::new();
        search_paths.push(root);
        let mut exclude_patterns: Vec<String> = Vec::new();
        exclude_patterns.push(String::from_str(".git"));
        exclude_patterns.push(String::from_str("node_modules"));
        exclude_patterns.push(String::from_str(".vscode"));
        exclude_patterns.push(String::from_str(".cargo"));
        exclude_patterns.push(String::from_str(".rustup"));
        assert(views(exclude_patterns@) =~= default_excludes());
        Config {
            search_paths,
            exclude_patterns,
            ignore_paths: Vec::new(),
            stale_threshold: DEFAULT_STALE_DAYS * SECS_PER_DAY,
            last_access_days: DEFAULT_STALE_DAYS,
            dry_run: true,
            verbose: false,
            clear_terminal: true,
        }
    }

    /// These settings with `paths` as the search roots.
    pub fn with_search_paths(self, paths: Vec<String>) -> (r: Self)
        ensures
            r == (Config { search_paths: paths, ..self }),
    {
        Config { search_paths: paths, ..self }
    }

    /// These settings with `patterns` as the exclude patterns.
    pub fn with_exclude_patterns(self, patterns: Vec<String>) -> (r: Self)
        ensures
            r == (Config { exclude_patterns: patterns, ..self }),
    {
        Config { exclude_patterns: patterns, ..self }
    }

    /// These settings with a staleness threshold of `threshold` seconds.
    pub fn with_stale_threshold(self, threshold: u64) -> (r: Self)
        ensures
            r == (Config { stale_threshold: threshold, ..self }),
    {
        Config { stale_threshold: threshold, ..self }
    }

    /// These settings with dry run set to `dry_run`.
    pub fn with_dry_run(self, dry_run: bool) -> (r: Self)
        ensures
            r == (Config { dry_run, ..self }),
    {
        Config { dry_run, ..self }
    }

    /// These settings with verbosity set to `verbose`.
    pub fn with_verbose(self, verbose: bool) -> (r: Self)
        ensures
            r == (Config { verbose, ..self }),
    {
        Config { verbose, ..self }
    }

    /// These settings with `paths` as the ignore entries.
    pub fn with_ignore_paths(self, paths: Vec<String>) -> (r: Self)
        ensures
            r == (Config { ignore_paths: paths, ..self }),
    {
        Config { ignore_paths: paths, ..self }
    }

    /// These settings with terminal clearing set to `clear`.
    pub fn with_clear(self, clear: bool) -> (r: Self)
        ensures
            r == (Config { clear_terminal: clear, ..self }),
    {
        Config { clear_terminal: clear, ..self }
    }

    /// Merges the settings of a configuration file: its ignore entries are
    /// added after the present ones, each flag it gives replaces the present
    /// one, and a `lastseen` of `d` days sets the threshold to `d` days in
    /// seconds (held to `u64`).
    pub fn apply_settings(&mut self, settings: FileSettings)
        ensures
            final(self).search_paths == old(self).search_paths,
            final(self).exclude_patterns == old(self).exclude_patterns,
            final(self).ignore_paths@ == match settings.ignore_paths {
                Some(v) => old(self).ignore_paths@ + v@,
                None => old(self).ignore_paths@,
            },
            final(self).dry_run == match settings.dry_run {
                Some(b) => b,
                None => old(self).dry_run,
            },
            final(self).verbose == match settings.verbose {
                Some(b) => b,
                None => old(self).verbose,
            },
            final(self).clear_terminal == match settings.clear_terminal {
                Some(b) => b,
                None => old(self).clear_terminal,
            },
            final(self).last_access_days == match settings.lastseen_days {
                Some(d) => d,
                None => old(self).last_access_days,
            },
            final(self).stale_threshold == match settings.lastseen_days {
                Some(d) => cap_u64(d * SECS_PER_DAY) as u64,
                None => old(self).stale_threshold,
            },
    {
        let FileSettings { ignore_paths, dry_run, verbose, clear_terminal, lastseen_days } =
            settings;
        if let Some(mut paths) = ignore_paths {
            self.ignore_paths.append(&mut paths);
        }
        if let Some(b) = dry_run {
            self.dry_run = b;
        }
        if let Some(b) = verbose {
            self.verbose = b;
        }
        if let Some(b) = clear_terminal {
            self.clear_terminal = b;
        }
        if let Some(d) = lastseen_days {
            self.last_access_days = d;
            proof {
                let m = u64::MAX as int / SECS_PER_DAY as int;
                assert(d <= m ==> d * SECS_PER_DAY <= u64::MAX) by (nonlinear_arith)
                    requires
                        m == u64::MAX as int / SECS_PER_DAY as int,
                        SECS_PER_DAY > 0,
                ;
                assert(d > m ==> d * SECS_PER_DAY > u64::MAX) by (nonlinear_arith)
                    requires
                        m == u64::MAX as int / SECS_PER_DAY as int,
                        SECS_PER_DAY > 0,
                ;
            }
            self.stale_threshold = if d > u64::MAX / SECS_PER_DAY {
                u64::MAX
            } else {
                d * SECS_PER_DAY
            };
        }
    }
}

} // verus!
