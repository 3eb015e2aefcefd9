//! The configuration document and its field-level merge rules.
//!
//! A document is built by folding parsed profiles into one accumulator.
//! Every configurable field belongs to exactly one of five merge
//! categories, the accumulator on the left and the incoming profile on the
//! right:
//!
//! * boolean flags: overwritten only when the incoming value is `true`;
//! * single optional values: an incoming explicit value overwrites any
//!   existing one; an unset incoming value never clears one;
//! * accumulating lists: incoming entries are appended, in order, keeping
//!   duplicates;
//! * replaceable lists (command hooks): the incoming list only fills an
//!   empty one, an already-set value is never cleared;
//! * key-value maps: union, incoming keys winning on common names.

use crate::command::CommandInput;
use crate::strings::clone_opt_string;
use crate::strings::clone_string_vec;
use crate::envmap::extend;
use crate::envmap::EnvMap;
use vstd::prelude::*;

verus! {

// ------------------------------------------------------------------
// Merge rules, one per field category.
// ------------------------------------------------------------------
/// Boolean flags: `false` never clears an already-set flag.
pub open spec fn merge_flag(a: bool, b: bool) -> bool {
    a || b
}

/// Single optional values: an explicit incoming value always wins.
pub open spec fn merge_scalar<T>(a: Option<T>, b: Option<T>) -> Option<T> {
    if b is Some {
        b
    } else {
        a
    }
}

/// Accumulating lists: append, preserving order and duplicates.
pub open spec fn merge_accumulate(a: Seq<Seq<char>>, b: Seq<Seq<char>>) -> Seq<Seq<char>> {
    a + b
}

/// Replaceable lists: incoming replaces only a currently-empty value.
pub open spec fn merge_keep_nonempty(a: Seq<Seq<char>>, b: Seq<Seq<char>>) -> Seq<Seq<char>> {
    if a.len() == 0 {
        b
    } else {
        a
    }
}

/// Key-value maps: union, incoming keys overwrite same-named keys.
pub open spec fn merge_union(
    a: Map<Seq<char>, Seq<char>>,
    b: Map<Seq<char>, Seq<char>>,
) -> Map<Seq<char>, Seq<char>> {
    a.union_prefer_right(b)
}

// ------------------------------------------------------------------
// Progress-display options.
// ------------------------------------------------------------------
/// Settings that customise progress display.
#[derive(Debug)]
pub struct ProgressOptions {
    /// Do not show any progress bar.
    pub no_progress: bool,
    /// Interval to update progress bars, as a human-readable duration.
    pub progress_interval: Option<String>,
}

/// Mathematical image of [`ProgressOptions`].
#[verifier::ext_equal]
pub struct ProgressOptionsV {
    pub no_progress: bool,
    pub progress_interval: Option<Seq<char>>,
}

impl View for ProgressOptions {
    type V = ProgressOptionsV;

    open spec fn view(&self) -> ProgressOptionsV {
        ProgressOptionsV {
            no_progress: self.no_progress,
            progress_interval: self.progress_interval.deep_view(),
        }
    }
}

pub open spec fn default_progress() -> ProgressOptionsV {
    ProgressOptionsV { no_progress: false, progress_interval: None }
}

pub open spec fn merge_progress(a: ProgressOptionsV, b: ProgressOptionsV) -> ProgressOptionsV {
    ProgressOptionsV {
        no_progress: merge_flag(a.no_progress, b.no_progress),
        progress_interval: merge_scalar(a.progress_interval, b.progress_interval),
    }
}

impl Default for ProgressOptions {
    fn default() -> (r: Self)
        ensures
            r@ == default_progress(),
    {
        ProgressOptions { no_progress: false, progress_interval: None }
    }
}

impl ProgressOptions {
    /// A copy of these options, value for value.
    pub fn duplicate(&self) -> (r: Self)
        ensures
            r@ == self@,
    {
        ProgressOptions {
            no_progress: self.no_progress,
            progress_interval: clone_opt_string(&self.progress_interval),
        }
    }

    /// Fold an incoming profile's progress options into this accumulator.
    pub fn merge(&mut self, other: ProgressOptions)
        ensures
            final(self)@ == merge_progress(old(self)@, other@),
    {
        self.no_progress = self.no_progress || other.no_progress;
        if other.progress_interval.is_some() {
            self.progress_interval = other.progress_interval;
        }
    }
}

// ------------------------------------------------------------------
// Global options.
// ------------------------------------------------------------------
/// Options available for all commands.
#[derive(Debug)]
pub struct GlobalOptions {
    /// Further profiles to merge in, in order.
    pub use_profile: Vec<String>,
    /// Only show what would be done without modifying anything.
    pub dry_run: bool,
    /// Check if the index matches the pack files.
    pub check_index: bool,
    /// The log level to use.
    pub log_level: Option<String>,
    /// Write log messages to this file instead of printing them.
    pub log_file: Option<String>,
    /// Settings to customise progress bars.
    pub progress_options: ProgressOptions,
    /// Environment variables to set.
    pub env: EnvMap,
    /// Command called before every operation.
    pub run_before: CommandInput,
    /// Command called after every operation.
    pub run_after: CommandInput,
}

/// Mathematical image of [`GlobalOptions`].
#[verifier::ext_equal]
pub struct GlobalOptionsV {
    pub use_profile: Seq<Seq<char>>,
    pub dry_run: bool,
    pub check_index: bool,
    pub log_level: Option<Seq<char>>,
    pub log_file: Option<Seq<char>>,
    pub progress_options: ProgressOptionsV,
    pub env: Map<Seq<char>, Seq<char>>,
    pub run_before: Seq<Seq<char>>,
    pub run_after: Seq<Seq<char>>,
}

impl View for GlobalOptions {
    type V = GlobalOptionsV;

    open spec fn view(&self) -> GlobalOptionsV {
        GlobalOptionsV {
            use_profile: self.use_profile.deep_view(),
            dry_run: self.dry_run,
            check_index: self.check_index,
            log_level: self.log_level.deep_view(),
            log_file: self.log_file.deep_view(),
            progress_options: self.progress_options@,
            env: self.env@,
            run_before: self.run_before@,
            run_after: self.run_after@,
        }
    }
}

pub open spec fn default_global() -> GlobalOptionsV {
    GlobalOptionsV {
        use_profile: Seq::empty(),
        dry_run: false,
        check_index: false,
        log_level: None,
        log_file: None,
        progress_options: default_progress(),
        env: Map::empty(),
        run_before: Seq::empty(),
        run_after: Seq::empty(),
    }
}

pub open spec fn merge_global(a: GlobalOptionsV, b: GlobalOptionsV) -> GlobalOptionsV {
    GlobalOptionsV {
        use_profile: merge_accumulate(a.use_profile, b.use_profile),
        dry_run: merge_flag(a.dry_run, b.dry_run),
        check_index: merge_flag(a.check_index, b.check_index),
        log_level: merge_scalar(a.log_level, b.log_level),
        log_file: merge_scalar(a.log_file, b.log_file),
        progress_options: merge_progress(a.progress_options, b.progress_options),
        env: merge_union(a.env, b.env),
        run_before: merge_keep_nonempty(a.run_before, b.run_before),
        run_after: merge_keep_nonempty(a.run_after, b.run_after),
    }
}

impl Default for GlobalOptions {
    fn default() -> (r: Self)
        ensures
            r@ == default_global(),
    {
        GlobalOptions {
            use_profile: Vec::new(),
            dry_run: false,
            check_index: false,
            log_level: None,
            log_file: None,
            progress_options: ProgressOptions::default(),
            env: EnvMap::default(),
            run_before: CommandInput::default(),
            run_after: CommandInput::default(),
        }
    }
}

impl GlobalOptions {
    /// A copy of these options, value for value.
    pub fn duplicate(&self) -> (r: Self)
        ensures
            r@ == self@,
    {
        let r = GlobalOptions {
            use_profile: clone_string_vec(&self.use_profile),
            dry_run: self.dry_run,
            check_index: self.check_index,
            log_level: clone_opt_string(&self.log_level),
            log_file: clone_opt_string(&self.log_file),
            progress_options: self.progress_options.duplicate(),
            env: self.env.duplicate(),
            run_before: self.run_before.duplicate(),
            run_after: self.run_after.duplicate(),
        };
        proof {
            assert(r@ =~~= self@);
        }
        r
    }

    /// Fold an incoming profile's global options into this accumulator.
    pub fn merge(&mut self, other: GlobalOptions)
        ensures
            final(self)@ == merge_global(old(self)@, other@),
    {
        let GlobalOptions {
            use_profile: mut in_use_profile,
            dry_run: in_dry_run,
            check_index: in_check_index,
            log_level: in_log_level,
            log_file: in_log_file,
            progress_options: in_progress,
            env: in_env,
            run_before: in_run_before,
            run_after: in_run_after,
        } = other;
        self.use_profile.append(&mut in_use_profile);
        self.dry_run = self.dry_run || in_dry_run;
        self.check_index = self.check_index || in_check_index;
        if in_log_level.is_some() {
            self.log_level = in_log_level;
        }
        if in_log_file.is_some() {
            self.log_file = in_log_file;
        }
        self.progress_options.merge(in_progress);
        extend(&mut self.env, in_env);
        self.run_before.merge_keep_set(in_run_before);
        self.run_after.merge_keep_set(in_run_after);
        proof {
            assert(self@ =~~= merge_global(old(self)@, other@));
        }
    }
}

// ------------------------------------------------------------------
// Repository options.
// ------------------------------------------------------------------
/// Connection options for the repository the tool operates on; the values
/// are handed opaquely to the storage backend.
#[derive(Debug)]
pub struct AllRepositoryOptions {
    /// Location of the repository.
    pub repository: Option<String>,
    /// Location of the hot part of the repository.
    pub repo_hot: Option<String>,
    /// Password for the repository.
    pub password: Option<String>,
    /// Do not use a local cache.
    pub no_cache: bool,
}

/// Mathematical image of [`AllRepositoryOptions`].
#[verifier::ext_equal]
pub struct AllRepositoryOptionsV {
    pub repository: Option<Seq<char>>,
    pub repo_hot: Option<Seq<char>>,
    pub password: Option<Seq<char>>,
    pub no_cache: bool,
}

impl View for AllRepositoryOptions {
    type V = AllRepositoryOptionsV;

    open spec fn view(&self) -> AllRepositoryOptionsV {
        AllRepositoryOptionsV {
            repository: self.repository.deep_view(),
            repo_hot: self.repo_hot.deep_view(),
            password: self.password.deep_view(),
            no_cache: self.no_cache,
        }
    }
}

pub open spec fn default_repository() -> AllRepositoryOptionsV {
    AllRepositoryOptionsV { repository: None, repo_hot: None, password: None, no_cache: false }
}

pub open spec fn merge_repository(
    a: AllRepositoryOptionsV,
    b: AllRepositoryOptionsV,
) -> AllRepositoryOptionsV {
    AllRepositoryOptionsV {
        repository: merge_scalar(a.repository, b.repository),
        repo_hot: merge_scalar(a.repo_hot, b.repo_hot),
        password: merge_scalar(a.password, b.password),
        no_cache: merge_flag(a.no_cache, b.no_cache),
    }
}

impl Default for AllRepositoryOptions {
    fn default() -> (r: Self)
        ensures
            r@ == default_repository(),
    {
        AllRepositoryOptions { repository: None, repo_hot: None, password: None, no_cache: false }
    }
}

impl AllRepositoryOptions {
    /// A copy of these options, value for value.
    pub fn duplicate(&self) -> (r: Self)
        ensures
            r@ == self@,
    {
        AllRepositoryOptions {
            repository: clone_opt_string(&self.repository),
            repo_hot: clone_opt_string(&self.repo_hot),
            password: clone_opt_string(&self.password),
            no_cache: self.no_cache,
        }
    }

    /// Fold an incoming profile's repository options into this accumulator.
    pub fn merge(&mut self, other: AllRepositoryOptions)
        ensures
            final(self)@ == merge_repository(old(self)@, other@),
    {
        let AllRepositoryOptions {
            repository: in_repository,
            repo_hot: in_repo_hot,
            password: in_password,
            no_cache: in_no_cache,
        } = other;
        if in_repository.is_some() {
            self.repository = in_repository;
        }
        if in_repo_hot.is_some() {
            self.repo_hot = in_repo_hot;
        }
        if in_password.is_some() {
            self.password = in_password;
        }
        self.no_cache = self.no_cache || in_no_cache;
    }
}

// ------------------------------------------------------------------
// Snapshot filter options.
// ------------------------------------------------------------------
/// Criteria that select the snapshots an operation applies to; handed
/// opaquely to the storage backend.
#[derive(Debug)]
pub struct SnapshotFilter {
    /// Hosts to restrict the operation to.
    pub filter_host: Vec<String>,
    /// Paths to restrict the operation to.
    pub filter_paths: Vec<String>,
    /// Tags to restrict the operation to.
    pub filter_tags: Vec<String>,
}

/// Mathematical image of [`SnapshotFilter`].
#[verifier::ext_equal]
pub struct SnapshotFilterV {
    pub filter_host: Seq<Seq<char>>,
    pub filter_paths: Seq<Seq<char>>,
    pub filter_tags: Seq<Seq<char>>,
}

impl View for SnapshotFilter {
    type V = SnapshotFilterV;

    open spec fn view(&self) -> SnapshotFilterV {
        SnapshotFilterV {
            filter_host: self.filter_host.deep_view(),
            filter_paths: self.filter_paths.deep_view(),
            filter_tags: self.filter_tags.deep_view(),
        }
    }
}

pub open spec fn default_filter() -> SnapshotFilterV {
    SnapshotFilterV {
        filter_host: Seq::empty(),
        filter_paths: Seq::empty(),
        filter_tags: Seq::empty(),
    }
}

pub open spec fn merge_filter(a: SnapshotFilterV, b: SnapshotFilterV) -> SnapshotFilterV {
    SnapshotFilterV {
        filter_host: merge_keep_nonempty(a.filter_host, b.filter_host),
        filter_paths: merge_keep_nonempty(a.filter_paths, b.filter_paths),
        filter_tags: merge_keep_nonempty(a.filter_tags, b.filter_tags),
    }
}

impl Default for SnapshotFilter {
    fn default() -> (r: Self)
        ensures
            r@ == default_filter(),
    {
        SnapshotFilter { filter_host: Vec::new(), filter_paths: Vec::new(), filter_tags: Vec::new() }
    }
}

impl SnapshotFilter {
    /// A copy of this filter, value for value.
    pub fn duplicate(&self) -> (r: Self)
        ensures
            r@ == self@,
    {
        let r = SnapshotFilter {
            filter_host: clone_string_vec(&self.filter_host),
            filter_paths: clone_string_vec(&self.filter_paths),
            filter_tags: clone_string_vec(&self.filter_tags),
        };
        proof {
            assert(r@ =~~= self@);
        }
        r
    }

    /// Fold an incoming profile's filter options into this accumulator.
    pub fn merge(&mut self, other: SnapshotFilter)
        ensures
            final(self)@ == merge_filter(old(self)@, other@),
    {
        let SnapshotFilter {
            filter_host: in_host,
            filter_paths: in_paths,
            filter_tags: in_tags,
        } = other;
        if self.filter_host.len() == 0 {
            self.filter_host = in_host;
        }
        if self.filter_paths.len() == 0 {
            self.filter_paths = in_paths;
        }
        if self.filter_tags.len() == 0 {
            self.filter_tags = in_tags;
        }
    }
}

// ------------------------------------------------------------------
// Per-subcommand option blocks.
// ------------------------------------------------------------------
/// Options of the backup subcommand.
#[derive(Debug)]
pub struct BackupOptions {
    /// Initialise the repository if it does not exist yet.
    pub init: bool,
    /// Sources to back up.
    pub sources: Vec<String>,
}

/// Mathematical image of [`BackupOptions`].
#[verifier::ext_equal]
pub struct BackupOptionsV {
    pub init: bool,
    pub sources: Seq<Seq<char>>,
}

impl View for BackupOptions {
    type V = BackupOptionsV;

    open spec fn view(&self) -> BackupOptionsV {
        BackupOptionsV { init: self.init, sources: self.sources.deep_view() }
    }
}

pub open spec fn default_backup() -> BackupOptionsV {
    BackupOptionsV { init: false, sources: Seq::empty() }
}

pub open spec fn merge_backup(a: BackupOptionsV, b: BackupOptionsV) -> BackupOptionsV {
    BackupOptionsV {
        init: merge_flag(a.init, b.init),
        sources: merge_keep_nonempty(a.sources, b.sources),
    }
}

impl Default for BackupOptions {
    fn default() -> (r: Self)
        ensures
            r@ == default_backup(),
    {
        BackupOptions { init: false, sources: Vec::new() }
    }
}

impl BackupOptions {
    /// A copy of these options, value for value.
    pub fn duplicate(&self) -> (r: Self)
        ensures
            r@ == self@,
    {
        let r = BackupOptions { init: self.init, sources: clone_string_vec(&self.sources) };
        proof {
            assert(r@ =~~= self@);
        }
        r
    }

    /// Fold an incoming profile's backup options into this accumulator.
    pub fn merge(&mut self, other: BackupOptions)
        ensures
            final(self)@ == merge_backup(old(self)@, other@),
    {
        let BackupOptions { init: in_init, sources: in_sources } = other;
        self.init = self.init || in_init;
        if self.sources.len() == 0 {
            self.sources = in_sources;
        }
    }
}

/// Targets of the copy subcommand.
#[derive(Debug)]
pub struct Targets {
    /// Repositories to copy snapshots to.
    pub targets: Vec<String>,
}

/// Mathematical image of [`Targets`].
#[verifier::ext_equal]
pub struct TargetsV {
    pub targets: Seq<Seq<char>>,
}

impl View for Targets {
    type V = TargetsV;

    open spec fn view(&self) -> TargetsV {
        TargetsV { targets: self.targets.deep_view() }
    }
}

pub open spec fn default_targets() -> TargetsV {
    TargetsV { targets: Seq::empty() }
}

pub open spec fn merge_targets(a: TargetsV, b: TargetsV) -> TargetsV {
    TargetsV { targets: merge_keep_nonempty(a.targets, b.targets) }
}

impl Default for Targets {
    fn default() -> (r: Self)
        ensures
            r@ == default_targets(),
    {
        Targets { targets: Vec::new() }
    }
}

impl Targets {
    /// A copy of these targets, value for value.
    pub fn duplicate(&self) -> (r: Self)
        ensures
            r@ == self@,
    {
        let r = Targets { targets: clone_string_vec(&self.targets) };
        proof {
            assert(r@ =~~= self@);
        }
        r
    }

    /// Fold an incoming profile's copy targets into this accumulator.
    pub fn merge(&mut self, other: Targets)
        ensures
            final(self)@ == merge_targets(old(self)@, other@),
    {
        let Targets { targets: in_targets } = other;
        if self.targets.len() == 0 {
            self.targets = in_targets;
        }
    }
}

/// Options of the forget subcommand.
#[derive(Debug)]
pub struct ForgetOptions {
    /// Prune the repository after removing snapshots.
    pub prune: bool,
    /// Number of most recent snapshots to keep.
    pub keep_last: Option<u64>,
    /// Tags of snapshots to keep.
    pub keep_tags: Vec<String>,
}

/// Mathematical image of [`ForgetOptions`].
#[verifier::ext_equal]
pub struct ForgetOptionsV {
    pub prune: bool,
    pub keep_last: Option<u64>,
    pub keep_tags: Seq<Seq<char>>,
}

impl View for ForgetOptions {
    type V = ForgetOptionsV;

    open spec fn view(&self) -> ForgetOptionsV {
        ForgetOptionsV {
            prune: self.prune,
            keep_last: self.keep_last,
            keep_tags: self.keep_tags.deep_view(),
        }
    }
}

pub open spec fn default_forget() -> ForgetOptionsV {
    ForgetOptionsV { prune: false, keep_last: None, keep_tags: Seq::empty() }
}

pub open spec fn merge_forget(a: ForgetOptionsV, b: ForgetOptionsV) -> ForgetOptionsV {
    ForgetOptionsV {
        prune: merge_flag(a.prune, b.prune),
        keep_last: merge_scalar(a.keep_last, b.keep_last),
        keep_tags: merge_keep_nonempty(a.keep_tags, b.keep_tags),
    }
}

impl Default for ForgetOptions {
    fn default() -> (r: Self)
        ensures
            r@ == default_forget(),
    {
        ForgetOptions { prune: false, keep_last: None, keep_tags: Vec::new() }
    }
}

impl ForgetOptions {
    /// A copy of these options, value for value.
    pub fn duplicate(&self) -> (r: Self)
        ensures
            r@ == self@,
    {
        let r = ForgetOptions {
            prune: self.prune,
            keep_last: self.keep_last,
            keep_tags: clone_string_vec(&self.keep_tags),
        };
        proof {
            assert(r@ =~~= self@);
        }
        r
    }

    /// Fold an incoming profile's forget options into this accumulator.
    pub fn merge(&mut self, other: ForgetOptions)
        ensures
            final(self)@ == merge_forget(old(self)@, other@),
    {
        let ForgetOptions { prune: in_prune, keep_last: in_keep_last, keep_tags: in_keep_tags } =
            other;
        self.prune = self.prune || in_prune;
        if in_keep_last.is_some() {
            self.keep_last = in_keep_last;
        }
        if self.keep_tags.len() == 0 {
            self.keep_tags = in_keep_tags;
        }
    }
}

// ------------------------------------------------------------------
// The whole document.
// ------------------------------------------------------------------
/// One configuration document: the merge accumulator, and likewise the
/// shape of every parsed profile.
#[derive(Debug)]
pub struct RusticConfig {
    /// Global options.
    pub global: GlobalOptions,
    /// Repository options.
    pub repository: AllRepositoryOptions,
    /// Snapshot filter options.
    pub snapshot_filter: SnapshotFilter,
    /// Backup options.
    pub backup: BackupOptions,
    /// Copy options.
    pub copy: Targets,
    /// Forget options.
    pub forget: ForgetOptions,
}

/// Mathematical image of [`RusticConfig`].
#[verifier::ext_equal]
pub struct RusticConfigV {
    pub global: GlobalOptionsV,
    pub repository: AllRepositoryOptionsV,
    pub snapshot_filter: SnapshotFilterV,
    pub backup: BackupOptionsV,
    pub copy: TargetsV,
    pub forget: ForgetOptionsV,
}

impl View for RusticConfig {
    type V = RusticConfigV;

    open spec fn view(&self) -> RusticConfigV {
        RusticConfigV {
            global: self.global@,
            repository: self.repository@,
            snapshot_filter: self.snapshot_filter@,
            backup: self.backup@,
            copy: self.copy@,
            forget: self.forget@,
        }
    }
}

/// The all-defaults document every resolution starts from.
pub open spec fn default_config() -> RusticConfigV {
    RusticConfigV {
        global: default_global(),
        repository: default_repository(),
        snapshot_filter: default_filter(),
        backup: default_backup(),
        copy: default_targets(),
        forget: default_forget(),
    }
}

/// The whole-document merge: each field combined by its category's rule.
pub open spec fn merge_config(a: RusticConfigV, b: RusticConfigV) -> RusticConfigV {
    RusticConfigV {
        global: merge_global(a.global, b.global),
        repository: merge_repository(a.repository, b.repository),
        snapshot_filter: merge_filter(a.snapshot_filter, b.snapshot_filter),
        backup: merge_backup(a.backup, b.backup),
        copy: merge_targets(a.copy, b.copy),
        forget: merge_forget(a.forget, b.forget),
    }
}

impl Default for RusticConfig {
    fn default() -> (r: Self)
        ensures
            r@ == default_config(),
    {
        RusticConfig {
            global: GlobalOptions::default(),
            repository: AllRepositoryOptions::default(),
            snapshot_filter: SnapshotFilter::default(),
            backup: BackupOptions::default(),
            copy: Targets::default(),
            forget: ForgetOptions::default(),
        }
    }
}

impl RusticConfig {
    /// A copy of this document, value for value.
    pub fn duplicate(&self) -> (r: Self)
        ensures
            r@ == self@,
    {
        let r = RusticConfig {
            global: self.global.duplicate(),
            repository: self.repository.duplicate(),
            snapshot_filter: self.snapshot_filter.duplicate(),
            backup: self.backup.duplicate(),
            copy: self.copy.duplicate(),
            forget: self.forget.duplicate(),
        };
        proof {
            assert(r@ =~~= self@);
        }
        r
    }

    /// Fold an incoming parsed profile into this accumulator, field by
    /// field, by the rules above.
    pub fn merge(&mut self, other: RusticConfig)
        ensures
            final(self)@ == merge_config(old(self)@, other@),
    {
        let RusticConfig {
            global: in_global,
            repository: in_repository,
            snapshot_filter: in_filter,
            backup: in_backup,
            copy: in_copy,
            forget: in_forget,
        } = other;
        self.global.merge(in_global);
        self.repository.merge(in_repository);
        self.snapshot_filter.merge(in_filter);
        self.backup.merge(in_backup);
        self.copy.merge(in_copy);
        self.forget.merge(in_forget);
        proof {
            assert(self@ =~~= merge_config(old(self)@, other@));
        }
    }
}

} // verus!
