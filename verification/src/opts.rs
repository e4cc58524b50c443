use vstd::prelude::*;

use crate::color_mode::ColorMode;
use crate::language::LanguageRef;

verus! {

/// Compares two glob lists element by element.
///
/// Two lists are the same policy exactly when they hold the same
/// patterns in the same order.
pub fn vec_string_eq(a: &Vec<String>, b: &Vec<String>) -> (r: bool)
    ensures
        r == (a.deep_view() == b.deep_view()),
{
    if a.len() != b.len() {
        assert(a.deep_view().len() == a@.len());
        assert(b.deep_view().len() == b@.len());
        return false;
    }
    let n = a.len();
    let mut i: usize = 0;
    while i < n
        invariant
            n == a@.len(),
            n == b@.len(),
            i <= n,
            forall|j: int| 0 <= j < i ==> a.deep_view()[j] == b.deep_view()[j],
        decreases n - i,
    {
        if a[i] != b[i] {
            assert(a.deep_view()[i as int] != b.deep_view()[i as int]);
            return false;
        }
        assert(a.deep_view()[i as int] == b.deep_view()[i as int]);
        i += 1;
    }
    assert(a.deep_view() =~= b.deep_view());
    true
}

/// Indexing policy for a file-backed index.
///
/// Compared structurally against a persisted snapshot to decide whether
/// prior metadata is still usable.
#[derive(Debug, Clone)]
pub struct IndexConfig {
    /// Follow symbolic links during discovery.
    pub follow: bool,
    /// Include/exclude override globs; a leading `!` makes a pattern an
    /// exclusion.
    pub glob: Vec<String>,
    /// Match globs case-insensitively.
    pub glob_case_insensitive: bool,
    /// Include hidden entries.
    pub hidden: bool,
    /// Honor ignore files (local, global and repository excludes).
    pub ignore_files: bool,
    /// Keep the index in memory only; nothing is persisted.
    pub in_memory: bool,
    /// Stemming language of the analysis pipeline.
    pub language: LanguageRef,
    /// Whitelist-only globs: regular files must match one to be indexed.
    pub oglob: Vec<String>,
    /// Worker thread count for the walk; 0 picks a heuristic.
    pub threads: usize,
}

impl IndexConfig {
    /// Structural equality of two configurations.
    pub open spec fn spec_eq(self, other: IndexConfig) -> bool {
        &&& self.follow == other.follow
        &&& self.glob.deep_view() == other.glob.deep_view()
        &&& self.glob_case_insensitive == other.glob_case_insensitive
        &&& self.hidden == other.hidden
        &&& self.ignore_files == other.ignore_files
        &&& self.in_memory == other.in_memory
        &&& self.language == other.language
        &&& self.oglob.deep_view() == other.oglob.deep_view()
        &&& self.threads == other.threads
    }

    /// Decides whether `other` describes the same indexing policy.
    pub fn same_policy(&self, other: &IndexConfig) -> (r: bool)
        ensures
            r == self.spec_eq(*other),
    {
        self.follow == other.follow && vec_string_eq(&self.glob, &other.glob)
            && self.glob_case_insensitive == other.glob_case_insensitive
            && self.hidden == other.hidden && self.ignore_files == other.ignore_files
            && self.in_memory == other.in_memory && self.language == other.language
            && vec_string_eq(&self.oglob, &other.oglob) && self.threads == other.threads
    }

}

impl Default for IndexConfig {
    /// The default policy: honor ignore files, skip hidden entries, stem
    /// English, persist to disk.
    fn default() -> (r: IndexConfig)
        ensures
            r.follow == false,
            r.glob@.len() == 0,
            r.glob_case_insensitive == false,
            r.hidden == false,
            r.ignore_files == true,
            r.in_memory == false,
            r.language == LanguageRef::English,
            r.oglob@.len() == 0,
            r.threads == 0,
    {
        IndexConfig {
            follow: false,
            glob: Vec::new(),
            glob_case_insensitive: false,
            hidden: false,
            ignore_files: true,
            in_memory: false,
            language: LanguageRef::English,
            oglob: Vec::new(),
            threads: 0,
        }
    }
}

/// A copy of `IndexConfig` whose fields are all optional.
///
/// Layers of configuration (defaults, a configuration file, named index
/// sections, command-line flags) are each parsed into one of these and
/// merged before the final `IndexConfig` is formed.
#[derive(Debug, Clone)]
pub struct IndexConfigOpt {
    pub follow: Option<bool>,
    pub glob: Option<Vec<String>>,
    pub glob_case_insensitive: Option<bool>,
    pub hidden: Option<bool>,
    pub ignore_files: Option<bool>,
    pub in_memory: Option<bool>,
    pub language: Option<LanguageRef>,
    pub oglob: Option<Vec<String>>,
    pub threads: Option<usize>,
}

impl Default for IndexConfigOpt {
    /// All fields unset.
    fn default() -> (r: IndexConfigOpt)
        ensures
            r.follow is None,
            r.glob is None,
            r.glob_case_insensitive is None,
            r.hidden is None,
            r.ignore_files is None,
            r.in_memory is None,
            r.language is None,
            r.oglob is None,
            r.threads is None,
    {
        IndexConfigOpt {
            follow: None,
            glob: None,
            glob_case_insensitive: None,
            hidden: None,
            ignore_files: None,
            in_memory: None,
            language: None,
            oglob: None,
            threads: None,
        }
    }
}

impl IndexConfigOpt {
    /// Set fields from `other` if not already set.
    pub fn merge(&mut self, other: &IndexConfigOpt)
        ensures
            final(self).follow == (if old(self).follow is Some {
                old(self).follow
            } else {
                other.follow
            }),
            final(self).glob.deep_view() == (if old(self).glob is Some {
                old(self).glob.deep_view()
            } else {
                other.glob.deep_view()
            }),
            final(self).glob_case_insensitive == (if old(self).glob_case_insensitive is Some {
                old(self).glob_case_insensitive
            } else {
                other.glob_case_insensitive
            }),
            final(self).hidden == (if old(self).hidden is Some {
                old(self).hidden
            } else {
                other.hidden
            }),
            final(self).ignore_files == (if old(self).ignore_files is Some {
                old(self).ignore_files
            } else {
                other.ignore_files
            }),
            final(self).in_memory == (if old(self).in_memory is Some {
                old(self).in_memory
            } else {
                other.in_memory
            }),
            final(self).language == (if old(self).language is Some {
                old(self).language
            } else {
                other.language
            }),
            final(self).oglob.deep_view() == (if old(self).oglob is Some {
                old(self).oglob.deep_view()
            } else {
                other.oglob.deep_view()
            }),
            final(self).threads == (if old(self).threads is Some {
                old(self).threads
            } else {
                other.threads
            }),
    {
        if self.follow.is_none() {
            self.follow = other.follow;
        }
        if self.glob.is_none() {
            self.glob = other.glob.clone();
        }
        if self.glob_case_insensitive.is_none() {
            self.glob_case_insensitive = other.glob_case_insensitive;
        }
        if self.hidden.is_none() {
            self.hidden = other.hidden;
        }
        if self.ignore_files.is_none() {
            self.ignore_files = other.ignore_files;
        }
        if self.in_memory.is_none() {
            self.in_memory = other.in_memory;
        }
        if self.language.is_none() {
            self.language = other.language;
        }
        if self.oglob.is_none() {
            self.oglob = other.oglob.clone();
        }
        if self.threads.is_none() {
            self.threads = other.threads;
        }
    }

    /// Override self fields with `other` when present there.
    pub fn merge_from(&mut self, other: &IndexConfigOpt)
        ensures
            final(self).follow == (if other.follow is Some {
                other.follow
            } else {
                old(self).follow
            }),
            final(self).glob.deep_view() == (if other.glob is Some {
                other.glob.deep_view()
            } else {
                old(self).glob.deep_view()
            }),
            final(self).glob_case_insensitive == (if other.glob_case_insensitive is Some {
                other.glob_case_insensitive
            } else {
                old(self).glob_case_insensitive
            }),
            final(self).hidden == (if other.hidden is Some {
                other.hidden
            } else {
                old(self).hidden
            }),
            final(self).ignore_files == (if other.ignore_files is Some {
                other.ignore_files
            } else {
                old(self).ignore_files
            }),
            final(self).in_memory == (if other.in_memory is Some {
                other.in_memory
            } else {
                old(self).in_memory
            }),
            final(self).language == (if other.language is Some {
                other.language
            } else {
                old(self).language
            }),
            final(self).oglob.deep_view() == (if other.oglob is Some {
                other.oglob.deep_view()
            } else {
                old(self).oglob.deep_view()
            }),
            final(self).threads == (if other.threads is Some {
                other.threads
            } else {
                old(self).threads
            }),
    {
        if other.follow.is_some() {
            self.follow = other.follow;
        }
        if other.glob.is_some() {
            self.glob = other.glob.clone();
        }
        if other.glob_case_insensitive.is_some() {
            self.glob_case_insensitive = other.glob_case_insensitive;
        }
        if other.hidden.is_some() {
            self.hidden = other.hidden;
        }
        if other.ignore_files.is_some() {
            self.ignore_files = other.ignore_files;
        }
        if other.in_memory.is_some() {
            self.in_memory = other.in_memory;
        }
        if other.language.is_some() {
            self.language = other.language;
        }
        if other.oglob.is_some() {
            self.oglob = other.oglob.clone();
        }
        if other.threads.is_some() {
            self.threads = other.threads;
        }
    }

    /// Returns true if any field is set.
    pub fn any(&self) -> (r: bool)
        ensures
            r == (self.follow is Some || self.glob is Some || self.glob_case_insensitive is Some
                || self.hidden is Some || self.ignore_files is Some || self.in_memory is Some
                || self.language is Some || self.oglob is Some || self.threads is Some),
    {
        self.follow.is_some() || self.glob.is_some() || self.glob_case_insensitive.is_some()
            || self.hidden.is_some() || self.ignore_files.is_some() || self.in_memory.is_some()
            || self.language.is_some() || self.oglob.is_some() || self.threads.is_some()
    }

    /// Returns `Ok` if every field is set, else the names of the
    /// missing fields.
    pub fn all(&self) -> (r: Result<(), Vec<String>>)
        ensures
            r is Ok <==> (self.follow is Some && self.glob is Some
                && self.glob_case_insensitive is Some && self.hidden is Some
                && self.ignore_files is Some && self.in_memory is Some && self.language is Some
                && self.oglob is Some && self.threads is Some),
    {
        let mut missing: Vec<String> = Vec::new();
        if self.follow.is_none() {
            missing.push(String::from_str("follow"));
        }
        if self.glob.is_none() {
            missing.push(String::from_str("glob"));
        }
        if self.glob_case_insensitive.is_none() {
            missing.push(String::from_str("glob_case_insensitive"));
        }
        if self.hidden.is_none() {
            missing.push(String::from_str("hidden"));
        }
        if self.ignore_files.is_none() {
            missing.push(String::from_str("ignore_files"));
        }
        if self.in_memory.is_none() {
            missing.push(String::from_str("in_memory"));
        }
        if self.language.is_none() {
            missing.push(String::from_str("language"));
        }
        if self.oglob.is_none() {
            missing.push(String::from_str("oglob"));
        }
        if self.threads.is_none() {
            missing.push(String::from_str("threads"));
        }
        if missing.len() == 0 {
            Ok(())
        } else {
            Err(missing)
        }
    }

    /// Fills the unset fields with the defaults and returns the final
    /// configuration.
    pub fn into_config(self) -> (r: IndexConfig)
        ensures
            r.follow == (if self.follow is Some {
                self.follow->0
            } else {
                false
            }),
            r.glob.deep_view() == (if self.glob is Some {
                self.glob->0.deep_view()
            } else {
                Seq::<Seq<char>>::empty()
            }),
            r.glob_case_insensitive == (if self.glob_case_insensitive is Some {
                self.glob_case_insensitive->0
            } else {
                false
            }),
            r.hidden == (if self.hidden is Some {
                self.hidden->0
            } else {
                false
            }),
            r.ignore_files == (if self.ignore_files is Some {
                self.ignore_files->0
            } else {
                true
            }),
            r.in_memory == (if self.in_memory is Some {
                self.in_memory->0
            } else {
                false
            }),
            r.language == (if self.language is Some {
                self.language->0
            } else {
                LanguageRef::English
            }),
            r.oglob.deep_view() == (if self.oglob is Some {
                self.oglob->0.deep_view()
            } else {
                Seq::<Seq<char>>::empty()
            }),
            r.threads == (if self.threads is Some {
                self.threads->0
            } else {
                0
            }),
    {
        let mut ret = IndexConfig::default();
        if let Some(follow) = self.follow {
            ret.follow = follow;
        }
        if let Some(glob) = self.glob {
            ret.glob = glob;
        }
        if let Some(ci) = self.glob_case_insensitive {
            ret.glob_case_insensitive = ci;
        }
        if let Some(hidden) = self.hidden {
            ret.hidden = hidden;
        }
        if let Some(ignore_files) = self.ignore_files {
            ret.ignore_files = ignore_files;
        }
        if let Some(in_memory) = self.in_memory {
            ret.in_memory = in_memory;
        }
        if let Some(language) = self.language {
            ret.language = language;
        }
        if let Some(oglob) = self.oglob {
            ret.oglob = oglob;
        }
        if let Some(threads) = self.threads {
            ret.threads = threads;
        }
        assert(ret.glob.deep_view().len() == 0 ==> ret.glob.deep_view()
            =~= Seq::<Seq<char>>::empty());
        assert(ret.oglob.deep_view().len() == 0 ==> ret.oglob.deep_view()
            =~= Seq::<Seq<char>>::empty());
        ret
    }
}

/// Indexing policy as the file-backed index core consumes it.
///
/// The same shape as `IndexConfig` without the `in_memory` switch: a
/// memory-resident index is instead requested by opening the index
/// without a cache location.
#[derive(Debug, Clone)]
pub struct FileIndexOptions {
    /// Follow symbolic links during discovery.
    pub follow: bool,
    /// Include/exclude override globs; a leading `!` makes a pattern an
    /// exclusion.
    pub glob: Vec<String>,
    /// Match globs case-insensitively.
    pub glob_case_insensitive: bool,
    /// Include hidden entries.
    pub hidden: bool,
    /// Honor ignore files (local, global and repository excludes).
    pub ignore_files: bool,
    /// Stemming language of the analysis pipeline.
    pub language: LanguageRef,
    /// Whitelist-only globs: regular files must match one to be indexed.
    pub oglob: Vec<String>,
    /// Worker thread count for the walk; 0 picks a heuristic.
    pub threads: usize,
}

impl FileIndexOptions {
    /// Structural equality of two configurations.
    pub open spec fn spec_eq(self, other: FileIndexOptions) -> bool {
        &&& self.follow == other.follow
        &&& self.glob.deep_view() == other.glob.deep_view()
        &&& self.glob_case_insensitive == other.glob_case_insensitive
        &&& self.hidden == other.hidden
        &&& self.ignore_files == other.ignore_files
        &&& self.language == other.language
        &&& self.oglob.deep_view() == other.oglob.deep_view()
        &&& self.threads == other.threads
    }

    /// Decides whether `other` describes the same indexing policy.
    ///
    /// This is the comparison that governs staleness: persisted metadata
    /// whose config fails it is treated as absent.
    pub fn same_policy(&self, other: &FileIndexOptions) -> (r: bool)
        ensures
            r == self.spec_eq(*other),
    {
        self.follow == other.follow && vec_string_eq(&self.glob, &other.glob)
            && self.glob_case_insensitive == other.glob_case_insensitive
            && self.hidden == other.hidden && self.ignore_files == other.ignore_files
            && self.language == other.language && vec_string_eq(&self.oglob, &other.oglob)
            && self.threads == other.threads
    }
}

impl Default for FileIndexOptions {
    /// The default policy: honor ignore files, skip hidden entries, stem
    /// English.
    fn default() -> (r: FileIndexOptions)
        ensures
            r.follow == false,
            r.glob@.len() == 0,
            r.glob_case_insensitive == false,
            r.hidden == false,
            r.ignore_files == true,
            r.language == LanguageRef::English,
            r.oglob@.len() == 0,
            r.threads == 0,
    {
        FileIndexOptions {
            follow: false,
            glob: Vec::new(),
            glob_case_insensitive: false,
            hidden: false,
            ignore_files: true,
            language: LanguageRef::English,
            oglob: Vec::new(),
            threads: 0,
        }
    }
}

impl IndexConfig {
    /// Drops the storage switch and hands the remaining policy to the
    /// file-index core.
    pub fn to_file_options(self) -> (r: FileIndexOptions)
        ensures
            r.follow == self.follow,
            r.glob.deep_view() == self.glob.deep_view(),
            r.glob_case_insensitive == self.glob_case_insensitive,
            r.hidden == self.hidden,
            r.ignore_files == self.ignore_files,
            r.language == self.language,
            r.oglob.deep_view() == self.oglob.deep_view(),
            r.threads == self.threads,
    {
        FileIndexOptions {
            follow: self.follow,
            glob: self.glob,
            glob_case_insensitive: self.glob_case_insensitive,
            hidden: self.hidden,
            ignore_files: self.ignore_files,
            language: self.language,
            oglob: self.oglob,
            threads: self.threads,
        }
    }
}

/// How a search over a file-backed index shapes its results.
#[derive(Debug, Clone)]
pub struct FileSearchOptions {
    /// Maximum number of files to return.
    pub limit: usize,
    /// Hits must score strictly above this (in the engine's monotone
    /// score encoding) to be returned.
    pub threshold: u32,
    /// Report matching files only; line localization is skipped.
    pub filename_only: bool,
    /// Prefix reported paths with this root instead of the indexed one.
    pub root_dir: Option<String>,
}

impl Default for FileSearchOptions {
    /// Up to 1000 hits scoring above zero, with line matches, under the
    /// indexed root.
    fn default() -> (r: FileSearchOptions)
        ensures
            r.limit == 1000,
            r.threshold == 0,
            r.filename_only == false,
            r.root_dir is None,
    {
        FileSearchOptions { limit: 1000, threshold: 0, filename_only: false, root_dir: None }
    }
}

/// How a search run behaves: result shaping and index upkeep.
///
/// Scores are carried in the engine's monotone encoding: a `u32` that
/// orders exactly as the engine's relevance values do, so that a
/// strictly-greater comparison against `threshold` is faithful.
#[derive(Debug, Clone)]
pub struct SearchConfig {
    /// Print results as JSON rather than colorized text.
    pub json: bool,
    /// Maximum number of files to return.
    pub limit: usize,
    /// Hits must score strictly above this to be returned.
    pub threshold: u32,
    /// Report matching files only, without line matches.
    pub filename_only: bool,
    /// When to colorize output.
    pub color: ColorMode,
    /// Force a full rebuild of the index before searching.
    pub rebuild_index: bool,
    /// Refresh the index before searching.
    pub update: bool,
}

impl Default for SearchConfig {
    /// The default run: update first, return up to 1000 hits scoring
    /// above zero, colorize automatically.
    fn default() -> (r: SearchConfig)
        ensures
            r.json == false,
            r.limit == 1000,
            r.threshold == 0,
            r.filename_only == false,
            r.color == ColorMode::Auto,
            r.rebuild_index == false,
            r.update == true,
    {
        SearchConfig {
            json: false,
            limit: 1000,
            threshold: 0,
            filename_only: false,
            color: ColorMode::Auto,
            rebuild_index: false,
            update: true,
        }
    }
}

impl SearchConfig {
    /// The per-search options this run asks of the index core.
    ///
    /// An empty `root_dir` means reported paths stay under the indexed
    /// root.
    pub fn to_opts(&self, root_dir: &String) -> (r: FileSearchOptions)
        ensures
            r.limit == self.limit,
            r.threshold == self.threshold,
            r.filename_only == self.filename_only,
            root_dir@.len() == 0 ==> r.root_dir is None,
            root_dir@.len() > 0 ==> (r.root_dir matches Some(d) && d@ == root_dir@),
    {
        FileSearchOptions {
            limit: self.limit,
            threshold: self.threshold,
            filename_only: self.filename_only,
            root_dir: if root_dir.as_str().unicode_len() == 0 {
                None
            } else {
                Some(root_dir.clone())
            },
        }
    }
}

/// A copy of `SearchConfig` whose fields are all optional, for layered
/// configuration.
#[derive(Debug, Clone)]
pub struct SearchConfigOpt {
    pub json: Option<bool>,
    pub limit: Option<usize>,
    pub threshold: Option<u32>,
    pub filename_only: Option<bool>,
    pub color: Option<ColorMode>,
    pub rebuild_index: Option<bool>,
    pub update: Option<bool>,
}

impl Default for SearchConfigOpt {
    /// All fields unset.
    fn default() -> (r: SearchConfigOpt)
        ensures
            r.json is None,
            r.limit is None,
            r.threshold is None,
            r.filename_only is None,
            r.color is None,
            r.rebuild_index is None,
            r.update is None,
    {
        SearchConfigOpt {
            json: None,
            limit: None,
            threshold: None,
            filename_only: None,
            color: None,
            rebuild_index: None,
            update: None,
        }
    }
}

impl SearchConfigOpt {
    /// Set fields from `other` if not already set.
    pub fn merge(&mut self, other: &SearchConfigOpt)
        ensures
            final(self).json == (if old(self).json is Some {
                old(self).json
            } else {
                other.json
            }),
            final(self).limit == (if old(self).limit is Some {
                old(self).limit
            } else {
                other.limit
            }),
            final(self).threshold == (if old(self).threshold is Some {
                old(self).threshold
            } else {
                other.threshold
            }),
            final(self).filename_only == (if old(self).filename_only is Some {
                old(self).filename_only
            } else {
                other.filename_only
            }),
            final(self).color == (if old(self).color is Some {
                old(self).color
            } else {
                other.color
            }),
            final(self).rebuild_index == (if old(self).rebuild_index is Some {
                old(self).rebuild_index
            } else {
                other.rebuild_index
            }),
            final(self).update == (if old(self).update is Some {
                old(self).update
            } else {
                other.update
            }),
    {
        if self.json.is_none() {
            self.json = other.json;
        }
        if self.limit.is_none() {
            self.limit = other.limit;
        }
        if self.threshold.is_none() {
            self.threshold = other.threshold;
        }
        if self.filename_only.is_none() {
            self.filename_only = other.filename_only;
        }
        if self.color.is_none() {
            self.color = other.color;
        }
        if self.rebuild_index.is_none() {
            self.rebuild_index = other.rebuild_index;
        }
        if self.update.is_none() {
            self.update = other.update;
        }
    }

    /// Override self fields with `other` when present there.
    pub fn merge_from(&mut self, other: &SearchConfigOpt)
        ensures
            final(self).json == (if other.json is Some {
                other.json
            } else {
                old(self).json
            }),
            final(self).limit == (if other.limit is Some {
                other.limit
            } else {
                old(self).limit
            }),
            final(self).threshold == (if other.threshold is Some {
                other.threshold
            } else {
                old(self).threshold
            }),
            final(self).filename_only == (if other.filename_only is Some {
                other.filename_only
            } else {
                old(self).filename_only
            }),
            final(self).color == (if other.color is Some {
                other.color
            } else {
                old(self).color
            }),
            final(self).rebuild_index == (if other.rebuild_index is Some {
                other.rebuild_index
            } else {
                old(self).rebuild_index
            }),
            final(self).update == (if other.update is Some {
                other.update
            } else {
                old(self).update
            }),
    {
        if other.json.is_some() {
            self.json = other.json;
        }
        if other.limit.is_some() {
            self.limit = other.limit;
        }
        if other.threshold.is_some() {
            self.threshold = other.threshold;
        }
        if other.filename_only.is_some() {
            self.filename_only = other.filename_only;
        }
        if other.color.is_some() {
            self.color = other.color;
        }
        if other.rebuild_index.is_some() {
            self.rebuild_index = other.rebuild_index;
        }
        if other.update.is_some() {
            self.update = other.update;
        }
    }

    /// Returns true if any field is set.
    pub fn any(&self) -> (r: bool)
        ensures
            r == (self.json is Some || self.limit is Some || self.threshold is Some
                || self.filename_only is Some || self.color is Some || self.rebuild_index is Some
                || self.update is Some),
    {
        self.json.is_some() || self.limit.is_some() || self.threshold.is_some()
            || self.filename_only.is_some() || self.color.is_some()
            || self.rebuild_index.is_some() || self.update.is_some()
    }

    /// Returns `Ok` if every field is set, else the names of the
    /// missing fields.
    pub fn all(&self) -> (r: Result<(), Vec<String>>)
        ensures
            r is Ok <==> (self.json is Some && self.limit is Some && self.threshold is Some
                && self.filename_only is Some && self.color is Some && self.rebuild_index is Some
                && self.update is Some),
    {
        let mut missing: Vec<String> = Vec::new();
        if self.json.is_none() {
            missing.push(String::from_str("json"));
        }
        if self.limit.is_none() {
            missing.push(String::from_str("limit"));
        }
        if self.threshold.is_none() {
            missing.push(String::from_str("threshold"));
        }
        if self.filename_only.is_none() {
            missing.push(String::from_str("filename_only"));
        }
        if self.color.is_none() {
            missing.push(String::from_str("color"));
        }
        if self.rebuild_index.is_none() {
            missing.push(String::from_str("rebuild_index"));
        }
        if self.update.is_none() {
            missing.push(String::from_str("update"));
        }
        if missing.len() == 0 {
            Ok(())
        } else {
            Err(missing)
        }
    }

    /// Fills the unset fields with the defaults and returns the final
    /// configuration.
    pub fn into_config(self) -> (r: SearchConfig)
        ensures
            r.json == (if self.json is Some {
                self.json->0
            } else {
                false
            }),
            r.limit == (if self.limit is Some {
                self.limit->0
            } else {
                1000
            }),
            r.threshold == (if self.threshold is Some {
                self.threshold->0
            } else {
                0
            }),
            r.filename_only == (if self.filename_only is Some {
                self.filename_only->0
            } else {
                false
            }),
            r.color == (if self.color is Some {
                self.color->0
            } else {
                ColorMode::Auto
            }),
            r.rebuild_index == (if self.rebuild_index is Some {
                self.rebuild_index->0
            } else {
                false
            }),
            r.update == (if self.update is Some {
                self.update->0
            } else {
                true
            }),
    {
        let mut ret = SearchConfig::default();
        if let Some(json) = self.json {
            ret.json = json;
        }
        if let Some(limit) = self.limit {
            ret.limit = limit;
        }
        if let Some(threshold) = self.threshold {
            ret.threshold = threshold;
        }
        if let Some(filename_only) = self.filename_only {
            ret.filename_only = filename_only;
        }
        if let Some(color) = self.color {
            ret.color = color;
        }
        if let Some(rebuild_index) = self.rebuild_index {
            ret.rebuild_index = rebuild_index;
        }
        if let Some(update) = self.update {
            ret.update = update;
        }
        ret
    }
}

} // verus!
