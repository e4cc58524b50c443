use vstd::prelude::*;

use crate::common::IndexMetadata;
use crate::common::MetadataConfig;
use crate::language::LanguageRef;
use crate::opts::FileIndexOptions;

verus! {

/// The engine-facing version string persisted in metadata sidecars.
pub fn version_string() -> (r: String)
    ensures
        r@ == spec_version_string(),
{
    String::from_str("0.1.0")
}

/// The version written into fresh metadata.
pub open spec fn spec_version_string() -> Seq<char> {
    "0.1.0"@
}

/// The descriptor persisted beside a file-backed index store.
///
/// `last_update` is the number of milliseconds since the epoch of the
/// wall-clock time captured before the walk of the last successful
/// commit began; a value of 0 means no update has ever committed, so
/// every file is newer than the index.
#[derive(Debug, Clone)]
pub struct FileMetadata {
    version: String,
    last_update: i64,
    config: FileIndexOptions,
    for_dir: String,
}

impl FileMetadata {
    /// Fresh metadata for an index that has never committed.
    ///
    /// `for_dir` must already be the canonical absolute path of the
    /// indexed root.
    pub fn new(config: FileIndexOptions, for_dir: String) -> (r: FileMetadata)
        ensures
            r.spec_config().spec_eq(config),
            r.spec_last_update() == 0,
            r.spec_for_dir()@ == for_dir@,
            r.spec_version()@ == spec_version_string(),
    {
        FileMetadata { config, version: version_string(), last_update: 0, for_dir }
    }

    /// The configuration snapshot this index was built under.
    pub fn config(&self) -> (r: &FileIndexOptions)
        ensures
            r == self.spec_config(),
    {
        &self.config
    }

    /// The configuration snapshot, for contracts.
    pub closed spec fn spec_config(&self) -> FileIndexOptions {
        self.config
    }

    /// The version recorded when the metadata was created.
    pub fn version(&self) -> (r: &String)
        ensures
            r == self.spec_version(),
    {
        &self.version
    }

    /// The recorded version, for contracts.
    pub closed spec fn spec_version(&self) -> String {
        self.version
    }

    /// Milliseconds since the epoch of the last successful commit's
    /// walk start, or 0 if none.
    pub fn last_update(&self) -> (r: i64)
        ensures
            r == self.spec_last_update(),
    {
        self.last_update
    }

    /// The last-update stamp, for contracts.
    pub closed spec fn spec_last_update(&self) -> i64 {
        self.last_update
    }

    /// Records the walk-start time of a successful commit.
    pub fn set_last_update(&mut self, time: i64)
        ensures
            final(self).spec_last_update() == time,
            final(self).spec_config() == old(self).spec_config(),
            final(self).spec_version() == old(self).spec_version(),
            final(self).spec_for_dir() == old(self).spec_for_dir(),
    {
        self.last_update = time;
    }

    /// The canonical root directory the index covers.
    pub fn for_dir(&self) -> (r: &String)
        ensures
            r == self.spec_for_dir(),
    {
        &self.for_dir
    }

    /// The canonical root, for contracts.
    pub closed spec fn spec_for_dir(&self) -> String {
        self.for_dir
    }

    /// Rebuilds a metadata value from persisted fields, as a sidecar
    /// reader hands them back.
    pub fn from_parts(version: String, last_update: i64, config: FileIndexOptions, for_dir: String)
        -> (r: FileMetadata)
        ensures
            r.spec_version() == version,
            r.spec_last_update() == last_update,
            r.spec_config() == config,
            r.spec_for_dir() == for_dir,
    {
        FileMetadata { version, last_update, config, for_dir }
    }
}

impl MetadataConfig for FileIndexOptions {
    fn language(&self) -> LanguageRef {
        self.language
    }
}

impl IndexMetadata<FileIndexOptions> for FileMetadata {
    fn config(&self) -> &FileIndexOptions {
        &self.config
    }

    fn version(&self) -> &String {
        &self.version
    }

    fn last_update(&self) -> i64 {
        self.last_update
    }

    fn set_last_update(&mut self, time: i64) {
        self.last_update = time;
    }
}

/// Decides whether persisted metadata is still usable under the
/// requested configuration.
///
/// Metadata survives exactly when it exists and its config snapshot
/// structurally equals the request; any mismatch (or an unreadable
/// sidecar, handed in as `None`) yields `None`, which forces fresh
/// metadata with `last_update == 0` and hence a full effective reindex
/// on the next update.
pub fn accept_metadata(loaded: Option<FileMetadata>, requested: &FileIndexOptions) -> (r: Option<
    FileMetadata,
>)
    ensures
        match r {
            Some(m) => loaded matches Some(l) && m == l && m.spec_config().spec_eq(*requested),
            None => loaded matches Some(l) ==> !l.spec_config().spec_eq(*requested),
        },
{
    match loaded {
        None => None,
        Some(m) => {
            if m.config.same_policy(requested) {
                Some(m)
            } else {
                None
            }
        },
    }
}

/// Staleness: metadata persisted under one configuration is discarded
/// when the index is opened under a structurally different one, exactly
/// as if no metadata had been persisted at all.
pub proof fn lemma_config_mismatch_is_absent(
    loaded: FileMetadata,
    requested: FileIndexOptions,
    r: Option<FileMetadata>,
)
    requires
        !loaded.spec_config().spec_eq(requested),
        match r {
            Some(m) => m == loaded && m.spec_config().spec_eq(requested),
            None => true,
        },
    ensures
        r is None,
{
}

/// Idempotent reopen, metadata side: reopening under the very same
/// configuration keeps the persisted metadata, so the second open sees
/// the same last-update stamp and the same policy as the first, and no
/// extra reindexing is forced.
pub proof fn lemma_same_config_reopen_stable(
    loaded: FileMetadata,
    requested: FileIndexOptions,
    r: Option<FileMetadata>,
)
    requires
        loaded.spec_config().spec_eq(requested),
        match r {
            Some(m) => m == loaded && m.spec_config().spec_eq(requested),
            None => !loaded.spec_config().spec_eq(requested),
        },
    ensures
        r == Some(loaded),
{
}

} // verus!
