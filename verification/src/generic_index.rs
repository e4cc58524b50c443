//! The generic document store: the same metadata and engine machinery
//! as the file-backed index, over caller-supplied field-map documents.

use vstd::prelude::*;

use crate::common;
use crate::common::IndexMetadata;
use crate::common::MetadataConfig;
use crate::common::WRITER_HEAP_BYTES;
use crate::engine;
use crate::engine::SearchQuery;
use crate::error::IndexError;
use crate::field_map::FieldMap;
use crate::file_index::filter_by_threshold;
use crate::file_index::lemma_threshold_excludes_boundary;
use crate::language::LanguageRef;

verus! {

/// Indexing policy for a generic index: the analysis language.
#[derive(Debug, Clone, Copy, PartialEq, Eq, Structural)]
pub struct IndexOptions {
    /// Stemming language of the analysis pipeline.
    pub language: LanguageRef,
}

impl IndexOptions {
    /// Structural equality of two configurations.
    pub open spec fn spec_eq(self, other: IndexOptions) -> bool {
        self.language == other.language
    }

    /// Decides whether `other` describes the same indexing policy.
    pub fn same_policy(&self, other: &IndexOptions) -> (r: bool)
        ensures
            r == self.spec_eq(*other),
    {
        self.language == other.language
    }
}

impl Default for IndexOptions {
    /// English stemming.
    fn default() -> (r: IndexOptions)
        ensures
            r.language == LanguageRef::English,
    {
        IndexOptions { language: LanguageRef::English }
    }
}

/// How a search over a generic index shapes its results.
#[derive(Debug, Clone)]
pub struct SearchOptions {
    /// Maximum number of hits to return.
    pub limit: usize,
    /// Hits must score strictly above this (in the engine's monotone
    /// score encoding) to be returned.
    pub threshold: u32,
}

impl Default for SearchOptions {
    /// Up to 1000 hits scoring above zero.
    fn default() -> (r: SearchOptions)
        ensures
            r.limit == 1000,
            r.threshold == 0,
    {
        SearchOptions { limit: 1000, threshold: 0 }
    }
}

/// One ranked hit of a generic index: the document's id and its score.
#[derive(Debug, Clone)]
pub struct SearchResult {
    id: String,
    score: u32,
}

impl SearchResult {
    /// The hit's id-field value.
    pub fn id(&self) -> (r: &String)
        ensures
            r == self.spec_id(),
    {
        &self.id
    }

    /// The id, for contracts.
    pub closed spec fn spec_id(&self) -> String {
        self.id
    }

    /// The hit's relevance, in the engine's monotone score encoding.
    pub fn score(&self) -> (r: u32)
        ensures
            r == self.spec_score(),
    {
        self.score
    }

    /// The score, for contracts.
    pub closed spec fn spec_score(&self) -> u32 {
        self.score
    }
}

/// The descriptor persisted beside a generic index store.
///
/// `last_update` is the wall-clock time (milliseconds since the epoch)
/// captured when the last successful commit's ingestion began; 0 means
/// no documents were ever committed.
#[derive(Debug, Clone)]
pub struct Metadata {
    version: String,
    last_update: i64,
    config: IndexOptions,
}

impl Metadata {
    /// Fresh metadata for an index that has never committed.
    pub fn new(config: IndexOptions) -> (r: Metadata)
        ensures
            r.spec_config() == config,
            r.spec_last_update() == 0,
            r.spec_version()@ == crate::meta::spec_version_string(),
    {
        Metadata { config, version: crate::meta::version_string(), last_update: 0 }
    }

    /// The configuration snapshot this index was built under.
    pub fn config(&self) -> (r: &IndexOptions)
        ensures
            r == self.spec_config(),
    {
        &self.config
    }

    /// The configuration, for contracts.
    pub closed spec fn spec_config(&self) -> IndexOptions {
        self.config
    }

    /// The version recorded when the metadata was created.
    pub fn version(&self) -> (r: &String)
        ensures
            r == self.spec_version(),
    {
        &self.version
    }

    /// The version, for contracts.
    pub closed spec fn spec_version(&self) -> String {
        self.version
    }

    /// Milliseconds since the epoch of the last successful commit, or 0
    /// if none.
    pub fn last_update(&self) -> (r: i64)
        ensures
            r == self.spec_last_update(),
    {
        self.last_update
    }

    /// The stamp, for contracts.
    pub closed spec fn spec_last_update(&self) -> i64 {
        self.last_update
    }

    /// Records the time of a successful commit.
    pub fn set_last_update(&mut self, time: i64)
        ensures
            final(self).spec_last_update() == time,
            final(self).spec_config() == old(self).spec_config(),
            final(self).spec_version() == old(self).spec_version(),
    {
        self.last_update = time;
    }

    /// Rebuilds a metadata value from persisted fields.
    pub fn from_parts(version: String, last_update: i64, config: IndexOptions) -> (r: Metadata)
        ensures
            r.spec_version() == version,
            r.spec_last_update() == last_update,
            r.spec_config() == config,
    {
        Metadata { version, last_update, config }
    }
}

impl MetadataConfig for IndexOptions {
    fn language(&self) -> LanguageRef {
        self.language
    }
}

impl IndexMetadata<IndexOptions> for Metadata {
    fn config(&self) -> &IndexOptions {
        &self.config
    }

    fn version(&self) -> &String {
        &self.version
    }

    fn last_update(&self) -> i64 {
        self.last_update
    }

    fn set_last_update(&mut self, time: i64) {
        self.last_update = time;
    }
}

/// The staleness rule for generic indexes: persisted metadata survives
/// exactly when it exists and snapshots the requested configuration.
pub fn accept_generic_metadata(loaded: Option<Metadata>, requested: &IndexOptions) -> (r: Option<
    Metadata,
>)
    ensures
        match r {
            Some(m) => loaded matches Some(l) && m == l && m.spec_config().spec_eq(*requested),
            None => loaded matches Some(l) ==> !l.spec_config().spec_eq(*requested),
        },
{
    match loaded {
        None => None,
        Some(m) => {
            if m.config.same_policy(requested) {
                Some(m)
            } else {
                None
            }
        },
    }
}

/// A generic index: the engine handle, the schema's fields and names,
/// the metadata descriptor, and the cache location (None for a
/// memory-resident index).
#[derive(Debug)]
pub struct GenericIndex {
    meta: Metadata,
    cache_dir: Option<String>,
    index: tantivy::Index,
    id_field: tantivy::schema::Field,
    id_name: String,
    text_fields: Vec<tantivy::schema::Field>,
    text_names: Vec<String>,
}

impl GenericIndex {
    /// The engine handle.
    pub fn index(&self) -> &tantivy::Index {
        &self.index
    }

    /// The index's metadata descriptor.
    pub fn meta(&self) -> (r: &Metadata)
        ensures
            r == self.spec_meta(),
    {
        &self.meta
    }

    /// The metadata, for contracts.
    pub closed spec fn spec_meta(&self) -> Metadata {
        self.meta
    }

    /// The cache location, `None` for a memory-resident index.
    pub fn cache_dir(&self) -> (r: &Option<String>)
        ensures
            r == self.spec_cache_dir(),
    {
        &self.cache_dir
    }

    /// The cache location, for contracts.
    pub closed spec fn spec_cache_dir(&self) -> Option<String> {
        self.cache_dir
    }

    /// Well-formedness: one name per text field.
    pub closed spec fn wf(&self) -> bool {
        self.text_fields@.len() == self.text_names@.len()
    }

    /// The tokenized content fields of the schema, in declaration
    /// order.
    pub fn get_text_fields(&self) -> &Vec<tantivy::schema::Field> {
        &self.text_fields
    }

    /// Opens (or creates) a generic index with the given schema.
    ///
    /// The schema is fixed here: one stored, exact-match id field and
    /// the named tokenized text fields — the names must be distinct, or
    /// the call is rejected as a configuration error before the engine
    /// is touched. With distinct names and no cache location the call
    /// cannot fail. `prior` is persisted metadata as recovered by the
    /// caller; it survives exactly when its config snapshot equals
    /// `config`.
    pub fn get_or_create(
        id_field: &String,
        text_fields: &Vec<String>,
        config: &IndexOptions,
        cache_dir: Option<String>,
        prior: Option<Metadata>,
    ) -> (r: Result<GenericIndex, IndexError>)
        ensures
            !common::spec_distinct_field_names(id_field@, text_fields.deep_view()) ==> (r matches
                Err(e) && e is InvalidValue),
            common::spec_distinct_field_names(id_field@, text_fields.deep_view())
                && cache_dir is None ==> r is Ok,
            r matches Ok(ix) ==> {
                &&& ix.wf()
                &&& ix.spec_cache_dir() == cache_dir
                &&& match prior {
                    Some(m) => if m.spec_config().spec_eq(*config) {
                        ix.spec_meta() == m
                    } else {
                        ix.spec_meta().spec_last_update() == 0
                            && ix.spec_meta().spec_config().spec_eq(*config)
                    },
                    None => ix.spec_meta().spec_last_update() == 0
                        && ix.spec_meta().spec_config().spec_eq(*config),
                }
            },
    {
        let opened = common::create_index(
            cache_dir.as_ref(),
            &config.language,
            id_field.as_str(),
            text_fields,
        );
        let (index, idf, fields) = match opened {
            Ok(ok) => ok,
            Err(e) => {
                return Err(e);
            },
        };
        let meta = match accept_generic_metadata(prior, config) {
            Some(m) => m,
            None => Metadata::new(IndexOptions { language: config.language }),
        };
        let mut names: Vec<String> = Vec::new();
        let mut i: usize = 0;
        while i < text_fields.len()
            invariant
                i <= text_fields@.len(),
                names@.len() == i,
            decreases text_fields@.len() - i,
        {
            names.push(text_fields[i].clone());
            i += 1;
        }
        Ok(
            GenericIndex {
                meta,
                cache_dir,
                index,
                id_field: idf,
                id_name: id_field.clone(),
                text_fields: fields,
                text_names: names,
            },
        )
    }

    /// Clears the persisted index, if any; `dir_exists` reports whether
    /// the cache directory is on disk. With nothing to delete the call
    /// is a no-op `Ok(false)`. See the file index's `delete`.
    pub fn delete(&self, dir_exists: bool) -> (r: Result<bool, IndexError>)
        ensures
            r matches Ok(b) ==> b == (self.spec_cache_dir() is Some && dir_exists),
            self.spec_cache_dir() is None || !dir_exists ==> r == Ok::<bool, IndexError>(false),
    {
        common::delete_index(&self.index, self.cache_dir.is_some(), dir_exists)
    }

    /// Stages deletion of every document whose id field holds one of
    /// the given ids, and commits.
    pub fn delete_documents(&mut self, document_ids: &Vec<String>) -> (r: Result<(), IndexError>)
        ensures
            *final(self) == *old(self),
    {
        let mut writer = match engine::index_writer(&self.index, WRITER_HEAP_BYTES) {
            Ok(w) => w,
            Err(e) => {
                return Err(e);
            },
        };
        let mut i: usize = 0;
        while i < document_ids.len()
            invariant
                i <= document_ids@.len(),
            decreases document_ids@.len() - i,
        {
            engine::writer_delete_term(&writer, &self.id_field, document_ids[i].as_str());
            i += 1;
        }
        match engine::writer_commit(&mut writer) {
            Ok(_) => Ok(()),
            Err(e) => Err(e),
        }
    }

    /// Adds the documents and commits them atomically.
    ///
    /// Every schema field — the id field and each text field — is
    /// resolved through the document's field map; a document lacking
    /// one fails the whole call before anything is committed. `now` is
    /// the wall-clock time the ingestion began; it becomes the
    /// metadata's stamp once the commit succeeds, and the caller
    /// persists the metadata beside an on-disk store.
    pub fn add_documents<T: FieldMap>(&mut self, documents: &Vec<T>, now: i64) -> (r: Result<
        (),
        IndexError,
    >)
        requires
            old(self).wf(),
        ensures
            final(self).wf(),
            r is Ok ==> final(self).spec_meta().spec_last_update() == now
                && final(self).spec_meta().spec_config() == old(self).spec_meta().spec_config()
                && final(self).spec_cache_dir() == old(self).spec_cache_dir(),
    {
        let mut writer = match engine::index_writer(&self.index, WRITER_HEAP_BYTES) {
            Ok(w) => w,
            Err(e) => {
                return Err(e);
            },
        };
        let mut i: usize = 0;
        while i < documents.len()
            invariant
                i <= documents@.len(),
                self.text_fields@.len() == self.text_names@.len(),
            decreases documents@.len() - i,
        {
            let document = &documents[i];
            let mut doc = engine::document_new();
            let id_text = match document.get_field(self.id_name.as_str()) {
                Ok(t) => t,
                Err(e) => {
                    return Err(e);
                },
            };
            engine::document_add_text(&mut doc, &self.id_field, id_text.as_str());
            let mut f: usize = 0;
            while f < self.text_fields.len()
                invariant
                    f <= self.text_fields@.len(),
                    self.text_fields@.len() == self.text_names@.len(),
                decreases self.text_fields@.len() - f,
            {
                let text = match document.get_field(self.text_names[f].as_str()) {
                    Ok(t) => t,
                    Err(e) => {
                        return Err(e);
                    },
                };
                engine::document_add_text(&mut doc, &self.text_fields[f], text.as_str());
                f += 1;
            }
            match engine::writer_add_document(&writer, doc) {
                Ok(_) => (),
                Err(e) => {
                    return Err(e);
                },
            }
            i += 1;
        }
        match engine::writer_commit(&mut writer) {
            Ok(_) => (),
            Err(e) => {
                return Err(e);
            },
        }
        self.meta.set_last_update(now);
        Ok(())
    }

    /// Replaces the documents: stages deletion of each document's id
    /// first, then adds, so the operation is idempotent per id.
    pub fn update_documents<T: FieldMap>(&mut self, documents: &Vec<T>, now: i64) -> (r: Result<
        (),
        IndexError,
    >)
        requires
            old(self).wf(),
        ensures
            final(self).wf(),
            r is Ok ==> final(self).spec_meta().spec_last_update() == now
                && final(self).spec_meta().spec_config() == old(self).spec_meta().spec_config()
                && final(self).spec_cache_dir() == old(self).spec_cache_dir(),
    {
        let mut ids: Vec<String> = Vec::new();
        let mut i: usize = 0;
        while i < documents.len()
            invariant
                i <= documents@.len(),
                self.wf(),
            decreases documents@.len() - i,
        {
            let id = match documents[i].get_field(self.id_name.as_str()) {
                Ok(t) => t,
                Err(e) => {
                    return Err(e);
                },
            };
            ids.push(id);
            i += 1;
        }
        match self.delete_documents(&ids) {
            Ok(_) => (),
            Err(e) => {
                return Err(e);
            },
        }
        self.add_documents(documents, now)
    }

    /// Parses a query against the text fields. `Err` exactly when the
    /// engine rejects the query text.
    pub fn parse_query(&self, text: &str) -> Result<SearchQuery, IndexError> {
        if self.text_fields.len() > 0 {
            engine::parse_query(&self.index, &self.text_fields[0], text)
        } else {
            engine::parse_query(&self.index, &self.id_field, text)
        }
    }

    /// Executes a parsed query: a fresh read view, the engine's top
    /// hits up to `opts.limit`, and of those exactly the hits scoring
    /// strictly above `opts.threshold`, in the engine's rank order,
    /// best first, each reported with its stored id.
    pub fn search(&self, query: &SearchQuery, opts: &SearchOptions) -> (r: Result<
        Vec<SearchResult>,
        IndexError,
    >)
        requires
            opts.limit >= 1,
        ensures
            r matches Ok(res) ==> {
                &&& res@.len() <= opts.limit
                &&& forall|k: int|
                    0 <= k < res@.len() ==> (#[trigger] res@[k]).spec_score() > opts.threshold
                &&& forall|k1: int, k2: int|
                    0 <= k1 <= k2 < res@.len() ==> (#[trigger] res@[k1]).spec_score() >= (
                    #[trigger] res@[k2]).spec_score()
            },
    {
        let searcher = match engine::open_searcher(&self.index) {
            Ok(s) => s,
            Err(e) => {
                return Err(e);
            },
        };
        let top = match engine::search_top(&searcher, query, opts.limit) {
            Ok(t) => t,
            Err(e) => {
                return Err(e);
            },
        };
        let doc_results = filter_by_threshold(&top, opts.threshold);
        proof {
            lemma_threshold_excludes_boundary(top@, opts.threshold);
            crate::file_index::lemma_threshold_preserves_order(top@, opts.threshold);
        }
        let mut out: Vec<SearchResult> = Vec::new();
        let mut i: usize = 0;
        while i < doc_results.len()
            invariant
                i <= doc_results@.len(),
                out@.len() == i,
                forall|k: int|
                    0 <= k < doc_results@.len() ==> #[trigger] doc_results@[k].score
                        > opts.threshold,
                forall|k: int|
                    0 <= k < i ==> (#[trigger] out@[k]).spec_score() > opts.threshold,
                forall|k: int|
                    0 <= k < i ==> (#[trigger] out@[k]).spec_score() == doc_results@[k].score,
                forall|k1: int, k2: int|
                    0 <= k1 <= k2 < doc_results@.len() ==> (#[trigger] doc_results@[k1]).score
                        >= (#[trigger] doc_results@[k2]).score,
            decreases doc_results@.len() - i,
        {
            let dr = doc_results[i];
            let doc = match engine::searcher_doc(&searcher, dr.segment, dr.doc) {
                Ok(d) => d,
                Err(e) => {
                    return Err(e);
                },
            };
            let id = match engine::document_first_text(&doc, &self.id_field) {
                Some(s) => s,
                None => {
                    return Err(IndexError::Engine(String::from_str("hit without a stored id")));
                },
            };
            out.push(SearchResult { id, score: dr.score });
            i += 1;
        }
        proof {
            assert forall|k1: int, k2: int|
                0 <= k1 <= k2 < out@.len() implies (#[trigger] out@[k1]).spec_score() >= (
            #[trigger] out@[k2]).spec_score() by {
                assert(out@[k1].spec_score() == doc_results@[k1].score);
                assert(out@[k2].spec_score() == doc_results@[k2].score);
            }
        }
        Ok(out)
    }
}

} // verus!
