use vstd::prelude::*;

use crate::common;
use crate::common::WRITER_HEAP_BYTES;
use crate::engine;
use crate::engine::SearchQuery;
use crate::error::IndexError;
use crate::language::LanguageRef;
use crate::location;
use crate::location::sorted_u32;
use crate::location::Line;
use crate::meta::accept_metadata;
use crate::meta::FileMetadata;
use crate::opts::FileIndexOptions;
use crate::opts::FileSearchOptions;

verus! {

/// A relevance-ranked hit, still addressed by the engine's transient
/// document locator: valid only for the read view that produced it.
#[derive(Debug, Clone, Copy)]
pub struct DocResult {
    /// Relevance, in the engine's monotone score encoding.
    pub score: u32,
    /// Segment ordinal within the read view.
    pub segment: u32,
    /// Segment-local document id.
    pub doc: u32,
}

/// One candidate record handed to the update protocol: a path relative
/// to the indexed root, its modification time in milliseconds since
/// the epoch, and its full text.
///
/// Records that fail to read as UTF-8 are skipped before this point
/// and never reach the protocol.
#[derive(Debug, Clone)]
pub struct FileEntry {
    pub rel_path: String,
    pub modified: i64,
    pub contents: String,
}

/// Whether one record is (re)ingested: always under a forced rebuild,
/// else exactly when it changed after the last successful commit's
/// walk began.
pub open spec fn spec_should_ingest(rebuild: bool, modified: i64, last_update: i64) -> bool {
    rebuild || modified > last_update
}

/// The ingest decision of the incremental update protocol.
pub fn should_ingest(rebuild: bool, modified: i64, last_update: i64) -> (r: bool)
    ensures
        r == spec_should_ingest(rebuild, modified, last_update),
{
    rebuild || modified > last_update
}

/// How many of the entries the protocol ingests.
pub open spec fn spec_ingest_count(entries: Seq<FileEntry>, rebuild: bool, last_update: i64)
    -> int
    decreases entries.len(),
{
    if entries.len() == 0 {
        0
    } else {
        spec_ingest_count(entries.drop_last(), rebuild, last_update) + if spec_should_ingest(
            rebuild,
            entries.last().modified,
            last_update,
        ) {
            1int
        } else {
            0int
        }
    }
}

/// Fresh metadata forces a full effective reindex: with the stamp at
/// the epoch — as after a config mismatch discarded the persisted
/// metadata — every entry whose modification time lies after the epoch
/// is ingested on the next update, rebuild or not. (An entry stamped
/// exactly at the epoch is not newer than the fresh stamp, so the
/// strict comparison leaves it out.)
pub proof fn lemma_fresh_metadata_reindexes_all(entries: Seq<FileEntry>, rebuild: bool)
    requires
        forall|i: int| 0 <= i < entries.len() ==> (#[trigger] entries[i]).modified >= 1,
    ensures
        spec_ingest_count(entries, rebuild, 0) == entries.len(),
    decreases entries.len(),
{
    if entries.len() > 0 {
        let prefix = entries.drop_last();
        assert(forall|i: int|
            0 <= i < prefix.len() ==> (#[trigger] prefix[i]).modified >= 1) by {
            assert(forall|i: int| 0 <= i < prefix.len() ==> prefix[i] == entries[i]);
        }
        lemma_fresh_metadata_reindexes_all(prefix, rebuild);
        assert(entries.last().modified >= 1);
    }
}

/// The hits kept by the score threshold: exactly those scoring
/// strictly above it, in the engine's rank order.
pub open spec fn spec_above_threshold(hits: Seq<(u32, u32, u32)>, threshold: u32) -> Seq<
    DocResult,
>
    decreases hits.len(),
{
    if hits.len() == 0 {
        Seq::empty()
    } else {
        let rest = spec_above_threshold(hits.drop_last(), threshold);
        let h = hits.last();
        if h.0 > threshold {
            rest.push(DocResult { score: h.0, segment: h.1, doc: h.2 })
        } else {
            rest
        }
    }
}

/// Every kept hit scores strictly above the threshold: a hit with
/// score exactly equal to the threshold is never kept.
pub proof fn lemma_threshold_excludes_boundary(hits: Seq<(u32, u32, u32)>, threshold: u32)
    ensures
        forall|k: int|
            0 <= k < spec_above_threshold(hits, threshold).len() ==> #[trigger] spec_above_threshold(
                hits,
                threshold,
            )[k].score > threshold,
        spec_above_threshold(hits, threshold).len() <= hits.len(),
    decreases hits.len(),
{
    if hits.len() > 0 {
        lemma_threshold_excludes_boundary(hits.drop_last(), threshold);
    }
}

/// Every hit scoring strictly above the threshold is kept, with its
/// score, segment and document id unchanged.
pub proof fn lemma_threshold_keeps_above(hits: Seq<(u32, u32, u32)>, threshold: u32, i: int)
    requires
        0 <= i < hits.len(),
        hits[i].0 > threshold,
    ensures
        spec_above_threshold(hits, threshold).contains(
            DocResult { score: hits[i].0, segment: hits[i].1, doc: hits[i].2 },
        ),
    decreases hits.len(),
{
    let kept = spec_above_threshold(hits, threshold);
    if i == hits.len() - 1 {
        assert(hits.last() == hits[i]);
        assert(kept.last() == DocResult { score: hits[i].0, segment: hits[i].1, doc: hits[i].2 });
    } else {
        assert(hits.drop_last()[i] == hits[i]);
        lemma_threshold_keeps_above(hits.drop_last(), threshold, i);
        let rest = spec_above_threshold(hits.drop_last(), threshold);
        let d = DocResult { score: hits[i].0, segment: hits[i].1, doc: hits[i].2 };
        let k = choose|k: int| 0 <= k < rest.len() && rest[k] == d;
        assert(kept[k] == d);
    }
}

/// Keeping only the hits above the threshold preserves the engine's
/// rank order: a non-increasing input yields a non-increasing output.
pub proof fn lemma_threshold_preserves_order(hits: Seq<(u32, u32, u32)>, threshold: u32)
    requires
        forall|k1: int, k2: int|
            0 <= k1 <= k2 < hits.len() ==> (#[trigger] hits[k1]).0 >= (#[trigger] hits[k2]).0,
    ensures
        forall|k1: int, k2: int|
            0 <= k1 <= k2 < spec_above_threshold(hits, threshold).len()
                ==> (#[trigger] spec_above_threshold(hits, threshold)[k1]).score
                >= (#[trigger] spec_above_threshold(hits, threshold)[k2]).score,
    decreases hits.len(),
{
    if hits.len() > 0 {
        let prefix = hits.drop_last();
        assert(forall|k1: int, k2: int|
            0 <= k1 <= k2 < prefix.len() ==> (#[trigger] prefix[k1]).0 >= (
            #[trigger] prefix[k2]).0) by {
            assert(forall|k: int| 0 <= k < prefix.len() ==> prefix[k] == hits[k]);
        }
        lemma_threshold_preserves_order(prefix, threshold);
        lemma_threshold_floor(prefix, threshold, hits.last().0);
        let kept = spec_above_threshold(hits, threshold);
        let kept_prefix = spec_above_threshold(prefix, threshold);
        assert forall|k1: int, k2: int|
            0 <= k1 <= k2 < kept.len() implies (#[trigger] kept[k1]).score >= (
        #[trigger] kept[k2]).score by {
            if hits.last().0 > threshold {
                assert(kept == kept_prefix.push(
                    DocResult { score: hits.last().0, segment: hits.last().1, doc: hits.last().2 },
                ));
                if k2 < kept_prefix.len() {
                    assert(kept[k1] == kept_prefix[k1] && kept[k2] == kept_prefix[k2]);
                } else if k1 < kept_prefix.len() {
                    assert(kept[k1] == kept_prefix[k1]);
                    assert(kept[k2].score == hits.last().0);
                }
            } else {
                assert(kept == kept_prefix);
            }
        }
    }
}

/// Every kept hit scores at least `floor` when every input hit does.
proof fn lemma_threshold_floor(hits: Seq<(u32, u32, u32)>, threshold: u32, floor: u32)
    requires
        forall|k: int| 0 <= k < hits.len() ==> (#[trigger] hits[k]).0 >= floor,
    ensures
        forall|k: int|
            0 <= k < spec_above_threshold(hits, threshold).len() ==> (
            #[trigger] spec_above_threshold(hits, threshold)[k]).score >= floor,
    decreases hits.len(),
{
    if hits.len() > 0 {
        let prefix = hits.drop_last();
        assert(forall|k: int| 0 <= k < prefix.len() ==> (#[trigger] prefix[k]).0 >= floor);
        lemma_threshold_floor(prefix, threshold, floor);
        let kept = spec_above_threshold(hits, threshold);
        let kp = spec_above_threshold(prefix, threshold);
        assert forall|k: int| 0 <= k < kept.len() implies (#[trigger] kept[k]).score >= floor by {
            if hits.last().0 > threshold {
                assert(kept == kp.push(
                    DocResult { score: hits.last().0, segment: hits.last().1, doc: hits.last().2 },
                ));
                if k < kp.len() {
                    assert(kept[k] == kp[k]);
                } else {
                    assert(kept[k].score == hits.last().0);
                }
            } else {
                assert(kept == kp);
            }
        }
    }
}

/// Applies the score threshold to the engine's ranked hits.
pub fn filter_by_threshold(hits: &Vec<(u32, u32, u32)>, threshold: u32) -> (r: Vec<DocResult>)
    ensures
        r@ == spec_above_threshold(hits@, threshold),
{
    let mut r: Vec<DocResult> = Vec::new();
    let mut i: usize = 0;
    proof {
        assert(hits@.subrange(0, 0) =~= Seq::<(u32, u32, u32)>::empty());
        assert(r@ =~= spec_above_threshold(hits@.subrange(0, 0), threshold));
    }
    while i < hits.len()
        invariant
            i <= hits@.len(),
            r@ == spec_above_threshold(hits@.subrange(0, i as int), threshold),
        decreases hits@.len() - i,
    {
        let h = hits[i];
        proof {
            assert(hits@.subrange(0, i + 1).drop_last() =~= hits@.subrange(0, i as int));
            assert(hits@.subrange(0, i + 1).last() == hits@[i as int]);
        }
        if h.0 > threshold {
            r.push(DocResult { score: h.0, segment: h.1, doc: h.2 });
        }
        i += 1;
    }
    proof {
        assert(hits@.subrange(0, hits@.len() as int) =~= hits@);
    }
    r
}

/// One ranked, optionally line-localized result.
#[derive(Debug)]
pub struct FileSearchResult {
    file: String,
    score: u32,
    lines: Vec<Line>,
    positions: Vec<u32>,
}

impl FileSearchResult {
    /// The matched file's full path.
    pub fn file(&self) -> (r: &String)
        ensures
            r == self.spec_file(),
    {
        &self.file
    }

    /// The path, for contracts.
    pub closed spec fn spec_file(&self) -> String {
        self.file
    }

    /// The hit's relevance, in the engine's monotone score encoding.
    pub fn score(&self) -> (r: u32)
        ensures
            r == self.spec_score(),
    {
        self.score
    }

    /// The score, for contracts.
    pub closed spec fn spec_score(&self) -> u32 {
        self.score
    }

    /// The localized line matches, in file order; empty until
    /// localization runs, and for hits whose source could not be read
    /// back.
    pub fn lines(&self) -> (r: &Vec<Line>)
        ensures
            r == self.spec_lines(),
    {
        &self.lines
    }

    /// The line matches, for contracts.
    pub closed spec fn spec_lines(&self) -> Vec<Line> {
        self.lines
    }

    /// The hit's harvested occurrence positions, ascending.
    pub fn positions(&self) -> (r: &Vec<u32>)
        ensures
            r == self.spec_positions(),
    {
        &self.positions
    }

    /// The positions, for contracts.
    pub closed spec fn spec_positions(&self) -> Vec<u32> {
        self.positions
    }
}

/// The localized lines of one hit are faithful to the verified
/// position-to-line mapping: for the file's lines, the analysis
/// pipeline's per-line token counts, and the hit's positions drained
/// ascending, the reported lines are exactly what the mapping yields.
///
/// The counts are the engine's, but pinned: `line_tokens_of` is the
/// token count of one line under the configured language, so every
/// line's count — and with it the whole mapping — is determined by the
/// configuration and the file's text.
pub open spec fn spec_line_counts(lang: LanguageRef, long_limit: usize, texts: Seq<Seq<char>>)
    -> Seq<u32> {
    Seq::new(texts.len(), |i: int| engine::line_tokens_of(lang, long_limit, texts[i]))
}

/// See `spec_line_counts`: the reported lines equal the verified
/// mapping of the file's lines, the pipeline's counts and the hit's
/// positions sorted ascending (a sorted sequence with the positions'
/// multiset).
pub open spec fn spec_localized_faithfully(
    lines_out: Seq<Line>,
    lang: LanguageRef,
    long_limit: usize,
    text: Seq<char>,
    positions: Seq<u32>,
) -> bool {
    exists|pending: Seq<u32>|
        #![auto]
        {
            &&& location::sorted_u32(pending)
            &&& pending.to_multiset() == positions.to_multiset()
            &&& lines_out.map_values(|l: Line| (l.number, l.text@)) == location::spec_line_matches(
                location::spec_split_lines(text),
                spec_line_counts(lang, long_limit, location::spec_split_lines(text)),
                pending,
            )
        }
}

/// Joins a root directory and a root-relative path with a single
/// separator.
pub fn join_path(root: &String, rel: &String) -> (r: String)
    ensures
        r@ == root@ + "/"@ + rel@,
{
    let mut r = root.clone();
    r.append("/");
    r.append(rel.as_str());
    r
}

/// Fresh metadata: never updated, snapshotting the requested policy.
pub open spec fn is_fresh_meta(
    m: FileMetadata,
    config: FileIndexOptions,
    for_dir: Seq<char>,
) -> bool {
    &&& m.spec_last_update() == 0
    &&& m.spec_config().spec_eq(config)
    &&& m.spec_for_dir()@ == for_dir
}

impl FileIndexOptions {
    /// A field-by-field copy that provably describes the same policy.
    pub fn duplicate(&self) -> (r: FileIndexOptions)
        ensures
            r.spec_eq(*self),
    {
        FileIndexOptions {
            follow: self.follow,
            glob: self.glob.clone(),
            glob_case_insensitive: self.glob_case_insensitive,
            hidden: self.hidden,
            ignore_files: self.ignore_files,
            language: self.language,
            oglob: self.oglob.clone(),
            threads: self.threads,
        }
    }
}

/// Idempotent reopen, metadata side: two opens of the same store under
/// the same configuration, with the same persisted metadata, come out
/// with the same last-update stamp, equal policies and the same root —
/// so neither open forces indexing work the other would not. `m1` and
/// `m2` are the metadata of the two opened indexes, each as
/// `get_or_create` promises it.
pub proof fn lemma_reopen_idempotent(
    prior: Option<FileMetadata>,
    config: FileIndexOptions,
    for_dir: Seq<char>,
    m1: FileMetadata,
    m2: FileMetadata,
)
    requires
        match prior {
            Some(p) => if p.spec_config().spec_eq(config) {
                m1 == p
            } else {
                is_fresh_meta(m1, config, for_dir)
            },
            None => is_fresh_meta(m1, config, for_dir),
        },
        match prior {
            Some(p) => if p.spec_config().spec_eq(config) {
                m2 == p
            } else {
                is_fresh_meta(m2, config, for_dir)
            },
            None => is_fresh_meta(m2, config, for_dir),
        },
    ensures
        m1.spec_last_update() == m2.spec_last_update(),
        m1.spec_config().spec_eq(m2.spec_config()),
        m1.spec_for_dir()@ == m2.spec_for_dir()@,
{
}

/// A file-backed index: the engine handle, the two schema fields, the
/// metadata descriptor, and the cache location (None for a
/// memory-resident index).
#[derive(Debug)]
pub struct FileIndex {
    meta: FileMetadata,
    cache_dir: Option<String>,
    index: tantivy::Index,
    filepath: tantivy::schema::Field,
    contents: tantivy::schema::Field,
}

impl FileIndex {
    /// The engine handle.
    pub fn index(&self) -> &tantivy::Index {
        &self.index
    }

    /// The exact-match stored field holding each record's root-relative
    /// path.
    pub fn filepath(&self) -> &tantivy::schema::Field {
        &self.filepath
    }

    /// The tokenized content field.
    pub fn contents(&self) -> &tantivy::schema::Field {
        &self.contents
    }

    /// The index's metadata descriptor.
    pub fn meta(&self) -> (r: &FileMetadata)
        ensures
            r == self.spec_meta(),
    {
        &self.meta
    }

    /// The metadata, for contracts.
    pub closed spec fn spec_meta(&self) -> FileMetadata {
        self.meta
    }

    /// The cache location, `None` for a memory-resident index.
    pub fn cache_dir(&self) -> (r: &Option<String>)
        ensures
            r == self.spec_cache_dir(),
    {
        &self.cache_dir
    }

    /// The cache location, for contracts.
    pub closed spec fn spec_cache_dir(&self) -> Option<String> {
        self.cache_dir
    }

    /// Opens (or creates) the index for `for_dir`.
    ///
    /// `for_dir` must already be canonical and absolute; `prior` is the
    /// persisted metadata as the sidecar reader recovered it, or `None`
    /// when there was none or it did not parse. Persisted metadata
    /// survives exactly when its config snapshot equals `config`
    /// (staleness rule); otherwise the index starts from fresh metadata
    /// with `last_update == 0`, so the next update reindexes every
    /// record. Opening without a cache location cannot fail: nothing is
    /// read from or written to disk. An engine failure to open an
    /// existing on-disk store is returned as `Err`; see
    /// `recovery_action` for the clear-and-retry policy the caller
    /// applies.
    pub fn get_or_create(
        for_dir: String,
        cache_dir: Option<String>,
        config: &FileIndexOptions,
        prior: Option<FileMetadata>,
    ) -> (r: Result<FileIndex, IndexError>)
        ensures
            cache_dir is None ==> r is Ok,
            r matches Ok(ix) ==> {
                &&& ix.spec_cache_dir() == cache_dir
                &&& match prior {
                    Some(m) => if m.spec_config().spec_eq(*config) {
                        ix.spec_meta() == m
                    } else {
                        is_fresh_meta(ix.spec_meta(), *config, for_dir@)
                    },
                    None => is_fresh_meta(ix.spec_meta(), *config, for_dir@),
                }
            },
    {
        let mut text_fields: Vec<String> = Vec::new();
        text_fields.push(String::from_str("contents"));
        proof {
            reveal_strlit("filepath");
            reveal_strlit("contents");
            assert(text_fields.deep_view() =~= seq!["contents"@]);
            assert("contents"@ != "filepath"@) by {
                assert("contents"@[0] == 'c');
                assert("filepath"@[0] == 'f');
            }
            assert(common::spec_distinct_field_names("filepath"@, text_fields.deep_view()));
        }
        let opened = common::create_index(
            cache_dir.as_ref(),
            &config.language,
            "filepath",
            &text_fields,
        );
        let (index, filepath, mut fields) = match opened {
            Ok(ok) => ok,
            Err(e) => {
                return Err(e);
            },
        };
        let contents = match fields.pop() {
            Some(f) => f,
            None => {
                return Err(IndexError::Engine(String::from_str("content field missing")));
            },
        };
        let meta = match accept_metadata(prior, config) {
            Some(m) => m,
            None => FileMetadata::new(config.duplicate(), for_dir),
        };
        Ok(FileIndex { meta, cache_dir, index, filepath, contents })
    }

    /// Clears the persisted index, if any: deletes every document and
    /// commits. `Ok(true)` exactly when a cache location exists on
    /// disk (`dir_exists` reports that); the caller then removes the
    /// sidecar file and the directory. With nothing to delete the call
    /// is a no-op `Ok(false)`: no documents are deleted and no commit
    /// is issued.
    pub fn delete(&self, dir_exists: bool) -> (r: Result<bool, IndexError>)
        ensures
            r matches Ok(b) ==> b == (self.spec_cache_dir() is Some && dir_exists),
            self.spec_cache_dir() is None || !dir_exists ==> r == Ok::<bool, IndexError>(false),
    {
        common::delete_index(&self.index, self.cache_dir.is_some(), dir_exists)
    }

    /// The incremental update protocol.
    ///
    /// `now` is the wall-clock time captured before the walk began;
    /// `entries` are the records the discovery walk yielded and read as
    /// UTF-8. Each entry is ingested exactly when `rebuild` is set or
    /// the entry changed since the last committed update; ingesting
    /// first deletes any prior document with the same path, so updates
    /// are idempotent per path. All staged changes become visible at
    /// one trailing commit; only after it succeeds is the metadata
    /// stamp advanced to `now` — a record modified during the walk is
    /// therefore picked up again by the next run. On `Err` nothing is
    /// changed.
    ///
    /// Returns how many entries were ingested. The caller persists the
    /// updated metadata beside an on-disk store.
    pub fn update(&mut self, rebuild: bool, now: i64, entries: &Vec<FileEntry>) -> (r: Result<
        usize,
        IndexError,
    >)
        ensures
            r matches Ok(count) ==> {
                &&& count == spec_ingest_count(
                    entries@,
                    rebuild,
                    old(self).spec_meta().spec_last_update(),
                )
                &&& final(self).spec_meta().spec_last_update() == now
                &&& final(self).spec_meta().spec_config() == old(self).spec_meta().spec_config()
                &&& final(self).spec_meta().spec_for_dir() == old(self).spec_meta().spec_for_dir()
                &&& final(self).spec_cache_dir() == old(self).spec_cache_dir()
            },
            r is Err ==> *final(self) == *old(self),
    {
        let mut writer = match engine::index_writer(&self.index, WRITER_HEAP_BYTES) {
            Ok(w) => w,
            Err(e) => {
                return Err(e);
            },
        };
        let last_update = self.meta.last_update();
        let mut count: usize = 0;
        let mut i: usize = 0;
        proof {
            assert(entries@.subrange(0, 0) =~= Seq::<FileEntry>::empty());
        }
        while i < entries.len()
            invariant
                i <= entries@.len(),
                count == spec_ingest_count(entries@.subrange(0, i as int), rebuild, last_update),
                count <= i,
            decreases entries@.len() - i,
        {
            proof {
                assert(entries@.subrange(0, i + 1).drop_last() =~= entries@.subrange(0, i as int));
                assert(entries@.subrange(0, i + 1).last() == entries@[i as int]);
            }
            let entry = &entries[i];
            if should_ingest(rebuild, entry.modified, last_update) {
                engine::writer_delete_term(&writer, &self.filepath, entry.rel_path.as_str());
                let mut doc = engine::document_new();
                engine::document_add_text(&mut doc, &self.filepath, entry.rel_path.as_str());
                engine::document_add_text(&mut doc, &self.contents, entry.contents.as_str());
                match engine::writer_add_document(&writer, doc) {
                    Ok(_) => (),
                    Err(e) => {
                        return Err(e);
                    },
                }
                count += 1;
            }
            i += 1;
        }
        proof {
            assert(entries@.subrange(0, entries@.len() as int) =~= entries@);
        }
        match engine::writer_commit(&mut writer) {
            Ok(_) => (),
            Err(e) => {
                return Err(e);
            },
        }
        self.meta.set_last_update(now);
        Ok(count)
    }

    /// Parses a query against the content field. `Err` exactly when
    /// the engine rejects the query text; no partial results are ever
    /// produced from an unparsable query.
    pub fn parse_query(&self, text: &str) -> Result<SearchQuery, IndexError> {
        engine::parse_query(&self.index, &self.contents, text)
    }

    /// Harvests the occurrence positions of the query's terms for each
    /// requested hit.
    ///
    /// Walks every segment of the read view and every distinct term of
    /// the query, reading each term's posting list with positions;
    /// positions of live (non-deleted) postings whose address matches a
    /// requested hit are collected into that hit's queue, ascending.
    /// Deleted documents are skipped, never treated as matches. The
    /// result has one queue per requested hit, in the same order.
    pub fn get_search_results(
        &self,
        query: &SearchQuery,
        searcher: &tantivy::Searcher,
        results: &Vec<DocResult>,
    ) -> (r: Result<Vec<Vec<u32>>, IndexError>)
        ensures
            r matches Ok(pm) ==> {
                &&& pm@.len() == results@.len()
                &&& forall|k: int| 0 <= k < pm@.len() ==> sorted_u32(#[trigger] pm@[k]@)
            },
    {
        let mut acc: Vec<Vec<u32>> = Vec::new();
        let mut k: usize = 0;
        while k < results.len()
            invariant
                k <= results@.len(),
                acc@.len() == k,
            decreases results@.len() - k,
        {
            acc.push(Vec::new());
            k += 1;
        }
        let terms = engine::collect_query_terms(query);
        let nseg = engine::searcher_num_segments(searcher);
        let sentinel = engine::terminated_doc();
        let mut seg: usize = 0;
        while seg < nseg
            invariant
                acc@.len() == results@.len(),
            decreases nseg - seg,
        {
            let inv_opt = match engine::segment_inverted_index(searcher, seg, &self.contents) {
                Ok(o) => o,
                Err(e) => {
                    return Err(e);
                },
            };
            if let Some(inv) = inv_opt {
                let mut t: usize = 0;
                while t < terms.len()
                    invariant
                        acc@.len() == results@.len(),
                    decreases terms.len() - t,
                {
                    let postings_opt = match engine::read_postings(&inv, &terms[t]) {
                        Ok(o) => o,
                        Err(e) => {
                            return Err(e);
                        },
                    };
                    if let Some(mut postings) = postings_opt {
                        let maxd = engine::segment_max_doc(searcher, seg);
                        let mut d = engine::postings_doc(&postings);
                        let mut steps: u64 = 0;
                        while d != sentinel && steps <= maxd as u64
                            invariant
                                acc@.len() == results@.len(),
                                steps <= maxd as u64 + 1,
                            decreases maxd as u64 + 1 - steps,
                        {
                            if !engine::segment_is_deleted(searcher, seg, d) {
                                if let Some(idx) = find_result(results, seg, d) {
                                    let mut buf: Vec<u32> = Vec::new();
                                    engine::postings_positions(&mut postings, &mut buf);
                                    let slot = &mut acc[idx];
                                    slot.append(&mut buf);
                                }
                            }
                            d = engine::postings_advance(&mut postings);
                            steps += 1;
                        }
                    }
                    t += 1;
                }
            }
            seg += 1;
        }
        let mut sorted: Vec<Vec<u32>> = Vec::new();
        let mut s: usize = 0;
        while s < acc.len()
            invariant
                s <= acc@.len(),
                acc@.len() == results@.len(),
                sorted@.len() == s,
                forall|j: int| 0 <= j < s ==> sorted_u32(#[trigger] sorted@[j]@),
            decreases acc@.len() - s,
        {
            let sp = location::sort_positions(&acc[s]);
            sorted.push(sp);
            s += 1;
        }
        Ok(sorted)
    }

    /// Whether a reported path sits directly under the given root.
    pub open spec fn spec_under_root(file: Seq<char>, root: Seq<char>) -> bool {
        exists|rel: Seq<char>| #![auto] file == root + "/"@ + rel
    }

    /// The directory reported paths are placed under: the caller's
    /// override when given, else the indexed root.
    pub open spec fn spec_report_root(&self, opts: FileSearchOptions) -> Seq<char> {
        match opts.root_dir {
            Some(d) => d@,
            None => self.spec_meta().spec_for_dir()@,
        }
    }

    /// Executes a parsed query: opens a fresh read view, takes the
    /// engine's top hits up to `opts.limit`, keeps exactly those
    /// scoring strictly above `opts.threshold` — in the engine's rank
    /// order, best first — harvests their occurrence positions, and
    /// reports each hit's full path (under `opts.root_dir` when given,
    /// else under the indexed root).
    ///
    /// Line matches are not filled in here: localization needs the
    /// source files read back, which `localize` does from their
    /// contents.
    pub fn search(&self, query: &SearchQuery, opts: &FileSearchOptions) -> (r: Result<
        Vec<FileSearchResult>,
        IndexError,
    >)
        requires
            opts.limit >= 1,
        ensures
            r matches Ok(res) ==> {
                &&& res@.len() <= opts.limit
                &&& forall|k: int|
                    0 <= k < res@.len() ==> (#[trigger] res@[k]).spec_score() > opts.threshold
                &&& forall|k: int|
                    0 <= k < res@.len() ==> sorted_u32((#[trigger] res@[k]).spec_positions()@)
                &&& forall|k: int|
                    0 <= k < res@.len() ==> (#[trigger] res@[k]).spec_lines()@.len() == 0
                &&& forall|k: int|
                    0 <= k < res@.len() ==> FileIndex::spec_under_root(
                        (#[trigger] res@[k]).spec_file()@,
                        self.spec_report_root(*opts),
                    )
                &&& forall|k1: int, k2: int|
                    0 <= k1 <= k2 < res@.len() ==> (#[trigger] res@[k1]).spec_score() >= (
                    #[trigger] res@[k2]).spec_score()
            },
    {
        let searcher = match engine::open_searcher(&self.index) {
            Ok(s) => s,
            Err(e) => {
                return Err(e);
            },
        };
        let top = match engine::search_top(&searcher, query, opts.limit) {
            Ok(t) => t,
            Err(e) => {
                return Err(e);
            },
        };
        let doc_results = filter_by_threshold(&top, opts.threshold);
        proof {
            lemma_threshold_excludes_boundary(top@, opts.threshold);
            lemma_threshold_preserves_order(top@, opts.threshold);
        }
        let position_map = match self.get_search_results(query, &searcher, &doc_results) {
            Ok(pm) => pm,
            Err(e) => {
                return Err(e);
            },
        };
        let mut out: Vec<FileSearchResult> = Vec::new();
        let mut i: usize = 0;
        while i < doc_results.len()
            invariant
                i <= doc_results@.len(),
                doc_results@.len() == position_map@.len(),
                out@.len() == i,
                forall|k: int|
                    0 <= k < doc_results@.len() ==> #[trigger] doc_results@[k].score
                        > opts.threshold,
                forall|k: int|
                    0 <= k < position_map@.len() ==> sorted_u32(#[trigger] position_map@[k]@),
                forall|k: int|
                    0 <= k < i ==> (#[trigger] out@[k]).spec_score() > opts.threshold,
                forall|k: int| 0 <= k < i ==> sorted_u32((#[trigger] out@[k]).spec_positions()@),
                forall|k: int| 0 <= k < i ==> (#[trigger] out@[k]).spec_lines()@.len() == 0,
                forall|k: int|
                    0 <= k < i ==> FileIndex::spec_under_root(
                        (#[trigger] out@[k]).spec_file()@,
                        self.spec_report_root(*opts),
                    ),
                forall|k: int|
                    0 <= k < i ==> (#[trigger] out@[k]).spec_score() == doc_results@[k].score,
                forall|k1: int, k2: int|
                    0 <= k1 <= k2 < doc_results@.len() ==> (#[trigger] doc_results@[k1]).score
                        >= (#[trigger] doc_results@[k2]).score,
            decreases doc_results@.len() - i,
        {
            let dr = doc_results[i];
            let doc = match engine::searcher_doc(&searcher, dr.segment, dr.doc) {
                Ok(d) => d,
                Err(e) => {
                    return Err(e);
                },
            };
            let rel = match engine::document_first_text(&doc, &self.filepath) {
                Some(s) => s,
                None => {
                    return Err(IndexError::Engine(
                        String::from_str("hit without a stored path"),
                    ));
                },
            };
            let root = match &opts.root_dir {
                Some(rd) => rd.clone(),
                None => self.meta.for_dir().clone(),
            };
            let full = join_path(&root, &rel);
            proof {
                assert(root@ == self.spec_report_root(*opts));
                assert(full@ == self.spec_report_root(*opts) + "/"@ + rel@);
                assert(FileIndex::spec_under_root(full@, self.spec_report_root(*opts)));
            }
            let positions = location::sort_positions(&position_map[i]);
            out.push(
                FileSearchResult { file: full, score: dr.score, lines: Vec::new(), positions },
            );
            i += 1;
        }
        proof {
            assert forall|k1: int, k2: int|
                0 <= k1 <= k2 < out@.len() implies (#[trigger] out@[k1]).spec_score() >= (
            #[trigger] out@[k2]).spec_score() by {
                assert(out@[k1].spec_score() == doc_results@[k1].score);
                assert(out@[k2].spec_score() == doc_results@[k2].score);
            }
        }
        Ok(out)
    }

    /// Localizes hits to source lines.
    ///
    /// `contents[i]` is the text of `results[i]`'s file as read back
    /// from disk, or `None` when it could not be read (the file may
    /// have changed since indexing: the hit then keeps zero line
    /// matches, which is not an error). With `filename_only` set the
    /// whole phase is skipped and every hit keeps zero line matches.
    ///
    /// For each localized hit the file's text is split into lines and
    /// re-tokenized line by line with the configured language's
    /// pipeline — the same pipeline the content field is registered
    /// with on every open, so the counts are the indexing counts;
    /// `positions_to_lines` then maps the hit's pending positions
    /// through the lines' token ranges — each matched line reported
    /// once, in file order, with its trimmed text.
    pub fn localize(
        &self,
        results: Vec<FileSearchResult>,
        contents: &Vec<Option<String>>,
        filename_only: bool,
    ) -> (r: Result<Vec<FileSearchResult>, IndexError>)
        requires
            contents@.len() == results@.len(),
        ensures
            r matches Ok(out) ==> {
                &&& out@.len() == results@.len()
                &&& forall|k: int|
                    0 <= k < out@.len() ==> (#[trigger] out@[k]).spec_file()
                        == results@[k].spec_file()
                &&& forall|k: int|
                    0 <= k < out@.len() ==> (#[trigger] out@[k]).spec_score()
                        == results@[k].spec_score()
                &&& filename_only ==> forall|k: int|
                    0 <= k < out@.len() ==> (#[trigger] out@[k]).spec_lines()@.len() == 0
                &&& forall|k: int|
                    0 <= k < out@.len() && contents@[k] is None ==> (#[trigger] out@[k]).spec_lines()@.len()
                        == 0
                &&& !filename_only ==> forall|k: int|
                    0 <= k < out@.len() ==> match contents@[k] {
                        Some(text) => location::spec_split_lines(text@).len() < u32::MAX
                            ==> spec_localized_faithfully(
                            (#[trigger] out@[k]).spec_lines()@,
                            self.spec_meta().spec_config().language,
                            crate::common::LONG_TOKEN_LIMIT as usize,
                            text@,
                            results@[k].spec_positions()@,
                        ),
                        None => true,
                    }
            },
    {
        let lang = self.meta().config().language;
        let ghost orig = results@;
        let mut rest = results;
        let mut out: Vec<FileSearchResult> = Vec::new();
        let mut i: usize = 0;
        proof {
            assert(rest@ =~= orig.subrange(0, orig.len() as int));
        }
        while i < contents.len()
            invariant
                i <= contents@.len(),
                orig.len() == contents@.len(),
                rest@ == orig.subrange(i as int, orig.len() as int),
                out@.len() == i,
                forall|k: int|
                    0 <= k < i ==> (#[trigger] out@[k]).spec_file() == orig[k].spec_file(),
                forall|k: int|
                    0 <= k < i ==> (#[trigger] out@[k]).spec_score() == orig[k].spec_score(),
                filename_only ==> forall|k: int|
                    0 <= k < i ==> (#[trigger] out@[k]).spec_lines()@.len() == 0,
                forall|k: int|
                    0 <= k < i && contents@[k] is None ==> (#[trigger] out@[k]).spec_lines()@.len()
                        == 0,
                lang == self.spec_meta().spec_config().language,
                !filename_only ==> forall|k: int|
                    0 <= k < i ==> match contents@[k] {
                        Some(text) => location::spec_split_lines(text@).len() < u32::MAX
                            ==> spec_localized_faithfully(
                            (#[trigger] out@[k]).spec_lines()@,
                            self.spec_meta().spec_config().language,
                            crate::common::LONG_TOKEN_LIMIT as usize,
                            text@,
                            orig[k].spec_positions()@,
                        ),
                        None => true,
                    },
            decreases contents@.len() - i,
        {
            let hit = rest.remove(0);
            proof {
                assert(hit == orig[i as int]);
                assert(rest@ =~= orig.subrange(i + 1, orig.len() as int));
            }
            let ghost hit_positions = hit.positions@;
            let line_matches: Vec<Line> = if filename_only {
                Vec::new()
            } else {
                match &contents[i] {
                    None => Vec::new(),
                    Some(text) => {
                        let lines = location::split_lines(text.as_str());
                        let counts = line_token_counts(&lang, &lines);
                        if lines.len() < 0xffffffffusize {
                            let pending = location::sort_positions(&hit.positions);
                            let mapped = location::positions_to_lines(&lines, &counts, &pending);
                            proof {
                                let w_pending = pending@;
                                assert(lines.deep_view() == location::spec_split_lines(text@));
                                assert(counts@ =~= spec_line_counts(
                                    lang,
                                    crate::common::LONG_TOKEN_LIMIT as usize,
                                    location::spec_split_lines(text@),
                                ));
                                assert(location::sorted_u32(w_pending));
                                assert(w_pending.to_multiset() == hit_positions.to_multiset());
                                assert(mapped@.map_values(|l: Line| (l.number, l.text@))
                                    == location::spec_line_matches(
                                    location::spec_split_lines(text@),
                                    spec_line_counts(
                                        lang,
                                        crate::common::LONG_TOKEN_LIMIT as usize,
                                        location::spec_split_lines(text@),
                                    ),
                                    w_pending,
                                ));
                                assert(spec_localized_faithfully(
                                    mapped@,
                                    lang,
                                    crate::common::LONG_TOKEN_LIMIT as usize,
                                    text@,
                                    hit_positions,
                                ));
                            }
                            mapped
                        } else {
                            Vec::new()
                        }
                    },
                }
            };
            out.push(
                FileSearchResult {
                    file: hit.file,
                    score: hit.score,
                    lines: line_matches,
                    positions: hit.positions,
                },
            );
            i += 1;
        }
        Ok(out)
    }
}

/// Re-tokenizes each line with the language's pipeline, yielding the
/// per-line token counts that position-to-line mapping consumes:
/// `r[i]` is exactly the pipeline's token count for line `i`.
fn line_token_counts(lang: &LanguageRef, lines: &Vec<String>) -> (r: Vec<u32>)
    ensures
        r@.len() == lines@.len(),
        forall|k: int|
            0 <= k < r@.len() ==> #[trigger] r@[k] == engine::line_tokens_of(
                *lang,
                crate::common::LONG_TOKEN_LIMIT as usize,
                lines.deep_view()[k],
            ),
{
    let mut r: Vec<u32> = Vec::new();
    let mut i: usize = 0;
    while i < lines.len()
        invariant
            i <= lines@.len(),
            r@.len() == i,
            forall|k: int|
                0 <= k < i ==> #[trigger] r@[k] == engine::line_tokens_of(
                    *lang,
                    crate::common::LONG_TOKEN_LIMIT as usize,
                    lines.deep_view()[k],
                ),
        decreases lines@.len() - i,
    {
        r.push(
            engine::count_line_tokens(
                lang,
                crate::common::LONG_TOKEN_LIMIT,
                lines[i].as_str(),
            ),
        );
        i += 1;
    }
    r
}

/// The first requested hit matching a live posting's address, if any.
fn find_result(results: &Vec<DocResult>, seg: usize, doc: u32) -> (r: Option<usize>)
    ensures
        r matches Some(i) ==> i < results@.len() && results@[i as int].segment == seg
            && results@[i as int].doc == doc,
{
    let mut i: usize = 0;
    while i < results.len()
        invariant
            i <= results@.len(),
        decreases results@.len() - i,
    {
        if results[i].segment as usize == seg && results[i].doc == doc {
            return Some(i);
        }
        i += 1;
    }
    None
}

} // verus!
