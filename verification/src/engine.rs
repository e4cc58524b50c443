//! Trusted boundary to the external inverted-index engine.
//!
//! Every function here is an `external_body` wrapper around one engine
//! operation (or one short builder chain); Verus believes the stated
//! contracts without reading the bodies. The engine owns storage,
//! tokenization execution and ranking; the verified code around these
//! wrappers owns every decision the library makes.

use vstd::prelude::*;

use crate::error::IndexError;
use crate::language::LanguageRef;
use tantivy::schema::IndexRecordOption;
use tantivy::schema::TextFieldIndexing;
use tantivy::schema::TextOptions;
use tantivy::schema::STORED;
use tantivy::schema::STRING;
use tantivy::tokenizer::Language;
use tantivy::tokenizer::LowerCaser;
use tantivy::tokenizer::RemoveLongFilter;
use tantivy::tokenizer::SimpleTokenizer;
use tantivy::tokenizer::Stemmer;
use tantivy::tokenizer::TextAnalyzer;
use std::sync::Arc;
use tantivy::DocSet;
use tantivy::Postings;

verus! {

#[verifier::external_type_specification]
#[verifier::external_body]
pub struct ExIndex(tantivy::Index);

#[verifier::external_type_specification]
#[verifier::external_body]
pub struct ExSchema(tantivy::schema::Schema);

#[verifier::external_type_specification]
#[verifier::external_body]
pub struct ExField(tantivy::schema::Field);

#[verifier::external_type_specification]
#[verifier::external_body]
pub struct ExDocument(tantivy::TantivyDocument);

#[verifier::external_type_specification]
#[verifier::external_body]
pub struct ExLanguage(tantivy::tokenizer::Language);

#[verifier::external_type_specification]
#[verifier::external_body]
pub struct ExTextAnalyzer(tantivy::tokenizer::TextAnalyzer);

#[verifier::external_type_specification]
#[verifier::external_body]
pub struct ExSearcher(tantivy::Searcher);

#[verifier::external_type_specification]
#[verifier::external_body]
pub struct ExSegmentPostings(tantivy::postings::SegmentPostings);

#[verifier::external_type_specification]
#[verifier::external_body]
pub struct ExInvertedIndexReader(tantivy::InvertedIndexReader);

/// The engine's writer handle.
///
/// The engine's writer type is generic over its document type with an
/// external trait bound that cannot be declared to Verus; this holder
/// carries the default-document writer through verified code.
#[verifier::external_body]
pub(crate) struct Writer {
    inner: tantivy::IndexWriter,
}

/// A parsed query, opaque to the verifier.
///
/// The engine hands parsed queries back as boxed trait objects, which
/// cannot be declared to Verus; this holder carries one through
/// verified code.
#[verifier::external_body]
pub struct SearchQuery {
    inner: std::boxed::Box<dyn tantivy::query::Query>,
}

/// One term referenced by a parsed query.
///
/// The engine's term type is generic over its byte backing with an
/// external trait bound that cannot be declared to Verus; this holder
/// carries one term through verified code.
#[verifier::external_body]
pub(crate) struct QueryTerm {
    inner: tantivy::Term,
}

/// Relies on the engine's enum of stemming languages: maps each of the
/// library's language tags to the engine's tag of the same name.
#[verifier::external_body]
pub(crate) fn engine_language(l: &LanguageRef) -> tantivy::tokenizer::Language {
    match l {
        LanguageRef::Arabic => Language::Arabic, LanguageRef::Danish => Language::Danish,
        LanguageRef::Dutch => Language::Dutch, LanguageRef::English => Language::English,
        LanguageRef::Finnish => Language::Finnish, LanguageRef::French => Language::French,
        LanguageRef::German => Language::German, LanguageRef::Greek => Language::Greek,
        LanguageRef::Hungarian => Language::Hungarian, LanguageRef::Italian => Language::Italian,
        LanguageRef::Norwegian => Language::Norwegian, LanguageRef::Portuguese => Language::Portuguese,
        LanguageRef::Romanian => Language::Romanian, LanguageRef::Russian => Language::Russian,
        LanguageRef::Spanish => Language::Spanish, LanguageRef::Swedish => Language::Swedish,
        LanguageRef::Tamil => Language::Tamil, LanguageRef::Turkish => Language::Turkish,
    }
}

/// Relies on SchemaBuilder::add_text_field and SchemaBuilder::build:
/// builds the schema — one exact-match stored id field (STRING |
/// STORED) and one tokenized content field per name, analyzed by the
/// named pipeline and indexed with frequencies and positions (the
/// positions are what line localization later consumes) — and returns
/// each field handle as the builder hands it out. The builder panics
/// on a duplicate field name, so distinct names are required; for
/// distinct names every addition is accepted, and the function is
/// total.
#[verifier::external_body]
pub(crate) fn build_schema(id_field: &str, text_fields: &Vec<String>, tokenizer_name: &str) -> (r:
    (tantivy::schema::Schema, tantivy::schema::Field, Vec<tantivy::schema::Field>))
    requires
        crate::common::spec_distinct_field_names(id_field@, text_fields.deep_view()),
    ensures
        r.2@.len() == text_fields@.len(),
{
    let mut b = tantivy::schema::Schema::builder();
    let id = b.add_text_field(id_field, STRING | STORED);
    let indexing = TextFieldIndexing::default().set_tokenizer(tokenizer_name).set_index_option(
        IndexRecordOption::WithFreqsAndPositions,
    );
    let fields = text_fields.iter().map(
        |n| b.add_text_field(n, TextOptions::default().set_indexing_options(indexing.clone())),
    ).collect();
    (b.build(), id, fields)
}

/// Relies on Index::create_in_ram: a memory-resident index that lives
/// for the process only.
#[verifier::external_body]
pub(crate) fn index_create_in_ram(schema: tantivy::schema::Schema) -> tantivy::Index {
    tantivy::Index::create_in_ram(schema)
}

/// Relies on MmapDirectory::open and Index::open_or_create: opens the
/// on-disk store under `dir`, creating it if absent. `Err` when the
/// directory cannot be mapped or the existing store cannot be read
/// under this schema (corruption or a schema change).
#[verifier::external_body]
pub(crate) fn index_open_in_dir(dir: &str, schema: tantivy::schema::Schema) -> Result<
    tantivy::Index,
    IndexError,
> {
    let mmap = tantivy::directory::MmapDirectory::open(dir).map_err(
        |e| IndexError::Engine(format!("{}", e)),
    )?;
    tantivy::Index::open_or_create(mmap, schema).map_err(|e| IndexError::Engine(format!("{}", e)))
}

/// Relies on TextAnalyzer::builder(SimpleTokenizer) with
/// RemoveLongFilter, LowerCaser and Stemmer: the analysis pipeline for
/// one language.
#[verifier::external_body]
pub(crate) fn make_analyzer(lang: tantivy::tokenizer::Language, long_limit: usize)
    -> tantivy::tokenizer::TextAnalyzer {
    TextAnalyzer::builder(SimpleTokenizer::default()).filter(RemoveLongFilter::limit(long_limit))
        .filter(LowerCaser).filter(Stemmer::new(lang)).build()
}

/// Relies on TokenizerManager::register: registers the pipeline under
/// the given name; the engine resolves content fields' analyzers by
/// name every time the index is used.
#[verifier::external_body]
pub(crate) fn register_analyzer(
    index: &tantivy::Index,
    name: &str,
    analyzer: tantivy::tokenizer::TextAnalyzer,
) {
    index.tokenizers().register(name, analyzer);
}

/// Relies on Index::writer: a single-writer handle with the given heap
/// budget. `Err` when the writer lock cannot be taken.
#[verifier::external_body]
pub(crate) fn index_writer(index: &tantivy::Index, heap_bytes: usize) -> Result<Writer, IndexError> {
    let inner: tantivy::IndexWriter = index.writer(heap_bytes).map_err(
        |e| IndexError::Engine(format!("{}", e)),
    )?;
    Ok(Writer { inner })
}

/// Relies on TantivyDocument::default: an empty pending document.
#[verifier::external_body]
pub(crate) fn document_new() -> tantivy::TantivyDocument {
    tantivy::TantivyDocument::default()
}

/// Relies on TantivyDocument::add_text: appends one field value to a
/// pending document.
#[verifier::external_body]
pub(crate) fn document_add_text(
    doc: &mut tantivy::TantivyDocument,
    field: &tantivy::schema::Field,
    text: &str,
) {
    doc.add_text(*field, text);
}

/// Relies on IndexWriter::add_document: stages a document; it becomes
/// visible only at the next successful commit.
#[verifier::external_body]
pub(crate) fn writer_add_document(writer: &Writer, doc: tantivy::TantivyDocument) -> Result<
    u64,
    IndexError,
> {
    writer.inner.add_document(doc).map_err(|e| IndexError::Engine(format!("{}", e)))
}

/// Relies on IndexWriter::delete_term: stages deletion of every
/// document whose `field` holds exactly `text`; applied at the next
/// commit.
#[verifier::external_body]
pub(crate) fn writer_delete_term(writer: &Writer, field: &tantivy::schema::Field, text: &str) {
    writer.inner.delete_term(tantivy::Term::from_field_text(*field, text));
}

/// Relies on IndexWriter::delete_all_documents: stages deletion of
/// every document; applied at the next commit.
#[verifier::external_body]
pub(crate) fn writer_delete_all(writer: &Writer) -> Result<u64, IndexError> {
    writer.inner.delete_all_documents().map_err(|e| IndexError::Engine(format!("{}", e)))
}

/// Relies on IndexWriter::commit: atomically publishes everything
/// staged since the previous commit; on `Err` nothing staged becomes
/// visible.
#[verifier::external_body]
pub(crate) fn writer_commit(writer: &mut Writer) -> Result<u64, IndexError> {
    writer.inner.commit().map_err(|e| IndexError::Engine(format!("{}", e)))
}

/// Relies on Index::reader_builder with an on-commit reload policy,
/// IndexReader::reload and IndexReader::searcher: a read view of the
/// index, reloaded once when opened so that a caller that just
/// committed sees its own writes, and refreshed on later commits.
#[verifier::external_body]
pub(crate) fn open_searcher(index: &tantivy::Index) -> Result<tantivy::Searcher, IndexError> {
    let reader: tantivy::IndexReader = index.reader_builder().reload_policy(
        tantivy::ReloadPolicy::OnCommitWithDelay,
    ).try_into().map_err(|e: tantivy::TantivyError| IndexError::Engine(format!("{}", e)))?;
    reader.reload().map_err(|e| IndexError::Engine(format!("{}", e)))?;
    Ok(reader.searcher())
}

/// Relies on QueryParser::for_index and QueryParser::parse_query:
/// parses the query text against the given default field. `Err`
/// exactly when the engine rejects the query text.
#[verifier::external_body]
pub(crate) fn parse_query(
    index: &tantivy::Index,
    default_field: &tantivy::schema::Field,
    text: &str,
) -> Result<SearchQuery, IndexError> {
    let parser = tantivy::query::QueryParser::for_index(index, vec![*default_field]);
    match parser.parse_query(text) {
        Ok(q) => Ok(SearchQuery { inner: q }),
        Err(e) => Err(IndexError::Query(format!("{}", e))),
    }
}

/// Relies on Searcher::search with a TopDocs collector: executes the
/// query and returns at most `limit` hits, each as (score in the
/// engine's monotone encoding, segment ordinal, segment-local doc id),
/// sorted by score, best first. The collector returns its hits in
/// non-increasing score order, and the engine's relevance values are
/// non-negative, so the bit encoding orders exactly as the scores do.
#[verifier::external_body]
pub(crate) fn search_top(
    searcher: &tantivy::Searcher,
    query: &SearchQuery,
    limit: usize,
) -> (r: Result<Vec<(u32, u32, u32)>, IndexError>)
    requires
        limit >= 1,
    ensures
        r matches Ok(hits) ==> hits@.len() <= limit,
        r matches Ok(hits) ==> forall|k1: int, k2: int|
            0 <= k1 <= k2 < hits@.len() ==> (#[trigger] hits@[k1]).0 >= (#[trigger] hits@[k2]).0,
{
    let top = searcher.search(&*query.inner, &tantivy::collector::TopDocs::with_limit(limit))
        .map_err(|e| IndexError::Query(format!("{}", e)))?;
    Ok(top.into_iter().map(|(s, a)| (s.to_bits(), a.segment_ord, a.doc_id)).collect())
}

/// Relies on Query::query_terms: the distinct terms the parsed query
/// references, deduplicated, in the engine's term order.
#[verifier::external_body]
pub(crate) fn collect_query_terms(query: &SearchQuery) -> Vec<QueryTerm> {
    let mut terms = std::collections::BTreeMap::new();
    query.inner.query_terms(&mut |t, pos| {
        terms.insert(t.clone(), pos);
    });
    terms.into_iter().map(|(t, _)| QueryTerm { inner: t }).collect()
}

/// Relies on Searcher::segment_readers: how many segments the view
/// spans.
#[verifier::external_body]
pub(crate) fn searcher_num_segments(searcher: &tantivy::Searcher) -> usize {
    searcher.segment_readers().len()
}

/// Relies on SegmentReader::inverted_index: the posting lists of one
/// field in one segment; `Ok(None)` for a segment ordinal the view
/// does not have.
#[verifier::external_body]
pub(crate) fn segment_inverted_index(
    searcher: &tantivy::Searcher,
    seg_ord: usize,
    field: &tantivy::schema::Field,
) -> Result<Option<Arc<tantivy::InvertedIndexReader>>, IndexError> {
    match searcher.segment_readers().get(seg_ord) {
        None => Ok(None),
        Some(sr) => match sr.inverted_index(*field) {
            Ok(inv) => Ok(Some(inv)),
            Err(e) => Err(IndexError::Engine(format!("{}", e))),
        },
    }
}

/// Relies on SegmentReader::is_deleted: whether the document was
/// deleted after this segment was written. A segment ordinal the view
/// does not have, or a doc id at or beyond the segment's max doc
/// (which the engine's alive bitset would otherwise index unchecked),
/// answers as deleted.
#[verifier::external_body]
pub(crate) fn segment_is_deleted(
    searcher: &tantivy::Searcher,
    seg_ord: usize,
    doc_id: u32,
) -> bool {
    searcher.segment_readers().get(seg_ord).map(
        |sr| doc_id >= sr.max_doc() || sr.is_deleted(doc_id),
    ).unwrap_or(true)
}

/// Relies on SegmentReader::max_doc: an upper bound on the segment's
/// doc ids; a segment ordinal the view does not have answers 0.
#[verifier::external_body]
pub(crate) fn segment_max_doc(
    searcher: &tantivy::Searcher,
    seg_ord: usize,
) -> u32 {
    searcher.segment_readers().get(seg_ord).map(|sr| sr.max_doc()).unwrap_or(0)
}

/// Relies on InvertedIndexReader::read_postings with positions: the
/// posting list of one term, or `Ok(None)` when the segment has no
/// document containing the term.
#[verifier::external_body]
pub(crate) fn read_postings(
    inv: &Arc<tantivy::InvertedIndexReader>,
    term: &QueryTerm,
) -> Result<Option<tantivy::postings::SegmentPostings>, IndexError> {
    inv.read_postings(&term.inner, IndexRecordOption::WithFreqsAndPositions).map_err(
        |e| IndexError::Engine(format!("{}", e)),
    )
}

/// The sentinel doc id the engine returns once a posting list is
/// exhausted, as its source defines it.
#[verifier::external_body]
pub(crate) fn terminated_doc() -> (r: u32)
    ensures
        r == 0x7fffffffu32,
{
    tantivy::TERMINATED
}

/// Relies on DocSet::doc: the posting list's current document.
#[verifier::external_body]
pub(crate) fn postings_doc(p: &tantivy::postings::SegmentPostings) -> u32 {
    p.doc()
}

/// Relies on DocSet::advance: moves to the next document and returns
/// it, or the terminated sentinel at the end.
#[verifier::external_body]
pub(crate) fn postings_advance(p: &mut tantivy::postings::SegmentPostings) -> u32 {
    p.advance()
}

/// Relies on Postings::positions: fills `out` with the current
/// document's occurrence positions for the term.
#[verifier::external_body]
pub(crate) fn postings_positions(p: &mut tantivy::postings::SegmentPostings, out: &mut Vec<u32>) {
    p.positions(out);
}

/// Relies on Searcher::doc: fetches a stored document by address; an
/// address whose segment the view does not have answers `Err` (the
/// engine itself does not return from such an address).
#[verifier::external_body]
pub(crate) fn searcher_doc(searcher: &tantivy::Searcher, seg_ord: u32, doc_id: u32) -> Result<
    tantivy::TantivyDocument,
    IndexError,
> {
    if (seg_ord as usize) >= searcher.segment_readers().len() {
        return Err(IndexError::Engine(String::from("no such segment")));
    }
    searcher.doc(tantivy::DocAddress { segment_ord: seg_ord, doc_id }).map_err(
        |e| IndexError::Engine(format!("{}", e)),
    )
}

/// Relies on TantivyDocument::get_first: the first value of the field,
/// when it is stored text.
#[verifier::external_body]
pub(crate) fn document_first_text(
    doc: &tantivy::TantivyDocument,
    field: &tantivy::schema::Field,
) -> Option<String> {
    match doc.get_first(*field) {
        Some(tantivy::schema::OwnedValue::Str(s)) => Some(s.clone()),
        _ => None,
    }
}

/// What the analysis pipeline yields for one line: the number of
/// tokens is a function of the language, the long-token limit and the
/// characters alone — simple tokenization, long-token filtering,
/// lowercasing and stemming are all deterministic.
pub uninterp spec fn line_tokens_of(lang: LanguageRef, long_limit: usize, line: Seq<char>) -> u32;

/// Relies on TextAnalyzer::token_stream and TokenStream::advance over
/// the language's pipeline (the same components the indexed content
/// field was registered with): counts the tokens of one line. A count
/// saturates at `u32::MAX`, far beyond what any line can yield.
#[verifier::external_body]
pub(crate) fn count_line_tokens(lang: &LanguageRef, long_limit: usize, line: &str) -> (r: u32)
    ensures
        r == line_tokens_of(*lang, long_limit, line@),
{
    let mut analyzer = TextAnalyzer::builder(SimpleTokenizer::default()).filter(
        RemoveLongFilter::limit(long_limit),
    ).filter(LowerCaser).filter(Stemmer::new(engine_language(lang))).build();
    let mut stream = analyzer.token_stream(line);
    let mut n: u32 = 0;
    while stream.advance() {
        n = n.saturating_add(1);
    }
    n
}

} // verus!
