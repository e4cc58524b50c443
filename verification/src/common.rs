use vstd::prelude::*;

use crate::engine;
use crate::error::IndexError;
use crate::language::LanguageRef;

verus! {

/// Heap budget handed to the engine's writer.
pub const WRITER_HEAP_BYTES: usize = 50000000;

/// Tokens longer than this are dropped by the analysis pipeline.
pub const LONG_TOKEN_LIMIT: usize = 40;

/// What every index configuration offers the shared index machinery:
/// its analysis language.
pub trait MetadataConfig {
    /// The stemming language of the configuration.
    fn language(&self) -> LanguageRef;
}

/// The shape shared by the index descriptors: a config snapshot, a
/// version, and the last-successful-update stamp (milliseconds since
/// the epoch, 0 when no update ever committed).
pub trait IndexMetadata<T: MetadataConfig> {
    /// The configuration snapshot.
    fn config(&self) -> &T;

    /// The version recorded at creation.
    fn version(&self) -> &String;

    /// The last successful commit's stamp.
    fn last_update(&self) -> i64;

    /// Records a successful commit's stamp.
    fn set_last_update(&mut self, time: i64);
}

/// The name of the metadata sidecar file persisted beside the index
/// store.
pub fn metadata_file_name() -> (r: String)
    ensures
        r@ == "pore_meta.json"@,
{
    String::from_str("pore_meta.json")
}

/// The schema's field set is fixed at index-open time, so its names
/// must be distinct: no text field may repeat another or shadow the id
/// field.
pub open spec fn spec_distinct_field_names(id: Seq<char>, texts: Seq<Seq<char>>) -> bool {
    &&& forall|i: int| 0 <= i < texts.len() ==> #[trigger] texts[i] != id
    &&& forall|i: int, j: int| 0 <= i < j < texts.len() ==> #[trigger] texts[i] != #[trigger] texts[j]
}

/// Decides whether the requested field names are distinct.
pub fn distinct_field_names(id_field: &str, text_fields: &Vec<String>) -> (r: bool)
    ensures
        r == spec_distinct_field_names(id_field@, text_fields.deep_view()),
{
    let id = String::from_str(id_field);
    let n = text_fields.len();
    let mut i: usize = 0;
    while i < n
        invariant
            n == text_fields@.len(),
            id@ == id_field@,
            i <= n,
            forall|k: int| 0 <= k < i ==> #[trigger] text_fields.deep_view()[k] != id_field@,
            forall|k: int, j: int|
                0 <= k < j < i ==> #[trigger] text_fields.deep_view()[k]
                    != #[trigger] text_fields.deep_view()[j],
        decreases n - i,
    {
        if text_fields[i] == id {
            proof {
                assert(text_fields.deep_view()[i as int] == text_fields@[i as int]@);
                assert(text_fields.deep_view()[i as int] == id_field@);
            }
            return false;
        }
        let mut j: usize = 0;
        while j < i
            invariant
                n == text_fields@.len(),
                i < n,
                j <= i,
                forall|k: int|
                    0 <= k < j ==> #[trigger] text_fields.deep_view()[k]
                        != text_fields.deep_view()[i as int],
            decreases i - j,
        {
            if text_fields[j] == text_fields[i] {
                proof {
                    assert(text_fields.deep_view()[j as int] == text_fields@[j as int]@);
                    assert(text_fields.deep_view()[i as int] == text_fields@[i as int]@);
                    assert(text_fields.deep_view()[j as int] == text_fields.deep_view()[i as int]);
                }
                return false;
            }
            j += 1;
        }
        i += 1;
    }
    true
}

/// Builds the engine schema and opens the index store.
///
/// The schema holds one exact-match stored id field and one tokenized
/// content field per name in `text_fields`, all sharing the language's
/// analysis pipeline, which is registered with the engine under its
/// language-determined name — identically on every open, so that
/// previously indexed token forms stay searchable. With a cache
/// location the on-disk store is opened or created there; without one
/// the index is memory-resident, and the call cannot fail. On success
/// the id field and the content fields are returned beside the engine
/// handle, one content field per requested name.
///
/// The field set is fixed at open time: repeated field names are a
/// configuration error, rejected before the engine is touched. Any
/// other `Err` surfaces an engine failure; for an on-disk store that
/// includes a corrupted or schema-incompatible existing store, which
/// the caller may clear and retry once (see `recovery_action`).
pub fn create_index(
    cache_dir: Option<&String>,
    language: &LanguageRef,
    id_field: &str,
    text_fields: &Vec<String>,
) -> (r: Result<(tantivy::Index, tantivy::schema::Field, Vec<tantivy::schema::Field>), IndexError>)
    ensures
        r matches Ok(ok) ==> ok.2@.len() == text_fields@.len(),
        !spec_distinct_field_names(id_field@, text_fields.deep_view()) ==> (r matches Err(e) && e
            is InvalidValue),
        spec_distinct_field_names(id_field@, text_fields.deep_view()) && cache_dir is None ==> r
            is Ok,
{
    if !distinct_field_names(id_field, text_fields) {
        return Err(IndexError::InvalidValue(String::from_str("field names must be distinct")));
    }
    let tokenizer_name = language.tokenizer_name();
    let (schema, id, fields) = engine::build_schema(
        id_field,
        text_fields,
        tokenizer_name.as_str(),
    );
    let index = match cache_dir {
        None => engine::index_create_in_ram(schema),
        Some(dir) => {
            match engine::index_open_in_dir(dir.as_str(), schema) {
                Ok(ix) => ix,
                Err(e) => {
                    return Err(e);
                },
            }
        },
    };
    let analyzer = engine::make_analyzer(engine::engine_language(language), LONG_TOKEN_LIMIT);
    engine::register_analyzer(&index, tokenizer_name.as_str(), analyzer);
    Ok((index, id, fields))
}

/// What to do after an on-disk store failed to open.
#[derive(Debug, Clone, Copy, PartialEq, Eq, Structural)]
pub enum RecoveryAction {
    /// Delete the files in the cache location and open once more.
    ClearAndRetry,
    /// Give up: a store that cannot be opened after a clear is fatal.
    Fail,
}

/// The corruption-recovery policy: an existing store that the engine
/// cannot open is cleared and reopened exactly once; a second failure
/// is fatal.
pub fn recovery_action(attempt: u32) -> (r: RecoveryAction)
    ensures
        attempt == 0 ==> r == RecoveryAction::ClearAndRetry,
        attempt >= 1 ==> r == RecoveryAction::Fail,
{
    if attempt == 0 {
        RecoveryAction::ClearAndRetry
    } else {
        RecoveryAction::Fail
    }
}

/// Clears a persisted index: stages deletion of every document and
/// commits.
///
/// Returns `Ok(true)` exactly when there was something to delete — a
/// cache location whose directory exists; the caller then removes the
/// sidecar and the directory itself. A memory-only index (no cache
/// location) and a cache location never written are a no-op
/// `Ok(false)`: nothing is deleted, no commit is issued.
pub fn delete_index(index: &tantivy::Index, has_cache_dir: bool, dir_exists: bool) -> (r: Result<
    bool,
    IndexError,
>)
    ensures
        r matches Ok(b) ==> b == (has_cache_dir && dir_exists),
        !has_cache_dir || !dir_exists ==> r == Ok::<bool, IndexError>(false),
{
    if !has_cache_dir {
        return Ok(false);
    }
    if !dir_exists {
        return Ok(false);
    }
    let mut writer = match engine::index_writer(index, WRITER_HEAP_BYTES) {
        Ok(w) => w,
        Err(e) => {
            return Err(e);
        },
    };
    match engine::writer_delete_all(&writer) {
        Ok(_) => (),
        Err(e) => {
            return Err(e);
        },
    }
    match engine::writer_commit(&mut writer) {
        Ok(_) => (),
        Err(e) => {
            return Err(e);
        },
    }
    Ok(true)
}

} // verus!
