use pore::common::{recovery_action, RecoveryAction};
use pore::error::IndexError;
use pore::field_map::{FieldMap, StringFieldMap};
use pore::file_index::{filter_by_threshold, should_ingest, FileEntry, FileIndex};
use pore::generic_index::{GenericIndex, IndexOptions, SearchOptions};
use pore::meta::{accept_metadata, FileMetadata};
use pore::opts::{FileIndexOptions, FileSearchOptions};

fn options() -> FileIndexOptions {
    FileIndexOptions {
        follow: false,
        glob: vec![],
        glob_case_insensitive: false,
        hidden: false,
        ignore_files: true,
        language: pore::language::LanguageRef::English,
        oglob: vec![],
        threads: 0,
    }
}

fn in_ram_index() -> FileIndex {
    FileIndex::get_or_create(String::from("/r"), None, &options(), None).unwrap()
}

#[test]
fn staleness_discards_mismatched_metadata() {
    let built_under = options();
    let meta = FileMetadata::new(built_under, String::from("/r"));
    let mut requested = options();
    requested.hidden = true;
    assert!(accept_metadata(Some(meta), &requested).is_none());
}

#[test]
fn same_config_keeps_metadata() {
    let meta = FileMetadata::new(options(), String::from("/r"));
    let kept = accept_metadata(Some(meta), &options()).unwrap();
    assert_eq!(kept.last_update(), 0);
    assert_eq!(kept.for_dir(), "/r");
}

#[test]
fn reopening_with_changed_config_starts_fresh() {
    let mut changed = options();
    changed.hidden = true;
    let mut prior = FileMetadata::new(options(), String::from("/r"));
    prior.set_last_update(777);
    let ix = FileIndex::get_or_create(String::from("/r"), None, &changed, Some(prior)).unwrap();
    // metadata equivalent to absent: the stamp is back at the epoch, so
    // the next update reindexes everything
    assert_eq!(ix.meta().last_update(), 0);
}

#[test]
fn reopening_with_same_config_keeps_stamp() {
    let mut prior = FileMetadata::new(options(), String::from("/r"));
    prior.set_last_update(777);
    let ix = FileIndex::get_or_create(String::from("/r"), None, &options(), Some(prior)).unwrap();
    assert_eq!(ix.meta().last_update(), 777);
}

#[test]
fn ingest_decision_compares_times() {
    assert!(!should_ingest(false, 5, 10));
    assert!(!should_ingest(false, 10, 10));
    assert!(should_ingest(false, 11, 10));
    assert!(should_ingest(true, 0, 10));
}

#[test]
fn update_counts_ingested_entries() {
    let mut ix = in_ram_index();
    let entries = vec![
        FileEntry {
            rel_path: String::from("old.txt"),
            modified: 0,
            contents: String::from("stale"),
        },
        FileEntry {
            rel_path: String::from("new.txt"),
            modified: 3,
            contents: String::from("fresh"),
        },
    ];
    // fresh metadata has stamp 0: only the entry newer than 0 goes in
    let count = ix.update(false, 5, &entries).unwrap();
    assert_eq!(count, 1);
    assert_eq!(ix.meta().last_update(), 5);
    // nothing changed since: nothing to ingest
    let count = ix.update(false, 9, &entries).unwrap();
    assert_eq!(count, 0);
    // a forced rebuild ingests everything
    let count = ix.update(true, 11, &entries).unwrap();
    assert_eq!(count, 2);
}

#[test]
fn threshold_boundary_is_exclusive() {
    let hits = vec![(10u32, 0u32, 0u32), (11u32, 0u32, 1u32), (9u32, 0u32, 2u32)];
    let kept = filter_by_threshold(&hits, 10);
    assert_eq!(kept.len(), 1);
    assert_eq!(kept[0].score, 11);
    assert_eq!(kept[0].doc, 1);
}

#[test]
fn corruption_recovery_clears_once_then_fails() {
    assert_eq!(recovery_action(0), RecoveryAction::ClearAndRetry);
    assert_eq!(recovery_action(1), RecoveryAction::Fail);
    assert_eq!(recovery_action(7), RecoveryAction::Fail);
}

#[test]
fn delete_of_memory_index_is_noop() {
    let ix = in_ram_index();
    assert_eq!(ix.delete(false).unwrap(), false);
}

#[test]
fn opening_store_under_missing_directory_fails_with_engine_error() {
    let r = FileIndex::get_or_create(
        String::from("/r"),
        Some(String::from("/nonexistent-root-for-sure/sub/dir")),
        &options(),
        None,
    );
    assert!(matches!(r, Err(IndexError::Engine(_))));
}

#[test]
fn unparsable_query_is_surfaced() {
    let ix = in_ram_index();
    assert!(matches!(
        ix.parse_query("AND"),
        Err(IndexError::Query(_))
    ));
}

#[test]
fn end_to_end_scenario() {
    let mut ix = in_ram_index();
    let contents = String::from("alpha beta\ngamma alpha\n");
    let entries = vec![FileEntry {
        rel_path: String::from("notes.txt"),
        modified: 1,
        contents: contents.clone(),
    }];
    assert_eq!(ix.update(false, 2, &entries).unwrap(), 1);

    let query = ix.parse_query("alpha").unwrap();
    let opts = FileSearchOptions {
        limit: 10,
        threshold: 0,
        filename_only: false,
        root_dir: None,
    };
    let results = ix.search(&query, &opts).unwrap();
    assert_eq!(results.len(), 1);
    assert_eq!(results[0].file(), "/r/notes.txt");
    assert!(results[0].score() > 0);

    let localized = ix
        .localize(results, &vec![Some(contents)], false)
        .unwrap();
    assert_eq!(localized.len(), 1);
    let lines = localized[0].lines();
    assert_eq!(lines.len(), 2);
    assert_eq!(lines[0].number, 1);
    assert_eq!(lines[0].text, "alpha beta");
    assert_eq!(lines[1].number, 2);
    assert_eq!(lines[1].text, "gamma alpha");
}

#[test]
fn threshold_above_every_score_empties_results() {
    let mut ix = in_ram_index();
    let entries = vec![FileEntry {
        rel_path: String::from("notes.txt"),
        modified: 1,
        contents: String::from("alpha beta\n"),
    }];
    ix.update(false, 2, &entries).unwrap();
    let query = ix.parse_query("alpha").unwrap();
    let opts = FileSearchOptions {
        limit: 10,
        threshold: u32::MAX,
        filename_only: false,
        root_dir: None,
    };
    let results = ix.search(&query, &opts).unwrap();
    assert!(results.is_empty());
}

#[test]
fn filename_only_skips_localization() {
    let mut ix = in_ram_index();
    let contents = String::from("alpha\n");
    let entries = vec![FileEntry {
        rel_path: String::from("a.txt"),
        modified: 1,
        contents: contents.clone(),
    }];
    ix.update(false, 2, &entries).unwrap();
    let query = ix.parse_query("alpha").unwrap();
    let results = ix
        .search(
            &query,
            &FileSearchOptions {
                limit: 5,
                threshold: 0,
                filename_only: true,
                root_dir: None,
            },
        )
        .unwrap();
    assert_eq!(results.len(), 1);
    let localized = ix.localize(results, &vec![Some(contents)], true).unwrap();
    assert!(localized[0].lines().is_empty());
}

#[test]
fn unreadable_source_yields_zero_line_matches() {
    let mut ix = in_ram_index();
    let entries = vec![FileEntry {
        rel_path: String::from("gone.txt"),
        modified: 1,
        contents: String::from("alpha\n"),
    }];
    ix.update(false, 2, &entries).unwrap();
    let query = ix.parse_query("alpha").unwrap();
    let results = ix
        .search(
            &query,
            &FileSearchOptions {
                limit: 5,
                threshold: 0,
                filename_only: false,
                root_dir: None,
            },
        )
        .unwrap();
    assert_eq!(results.len(), 1);
    let localized = ix.localize(results, &vec![None], false).unwrap();
    assert_eq!(localized.len(), 1);
    assert!(localized[0].lines().is_empty());
}

#[test]
fn search_honors_root_dir_override() {
    let mut ix = in_ram_index();
    let entries = vec![FileEntry {
        rel_path: String::from("a.txt"),
        modified: 1,
        contents: String::from("alpha\n"),
    }];
    ix.update(false, 2, &entries).unwrap();
    let query = ix.parse_query("alpha").unwrap();
    let results = ix
        .search(
            &query,
            &FileSearchOptions {
                limit: 5,
                threshold: 0,
                filename_only: true,
                root_dir: Some(String::from("/other")),
            },
        )
        .unwrap();
    assert_eq!(results[0].file(), "/other/a.txt");
}

#[test]
fn stemming_matches_inflected_forms() {
    // the English stemmer maps "running" and "runs" to one token form
    let mut ix = in_ram_index();
    let entries = vec![FileEntry {
        rel_path: String::from("run.txt"),
        modified: 1,
        contents: String::from("she runs daily\n"),
    }];
    ix.update(false, 2, &entries).unwrap();
    let query = ix.parse_query("running").unwrap();
    let results = ix
        .search(
            &query,
            &FileSearchOptions {
                limit: 5,
                threshold: 0,
                filename_only: true,
                root_dir: None,
            },
        )
        .unwrap();
    assert_eq!(results.len(), 1);
}

#[test]
fn duplicate_field_names_are_rejected() {
    let dup_text = GenericIndex::get_or_create(
        &String::from("id"),
        &vec![String::from("body"), String::from("body")],
        &IndexOptions::default(),
        None,
        None,
    );
    assert!(matches!(dup_text, Err(IndexError::InvalidValue(_))));
    let text_shadows_id = GenericIndex::get_or_create(
        &String::from("id"),
        &vec![String::from("id")],
        &IndexOptions::default(),
        None,
        None,
    );
    assert!(matches!(text_shadows_id, Err(IndexError::InvalidValue(_))));
}

#[test]
fn fresh_index_ingests_every_entry() {
    // fresh metadata has the epoch stamp, so every entry modified
    // after the epoch goes in: a full effective reindex
    let mut ix = in_ram_index();
    let entries = vec![
        FileEntry {
            rel_path: String::from("a.txt"),
            modified: 1,
            contents: String::from("alpha"),
        },
        FileEntry {
            rel_path: String::from("b.txt"),
            modified: 2,
            contents: String::from("beta"),
        },
    ];
    assert_eq!(ix.update(false, 5, &entries).unwrap(), 2);
}

#[test]
fn results_come_best_first() {
    let mut ix = in_ram_index();
    let entries = vec![
        FileEntry {
            rel_path: String::from("strong.txt"),
            modified: 1,
            contents: String::from("alpha alpha alpha\n"),
        },
        FileEntry {
            rel_path: String::from("weak.txt"),
            modified: 1,
            contents: String::from("alpha beta gamma delta epsilon zeta\n"),
        },
    ];
    ix.update(false, 2, &entries).unwrap();
    let query = ix.parse_query("alpha").unwrap();
    let results = ix
        .search(
            &query,
            &FileSearchOptions {
                limit: 10,
                threshold: 0,
                filename_only: true,
                root_dir: None,
            },
        )
        .unwrap();
    assert_eq!(results.len(), 2);
    assert!(results[0].score() >= results[1].score());
    assert_eq!(results[0].file(), "/r/strong.txt");
}

#[test]
fn generic_index_round_trip() {
    let mut ix = GenericIndex::get_or_create(
        &String::from("id"),
        &vec![String::from("body")],
        &IndexOptions::default(),
        None,
        None,
    )
    .unwrap();
    let doc = StringFieldMap(vec![
        (String::from("id"), String::from("d1")),
        (String::from("body"), String::from("hello world")),
    ]);
    ix.update_documents(&vec![doc], 1).unwrap();
    let query = ix.parse_query("hello").unwrap();
    let hits = ix
        .search(&query, &SearchOptions { limit: 5, threshold: 0 })
        .unwrap();
    assert_eq!(hits.len(), 1);
    assert_eq!(hits[0].id(), "d1");
    assert!(hits[0].score() > 0);
}

#[test]
fn update_documents_is_idempotent_per_id() {
    let mut ix = GenericIndex::get_or_create(
        &String::from("id"),
        &vec![String::from("body")],
        &IndexOptions::default(),
        None,
        None,
    )
    .unwrap();
    let doc = |body: &str| {
        StringFieldMap(vec![
            (String::from("id"), String::from("d1")),
            (String::from("body"), String::from(body)),
        ])
    };
    ix.update_documents(&vec![doc("hello world")], 1).unwrap();
    ix.update_documents(&vec![doc("hello again")], 2).unwrap();
    let query = ix.parse_query("hello").unwrap();
    let hits = ix
        .search(&query, &SearchOptions { limit: 10, threshold: 0 })
        .unwrap();
    assert_eq!(hits.len(), 1);
    assert_eq!(hits[0].id(), "d1");
}

#[test]
fn missing_field_fails_ingestion() {
    let mut ix = GenericIndex::get_or_create(
        &String::from("id"),
        &vec![String::from("body")],
        &IndexOptions::default(),
        None,
        None,
    )
    .unwrap();
    let doc = StringFieldMap(vec![(String::from("id"), String::from("d1"))]);
    assert!(matches!(
        ix.add_documents(&vec![doc], 1),
        Err(IndexError::MissingField(_))
    ));
}

#[test]
fn field_map_lookup_finds_first_pair() {
    let doc = StringFieldMap(vec![
        (String::from("k"), String::from("v1")),
        (String::from("k"), String::from("v2")),
    ]);
    assert_eq!(doc.get_field("k").unwrap(), "v1");
    assert!(matches!(
        doc.get_field("absent"),
        Err(IndexError::MissingField(_))
    ));
}
