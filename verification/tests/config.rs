use pore::args::{collect_args, CmdArg, RawArgs};
use pore::color_mode::ColorMode;
use pore::error::IndexError;
use pore::language::LanguageRef;
use pore::opts::{IndexConfig, IndexConfigOpt, SearchConfig, SearchConfigOpt};

fn raw_args_none() -> RawArgs {
    RawArgs {
        hidden: false,
        no_hidden: false,
        language: None,
        follow: false,
        no_follow: false,
        no_ignore: false,
        glob_case_insensitive: false,
        glob: None,
        oglob: None,
        threads: None,
        in_memory: false,
        no_memory: false,
        json: false,
        limit: None,
        threshold: None,
        files_with_matches: false,
        color: None,
        rebuild_index: false,
        no_update: false,
        update: false,
        delete: false,
        files: false,
        indexes: false,
        query: None,
        dir: None,
        index_name: None,
    }
}

#[test]
fn merging_opt_configs_works() {
    let mut i1 = IndexConfigOpt {
        follow: Some(true),
        ..Default::default()
    };
    let i2 = IndexConfigOpt {
        threads: Some(20),
        ..Default::default()
    };
    i1.merge(&i2);
    assert_eq!(i1.follow, Some(true));
    assert_eq!(i1.threads, Some(20));
    assert_eq!(i1.language, None);
    let conf: IndexConfig = i1.into_config();
    assert_eq!(conf.follow, true);
    assert_eq!(conf.threads, 20);
    assert_eq!(conf.hidden, false);
}

#[test]
fn merge_does_not_override_set_fields() {
    let mut s1 = SearchConfigOpt {
        limit: Some(4),
        ..Default::default()
    };
    let s2 = SearchConfigOpt {
        limit: Some(9),
        json: Some(true),
        ..Default::default()
    };
    s1.merge(&s2);
    assert_eq!(s1.limit, Some(4));
    assert_eq!(s1.json, Some(true));
}

#[test]
fn merge_from_overrides_set_fields() {
    let mut s1 = SearchConfigOpt {
        limit: Some(4),
        ..Default::default()
    };
    let s2 = SearchConfigOpt {
        limit: Some(9),
        ..Default::default()
    };
    s1.merge_from(&s2);
    assert_eq!(s1.limit, Some(9));
}

#[test]
fn defaults_match_documented_policy() {
    let i = IndexConfig::default();
    assert!(!i.follow);
    assert!(!i.hidden);
    assert!(i.ignore_files);
    assert!(!i.in_memory);
    assert_eq!(i.language, LanguageRef::English);
    assert!(i.glob.is_empty());
    assert!(i.oglob.is_empty());
    assert_eq!(i.threads, 0);
    let s = SearchConfig::default();
    assert!(!s.json);
    assert_eq!(s.limit, 1000);
    assert_eq!(s.threshold, 0);
    assert!(!s.filename_only);
    assert_eq!(s.color, ColorMode::Auto);
    assert!(!s.rebuild_index);
    assert!(s.update);
}

#[test]
fn any_and_all_report_field_presence() {
    let empty = IndexConfigOpt::default();
    assert!(!empty.any());
    assert!(empty.all().is_err());
    assert_eq!(empty.all().unwrap_err().len(), 9);
    let one = IndexConfigOpt {
        hidden: Some(true),
        ..Default::default()
    };
    assert!(one.any());
    assert!(one.all().is_err());
    let full = IndexConfigOpt {
        follow: Some(false),
        glob: Some(vec![]),
        glob_case_insensitive: Some(false),
        hidden: Some(false),
        ignore_files: Some(true),
        in_memory: Some(false),
        language: Some(LanguageRef::English),
        oglob: Some(vec![]),
        threads: Some(0),
    };
    assert!(full.all().is_ok());
}

#[test]
fn language_from_str_is_case_insensitive() {
    assert_eq!(LanguageRef::from_str("ENGLISH").unwrap(), LanguageRef::English);
    assert_eq!(LanguageRef::from_str("german").unwrap(), LanguageRef::German);
    assert_eq!(LanguageRef::from_str("Turkish").unwrap(), LanguageRef::Turkish);
    match LanguageRef::from_str("klingon") {
        Err(IndexError::InvalidValue(_)) => (),
        other => panic!("expected InvalidValue, got {:?}", other),
    }
}

#[test]
fn tokenizer_names_follow_language() {
    assert_eq!(LanguageRef::English.tokenizer_name(), "stemmer_english");
    assert_eq!(LanguageRef::Russian.tokenizer_name(), "stemmer_russian");
    assert_ne!(
        LanguageRef::Danish.tokenizer_name(),
        LanguageRef::Dutch.tokenizer_name()
    );
}

#[test]
fn color_mode_from_str_accepts_known_words() {
    assert_eq!(ColorMode::from_str("ALWAYS").unwrap(), ColorMode::Always);
    assert_eq!(ColorMode::from_str("ansi").unwrap(), ColorMode::Ansi);
    assert_eq!(ColorMode::from_str("Never").unwrap(), ColorMode::Never);
    let auto = ColorMode::from_str("auto").unwrap();
    assert!(auto == ColorMode::Auto || auto == ColorMode::Never);
    match ColorMode::from_str("sepia") {
        Err(IndexError::InvalidValue(_)) => (),
        other => panic!("expected InvalidValue, got {:?}", other),
    }
}

#[test]
fn collect_args_maps_flags() {
    let mut raw = raw_args_none();
    raw.hidden = true;
    raw.no_ignore = true;
    raw.language = Some(String::from("french"));
    raw.glob = Some(vec![String::from("!*.log")]);
    raw.threads = Some(7);
    raw.json = true;
    raw.limit = Some(3);
    raw.files_with_matches = true;
    raw.no_update = true;
    raw.files = true;
    raw.dir = Some(String::from("src"));
    raw.query = Some(String::from("alpha"));
    let g = collect_args(raw, String::from("/abs/src")).unwrap();
    assert_eq!(g.index.hidden, Some(true));
    assert_eq!(g.index.follow, None);
    assert_eq!(g.index.ignore_files, Some(false));
    assert_eq!(g.index.language, Some(LanguageRef::French));
    assert_eq!(g.index.glob.as_deref(), Some(&[String::from("!*.log")][..]));
    assert_eq!(g.index.threads, Some(7));
    assert_eq!(g.search.json, Some(true));
    assert_eq!(g.search.limit, Some(3));
    assert_eq!(g.search.filename_only, Some(true));
    assert_eq!(g.search.update, Some(false));
    assert!(matches!(g.command, CmdArg::ListFiles));
    assert_eq!(g.search_dir, "src");
    assert_eq!(g.query_path, "/abs/src");
    assert_eq!(g.query.as_deref(), Some("alpha"));
}

#[test]
fn collect_args_rejects_unknown_language() {
    let mut raw = raw_args_none();
    raw.language = Some(String::from("valyrian"));
    assert!(matches!(
        collect_args(raw, String::from("/")),
        Err(IndexError::InvalidValue(_))
    ));
}

#[test]
fn command_precedence_prefers_delete() {
    let mut raw = raw_args_none();
    raw.delete = true;
    raw.files = true;
    raw.indexes = true;
    let g = collect_args(raw, String::from("/")).unwrap();
    assert!(matches!(g.command, CmdArg::Delete));
}

#[test]
fn to_opts_carries_search_settings() {
    let mut s = SearchConfig::default();
    s.limit = 17;
    s.threshold = 5;
    s.filename_only = true;
    let o = s.to_opts(&String::from(""));
    assert_eq!(o.limit, 17);
    assert_eq!(o.threshold, 5);
    assert!(o.filename_only);
    assert!(o.root_dir.is_none());
    let o2 = s.to_opts(&String::from("/elsewhere"));
    assert_eq!(o2.root_dir.as_deref(), Some("/elsewhere"));
}

#[test]
fn error_messages_carry_detail() {
    let e = IndexError::InvalidValue(String::from("sepia"));
    assert_eq!(e.message(), "sepia");
    let g = IndexError::InvalidGlob(String::from("bad glob"));
    assert_eq!(g.message(), "bad glob");
}
