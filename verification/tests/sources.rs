use qlty_config::config::{Builder, PluginConf, QltyConfig};
use qlty_config::default_source::DefaultSource;
use qlty_config::errors::SourceError;
use qlty_config::memory_source::MemorySource;
use qlty_config::merge::TomlMerge;
use qlty_config::path_match::is_plugin_toml;
use qlty_config::source::{
    build_config, get_config_file, plugin_tomls, toml, Source, SourceFetch, SourceFile,
    SourceKind,
};
use qlty_config::sources_list::SourcesList;
use qlty_config::toml_value::TomlValue;

fn table(entries: Vec<(&str, TomlValue)>) -> TomlValue {
    TomlValue::Table(
        entries
            .into_iter()
            .map(|(k, v)| (k.to_string(), v))
            .collect(),
    )
}

fn s(v: &str) -> TomlValue {
    TomlValue::Str(v.to_string())
}

fn memory(files: Vec<(&str, &str)>) -> MemorySource {
    MemorySource::new(
        files
            .into_iter()
            .map(|(p, c)| SourceFile::new(p, c))
            .collect(),
    )
}

#[test]
fn plugin_toml_layout_conventions_match() {
    assert!(is_plugin_toml("linters/foo/plugin.toml"));
    assert!(is_plugin_toml("plugins/linters/foo/plugin.toml"));
    assert!(is_plugin_toml("wrapped/linters/foo/plugin.toml"));
    assert!(is_plugin_toml("wrapped/plugins/linters/foo/plugin.toml"));
}

#[test]
fn plugin_toml_outside_conventions_does_not_match() {
    assert!(!is_plugin_toml("plugin.toml"));
    assert!(!is_plugin_toml("foo/plugin.toml"));
    assert!(!is_plugin_toml("linters/plugin.toml"));
    assert!(!is_plugin_toml("a/b/linters/c/plugin.toml"));
    assert!(!is_plugin_toml("a/b/plugins/linters/c/plugin.toml"));
    assert!(!is_plugin_toml("linters/foo/bar/plugin.toml"));
    assert!(!is_plugin_toml("linters/foo/plugin.tomlx"));
    assert!(!is_plugin_toml("formatters/foo/plugin.toml"));
}

#[test]
fn plugin_tomls_discovers_in_order() {
    let src = memory(vec![
        ("README.md", "hello"),
        ("linters/a/plugin.toml", "config_version = \"1\""),
        ("linters/a/other.toml", "x = 1"),
        ("plugins/linters/b/plugin.toml", "config_version = \"1\""),
    ]);
    let found = plugin_tomls(&src).unwrap();
    let paths: Vec<&str> = found.iter().map(|f| f.path.as_str()).collect();
    assert_eq!(
        paths,
        vec!["linters/a/plugin.toml", "plugins/linters/b/plugin.toml"]
    );
}

#[test]
fn get_config_file_prefers_first_candidate() {
    let src = memory(vec![
        ("plugins/linters/eslint/config.json", "wrapped"),
        ("linters/eslint/config.json", "bare"),
    ]);
    let found = get_config_file(&src, "eslint", "config.json").unwrap().unwrap();
    assert_eq!(found.path, "plugins/linters/eslint/config.json");
    assert_eq!(found.contents, "wrapped");
}

#[test]
fn get_config_file_falls_back_then_reports_absence() {
    let src = memory(vec![("linters/eslint/config.json", "bare")]);
    let found = get_config_file(&src, "eslint", "config.json").unwrap().unwrap();
    assert_eq!(found.path, "linters/eslint/config.json");
    assert!(get_config_file(&src, "eslint", "missing.json")
        .unwrap()
        .is_none());
}

#[test]
fn default_source_is_empty_and_always_fetches() {
    let d = DefaultSource {};
    assert!(d.fetch().is_ok());
    assert_eq!(d.files().unwrap().len(), 0);
    assert!(d.get_file("linters/a/plugin.toml").unwrap().is_none());
}

#[test]
fn sources_list_fetch_fails_fast_with_second_error() {
    let first = MemorySource::new(vec![]);
    let second = MemorySource::failing(SourceError::Fetch {
        message: "second is unreachable".to_string(),
    });
    let third = MemorySource::failing(SourceError::Fetch {
        message: "third would also fail".to_string(),
    });
    let list = SourcesList::new(vec![
        SourceKind::Memory(first),
        SourceKind::Memory(second),
        SourceKind::Memory(third),
    ]);
    let err = list.fetch().unwrap_err();
    assert_eq!(
        err,
        SourceError::Fetch {
            message: "second is unreachable".to_string()
        }
    );
}

#[test]
fn sources_list_default_holds_the_default_source() {
    let list = SourcesList::default();
    let children = list.sources();
    assert_eq!(children.len(), 1);
    assert!(matches!(children[0], SourceKind::Default(_)));
    assert!(list.fetch().is_ok());
    assert_eq!(list.files().unwrap().len(), 0);
}

#[test]
fn leaf_sources_have_no_children() {
    let d = DefaultSource {};
    assert_eq!(d.sources().len(), 0);
    let m = memory(vec![("linters/a/plugin.toml", "x = 1")]);
    assert_eq!(m.sources().len(), 0);
}

#[test]
fn merge_later_scalar_wins_and_others_survive() {
    let a = table(vec![("version", s("1.0")), ("enabled", TomlValue::Bool(true))]);
    let b = table(vec![("version", s("2.0"))]);
    let merged = TomlMerge::merge(a, b);
    match merged.lookup("version") {
        Some(TomlValue::Str(v)) => assert_eq!(v, "2.0"),
        other => panic!("unexpected version value: {:?}", other),
    }
    match merged.lookup("enabled") {
        Some(TomlValue::Bool(true)) => {}
        other => panic!("unexpected enabled value: {:?}", other),
    }
}

#[test]
fn merge_recurses_into_tables_and_replaces_arrays() {
    let a = table(vec![(
        "plugin",
        table(vec![
            ("keep", TomlValue::Int(1)),
            ("list", TomlValue::Array(vec![TomlValue::Int(1), TomlValue::Int(2)])),
        ]),
    )]);
    let b = table(vec![(
        "plugin",
        table(vec![
            ("add", TomlValue::Int(2)),
            ("list", TomlValue::Array(vec![TomlValue::Int(9)])),
        ]),
    )]);
    let merged = TomlMerge::merge(a, b);
    let plugin = merged.lookup("plugin").unwrap();
    assert_eq!(plugin.lookup("keep"), Some(&TomlValue::Int(1)));
    assert_eq!(plugin.lookup("add"), Some(&TomlValue::Int(2)));
    assert_eq!(
        plugin.lookup("list"),
        Some(&TomlValue::Array(vec![TomlValue::Int(9)]))
    );
}

#[test]
fn merged_document_combines_two_sources_for_one_plugin() {
    let a = memory(vec![(
        "linters/foo/plugin.toml",
        "config_version = \"1\"\n\n[foo]\nversion = \"1.0\"\nenabled = true\n",
    )]);
    let b = memory(vec![(
        "linters/foo/plugin.toml",
        "config_version = \"1\"\n\n[foo]\nversion = \"2.0\"\n",
    )]);
    let list = SourcesList::new(vec![SourceKind::Memory(a), SourceKind::Memory(b)]);
    let doc = toml(&list).unwrap();
    let foo = doc.lookup("foo").unwrap();
    match foo.lookup("version") {
        Some(TomlValue::Str(v)) => assert_eq!(v, "2.0"),
        other => panic!("unexpected version value: {:?}", other),
    }
    assert_eq!(foo.lookup("enabled"), Some(&TomlValue::Bool(true)));
}

#[test]
fn ill_shaped_document_fails_with_guidance_and_path() {
    let src = memory(vec![(
        "linters/foo/plugin.toml",
        "[foo]\nversion = \"1.0\"\n",
    )]);
    let err = toml(&src).unwrap_err();
    assert_eq!(
        err,
        SourceError::Validate {
            path: "linters/foo/plugin.toml".to_string()
        }
    );
    let message = err.message();
    assert!(message.contains("qlty upgrade"));
    assert!(message.contains("latest source tag"));
    assert!(message.contains("linters/foo/plugin.toml"));
    assert!(!message.contains("expected"));
}

#[test]
fn malformed_toml_fails_with_parse_error_naming_the_path() {
    let src = memory(vec![("linters/foo/plugin.toml", "= not toml at all")]);
    let err = toml(&src).unwrap_err();
    assert_eq!(
        err,
        SourceError::Parse {
            path: "linters/foo/plugin.toml".to_string()
        }
    );
    assert_eq!(err.message(), "Could not parse linters/foo/plugin.toml");
}

#[test]
fn validate_toml_accepts_and_rejects_by_shape() {
    let good = table(vec![("config_version", s("0.1"))]);
    assert!(Builder::validate_toml("p", &good).is_ok());
    let bad = table(vec![("config_version", TomlValue::Int(1))]);
    assert!(Builder::validate_toml("p", &bad).is_err());
    let missing = table(vec![("other", s("x"))]);
    assert_eq!(
        Builder::validate_toml("linters/a/plugin.toml", &missing).unwrap_err(),
        SourceError::Validate {
            path: "linters/a/plugin.toml".to_string()
        }
    );
}

#[test]
fn build_config_produces_typed_plugins() {
    let src = memory(vec![(
        "linters/eslint/plugin.toml",
        "config_version = \"0.1\"\n\n[eslint]\nversion = \"8.0\"\nenabled = false\n\n[rubocop]\n",
    )]);
    let config: QltyConfig = build_config(&src).unwrap();
    assert_eq!(config.config_version, "0.1");
    assert_eq!(
        config.plugins,
        vec![
            PluginConf {
                name: "eslint".to_string(),
                version: Some("8.0".to_string()),
                enabled: false,
            },
            PluginConf {
                name: "rubocop".to_string(),
                version: None,
                enabled: true,
            },
        ]
    );
}

#[test]
fn build_config_rejects_ill_typed_plugin_fields() {
    let src = memory(vec![(
        "linters/foo/plugin.toml",
        "config_version = \"0.1\"\n\n[foo]\nversion = 5\n",
    )]);
    let err = build_config(&src).unwrap_err();
    assert_eq!(err, SourceError::Config);
    assert_eq!(err.message(), "Could not process the plugin configuration");
}

#[test]
fn empty_source_merges_to_empty_table_and_fails_typing() {
    let list = SourcesList::default();
    assert_eq!(toml(&list).unwrap(), TomlValue::Table(vec![]));
    let err = build_config(&list).unwrap_err();
    assert_eq!(err, SourceError::Config);
}

#[test]
fn get_file_finds_exact_paths_across_a_list() {
    let a = memory(vec![("linters/a/plugin.toml", "first")]);
    let b = memory(vec![
        ("linters/a/plugin.toml", "shadowed"),
        ("linters/b/plugin.toml", "second"),
    ]);
    let list = SourcesList::new(vec![SourceKind::Memory(a), SourceKind::Memory(b)]);
    let f = list.get_file("linters/a/plugin.toml").unwrap().unwrap();
    assert_eq!(f.contents, "first");
    let g = list.get_file("linters/b/plugin.toml").unwrap().unwrap();
    assert_eq!(g.contents, "second");
    assert!(list.get_file("linters/c/plugin.toml").unwrap().is_none());
}

#[test]
fn reserved_datetime_document_fails_shape_validation() {
    // The toml crate reserves one private key under which a whole document
    // parses to a bare datetime instead of a table; such a document is
    // valid TOML but has no plugin shape.
    let src = memory(vec![(
        "linters/odd/plugin.toml",
        "\"$__toml_private_datetime\" = \"1979-05-27\"\n",
    )]);
    let err = toml(&src).unwrap_err();
    assert_eq!(
        err,
        SourceError::Validate {
            path: "linters/odd/plugin.toml".to_string()
        }
    );
}

#[test]
fn fmt_default_asks_for_nothing() {
    let fmt = qlty_config::fmt::Fmt::default();
    assert!(!fmt.all);
    assert!(!fmt.no_progress);
    assert!(!fmt.no_error);
    assert_eq!(fmt.sample, None);
    assert_eq!(fmt.jobs, None);
    assert_eq!(fmt.filter, None);
    assert_eq!(fmt.verbose, 0);
    assert_eq!(fmt.upstream, None);
    assert!(!fmt.index);
    assert_eq!(fmt.index_file, None);
    assert!(fmt.paths.is_empty());
}

#[test]
fn source_file_round_trips_through_clone() {
    let f = SourceFile::new("linters/a/plugin.toml", "config_version = \"1\"");
    let g = f.clone();
    assert_eq!(f, g);
    assert_eq!(g.path, "linters/a/plugin.toml");
    assert_eq!(g.contents, "config_version = \"1\"");
}
