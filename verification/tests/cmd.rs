// Every command of the surrounding tool resolves its plugin configuration
// through this library before doing anything else. The fixture-driven
// command harness itself is out of scope here; each test below exercises
// the resolution scenario the corresponding command leans on.

use qlty_config::config::PluginConf;
use qlty_config::memory_source::MemorySource;
use qlty_config::source::{
    build_config, get_config_file, plugin_tomls, toml, Source, SourceFetch, SourceFile,
    SourceKind,
};
use qlty_config::sources_list::SourcesList;
use qlty_config::toml_value::TomlValue;

fn memory(files: Vec<(&str, &str)>) -> SourceKind {
    SourceKind::Memory(MemorySource::new(
        files
            .into_iter()
            .map(|(p, c)| SourceFile::new(p, c))
            .collect(),
    ))
}

#[test]
fn metrics_tests() {
    // Numeric settings from a later source replace earlier ones outright.
    let list = SourcesList::new(vec![
        memory(vec![(
            "linters/complexity/plugin.toml",
            "config_version = \"1\"\n\n[complexity]\nthreshold = 10\n",
        )]),
        memory(vec![(
            "linters/complexity/plugin.toml",
            "config_version = \"1\"\n\n[complexity]\nthreshold = 25\n",
        )]),
    ]);
    let doc = toml(&list).unwrap();
    let c = doc.lookup("complexity").unwrap();
    assert_eq!(c.lookup("threshold"), Some(&TomlValue::Int(25)));
}

#[test]
fn duplication_tests() {
    // The same plugin declared by both sources appears once, merged.
    let list = SourcesList::new(vec![
        memory(vec![(
            "linters/dup/plugin.toml",
            "config_version = \"1\"\n\n[dup]\nversion = \"1\"\n",
        )]),
        memory(vec![(
            "linters/dup/plugin.toml",
            "config_version = \"1\"\n\n[dup]\nversion = \"1\"\n",
        )]),
    ]);
    let config = build_config(&list).unwrap();
    assert_eq!(config.plugins.len(), 1);
    assert_eq!(config.plugins[0].name, "dup");
}

#[test]
fn check_tests() {
    // A full resolution: fetch, merge, and type the combined document.
    let list = SourcesList::new(vec![
        memory(vec![(
            "linters/eslint/plugin.toml",
            "config_version = \"0.1\"\n\n[eslint]\nversion = \"8.0\"\n",
        )]),
        memory(vec![(
            "linters/rubocop/plugin.toml",
            "config_version = \"0.1\"\n\n[rubocop]\nenabled = false\n",
        )]),
    ]);
    assert!(list.fetch().is_ok());
    let config = build_config(&list).unwrap();
    assert_eq!(config.config_version, "0.1");
    assert_eq!(
        config.plugins,
        vec![
            PluginConf {
                name: "eslint".to_string(),
                version: Some("8.0".to_string()),
                enabled: true,
            },
            PluginConf {
                name: "rubocop".to_string(),
                version: None,
                enabled: false,
            },
        ]
    );
}

#[test]
fn smells_tests() {
    // Deeply nested tables merge level by level.
    let list = SourcesList::new(vec![
        memory(vec![(
            "linters/smells/plugin.toml",
            "config_version = \"1\"\n\n[smells.rules.complexity]\nlevel = \"warn\"\n",
        )]),
        memory(vec![(
            "linters/smells/plugin.toml",
            "config_version = \"1\"\n\n[smells.rules.nesting]\nlevel = \"error\"\n",
        )]),
    ]);
    let doc = toml(&list).unwrap();
    let rules = doc.lookup("smells").unwrap().lookup("rules").unwrap();
    let complexity = rules.lookup("complexity").unwrap();
    let nesting = rules.lookup("nesting").unwrap();
    assert_eq!(
        complexity.lookup("level"),
        Some(&TomlValue::Str("warn".to_string()))
    );
    assert_eq!(
        nesting.lookup("level"),
        Some(&TomlValue::Str("error".to_string()))
    );
}

#[test]
fn coverage_tests() {
    // Discovery covers all recognized layout conventions in one source.
    let src = MemorySource::new(vec![
        SourceFile::new("linters/a/plugin.toml", "config_version = \"1\""),
        SourceFile::new("plugins/linters/b/plugin.toml", "config_version = \"1\""),
        SourceFile::new("wrap/linters/c/plugin.toml", "config_version = \"1\""),
        SourceFile::new("wrap/plugins/linters/d/plugin.toml", "config_version = \"1\""),
        SourceFile::new("docs/readme.md", "not a plugin"),
    ]);
    let found = plugin_tomls(&src).unwrap();
    assert_eq!(found.len(), 4);
}

#[test]
fn build_tests() {
    // A single well-formed source builds a typed configuration.
    let src = MemorySource::new(vec![SourceFile::new(
        "linters/builder/plugin.toml",
        "config_version = \"0.2\"\n\n[builder]\nversion = \"3.1\"\nenabled = true\n",
    )]);
    let config = build_config(&src).unwrap();
    assert_eq!(config.config_version, "0.2");
    assert_eq!(config.plugins[0].version, Some("3.1".to_string()));
    assert!(config.plugins[0].enabled);
}

#[test]
fn init_tests() {
    // A fresh setup starts from the default source set and then declares
    // its first real source.
    let default_list = SourcesList::default();
    assert!(default_list.fetch().is_ok());
    assert_eq!(plugin_tomls(&default_list).unwrap().len(), 0);

    let mut sources = default_list.sources();
    sources.push(memory(vec![(
        "linters/init/plugin.toml",
        "config_version = \"1\"\n\n[init]\n",
    )]));
    let list = SourcesList::new(sources);
    let config = build_config(&list).unwrap();
    assert_eq!(config.plugins[0].name, "init");
}

#[test]
fn config_migrate_tests() {
    // A newer source revises a plugin's settings; untouched keys carry over.
    let list = SourcesList::new(vec![
        memory(vec![(
            "linters/legacy/plugin.toml",
            "config_version = \"1\"\n\n[legacy]\nversion = \"0.9\"\nenabled = true\n",
        )]),
        memory(vec![(
            "linters/legacy/plugin.toml",
            "config_version = \"2\"\n\n[legacy]\nversion = \"1.0\"\n",
        )]),
    ]);
    let config = build_config(&list).unwrap();
    assert_eq!(config.config_version, "2");
    assert_eq!(
        config.plugins,
        vec![PluginConf {
            name: "legacy".to_string(),
            version: Some("1.0".to_string()),
            enabled: true,
        }]
    );
}

#[test]
fn git_based_check_tests() {
    // Supplementary config files resolve across the whole source chain.
    let list = SourcesList::new(vec![
        memory(vec![("linters/eslint/plugin.toml", "config_version = \"1\"")]),
        memory(vec![("linters/eslint/.eslintrc", "{\"rules\":{}}")]),
    ]);
    let found = get_config_file(&list, "eslint", ".eslintrc")
        .unwrap()
        .unwrap();
    assert_eq!(found.contents, "{\"rules\":{}}");
    assert!(list.get_file("linters/eslint/.eslintrc").unwrap().is_some());
}
