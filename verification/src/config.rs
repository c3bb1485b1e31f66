//! Shape validation of a single plugin definition, and the typed runtime
//! configuration the merged document deserializes into.

use vstd::prelude::*;
use crate::errors::{ErrorData, SourceError};
use crate::toml_value::{
    find_key, lemma_tab_view_props, tab_lookup, tab_view, value_view, TomlData, TomlValue,
};

verus! {

/// Expected shape of a plugin definition document: a table that declares,
/// as a string under `config_version`, which configuration schema it
/// speaks.
pub open spec fn spec_valid_doc(d: TomlData) -> bool {
    d is Tab && (match tab_lookup(d->Tab_0, "config_version"@) {
        Some(v) => v is Str,
        None => false,
    })
}

pub struct Builder;

impl Builder {
    /// Shape validation of one source's document before it may join the
    /// merge; `path` names the file the document came from.
    pub fn validate_toml(path: &str, doc: &TomlValue) -> (r: Result<(), SourceError>)
        ensures
            r is Ok <==> spec_valid_doc(doc@),
            r matches Err(e) ==> e@ == ErrorData::Validate(path@),
    {
        match doc.lookup("config_version") {
            Some(v) => {
                match v {
                    TomlValue::Str(_) => Ok(()),
                    _ => Err(SourceError::Validate { path: path.to_owned() }),
                }
            },
            None => Err(SourceError::Validate { path: path.to_owned() }),
        }
    }
}

/// Model of one plugin's resolved configuration.
pub struct PluginConfData {
    pub name: Seq<char>,
    pub version: Option<Seq<char>>,
    pub enabled: bool,
}

/// One plugin's resolved configuration.
#[derive(Debug, PartialEq, Eq)]
pub struct PluginConf {
    pub name: String,
    pub version: Option<String>,
    pub enabled: bool,
}

impl View for PluginConf {
    type V = PluginConfData;

    open spec fn view(&self) -> PluginConfData {
        PluginConfData {
            name: self.name@,
            version: match self.version {
                Some(v) => Some(v@),
                None => None,
            },
            enabled: self.enabled,
        }
    }
}

/// Model of the typed runtime configuration.
pub struct QltyConfigData {
    pub config_version: Seq<char>,
    pub plugins: Seq<PluginConfData>,
}

/// The typed runtime configuration the merged document deserializes into.
#[derive(Debug, PartialEq, Eq)]
pub struct QltyConfig {
    pub config_version: String,
    pub plugins: Vec<PluginConf>,
}

impl View for QltyConfig {
    type V = QltyConfigData;

    open spec fn view(&self) -> QltyConfigData {
        QltyConfigData { config_version: self.config_version@, plugins: plugin_views(self.plugins@) }
    }
}

/// Models of a sequence of plugin configurations.
pub open spec fn plugin_views(s: Seq<PluginConf>) -> Seq<PluginConfData> {
    s.map(|i: int, p: PluginConf| p@)
}

/// One plugin entry read from a table: `version` must be a string if
/// present, `enabled` must be a boolean if present and defaults to true;
/// anything else fails deserialization. Unrecognized fields are ignored.
pub open spec fn spec_plugin_of(name: Seq<char>, t: Seq<(Seq<char>, TomlData)>) -> Option<
    PluginConfData,
> {
    match (tab_lookup(t, "version"@), tab_lookup(t, "enabled"@)) {
        (Some(TomlData::Str(v)), Some(TomlData::Bool(b))) => Some(
            PluginConfData { name, version: Some(v), enabled: b },
        ),
        (Some(TomlData::Str(v)), None) => Some(
            PluginConfData { name, version: Some(v), enabled: true },
        ),
        (None, Some(TomlData::Bool(b))) => Some(
            PluginConfData { name, version: None, enabled: b },
        ),
        (None, None) => Some(PluginConfData { name, version: None, enabled: true }),
        _ => None,
    }
}

/// The plugin entries read from the top-level entries at position `i` on:
/// every table-valued key is a plugin; other values are not plugin entries.
pub open spec fn spec_plugins_from(
    entries: Seq<(Seq<char>, TomlData)>,
    i: int,
    acc: Seq<PluginConfData>,
) -> Option<Seq<PluginConfData>>
    decreases entries.len() - i,
{
    if 0 <= i < entries.len() {
        match entries[i].1 {
            TomlData::Tab(t) => match spec_plugin_of(entries[i].0, t) {
                Some(p) => spec_plugins_from(entries, i + 1, acc.push(p)),
                None => None,
            },
            _ => spec_plugins_from(entries, i + 1, acc),
        }
    } else {
        Some(acc)
    }
}

/// One plugin entry read from a table-valued top-level key.
fn plugin_entry(name: &String, t: &Vec<(String, TomlValue)>) -> (r: Result<
    PluginConf,
    SourceError,
>)
    ensures
        match r {
            Ok(p) => spec_plugin_of(name@, tab_view(t@, 0)) == Some(p@),
            Err(e) => spec_plugin_of(name@, tab_view(t@, 0)) is None && e@ == ErrorData::Config,
        },
{
    proof {
        lemma_tab_view_props(t@, 0);
    }
    let ghost tv = tab_view(t@, 0);
    let version_key = "version".to_owned();
    let version: Option<String> = match find_key(t, &version_key) {
        Some(j) => {
            proof {
                assert(tab_lookup(tv, version_key@) == Some(tv[j as int].1));
            }
            match &t[j].1 {
                TomlValue::Str(s) => Some(s.clone()),
                _ => {
                    return Err(SourceError::Config);
                },
            }
        },
        None => None,
    };
    let enabled_key = "enabled".to_owned();
    let enabled: bool = match find_key(t, &enabled_key) {
        Some(j) => {
            proof {
                assert(tab_lookup(tv, enabled_key@) == Some(tv[j as int].1));
            }
            match &t[j].1 {
                TomlValue::Bool(b) => *b,
                _ => {
                    return Err(SourceError::Config);
                },
            }
        },
        None => true,
    };
    Ok(PluginConf { name: name.clone(), version, enabled })
}

/// The typed configuration a merged document denotes, if it deserializes:
/// a table with a string `config_version` and well-shaped plugin entries.
pub open spec fn spec_config_of(d: TomlData) -> Option<QltyConfigData> {
    match d {
        TomlData::Tab(entries) => match tab_lookup(entries, "config_version"@) {
            Some(TomlData::Str(cv)) => match spec_plugins_from(entries, 0, Seq::empty()) {
                Some(ps) => Some(QltyConfigData { config_version: cv, plugins: ps }),
                None => None,
            },
            _ => None,
        },
        _ => None,
    }
}

impl QltyConfig {
    /// Deserialize the merged document into the typed configuration; either
    /// every recognized field is populated, or the whole call fails.
    #[verifier::loop_isolation(false)]
    pub fn from_toml(doc: &TomlValue) -> (r: Result<QltyConfig, SourceError>)
        ensures
            match r {
                Ok(c) => spec_config_of(doc@) == Some(c@),
                Err(e) => spec_config_of(doc@) is None && e@ == ErrorData::Config,
            },
    {
        let cv: String = match doc.lookup("config_version") {
            Some(v) => match v {
                TomlValue::Str(s) => s.clone(),
                _ => {
                    return Err(SourceError::Config);
                },
            },
            None => {
                return Err(SourceError::Config);
            },
        };
        let entries = match doc {
            TomlValue::Table(entries) => entries,
            _ => {
                proof {
                    assert(false);
                }
                return Err(SourceError::Config);
            },
        };
        let ghost ev = tab_view(entries@, 0);
        proof {
            lemma_tab_view_props(entries@, 0);
        }
        let mut plugins: Vec<PluginConf> = Vec::new();
        let mut idx: usize = 0;
        proof {
            assert(plugin_views(plugins@) =~= Seq::empty());
        }
        while idx < entries.len()
            invariant
                0 <= idx <= entries@.len(),
                spec_plugins_from(ev, 0, Seq::empty()) == spec_plugins_from(
                    ev,
                    idx as int,
                    plugin_views(plugins@),
                ),
            decreases entries@.len() - idx,
        {
            let ghost before = plugin_views(plugins@);
            let entry = &entries[idx];
            proof {
                assert(ev[idx as int] == (entry.0@, value_view(entry.1)));
            }
            match &entry.1 {
                TomlValue::Table(t) => {
                    match plugin_entry(&entry.0, t) {
                        Ok(p) => {
                            proof {
                                assert(ev[idx as int].1->Tab_0 == tab_view(t@, 0));
                            }
                            plugins.push(p);
                            proof {
                                assert(plugin_views(plugins@) =~= before.push(p@));
                            }
                        },
                        Err(e) => {
                            proof {
                                assert(spec_plugins_from(ev, idx as int, before) is None);
                            }
                            return Err(e);
                        },
                    }
                },
                _ => {
                    proof {
                        assert(!(ev[idx as int].1 is Tab));
                    }
                },
            }
            idx += 1;
        }
        Ok(QltyConfig { config_version: cv, plugins })
    }
}

} // verus!
