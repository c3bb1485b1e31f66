//! The source abstraction: a provider of named configuration files,
//! queryable by path, plus the shared algorithms layered over any source's
//! primitive `files`/`get_file` — plugin-file discovery, per-plugin config
//! candidate lookup, and the parse/validate/merge pipeline.

use vstd::prelude::*;
use crate::config::{spec_config_of, spec_valid_doc, Builder, QltyConfig};
use crate::default_source::DefaultSource;
use crate::errors::{ErrorData, SourceError};
use crate::memory_source::{MemorySource, MemorySourceData};
use crate::merge::{empty_tab, lemma_merge_docs_push, spec_merge, spec_merge_docs, TomlMerge};
use crate::parse::{parse_toml_text, parsed_toml};
use crate::path_match::{is_plugin_toml, is_plugin_toml_path};
use crate::toml_value::{wf_toml, TomlData, TomlValue};

verus! {

/// Model of a source file: a relative path and its raw text.
pub struct SourceFileData {
    pub path: Seq<char>,
    pub contents: Seq<char>,
}

/// A relative path plus its raw textual content.
#[derive(Debug, PartialEq, Eq)]
pub struct SourceFile {
    pub path: String,
    pub contents: String,
}

impl View for SourceFile {
    type V = SourceFileData;

    open spec fn view(&self) -> SourceFileData {
        SourceFileData { path: self.path@, contents: self.contents@ }
    }
}

impl Clone for SourceFile {
    fn clone(&self) -> (r: Self)
        ensures
            r@ == self@,
    {
        SourceFile { path: self.path.clone(), contents: self.contents.clone() }
    }
}

impl SourceFile {
    pub fn new(path: &str, contents: &str) -> (r: SourceFile)
        ensures
            r@.path == path@,
            r@.contents == contents@,
    {
        SourceFile { path: path.to_owned(), contents: contents.to_owned() }
    }
}

/// Models of a sequence of files.
pub open spec fn files_views(s: Seq<SourceFile>) -> Seq<SourceFileData> {
    s.map(|i: int, f: SourceFile| f@)
}

/// Model of an optional file.
pub open spec fn opt_file_view(o: Option<SourceFile>) -> Option<SourceFileData> {
    match o {
        Some(f) => Some(f@),
        None => None,
    }
}

/// The first file at or after position `i` whose path is `path`.
pub open spec fn spec_get_file_from(
    files: Seq<SourceFileData>,
    path: Seq<char>,
    i: int,
) -> Option<SourceFileData>
    decreases files.len() - i,
{
    if 0 <= i < files.len() {
        if files[i].path == path {
            Some(files[i])
        } else {
            spec_get_file_from(files, path, i + 1)
        }
    } else {
        None
    }
}

/// Direct lookup by exact relative path; absence is not an error.
pub open spec fn spec_get_file(files: Seq<SourceFileData>, path: Seq<char>) -> Option<
    SourceFileData,
> {
    spec_get_file_from(files, path, 0)
}

/// Model of a concrete source.
pub enum SourceKindData {
    Default,
    Memory(MemorySourceData),
}

/// The concrete kinds of source this crate ships. The capability traits
/// below are the stable contract; a new source kind extends this enum.
#[derive(Debug)]
pub enum SourceKind {
    Default(DefaultSource),
    Memory(MemorySource),
}

impl View for SourceKind {
    type V = SourceKindData;

    open spec fn view(&self) -> SourceKindData {
        match self {
            SourceKind::Default(_) => SourceKindData::Default,
            SourceKind::Memory(m) => SourceKindData::Memory(m@),
        }
    }
}

/// Models of a sequence of concrete sources.
pub open spec fn kinds_views(s: Seq<SourceKind>) -> Seq<SourceKindData> {
    s.map(|i: int, k: SourceKind| k@)
}

/// The files a modelled source provides.
pub open spec fn kind_files(k: SourceKindData) -> Seq<SourceFileData> {
    match k {
        SourceKindData::Default => Seq::empty(),
        SourceKindData::Memory(m) => m.files,
    }
}

/// The fetch outcome a modelled source is bound to have.
pub open spec fn kind_fetch(k: SourceKindData) -> Option<ErrorData> {
    match k {
        SourceKindData::Default => None,
        SourceKindData::Memory(m) => m.fetch_err,
    }
}

/// The lifecycle capability: ensure a source's content is locally available
/// before it is read. Fetching is idempotent; a failure aborts the whole
/// resolution.
pub trait SourceFetch: Sized {
    /// The outcome a fetch of this source is bound to have: `None` when it
    /// succeeds, the error it reports otherwise.
    spec fn fetch_model(&self) -> Option<ErrorData>;

    /// Models of the contained concrete sources; leaves have none.
    spec fn sources_model(&self) -> Seq<SourceKindData>;

    /// Make the source's content available locally.
    fn fetch(&self) -> (r: Result<(), SourceError>)
        ensures
            match self.fetch_model() {
                None => r is Ok,
                Some(e) => r matches Err(err) && err@ == e,
            },
    ;

    /// The contained concrete sources, for enumeration and diagnostics.
    fn sources(&self) -> (r: Vec<SourceKind>)
        ensures
            kinds_views(r@) == self.sources_model(),
    ;
}

/// A provider of named configuration files. Everything a source can be
/// asked follows from `files` and `get_file`; the shared algorithms are the
/// free functions below.
pub trait Source: SourceFetch {
    /// The files this source provides, with paths relative to its root.
    spec fn files_model(&self) -> Seq<SourceFileData>;

    /// Every file the source can provide.
    fn files(&self) -> (r: Result<Vec<SourceFile>, SourceError>)
        ensures
            r is Ok,
            r matches Ok(v) ==> files_views(v@) == self.files_model(),
    ;

    /// Direct lookup by exact relative path; absence is not an error.
    fn get_file(&self, path: &str) -> (r: Result<Option<SourceFile>, SourceError>)
        ensures
            r is Ok,
            r matches Ok(o) ==> opt_file_view(o) == spec_get_file(self.files_model(), path@),
    ;
}

impl SourceFetch for SourceKind {
    open spec fn fetch_model(&self) -> Option<ErrorData> {
        kind_fetch(self@)
    }

    open spec fn sources_model(&self) -> Seq<SourceKindData> {
        Seq::empty()
    }

    fn fetch(&self) -> (r: Result<(), SourceError>) {
        match self {
            SourceKind::Default(d) => d.fetch(),
            SourceKind::Memory(m) => m.fetch(),
        }
    }

    fn sources(&self) -> (r: Vec<SourceKind>) {
        let r: Vec<SourceKind> = Vec::new();
        proof {
            assert(kinds_views(r@) =~= Seq::<SourceKindData>::empty());
        }
        r
    }
}

impl Source for SourceKind {
    open spec fn files_model(&self) -> Seq<SourceFileData> {
        kind_files(self@)
    }

    fn files(&self) -> (r: Result<Vec<SourceFile>, SourceError>) {
        match self {
            SourceKind::Default(d) => d.files(),
            SourceKind::Memory(m) => m.files(),
        }
    }

    fn get_file(&self, path: &str) -> (r: Result<Option<SourceFile>, SourceError>) {
        match self {
            SourceKind::Default(d) => d.get_file(path),
            SourceKind::Memory(m) => m.get_file(path),
        }
    }
}

impl Clone for SourceKind {
    fn clone(&self) -> (r: Self)
        ensures
            r@ == self@,
    {
        match self {
            SourceKind::Default(d) => SourceKind::Default(*d),
            SourceKind::Memory(m) => SourceKind::Memory(m.clone()),
        }
    }
}

/// Clone a list of files, preserving its model.
pub(crate) fn clone_files(v: &Vec<SourceFile>) -> (r: Vec<SourceFile>)
    ensures
        files_views(r@) == files_views(v@),
{
    let mut out: Vec<SourceFile> = Vec::new();
    let mut i: usize = 0;
    proof {
        assert(files_views(out@) =~= files_views(v@).take(0));
    }
    while i < v.len()
        invariant
            0 <= i <= v@.len(),
            files_views(out@) == files_views(v@).take(i as int),
        decreases v@.len() - i,
    {
        let ghost before = files_views(out@);
        out.push(v[i].clone());
        proof {
            assert(files_views(out@) =~= before.push(v@[i as int]@));
            assert(files_views(v@).take(i + 1) =~= files_views(v@).take(i as int).push(
                v@[i as int]@,
            ));
        }
        i += 1;
    }
    proof {
        assert(files_views(v@).take(v@.len() as int) =~= files_views(v@));
    }
    out
}

/// The plugin definition files among `files`, from position `i` on, after
/// those already in `acc`.
pub open spec fn spec_plugin_tomls_from(
    files: Seq<SourceFileData>,
    i: int,
    acc: Seq<SourceFileData>,
) -> Seq<SourceFileData>
    decreases files.len() - i,
{
    if 0 <= i < files.len() {
        spec_plugin_tomls_from(
            files,
            i + 1,
            if is_plugin_toml_path(files[i].path) {
                acc.push(files[i])
            } else {
                acc
            },
        )
    } else {
        acc
    }
}

/// The plugin definition files among `files`, in discovery order.
pub open spec fn spec_plugin_tomls(files: Seq<SourceFileData>) -> Seq<SourceFileData> {
    spec_plugin_tomls_from(files, 0, Seq::empty())
}

/// Discovery law: a file stands among the discovered plugin definitions
/// exactly when the source provides it and its path follows a recognized
/// layout convention.
pub proof fn lemma_plugin_tomls_members(files: Seq<SourceFileData>, f: SourceFileData)
    ensures
        spec_plugin_tomls(files).contains(f) <==> files.contains(f) && is_plugin_toml_path(f.path),
{
    lemma_plugin_tomls_members_from(files, 0, Seq::empty(), f);
}

/// The accumulator form of the discovery law.
proof fn lemma_plugin_tomls_members_from(
    files: Seq<SourceFileData>,
    i: int,
    acc: Seq<SourceFileData>,
    f: SourceFileData,
)
    requires
        0 <= i <= files.len(),
    ensures
        spec_plugin_tomls_from(files, i, acc).contains(f) <==> (acc.contains(f) || (exists|j: int|
            i <= j < files.len() && files[j] == f && is_plugin_toml_path(f.path))),
    decreases files.len() - i,
{
    if i < files.len() {
        let acc2 = if is_plugin_toml_path(files[i].path) {
            acc.push(files[i])
        } else {
            acc
        };
        lemma_plugin_tomls_members_from(files, i + 1, acc2, f);
        if is_plugin_toml_path(files[i].path) {
            assert(acc2.contains(f) <==> (acc.contains(f) || files[i] == f)) by {
                if acc.contains(f) {
                    let j = choose|j: int| 0 <= j < acc.len() && acc[j] == f;
                    assert(acc2[j] == f);
                }
                if acc2.contains(f) {
                    let j = choose|j: int| 0 <= j < acc2.len() && acc2[j] == f;
                    if j < acc.len() {
                        assert(acc[j] == f);
                    }
                }
                assert(acc2[acc.len() as int] == files[i]);
            }
        }
        if spec_plugin_tomls_from(files, i, acc).contains(f) && !acc.contains(f) {
            assert(exists|j: int|
                i <= j < files.len() && files[j] == f && is_plugin_toml_path(f.path));
        }
        if acc.contains(f) || (exists|j: int|
            i <= j < files.len() && files[j] == f && is_plugin_toml_path(f.path)) {
            if !acc.contains(f) && !(exists|j: int|
                i + 1 <= j < files.len() && files[j] == f && is_plugin_toml_path(f.path)) {
                let j = choose|j: int|
                    i <= j < files.len() && files[j] == f && is_plugin_toml_path(f.path);
                assert(j == i);
                assert(acc2.contains(f)) by {
                    assert(acc2[acc.len() as int] == files[i]);
                }
            }
        }
    }
}

/// Discover every plugin definition file of a source: its files filtered by
/// the recognized layout conventions.
#[verifier::loop_isolation(false)]
pub fn plugin_tomls<S: Source>(source: &S) -> (r: Result<Vec<SourceFile>, SourceError>)
    ensures
        r is Ok,
        r matches Ok(v) ==> files_views(v@) == spec_plugin_tomls(source.files_model()),
{
    let all = match source.files() {
        Ok(v) => v,
        Err(e) => {
            proof {
                assert(false);
            }
            return Err(e);
        },
    };
    let ghost av = files_views(all@);
    let mut out: Vec<SourceFile> = Vec::new();
    let mut i: usize = 0;
    proof {
        assert(files_views(out@) =~= Seq::<SourceFileData>::empty());
    }
    while i < all.len()
        invariant
            0 <= i <= all@.len(),
            av == files_views(all@),
            spec_plugin_tomls_from(av, 0, Seq::empty()) == spec_plugin_tomls_from(
                av,
                i as int,
                files_views(out@),
            ),
        decreases all@.len() - i,
    {
        let ghost before = files_views(out@);
        if is_plugin_toml(all[i].path.as_str()) {
            out.push(all[i].clone());
            proof {
                assert(files_views(out@) =~= before.push(av[i as int]));
            }
        }
        i += 1;
    }
    Ok(out)
}

/// The two candidate paths for one plugin's supplementary config file.
pub open spec fn spec_candidates(name: Seq<char>, cfg: Seq<char>) -> (Seq<char>, Seq<char>) {
    ("plugins/linters/"@ + name + "/"@ + cfg, "linters/"@ + name + "/"@ + cfg)
}

/// The file `get_config_file` resolves: the first candidate path that is
/// present, absence when neither is.
pub open spec fn spec_get_config_file(
    files: Seq<SourceFileData>,
    name: Seq<char>,
    cfg: Seq<char>,
) -> Option<SourceFileData> {
    match spec_get_file(files, spec_candidates(name, cfg).0) {
        Some(f) => Some(f),
        None => spec_get_file(files, spec_candidates(name, cfg).1),
    }
}

/// Resolve one plugin's supplementary config file, trying
/// `plugins/linters/<name>/<file>` then `linters/<name>/<file>`.
pub fn get_config_file<S: Source>(source: &S, plugin_name: &str, config_file: &str) -> (r: Result<
    Option<SourceFile>,
    SourceError,
>)
    ensures
        r is Ok,
        r matches Ok(o) ==> opt_file_view(o) == spec_get_config_file(
            source.files_model(),
            plugin_name@,
            config_file@,
        ),
{
    let mut first = "plugins/linters/".to_owned();
    first.append(plugin_name);
    first.append("/");
    first.append(config_file);
    proof {
        assert(first@ =~= spec_candidates(plugin_name@, config_file@).0);
    }
    let found = match source.get_file(first.as_str()) {
        Ok(o) => o,
        Err(e) => {
            proof {
                assert(false);
            }
            return Err(e);
        },
    };
    if let Some(f) = found {
        return Ok(Some(f));
    }
    let mut second = "linters/".to_owned();
    second.append(plugin_name);
    second.append("/");
    second.append(config_file);
    proof {
        assert(second@ =~= spec_candidates(plugin_name@, config_file@).1);
    }
    match source.get_file(second.as_str()) {
        Ok(o) => Ok(o),
        Err(e) => {
            proof {
                assert(false);
            }
            Err(e)
        },
    }
}

/// The outcome of parsing, validating, and merging the plugin definitions
/// `tomls` from position `i` on, on top of the accumulator `acc`: the first
/// file that does not parse fails the fold with a parse error naming it;
/// the first that parses but is ill-shaped fails it with a validation
/// error naming it.
pub open spec fn spec_toml_fold(tomls: Seq<SourceFileData>, i: int, acc: TomlData) -> Result<
    TomlData,
    ErrorData,
>
    decreases tomls.len() - i,
{
    if 0 <= i < tomls.len() {
        match parsed_toml(tomls[i].contents) {
            None => Err(ErrorData::Parse(tomls[i].path)),
            Some(d) => if !spec_valid_doc(d) {
                Err(ErrorData::Validate(tomls[i].path))
            } else {
                spec_toml_fold(tomls, i + 1, spec_merge(acc, d))
            },
        }
    } else {
        Ok(acc)
    }
}

/// What `toml` returns for a source with the given files.
pub open spec fn spec_source_toml(files: Seq<SourceFileData>) -> Result<TomlData, ErrorData> {
    spec_toml_fold(spec_plugin_tomls(files), 0, empty_tab())
}

/// The documents a sequence of plugin definition files denotes, where all
/// of them parse.
pub open spec fn docs_of(tomls: Seq<SourceFileData>) -> Seq<TomlData> {
    tomls.map(|i: int, f: SourceFileData| parsed_toml(f.contents).unwrap())
}

/// When every remaining plugin definition parses and validates, the
/// pipeline from position `i` on is exactly the left-fold merge of the
/// documents those files denote, on top of the documents already merged.
pub proof fn lemma_toml_fold_is_merge(tomls: Seq<SourceFileData>, i: int, ds: Seq<TomlData>)
    requires
        0 <= i <= tomls.len(),
        forall|j: int|
            i <= j < tomls.len() ==> (#[trigger] parsed_toml(tomls[j].contents)) is Some
                && spec_valid_doc(parsed_toml(tomls[j].contents).unwrap()),
    ensures
        spec_toml_fold(tomls, i, spec_merge_docs(ds)) == Ok::<TomlData, ErrorData>(
            spec_merge_docs(ds + docs_of(tomls).skip(i)),
        ),
    decreases tomls.len() - i,
{
    if i < tomls.len() {
        let d = parsed_toml(tomls[i].contents).unwrap();
        lemma_merge_docs_push(ds, d);
        lemma_toml_fold_is_merge(tomls, i + 1, ds.push(d));
        assert(ds.push(d) + docs_of(tomls).skip(i + 1) =~= ds + docs_of(tomls).skip(i));
    } else {
        assert(ds + docs_of(tomls).skip(i) =~= ds);
    }
}

/// Fold law for an ordered source list: when every discovered plugin
/// definition parses and validates, the merged document is the left-fold
/// deep merge of the documents, in discovery order.
pub proof fn lemma_source_toml_is_merge_docs(files: Seq<SourceFileData>)
    requires
        forall|j: int|
            0 <= j < spec_plugin_tomls(files).len() ==> (#[trigger] parsed_toml(
                spec_plugin_tomls(files)[j].contents,
            )) is Some && spec_valid_doc(parsed_toml(spec_plugin_tomls(files)[j].contents).unwrap()),
    ensures
        spec_source_toml(files) == Ok::<TomlData, ErrorData>(
            spec_merge_docs(docs_of(spec_plugin_tomls(files))),
        ),
{
    let tomls = spec_plugin_tomls(files);
    lemma_toml_fold_is_merge(tomls, 0, Seq::empty());
    assert(Seq::<TomlData>::empty() + docs_of(tomls).skip(0) =~= docs_of(tomls));
}

/// Parse, validate, and deep-merge every discovered plugin definition of a
/// source, in discovery order.
#[verifier::loop_isolation(false)]
pub fn toml<S: Source>(source: &S) -> (r: Result<TomlValue, SourceError>)
    ensures
        match r {
            Ok(v) => spec_source_toml(source.files_model()) == Ok::<TomlData, ErrorData>(v@)
                && wf_toml(v@),
            Err(e) => spec_source_toml(source.files_model()) == Err::<TomlData, ErrorData>(e@),
        },
{
    let tomls = match plugin_tomls(source) {
        Ok(v) => v,
        Err(e) => {
            proof {
                assert(false);
            }
            return Err(e);
        },
    };
    let ghost tv = files_views(tomls@);
    let mut acc = TomlValue::Table(Vec::new());
    let mut i: usize = 0;
    proof {
        assert(crate::toml_value::tab_view(Seq::empty(), 0) =~= Seq::<(
            Seq<char>,
            TomlData,
        )>::empty());
        assert(acc@ == empty_tab());
    }
    while i < tomls.len()
        invariant
            0 <= i <= tomls@.len(),
            tv == files_views(tomls@),
            spec_toml_fold(tv, 0, empty_tab()) == spec_toml_fold(tv, i as int, acc@),
            wf_toml(acc@),
        decreases tomls@.len() - i,
    {
        let file = &tomls[i];
        proof {
            assert(tv[i as int] == file@);
        }
        let parsed = match parse_toml_text(file.contents.as_str()) {
            Some(v) => v,
            None => {
                return Err(SourceError::Parse { path: file.path.clone() });
            },
        };
        match Builder::validate_toml(file.path.as_str(), &parsed) {
            Ok(()) => {},
            Err(e) => {
                return Err(e);
            },
        }
        acc = TomlMerge::merge(acc, parsed);
        i += 1;
    }
    Ok(acc)
}

/// Merge every plugin definition of a source and deserialize the result
/// into the typed configuration.
pub fn build_config<S: Source>(source: &S) -> (r: Result<QltyConfig, SourceError>)
    ensures
        match spec_source_toml(source.files_model()) {
            Err(e) => r matches Err(err) && err@ == e,
            Ok(d) => match spec_config_of(d) {
                Some(c) => r matches Ok(cfg) && cfg@ == c,
                None => r matches Err(err) && err@ == ErrorData::Config,
            },
        },
{
    match toml(source) {
        Err(e) => Err(e),
        Ok(v) => QltyConfig::from_toml(&v),
    }
}

} // verus!
