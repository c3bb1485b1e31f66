//! The composite source: an ordered list of sources, fetched in turn and
//! read as one. Order defines merge-override precedence.

use vstd::prelude::*;
use crate::default_source::DefaultSource;
use crate::errors::{ErrorData, SourceError};
use crate::source::{
    files_views, kind_fetch, kind_files, kinds_views, spec_get_file, spec_get_file_from, Source,
    SourceFetch, SourceFile, SourceFileData, SourceKind, SourceKindData,
};

verus! {

/// The files an ordered list of sources provides, from position `i` on:
/// each source's files in turn.
pub open spec fn spec_list_files(ss: Seq<SourceKindData>, i: int) -> Seq<SourceFileData>
    decreases ss.len() - i,
{
    if 0 <= i < ss.len() {
        kind_files(ss[i]) + spec_list_files(ss, i + 1)
    } else {
        Seq::empty()
    }
}

/// The first fetch failure among the sources from position `i` on, if any:
/// fetching is fail-fast, so nothing past it is attempted.
pub open spec fn spec_list_fetch(ss: Seq<SourceKindData>, i: int) -> Option<ErrorData>
    decreases ss.len() - i,
{
    if 0 <= i < ss.len() {
        match kind_fetch(ss[i]) {
            Some(e) => Some(e),
            None => spec_list_fetch(ss, i + 1),
        }
    } else {
        None
    }
}

/// Looking up past the first of two concatenated lists scans the second
/// from its start.
proof fn lemma_get_file_shift(
    a: Seq<SourceFileData>,
    b: Seq<SourceFileData>,
    p: Seq<char>,
    j: int,
)
    requires
        0 <= j <= b.len(),
    ensures
        spec_get_file_from(a + b, p, a.len() + j) == spec_get_file_from(b, p, j),
    decreases b.len() - j,
{
    if j < b.len() {
        assert((a + b)[a.len() + j] == b[j]);
        if b[j].path != p {
            lemma_get_file_shift(a, b, p, j + 1);
        }
    }
}

/// Looking a path up in two concatenated file lists tries the first list,
/// then the second.
proof fn lemma_get_file_concat(
    a: Seq<SourceFileData>,
    b: Seq<SourceFileData>,
    p: Seq<char>,
    i: int,
)
    requires
        0 <= i <= a.len(),
    ensures
        spec_get_file_from(a + b, p, i) == match spec_get_file_from(a, p, i) {
            Some(f) => Some(f),
            None => spec_get_file(b, p),
        },
    decreases a.len() - i,
{
    if i < a.len() {
        assert((a + b)[i] == a[i]);
        if a[i].path != p {
            lemma_get_file_concat(a, b, p, i + 1);
        }
    } else {
        lemma_get_file_shift(a, b, p, 0);
    }
}

/// Fail-fast law: when the sources before position `i` all fetch cleanly
/// and the source at `i` fails, fetching the list reports exactly that
/// source's error — whatever stands after it plays no part.
pub proof fn lemma_list_fetch_fail_fast(ss: Seq<SourceKindData>, i: int)
    requires
        0 <= i < ss.len(),
        kind_fetch(ss[i]) is Some,
        forall|j: int| 0 <= j < i ==> kind_fetch(#[trigger] ss[j]) is None,
    ensures
        spec_list_fetch(ss, 0) == kind_fetch(ss[i]),
{
    lemma_list_fetch_step(ss, 0, i);
}

/// Scanning for the first fetch failure passes every clean source.
proof fn lemma_list_fetch_step(ss: Seq<SourceKindData>, j: int, i: int)
    requires
        0 <= j <= i < ss.len(),
        kind_fetch(ss[i]) is Some,
        forall|m: int| j <= m < i ==> kind_fetch(#[trigger] ss[m]) is None,
    ensures
        spec_list_fetch(ss, j) == kind_fetch(ss[i]),
    decreases i - j,
{
    if j < i {
        lemma_list_fetch_step(ss, j + 1, i);
    }
}

/// Clone a list of sources, preserving its model.
pub(crate) fn clone_kinds(v: &Vec<SourceKind>) -> (r: Vec<SourceKind>)
    ensures
        kinds_views(r@) == kinds_views(v@),
{
    let mut out: Vec<SourceKind> = Vec::new();
    let mut i: usize = 0;
    proof {
        assert(kinds_views(out@) =~= kinds_views(v@).take(0));
    }
    while i < v.len()
        invariant
            0 <= i <= v@.len(),
            kinds_views(out@) == kinds_views(v@).take(i as int),
        decreases v@.len() - i,
    {
        let ghost before = kinds_views(out@);
        let s = &v[i];
        out.push(s.clone());
        proof {
            assert(kinds_views(out@) =~= before.push(v@[i as int]@));
            assert(kinds_views(v@).take(i + 1) =~= kinds_views(v@).take(i as int).push(
                v@[i as int]@,
            ));
        }
        i += 1;
    }
    proof {
        assert(kinds_views(v@).take(v@.len() as int) =~= kinds_views(v@));
    }
    out
}

/// An ordered list of sources, the default value when no sources are
/// configured. It is itself a source: its files are its children's files,
/// in declaration order.
#[derive(Debug)]
pub struct SourcesList {
    pub sources: Vec<SourceKind>,
}

impl View for SourcesList {
    type V = Seq<SourceKindData>;

    open spec fn view(&self) -> Seq<SourceKindData> {
        kinds_views(self.sources@)
    }
}

impl SourcesList {
    /// A list over the given sources, in the given order.
    pub fn new(sources: Vec<SourceKind>) -> (r: SourcesList)
        ensures
            r@ == kinds_views(sources@),
    {
        SourcesList { sources }
    }
}

impl Clone for SourcesList {
    fn clone(&self) -> (r: Self)
        ensures
            r@ == self@,
    {
        SourcesList { sources: clone_kinds(&self.sources) }
    }
}

impl Default for SourcesList {
    /// The source set used when none is configured: the default source
    /// alone.
    fn default() -> (r: SourcesList)
        ensures
            r@ == seq![SourceKindData::Default],
    {
        let mut v: Vec<SourceKind> = Vec::new();
        v.push(SourceKind::Default(DefaultSource {}));
        proof {
            assert(kinds_views(v@) =~= seq![SourceKindData::Default]);
        }
        SourcesList { sources: v }
    }
}

impl SourceFetch for SourcesList {
    open spec fn fetch_model(&self) -> Option<ErrorData> {
        spec_list_fetch(self@, 0)
    }

    open spec fn sources_model(&self) -> Seq<SourceKindData> {
        self@
    }

    /// Fetch every contained source in order, failing fast on the first
    /// failure: later sources are not fetched.
    fn fetch(&self) -> (r: Result<(), SourceError>) {
        let ghost sv = self@;
        let mut i: usize = 0;
        while i < self.sources.len()
            invariant
                0 <= i <= self.sources@.len(),
                sv == self@,
                sv.len() == self.sources@.len(),
                spec_list_fetch(sv, 0) == spec_list_fetch(sv, i as int),
            decreases self.sources@.len() - i,
        {
            let s = &self.sources[i];
            proof {
                assert(sv[i as int] == self.sources@[i as int]@);
            }
            match s.fetch() {
                Err(e) => {
                    return Err(e);
                },
                Ok(()) => {},
            }
            i += 1;
        }
        Ok(())
    }

    fn sources(&self) -> (r: Vec<SourceKind>) {
        clone_kinds(&self.sources)
    }
}

impl Source for SourcesList {
    open spec fn files_model(&self) -> Seq<SourceFileData> {
        spec_list_files(self@, 0)
    }

    fn files(&self) -> (r: Result<Vec<SourceFile>, SourceError>) {
        let ghost sv = self@;
        let mut out: Vec<SourceFile> = Vec::new();
        let mut i: usize = 0;
        proof {
            assert(files_views(out@) =~= Seq::<SourceFileData>::empty());
            assert(spec_list_files(sv, 0) =~= files_views(out@) + spec_list_files(sv, 0));
        }
        while i < self.sources.len()
            invariant
                0 <= i <= self.sources@.len(),
                sv == self@,
                sv.len() == self.sources@.len(),
                spec_list_files(sv, 0) == files_views(out@) + spec_list_files(sv, i as int),
            decreases self.sources@.len() - i,
        {
            let ghost before = files_views(out@);
            let s = &self.sources[i];
            proof {
                assert(sv[i as int] == self.sources@[i as int]@);
            }
            let mut child = match s.files() {
                Ok(v) => v,
                Err(e) => {
                    proof {
                        assert(false);
                    }
                    return Err(e);
                },
            };
            let ghost cv = files_views(child@);
            out.append(&mut child);
            proof {
                assert(files_views(out@) =~= before + cv);
                assert(before + (cv + spec_list_files(sv, i + 1)) =~= (before + cv)
                    + spec_list_files(sv, i + 1));
            }
            i += 1;
        }
        proof {
            assert(files_views(out@) + spec_list_files(sv, sv.len() as int) =~= files_views(
                out@,
            ));
        }
        Ok(out)
    }

    fn get_file(&self, path: &str) -> (r: Result<Option<SourceFile>, SourceError>) {
        let ghost sv = self@;
        let mut i: usize = 0;
        while i < self.sources.len()
            invariant
                0 <= i <= self.sources@.len(),
                sv == self@,
                sv.len() == self.sources@.len(),
                spec_get_file(spec_list_files(sv, 0), path@) == spec_get_file(
                    spec_list_files(sv, i as int),
                    path@,
                ),
            decreases self.sources@.len() - i,
        {
            let s = &self.sources[i];
            proof {
                assert(sv[i as int] == self.sources@[i as int]@);
                lemma_get_file_concat(kind_files(sv[i as int]), spec_list_files(sv, i + 1), path@, 0);
                assert(spec_list_files(sv, i as int) == kind_files(sv[i as int])
                    + spec_list_files(sv, i + 1));
            }
            match s.get_file(path) {
                Ok(Some(f)) => {
                    return Ok(Some(f));
                },
                Ok(None) => {},
                Err(e) => {
                    proof {
                        assert(false);
                    }
                    return Err(e);
                },
            }
            i += 1;
        }
        Ok(None)
    }
}

} // verus!
