//! A source whose content stands in memory as plain values: the shape in
//! which any fetched source's files reach this library.

use vstd::prelude::*;
use crate::errors::{ErrorData, SourceError};
use crate::source::{
    clone_files, files_views, kinds_views, spec_get_file_from, Source, SourceFetch, SourceFile,
    SourceFileData, SourceKind, SourceKindData,
};

verus! {

/// Model of an in-memory source.
pub struct MemorySourceData {
    pub files: Seq<SourceFileData>,
    pub fetch_err: Option<ErrorData>,
}

/// A source holding its files directly. A declared outside source, once
/// fetched, is read through one of these; `fetch_err` models a source whose
/// content cannot be made available.
#[derive(Debug)]
pub struct MemorySource {
    pub files: Vec<SourceFile>,
    pub fetch_err: Option<SourceError>,
}

impl View for MemorySource {
    type V = MemorySourceData;

    open spec fn view(&self) -> MemorySourceData {
        MemorySourceData {
            files: files_views(self.files@),
            fetch_err: match self.fetch_err {
                Some(e) => Some(e@),
                None => None,
            },
        }
    }
}

impl MemorySource {
    /// A source that fetches successfully and provides `files`.
    pub fn new(files: Vec<SourceFile>) -> (r: MemorySource)
        ensures
            r@.files == files_views(files@),
            r@.fetch_err is None,
    {
        MemorySource { files, fetch_err: None }
    }

    /// A source whose fetch fails with `error`.
    pub fn failing(error: SourceError) -> (r: MemorySource)
        ensures
            r@.files == Seq::<SourceFileData>::empty(),
            r@.fetch_err == Some(error@),
    {
        let v: Vec<SourceFile> = Vec::new();
        proof {
            assert(files_views(v@) =~= Seq::<SourceFileData>::empty());
        }
        MemorySource { files: v, fetch_err: Some(error) }
    }
}

impl Clone for MemorySource {
    fn clone(&self) -> (r: Self)
        ensures
            r@ == self@,
    {
        MemorySource {
            files: clone_files(&self.files),
            fetch_err: match &self.fetch_err {
                Some(e) => Some(e.clone()),
                None => None,
            },
        }
    }
}

impl SourceFetch for MemorySource {
    open spec fn fetch_model(&self) -> Option<ErrorData> {
        self@.fetch_err
    }

    open spec fn sources_model(&self) -> Seq<SourceKindData> {
        Seq::empty()
    }

    fn fetch(&self) -> (r: Result<(), SourceError>) {
        match &self.fetch_err {
            Some(e) => Err(e.clone()),
            None => Ok(()),
        }
    }

    fn sources(&self) -> (r: Vec<SourceKind>) {
        let r: Vec<SourceKind> = Vec::new();
        proof {
            assert(kinds_views(r@) =~= Seq::<SourceKindData>::empty());
        }
        r
    }
}

impl Source for MemorySource {
    open spec fn files_model(&self) -> Seq<SourceFileData> {
        self@.files
    }

    fn files(&self) -> (r: Result<Vec<SourceFile>, SourceError>) {
        Ok(clone_files(&self.files))
    }

    fn get_file(&self, path: &str) -> (r: Result<Option<SourceFile>, SourceError>) {
        let ghost fv = files_views(self.files@);
        let p = path.to_owned();
        let mut i: usize = 0;
        while i < self.files.len()
            invariant
                0 <= i <= self.files@.len(),
                fv == files_views(self.files@),
                p@ == path@,
                spec_get_file_from(fv, path@, 0) == spec_get_file_from(fv, path@, i as int),
            decreases self.files@.len() - i,
        {
            if self.files[i].path == p {
                proof {
                    assert(fv[i as int] == self.files@[i as int]@);
                    assert(spec_get_file_from(fv, path@, i as int) == Some(fv[i as int]));
                }
                return Ok(Some(self.files[i].clone()));
            }
            proof {
                assert(fv[i as int] == self.files@[i as int]@);
                assert(fv[i as int].path != path@);
            }
            i += 1;
        }
        Ok(None)
    }
}

} // verus!
