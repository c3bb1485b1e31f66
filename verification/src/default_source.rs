//! The always-present baseline source.

use vstd::prelude::*;
use crate::errors::{ErrorData, SourceError};
use crate::source::{
    files_views, kinds_views, spec_get_file, Source, SourceFetch, SourceFile, SourceFileData,
    SourceKind, SourceKindData,
};

verus! {

/// An empty source resolves no path: every lookup on the default source
/// returns absence.
pub proof fn lemma_empty_source_get_file(p: Seq<char>)
    ensures
        spec_get_file(Seq::empty(), p) is None,
{
}

/// The baseline source that ships with the tool: always available, fetched
/// at no cost, and currently contributing no files — a deliberate extension
/// point for embedding built-in plugin definitions.
#[derive(Debug, Clone, Copy)]
pub struct DefaultSource {}

impl SourceFetch for DefaultSource {
    open spec fn fetch_model(&self) -> Option<ErrorData> {
        None
    }

    open spec fn sources_model(&self) -> Seq<SourceKindData> {
        Seq::empty()
    }

    fn fetch(&self) -> (r: Result<(), SourceError>) {
        Ok(())
    }

    fn sources(&self) -> (r: Vec<SourceKind>) {
        let r: Vec<SourceKind> = Vec::new();
        proof {
            assert(kinds_views(r@) =~= Seq::<SourceKindData>::empty());
        }
        r
    }
}

impl Source for DefaultSource {
    open spec fn files_model(&self) -> Seq<SourceFileData> {
        Seq::empty()
    }

    fn files(&self) -> (r: Result<Vec<SourceFile>, SourceError>) {
        let v: Vec<SourceFile> = Vec::new();
        proof {
            assert(files_views(v@) =~= Seq::<SourceFileData>::empty());
        }
        Ok(v)
    }

    fn get_file(&self, path: &str) -> (r: Result<Option<SourceFile>, SourceError>) {
        proof {
            assert(spec_get_file(self.files_model(), path@) is None);
        }
        Ok(None)
    }
}

} // verus!
