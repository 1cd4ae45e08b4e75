use crate::model::{steps_view, Location, Step};
use crate::package::CrateV;
use vstd::prelude::*;

verus! {

/// A package whose source is a directory on the local filesystem.
#[derive(Debug)]
pub(crate) struct Local {
    pub(crate) path: String,
    pub(crate) name: String,
}

impl Local {
    pub(crate) open spec fn spec(&self) -> CrateV {
        CrateV::Local { path: self.path@, name: self.name@ }
    }

    pub(crate) fn new(path: &str, name: &str) -> (r: Self)
        ensures
            r.spec() == (CrateV::Local { path: path@, name: name@ }),
    {
        Local { path: String::from_str(path), name: String::from_str(name) }
    }

    /// Nothing to fetch: the source is already on disk.
    pub(crate) fn fetch(&self) -> (r: Vec<Step>)
        ensures
            forall|cached: bool| steps_view(r@) == #[trigger] self.spec().fetch_plan(cached),
    {
        let steps: Vec<Step> = Vec::new();
        assert(steps_view(steps@) =~= self.spec().fetch_plan(false));
        steps
    }

    /// Nothing to purge: the directory is not the workspace's.
    pub(crate) fn purge_from_cache(&self) -> (r: Vec<Step>)
        ensures
            steps_view(r@) == self.spec().purge_plan(),
    {
        let steps: Vec<Step> = Vec::new();
        assert(steps_view(steps@) =~= self.spec().purge_plan());
        steps
    }

    /// Copies the directory into `dest`.
    pub(crate) fn copy_source_to(&self, dest: &str) -> (r: Step)
        ensures
            r@ == self.spec().stage_step(dest@),
    {
        Step::CopyDir {
            from: Location::Dir(self.path.clone()),
            to: String::from_str(dest),
            skip_vcs: false,
        }
    }

    pub(crate) fn describe(&self) -> (r: String)
        ensures
            r@ == self.spec().display(),
    {
        String::from_str("local crate ").concat(self.path.as_str())
    }
}

} // verus!
