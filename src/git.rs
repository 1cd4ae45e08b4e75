use crate::model::{opt_view, steps_view, CacheKey, Location, Step};
use crate::package::CrateV;
use vstd::prelude::*;

verus! {

/// A package kept in a git repository, on a given branch or on the
/// repository's default branch.
#[derive(Debug)]
pub(crate) struct GitRepo {
    pub(crate) url: String,
    pub(crate) name: String,
    pub(crate) branch: Option<String>,
}

fn clone_opt(o: &Option<String>) -> (r: Option<String>)
    ensures
        opt_view(r) == opt_view(*o),
{
    match o {
        Some(s) => Some(s.clone()),
        None => None,
    }
}

impl GitRepo {
    pub(crate) open spec fn spec(&self) -> CrateV {
        CrateV::Git { url: self.url@, name: self.name@, branch: opt_view(self.branch) }
    }

    /// A repository followed on its default branch.
    pub(crate) fn new(url: &str, name: &str) -> (r: Self)
        ensures
            r.spec() == (CrateV::Git { url: url@, name: name@, branch: None }),
    {
        GitRepo { url: String::from_str(url), name: String::from_str(name), branch: None }
    }

    /// The same repository, followed on `branch`.
    pub(crate) fn branch(self, branch: &str) -> (r: Self)
        ensures
            r.spec() == (CrateV::Git { url: self.url@, name: self.name@, branch: Some(branch@) }),
    {
        GitRepo { url: self.url, name: self.name, branch: Some(String::from_str(branch)) }
    }

    /// The cache key: URL and branch.
    pub(crate) fn key(&self) -> (r: CacheKey)
        ensures
            self.spec().key() == Some(r@),
    {
        CacheKey::Git { url: self.url.clone(), branch: clone_opt(&self.branch) }
    }

    /// Clones the repository, or updates the clone that is cached.
    pub(crate) fn fetch(&self, cached: bool) -> (r: Vec<Step>)
        ensures
            steps_view(r@) == self.spec().fetch_plan(cached),
    {
        let mut steps: Vec<Step> = Vec::new();
        if cached {
            steps.push(Step::Update(self.key()));
        } else {
            steps.push(Step::Clone(self.key()));
        }
        assert(steps_view(steps@) =~= self.spec().fetch_plan(cached));
        steps
    }

    /// Removes the cached clone.
    pub(crate) fn purge_from_cache(&self) -> (r: Vec<Step>)
        ensures
            steps_view(r@) == self.spec().purge_plan(),
    {
        let mut steps: Vec<Step> = Vec::new();
        steps.push(Step::RemoveDir(Location::Cache(self.key())));
        assert(steps_view(steps@) =~= self.spec().purge_plan());
        steps
    }

    /// Copies the cached working tree, without `.git`, into `dest`.
    pub(crate) fn copy_source_to(&self, dest: &str) -> (r: Step)
        ensures
            r@ == self.spec().stage_step(dest@),
    {
        Step::CopyDir {
            from: Location::Cache(self.key()),
            to: String::from_str(dest),
            skip_vcs: true,
        }
    }

    pub(crate) fn describe(&self) -> (r: String)
        ensures
            r@ == self.spec().display(),
    {
        let head = String::from_str("git repo ").concat(self.url.as_str());
        match &self.branch {
            Some(b) => head.concat(" (branch ").concat(b.as_str()).concat(")"),
            None => head,
        }
    }
}

} // verus!
