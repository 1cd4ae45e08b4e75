use crate::model::{steps_view, CacheKey, Location, RegistryV, Step};
use crate::package::CrateV;
use vstd::prelude::*;

verus! {

/// A registry other than crates.io, identified by the URL of its index.
#[derive(Debug)]
pub struct AlternativeRegistry {
    index: String,
}

impl View for AlternativeRegistry {
    type V = Seq<char>;

    closed spec fn view(&self) -> Seq<char> {
        self.index@
    }
}

impl AlternativeRegistry {
    /// A registry whose index lives at `index`.
    pub fn new(index: &str) -> (r: Self)
        ensures
            r@ == index@,
    {
        AlternativeRegistry { index: String::from_str(index) }
    }

    /// The URL of the registry's index.
    pub fn index(&self) -> (r: &str)
        ensures
            r@ == self@,
    {
        self.index.as_str()
    }
}

impl Clone for AlternativeRegistry {
    fn clone(&self) -> (r: Self)
        ensures
            r@ == self@,
    {
        AlternativeRegistry { index: self.index.clone() }
    }
}

/// The registry a package is published in.
#[derive(Debug)]
pub enum Registry {
    CratesIo,
    Alternative(AlternativeRegistry),
}

impl View for Registry {
    type V = RegistryV;

    open spec fn view(&self) -> RegistryV {
        match self {
            Registry::CratesIo => RegistryV::CratesIo,
            Registry::Alternative(a) => RegistryV::Alternative(a@),
        }
    }
}

impl Clone for Registry {
    fn clone(&self) -> (r: Self)
        ensures
            r@ == self@,
    {
        match self {
            Registry::CratesIo => Registry::CratesIo,
            Registry::Alternative(a) => Registry::Alternative(a.clone()),
        }
    }
}

/// A package version published in a registry.
#[derive(Debug)]
pub(crate) struct RegistryCrate {
    pub(crate) registry: Registry,
    pub(crate) name: String,
    pub(crate) version: String,
}

impl RegistryCrate {
    pub(crate) open spec fn spec(&self) -> CrateV {
        CrateV::Registry { registry: self.registry@, name: self.name@, version: self.version@ }
    }

    pub(crate) fn new(registry: Registry, name: &str, version: &str) -> (r: Self)
        ensures
            r.spec() == (CrateV::Registry { registry: registry@, name: name@, version: version@ }),
    {
        RegistryCrate { registry, name: String::from_str(name), version: String::from_str(version) }
    }

    /// The cache key: registry, name and exact version.
    pub(crate) fn key(&self) -> (r: CacheKey)
        ensures
            self.spec().key() == Some(r@),
    {
        CacheKey::Registry {
            registry: self.registry.clone(),
            name: self.name.clone(),
            version: self.version.clone(),
        }
    }

    /// Downloads the archive unless it is already cached.
    pub(crate) fn fetch(&self, cached: bool) -> (r: Vec<Step>)
        ensures
            steps_view(r@) == self.spec().fetch_plan(cached),
    {
        let mut steps: Vec<Step> = Vec::new();
        if !cached {
            steps.push(Step::Download(self.key()));
        }
        assert(steps_view(steps@) =~= self.spec().fetch_plan(cached));
        steps
    }

    /// Removes the cached archive.
    pub(crate) fn purge_from_cache(&self) -> (r: Vec<Step>)
        ensures
            steps_view(r@) == self.spec().purge_plan(),
    {
        let mut steps: Vec<Step> = Vec::new();
        steps.push(Step::RemoveDir(Location::Cache(self.key())));
        assert(steps_view(steps@) =~= self.spec().purge_plan());
        steps
    }

    /// Unpacks the cached archive into `dest`.
    pub(crate) fn copy_source_to(&self, dest: &str) -> (r: Step)
        ensures
            r@ == self.spec().stage_step(dest@),
    {
        Step::Extract { archive: self.key(), to: String::from_str(dest) }
    }

    pub(crate) fn describe(&self) -> (r: String)
        ensures
            r@ == self.spec().display(),
    {
        let head = match &self.registry {
            Registry::CratesIo => String::from_str("crates.io crate "),
            Registry::Alternative(a) => String::from_str("registry ").concat(a.index()).concat(
                " crate ",
            ),
        };
        head.concat(self.name.as_str()).concat(" ").concat(self.version.as_str())
    }
}

} // verus!
