use crate::git::GitRepo;
use crate::local::Local;
use crate::model::{opt_view, steps_view, CacheKey, Location, Step, run, without_vcs, Disk, ErrorKind, Files, KeyV, LocV, RegistryV, Remote, StepV};
use crate::registry::{AlternativeRegistry, Registry, RegistryCrate};
use vstd::prelude::*;

verus! {

/// A package source, as a mathematical value.
pub enum CrateV {
    Registry { registry: RegistryV, name: Seq<char>, version: Seq<char> },
    Git { url: Seq<char>, name: Seq<char>, branch: Option<Seq<char>> },
    Local { path: Seq<char>, name: Seq<char> },
}

impl CrateV {
    /// The package's name, the one attribute every kind of source has.
    pub open spec fn name(self) -> Seq<char> {
        match self {
            CrateV::Registry { name, .. } => name,
            CrateV::Git { name, .. } => name,
            CrateV::Local { name, .. } => name,
        }
    }

    /// The workspace cache key of a registry or git source; a local
    /// directory is never cached.
    pub open spec fn key(self) -> Option<KeyV> {
        match self {
            CrateV::Registry { registry, name, version } => Some(
                KeyV::Registry { registry, name, version },
            ),
            CrateV::Git { url, branch, .. } => Some(KeyV::Git { url, branch }),
            CrateV::Local { .. } => None,
        }
    }

    /// Whether the source's cache entry exists on `disk`.
    pub open spec fn is_cached(self, disk: Disk) -> bool {
        match self.key() {
            Some(k) => disk.contains_key(LocV::Cache(k)),
            None => false,
        }
    }

    /// What fetching does, given whether the cache entry already exists: a
    /// registry archive is downloaded once; a clone is made once and then
    /// brought up to date; a local directory needs nothing.
    pub open spec fn fetch_plan(self, cached: bool) -> Seq<StepV> {
        match self {
            CrateV::Registry { registry, name, version } => if cached {
                seq![]
            } else {
                seq![StepV::Download(KeyV::Registry { registry, name, version })]
            },
            CrateV::Git { url, branch, .. } => if cached {
                seq![StepV::Update(KeyV::Git { url, branch })]
            } else {
                seq![StepV::Clone(KeyV::Git { url, branch })]
            },
            CrateV::Local { .. } => seq![],
        }
    }

    /// What purging does: the cache entry goes; a local directory is left alone.
    pub open spec fn purge_plan(self) -> Seq<StepV> {
        match self.key() {
            Some(k) => seq![StepV::RemoveDir(LocV::Cache(k))],
            None => seq![],
        }
    }

    /// The step that puts the source tree into `dest`.
    pub open spec fn stage_step(self, dest: Seq<char>) -> StepV {
        match self {
            CrateV::Registry { registry, name, version } => StepV::Extract {
                archive: KeyV::Registry { registry, name, version },
                to: dest,
            },
            CrateV::Git { url, branch, .. } => StepV::CopyDir {
                from: LocV::Cache(KeyV::Git { url, branch }),
                to: dest,
                skip_vcs: true,
            },
            CrateV::Local { path, .. } => StepV::CopyDir {
                from: LocV::Dir(path),
                to: dest,
                skip_vcs: false,
            },
        }
    }

    /// What staging into `dest` does: an existing `dest` is removed first,
    /// whatever the source, then the source tree is put there.
    pub open spec fn copy_plan(self, dest: Seq<char>, dest_exists: bool) -> Seq<StepV> {
        if dest_exists {
            seq![StepV::RemoveDir(LocV::Dir(dest)), self.stage_step(dest)]
        } else {
            seq![self.stage_step(dest)]
        }
    }

    /// Where the source tree is read from when it is staged.
    pub open spec fn origin(self) -> LocV {
        match self {
            CrateV::Local { path, .. } => LocV::Dir(path),
            _ => LocV::Cache(self.key().unwrap()),
        }
    }

    /// The files that staging puts into a fresh directory, read from `disk`.
    pub open spec fn staged_files(self, disk: Disk) -> Files {
        match self {
            CrateV::Git { .. } => without_vcs(disk[self.origin()]),
            _ => disk[self.origin()],
        }
    }

    /// Fetching on `disk`, having looked whether the entry is cached.
    pub open spec fn fetch_on(self, disk: Disk, remote: Remote) -> Result<Disk, ErrorKind> {
        run(disk, remote, self.fetch_plan(self.is_cached(disk)))
    }

    /// Purging on `disk`.
    pub open spec fn purge_on(self, disk: Disk, remote: Remote) -> Result<Disk, ErrorKind> {
        run(disk, remote, self.purge_plan())
    }

    /// Staging into `dest` on `disk`, having looked whether `dest` exists.
    pub open spec fn copy_on(self, dest: Seq<char>, disk: Disk, remote: Remote) -> Result<
        Disk,
        ErrorKind,
    > {
        run(disk, remote, self.copy_plan(dest, disk.contains_key(LocV::Dir(dest))))
    }

    /// The human-readable identity of the source.
    pub open spec fn display(self) -> Seq<char> {
        match self {
            CrateV::Registry { registry: RegistryV::CratesIo, name, version } => "crates.io crate "@
                + name + " "@ + version,
            CrateV::Registry { registry: RegistryV::Alternative(index), name, version } =>
                "registry "@ + index + " crate "@ + name + " "@ + version,
            CrateV::Git { url, branch: None, .. } => "git repo "@ + url,
            CrateV::Git { url, branch: Some(b), .. } => "git repo "@ + url + " (branch "@ + b
                + ")"@,
            CrateV::Local { path, .. } => "local crate "@ + path,
        }
    }
}

#[derive(Debug)]
enum CrateType {
    Registry(RegistryCrate),
    Git(GitRepo),
    Local(Local),
}

/// A package that can be fetched into a workspace's cache and staged into a
/// build directory.
///
/// None of its methods touches the disk or the network: each returns the
/// steps to carry out, given what the caller found on disk, and `run` in the
/// model states what those steps do.
#[derive(Debug)]
pub struct Crate {
    kind: CrateType,
}

impl View for Crate {
    type V = CrateV;

    closed spec fn view(&self) -> CrateV {
        match self.kind {
            CrateType::Registry(k) => k.spec(),
            CrateType::Git(r) => r.spec(),
            CrateType::Local(l) => l.spec(),
        }
    }
}

impl Crate {
    #[verifier::type_invariant]
    closed spec fn inv(self) -> bool {
        self@.name().len() > 0
    }

    /// The name of the package.
    pub fn name(&self) -> (r: &str)
        ensures
            r@ == self@.name(),
            r@.len() > 0,
    {
        proof {
            use_type_invariant(self);
        }
        match &self.kind {
            CrateType::Registry(k) => k.name.as_str(),
            CrateType::Git(r) => r.name.as_str(),
            CrateType::Local(l) => l.name.as_str(),
        }
    }

    /// A package version published in an alternative registry.
    pub fn registry(registry: AlternativeRegistry, name: &str, version: &str) -> (r: Self)
        requires
            name@.len() > 0,
        ensures
            r@ == (CrateV::Registry {
                registry: RegistryV::Alternative(registry@),
                name: name@,
                version: version@,
            }),
    {
        Crate {
            kind: CrateType::Registry(
                RegistryCrate::new(Registry::Alternative(registry), name, version),
            ),
        }
    }

    /// A package version published on crates.io.
    pub fn crates_io(name: &str, version: &str) -> (r: Self)
        requires
            name@.len() > 0,
        ensures
            r@ == (CrateV::Registry { registry: RegistryV::CratesIo, name: name@, version: version@ }),
    {
        Crate { kind: CrateType::Registry(RegistryCrate::new(Registry::CratesIo, name, version)) }
    }

    /// A package in the git repository cloned from `url`, on its default branch.
    pub fn git(url: &str, name: &str) -> (r: Self)
        requires
            name@.len() > 0,
        ensures
            r@ == (CrateV::Git { url: url@, name: name@, branch: None }),
    {
        Crate { kind: CrateType::Git(GitRepo::new(url, name)) }
    }

    /// A package in the git repository cloned from `url`, on `branch`.
    pub fn git_branch(url: &str, name: &str, branch: &str) -> (r: Self)
        requires
            name@.len() > 0,
        ensures
            r@ == (CrateV::Git { url: url@, name: name@, branch: Some(branch@) }),
    {
        Crate { kind: CrateType::Git(GitRepo::new(url, name).branch(branch)) }
    }

    /// A package whose source is the local directory at `path`.
    pub fn local(path: &str, name: &str) -> (r: Self)
        requires
            name@.len() > 0,
        ensures
            r@ == (CrateV::Local { path: path@, name: name@ }),
    {
        Crate { kind: CrateType::Local(Local::new(path, name)) }
    }

    /// The workspace cache key of the package; `None` for a local directory.
    /// The caller looks whether that entry exists before fetching.
    pub fn cache_key(&self) -> (r: Option<CacheKey>)
        ensures
            match r {
                Some(k) => self@.key() == Some(k@),
                None => self@.key() is None,
            },
    {
        match &self.kind {
            CrateType::Registry(k) => Some(k.key()),
            CrateType::Git(r) => Some(r.key()),
            CrateType::Local(_) => None,
        }
    }

    /// The steps that fetch the package into the workspace cache, given
    /// whether its cache entry exists.
    pub fn fetch(&self, cached: bool) -> (r: Vec<Step>)
        ensures
            steps_view(r@) == self@.fetch_plan(cached),
    {
        match &self.kind {
            CrateType::Registry(k) => k.fetch(cached),
            CrateType::Git(r) => r.fetch(cached),
            CrateType::Local(l) => l.fetch(),
        }
    }

    /// The steps that remove the package from the workspace cache; nothing
    /// fails where it is not cached.
    pub fn purge_from_cache(&self) -> (r: Vec<Step>)
        ensures
            steps_view(r@) == self@.purge_plan(),
    {
        match &self.kind {
            CrateType::Registry(k) => k.purge_from_cache(),
            CrateType::Git(r) => r.purge_from_cache(),
            CrateType::Local(l) => l.purge_from_cache(),
        }
    }

    /// Where the package's commit can be looked up: the cached clone of a
    /// git package, and nothing for any other.
    pub fn commit_source(&self) -> (r: Option<CacheKey>)
        ensures
            match r {
                Some(k) => self@ is Git && self@.key() == Some(k@),
                None => !(self@ is Git),
            },
    {
        match &self.kind {
            CrateType::Git(r) => Some(r.key()),
            _ => None,
        }
    }

    /// The package's commit, best effort: `head` is what looking up the
    /// current commit of the cached clone gave (`None` where that failed).
    /// Only a git package has a commit, and an empty answer is no answer.
    pub fn git_commit(&self, head: Option<String>) -> (r: Option<String>)
        ensures
            !(self@ is Git) ==> r is None,
            self@ is Git ==> opt_view(r) == match opt_view(head) {
                Some(h) => if h.len() > 0 {
                    Some(h)
                } else {
                    None
                },
                None => None,
            },
    {
        match &self.kind {
            CrateType::Git(_) => match head {
                Some(h) => if h.as_str().unicode_len() > 0 {
                    Some(h)
                } else {
                    None
                },
                None => None,
            },
            _ => None,
        }
    }

    /// The steps that stage the package's source tree into `dest`, given
    /// whether `dest` exists. An existing `dest` is removed first, with all
    /// it holds, whatever the kind of source: the caller must own `dest`
    /// alone.
    pub fn copy_source_to(&self, dest: &str, dest_exists: bool) -> (r: Vec<Step>)
        ensures
            steps_view(r@) == self@.copy_plan(dest@, dest_exists),
    {
        let mut steps: Vec<Step> = Vec::new();
        if dest_exists {
            steps.push(Step::RemoveDir(Location::Dir(String::from_str(dest))));
        }
        let stage = match &self.kind {
            CrateType::Registry(k) => k.copy_source_to(dest),
            CrateType::Git(r) => r.copy_source_to(dest),
            CrateType::Local(l) => l.copy_source_to(dest),
        };
        steps.push(stage);
        assert(steps_view(steps@) =~= self@.copy_plan(dest@, dest_exists));
        steps
    }

    /// The human-readable identity of the package, for logs and messages.
    pub fn describe(&self) -> (r: String)
        ensures
            r@ == self@.display(),
    {
        match &self.kind {
            CrateType::Registry(k) => k.describe(),
            CrateType::Git(r) => r.describe(),
            CrateType::Local(l) => l.describe(),
        }
    }
}

} // verus!
