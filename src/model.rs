use crate::registry::Registry;
use vstd::prelude::*;

verus! {

/// The registry a package is published in, as a mathematical value.
pub enum RegistryV {
    CratesIo,
    Alternative(Seq<char>),
}

/// The key under which the workspace caches a package's source.
pub enum KeyV {
    Registry { registry: RegistryV, name: Seq<char>, version: Seq<char> },
    Git { url: Seq<char>, branch: Option<Seq<char>> },
}

/// A directory on disk: a cache entry of the workspace, or a path of its own.
pub enum LocV {
    Cache(KeyV),
    Dir(Seq<char>),
}

/// One step of work on disk or over the network.
pub enum StepV {
    RemoveDir(LocV),
    Download(KeyV),
    Clone(KeyV),
    Update(KeyV),
    Extract { archive: KeyV, to: Seq<char> },
    CopyDir { from: LocV, to: Seq<char>, skip_vcs: bool },
}

/// The files of a directory tree, as paths relative to its root.
pub type Files = Set<Seq<char>>;

/// The directories that exist, with their contents.
pub type Disk = Map<LocV, Files>;

/// What the registries and remote repositories serve, by cache key.
pub type Remote = Map<KeyV, Files>;

/// Why a step failed.
#[derive(Clone, Copy, Debug, PartialEq, Eq, Structural)]
pub enum ErrorKind {
    /// The version, branch or path that was asked for does not exist.
    NotFound,
    /// A registry download or a repository clone or update could not complete.
    Transport,
    /// Staging was asked for before the source was fetched.
    NotCached,
    /// Removing or copying a directory failed.
    Filesystem,
}

/// Whether a file belongs to version-control metadata (`.git` at the root).
pub open spec fn is_vcs_file(f: Seq<char>) -> bool {
    f.len() >= 4 && f.subrange(0, 4) == seq!['.', 'g', 'i', 't']
        && (f.len() == 4 || f[4] == '/')
}

/// The files of a tree without its version-control metadata.
pub open spec fn without_vcs(files: Files) -> Files {
    files.filter(|f: Seq<char>| !is_vcs_file(f))
}

/// The error reported when the source of a copy is absent.
pub open spec fn missing_error(from: LocV) -> ErrorKind {
    match from {
        LocV::Cache(_) => ErrorKind::NotCached,
        LocV::Dir(_) => ErrorKind::NotFound,
    }
}

/// The contents of a directory, empty where it does not exist.
pub open spec fn contents(disk: Disk, l: LocV) -> Files {
    if disk.contains_key(l) {
        disk[l]
    } else {
        Set::empty()
    }
}

/// Copying a tree into a directory: the files of the source join whatever the
/// destination already holds.
pub open spec fn place(disk: Disk, from: LocV, to: Seq<char>, skip_vcs: bool) -> Result<Disk, ErrorKind> {
    if disk.contains_key(from) {
        let moved = if skip_vcs { without_vcs(disk[from]) } else { disk[from] };
        Ok(disk.insert(LocV::Dir(to), contents(disk, LocV::Dir(to)).union(moved)))
    } else {
        Err(missing_error(from))
    }
}

/// Materialising what the remote serves for a key into its cache entry.
pub open spec fn materialize(disk: Disk, remote: Remote, k: KeyV) -> Result<Disk, ErrorKind> {
    if remote.contains_key(k) {
        Ok(disk.insert(LocV::Cache(k), remote[k]))
    } else {
        Err(ErrorKind::NotFound)
    }
}

/// The effect of one step.
pub open spec fn apply(disk: Disk, remote: Remote, s: StepV) -> Result<Disk, ErrorKind> {
    match s {
        StepV::RemoveDir(l) => Ok(disk.remove(l)),
        StepV::Download(k) => materialize(disk, remote, k),
        StepV::Clone(k) => materialize(disk, remote, k),
        StepV::Update(k) => if disk.contains_key(LocV::Cache(k)) {
            materialize(disk, remote, k)
        } else {
            Err(ErrorKind::NotCached)
        },
        StepV::Extract { archive, to } => place(disk, LocV::Cache(archive), to, false),
        StepV::CopyDir { from, to, skip_vcs } => place(disk, from, to, skip_vcs),
    }
}

/// The effect of steps run in order, stopping at the first that fails.
pub open spec fn run(disk: Disk, remote: Remote, steps: Seq<StepV>) -> Result<Disk, ErrorKind>
    decreases steps.len(),
{
    if steps.len() == 0 {
        Ok(disk)
    } else {
        match apply(disk, remote, steps[0]) {
            Ok(d) => run(d, remote, steps.drop_first()),
            Err(e) => Err(e),
        }
    }
}

/// The key under which the workspace caches a package's source.
#[derive(Debug)]
pub enum CacheKey {
    Registry { registry: Registry, name: String, version: String },
    Git { url: String, branch: Option<String> },
}

impl View for CacheKey {
    type V = KeyV;

    open spec fn view(&self) -> KeyV {
        match self {
            CacheKey::Registry { registry, name, version } => KeyV::Registry {
                registry: registry@,
                name: name@,
                version: version@,
            },
            CacheKey::Git { url, branch } => KeyV::Git {
                url: url@,
                branch: opt_view(*branch),
            },
        }
    }
}

/// The view of an optional string.
pub open spec fn opt_view(o: Option<String>) -> Option<Seq<char>> {
    match o {
        Some(s) => Some(s@),
        None => None,
    }
}

/// A directory: a cache entry of the workspace, or a path of its own.
#[derive(Debug)]
pub enum Location {
    Cache(CacheKey),
    Dir(String),
}

impl View for Location {
    type V = LocV;

    open spec fn view(&self) -> LocV {
        match self {
            Location::Cache(k) => LocV::Cache(k@),
            Location::Dir(p) => LocV::Dir(p@),
        }
    }
}

/// One step of work that the caller carries out on disk or over the network.
#[derive(Debug)]
pub enum Step {
    /// Remove a directory and all it holds; nothing happens where it is absent.
    RemoveDir(Location),
    /// Download a registry's archive of a package into its cache entry.
    Download(CacheKey),
    /// Clone a repository into its cache entry.
    Clone(CacheKey),
    /// Bring a cached clone up to date with the remote branch.
    Update(CacheKey),
    /// Unpack a cached archive into a directory.
    Extract { archive: CacheKey, to: String },
    /// Copy a directory tree into another, optionally without `.git`.
    CopyDir { from: Location, to: String, skip_vcs: bool },
}

impl View for Step {
    type V = StepV;

    open spec fn view(&self) -> StepV {
        match self {
            Step::RemoveDir(l) => StepV::RemoveDir(l@),
            Step::Download(k) => StepV::Download(k@),
            Step::Clone(k) => StepV::Clone(k@),
            Step::Update(k) => StepV::Update(k@),
            Step::Extract { archive, to } => StepV::Extract { archive: archive@, to: to@ },
            Step::CopyDir { from, to, skip_vcs } => StepV::CopyDir {
                from: from@,
                to: to@,
                skip_vcs: *skip_vcs,
            },
        }
    }
}

/// The view of a sequence of steps.
pub open spec fn steps_view(steps: Seq<Step>) -> Seq<StepV> {
    steps.map_values(|s: Step| s@)
}

} // verus!
