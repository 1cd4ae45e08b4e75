use crate_source::{AlternativeRegistry, CacheKey, Crate, ErrorKind, Location, Registry, Step};
use std::collections::{BTreeSet, HashMap};

fn key_id(k: &CacheKey) -> String {
    match k {
        CacheKey::Registry { registry, name, version } => {
            let reg = match registry {
                Registry::CratesIo => "crates.io".to_string(),
                Registry::Alternative(a) => a.index().to_string(),
            };
            format!("reg:{}:{}:{}", reg, name, version)
        }
        CacheKey::Git { url, branch } => format!("git:{}:{:?}", url, branch),
    }
}

fn loc_id(l: &Location) -> String {
    match l {
        Location::Cache(k) => format!("cache/{}", key_id(k)),
        Location::Dir(p) => format!("dir/{}", p),
    }
}

/// A disk of directories, each a set of relative file paths, and a remote
/// that serves trees by cache key.
#[derive(Clone, Debug, PartialEq)]
struct Sim {
    disk: HashMap<String, BTreeSet<String>>,
    remote: HashMap<String, BTreeSet<String>>,
}

fn files(names: &[&str]) -> BTreeSet<String> {
    names.iter().map(|s| s.to_string()).collect()
}

impl Sim {
    fn new() -> Sim {
        Sim { disk: HashMap::new(), remote: HashMap::new() }
    }

    fn has(&self, l: &Location) -> bool {
        self.disk.contains_key(&loc_id(l))
    }

    fn cached(&self, c: &Crate) -> bool {
        match c.cache_key() {
            Some(k) => self.has(&Location::Cache(k)),
            None => false,
        }
    }

    fn place(&mut self, from: String, to: &str, skip_vcs: bool, missing: ErrorKind) -> Result<(), ErrorKind> {
        let src = self.disk.get(&from).cloned().ok_or(missing)?;
        let dest = self.disk.entry(format!("dir/{}", to)).or_default();
        for f in src {
            if !(skip_vcs && (f == ".git" || f.starts_with(".git/"))) {
                dest.insert(f);
            }
        }
        Ok(())
    }

    fn step(&mut self, s: &Step) -> Result<(), ErrorKind> {
        match s {
            Step::RemoveDir(l) => {
                self.disk.remove(&loc_id(l));
                Ok(())
            }
            Step::Download(k) | Step::Clone(k) => {
                let tree = self.remote.get(&key_id(k)).cloned().ok_or(ErrorKind::NotFound)?;
                self.disk.insert(format!("cache/{}", key_id(k)), tree);
                Ok(())
            }
            Step::Update(k) => {
                if !self.disk.contains_key(&format!("cache/{}", key_id(k))) {
                    return Err(ErrorKind::NotCached);
                }
                let tree = self.remote.get(&key_id(k)).cloned().ok_or(ErrorKind::NotFound)?;
                self.disk.insert(format!("cache/{}", key_id(k)), tree);
                Ok(())
            }
            Step::Extract { archive, to } => {
                self.place(format!("cache/{}", key_id(archive)), to, false, ErrorKind::NotCached)
            }
            Step::CopyDir { from, to, skip_vcs } => {
                let missing = match from {
                    Location::Cache(_) => ErrorKind::NotCached,
                    Location::Dir(_) => ErrorKind::NotFound,
                };
                self.place(loc_id(from), to, *skip_vcs, missing)
            }
        }
    }

    fn run(&mut self, steps: &[Step]) -> Result<(), ErrorKind> {
        for s in steps {
            self.step(s)?;
        }
        Ok(())
    }

    fn fetch(&mut self, c: &Crate) -> Result<(), ErrorKind> {
        let steps = c.fetch(self.cached(c));
        self.run(&steps)
    }

    fn purge(&mut self, c: &Crate) -> Result<(), ErrorKind> {
        let steps = c.purge_from_cache();
        self.run(&steps)
    }

    fn copy(&mut self, c: &Crate, dest: &str) -> Result<(), ErrorKind> {
        let exists = self.disk.contains_key(&format!("dir/{}", dest));
        let steps = c.copy_source_to(dest, exists);
        self.run(&steps)
    }

    fn dir(&self, p: &str) -> Option<&BTreeSet<String>> {
        self.disk.get(&format!("dir/{}", p))
    }
}

fn serve(sim: &mut Sim, c: &Crate, tree: &[&str]) {
    let k = c.cache_key().expect("a cached kind of source");
    sim.remote.insert(key_id(&k), files(tree));
}

#[test]
fn name_is_the_given_name_for_every_constructor() {
    assert_eq!(Crate::crates_io("left-pad", "1.0.0").name(), "left-pad");
    let alt = AlternativeRegistry::new("https://example.com/index");
    assert_eq!(Crate::registry(alt, "serde", "1.0.0").name(), "serde");
    assert_eq!(Crate::git("https://example.com/r.git", "r").name(), "r");
    assert_eq!(Crate::git_branch("https://example.com/r.git", "rb", "dev").name(), "rb");
    assert_eq!(Crate::local("/src/pkg", "pkg").name(), "pkg");
}

#[test]
fn registry_fetch_and_copy_puts_manifest_at_root() {
    let mut sim = Sim::new();
    let c = Crate::crates_io("left-pad", "1.0.0");
    serve(&mut sim, &c, &["Cargo.toml", "src/lib.rs"]);
    sim.disk.insert("dir/build".to_string(), BTreeSet::new());
    assert_eq!(sim.fetch(&c), Ok(()));
    assert_eq!(sim.copy(&c, "build"), Ok(()));
    assert!(sim.dir("build").unwrap().contains("Cargo.toml"));
}

#[test]
fn registry_fetch_downloads_only_when_not_cached() {
    let c = Crate::crates_io("left-pad", "1.0.0");
    let steps = c.fetch(false);
    assert_eq!(steps.len(), 1);
    match &steps[0] {
        Step::Download(CacheKey::Registry { registry: Registry::CratesIo, name, version }) => {
            assert_eq!(name, "left-pad");
            assert_eq!(version, "1.0.0");
        }
        other => panic!("unexpected step {:?}", other),
    }
    assert!(c.fetch(true).is_empty());
}

#[test]
fn alternative_registry_key_keeps_index() {
    let c = Crate::registry(AlternativeRegistry::new("https://example.com/index"), "serde", "1.0.1");
    match c.cache_key() {
        Some(CacheKey::Registry { registry: Registry::Alternative(a), name, version }) => {
            assert_eq!(a.index(), "https://example.com/index");
            assert_eq!(name, "serde");
            assert_eq!(version, "1.0.1");
        }
        other => panic!("unexpected key {:?}", other),
    }
}

#[test]
fn git_fetch_then_commit_is_nonempty() {
    let mut sim = Sim::new();
    let c = Crate::git("https://example.com/r.git", "r");
    serve(&mut sim, &c, &["Cargo.toml", ".git/HEAD"]);
    assert_eq!(sim.fetch(&c), Ok(()));
    let source = c.commit_source().expect("a git package has a commit source");
    assert!(sim.has(&Location::Cache(source)));
    let commit = c.git_commit(Some("3f4e2a1b9c".to_string()));
    assert_eq!(commit.as_deref(), Some("3f4e2a1b9c"));
}

#[test]
fn git_commit_empty_or_failed_lookup_is_none() {
    let c = Crate::git("https://example.com/r.git", "r");
    assert_eq!(c.git_commit(Some(String::new())), None);
    assert_eq!(c.git_commit(None), None);
}

#[test]
fn git_fetch_clones_then_updates() {
    let c = Crate::git_branch("https://example.com/r.git", "r", "dev");
    let first = c.fetch(false);
    let again = c.fetch(true);
    assert!(matches!(&first[..], [Step::Clone(CacheKey::Git { branch: Some(b), .. })] if b == "dev"));
    assert!(matches!(&again[..], [Step::Update(CacheKey::Git { .. })]));
}

#[test]
fn git_missing_branch_fetch_is_not_found() {
    let mut sim = Sim::new();
    let main = Crate::git("https://example.com/r.git", "r");
    serve(&mut sim, &main, &["Cargo.toml"]);
    let c = Crate::git_branch("https://example.com/r.git", "r", "no-such-branch");
    assert_eq!(sim.fetch(&c), Err(ErrorKind::NotFound));
    assert!(!sim.cached(&c));
}

#[test]
fn copy_removes_stale_files() {
    let mut sim = Sim::new();
    let c = Crate::crates_io("left-pad", "1.0.0");
    serve(&mut sim, &c, &["Cargo.toml"]);
    sim.disk.insert("dir/build".to_string(), files(&["stale.txt"]));
    sim.fetch(&c).unwrap();
    let steps = c.copy_source_to("build", true);
    assert!(matches!(&steps[0], Step::RemoveDir(Location::Dir(p)) if p == "build"));
    sim.run(&steps).unwrap();
    assert!(!sim.dir("build").unwrap().contains("stale.txt"));
    assert_eq!(sim.dir("build").unwrap(), &files(&["Cargo.toml"]));
}

#[test]
fn copy_without_existing_destination_does_not_remove() {
    let c = Crate::local("/src/pkg", "pkg");
    let steps = c.copy_source_to("build", false);
    assert_eq!(steps.len(), 1);
    assert!(matches!(&steps[0], Step::CopyDir { from: Location::Dir(p), to, skip_vcs: false } if p == "/src/pkg" && to == "build"));
}

#[test]
fn fetch_twice_equals_fetch_once() {
    for c in [Crate::crates_io("a", "1.0.0"), Crate::git("https://example.com/a.git", "a")] {
        let mut sim = Sim::new();
        serve(&mut sim, &c, &["Cargo.toml", ".git/HEAD"]);
        sim.fetch(&c).unwrap();
        let once = sim.clone();
        sim.fetch(&c).unwrap();
        assert_eq!(sim, once);
    }
}

#[test]
fn purge_then_fetch_restores_entry() {
    let mut sim = Sim::new();
    let c = Crate::crates_io("a", "1.0.0");
    serve(&mut sim, &c, &["Cargo.toml", "src/lib.rs"]);
    sim.fetch(&c).unwrap();
    sim.copy(&c, "one").unwrap();
    assert_eq!(sim.purge(&c), Ok(()));
    assert!(!sim.cached(&c));
    assert_eq!(sim.copy(&c, "two"), Err(ErrorKind::NotCached));
    sim.fetch(&c).unwrap();
    sim.copy(&c, "two").unwrap();
    assert_eq!(sim.dir("one"), sim.dir("two"));
}

#[test]
fn purge_when_not_cached_is_ok() {
    let mut sim = Sim::new();
    let c = Crate::git("https://example.com/a.git", "a");
    assert_eq!(sim.purge(&c), Ok(()));
}

#[test]
fn restaging_leaves_only_second_package() {
    let mut sim = Sim::new();
    let a = Crate::crates_io("a", "1.0.0");
    let b = Crate::git("https://example.com/b.git", "b");
    serve(&mut sim, &a, &["Cargo.toml", "src/a.rs"]);
    serve(&mut sim, &b, &["Cargo.toml", "src/b.rs", ".git/HEAD"]);
    sim.fetch(&a).unwrap();
    sim.fetch(&b).unwrap();
    sim.copy(&a, "build").unwrap();
    sim.copy(&b, "build").unwrap();
    assert_eq!(sim.dir("build").unwrap(), &files(&["Cargo.toml", "src/b.rs"]));
}

#[test]
fn git_commit_is_none_for_registry_and_local() {
    let r = Crate::crates_io("a", "1.0.0");
    let l = Crate::local("/src/a", "a");
    assert_eq!(r.git_commit(Some("abc".to_string())), None);
    assert_eq!(l.git_commit(Some("abc".to_string())), None);
    assert!(r.commit_source().is_none());
    assert!(l.commit_source().is_none());
}

#[test]
fn local_fetch_and_purge_do_nothing() {
    let c = Crate::local("/does/not/exist", "x");
    assert!(c.fetch(false).is_empty());
    assert!(c.fetch(true).is_empty());
    assert!(c.purge_from_cache().is_empty());
    assert!(c.cache_key().is_none());
}

#[test]
fn local_copy_fails_exactly_when_path_missing() {
    let mut sim = Sim::new();
    let c = Crate::local("/src/pkg", "pkg");
    assert_eq!(sim.copy(&c, "build"), Err(ErrorKind::NotFound));
    sim.disk.insert("dir//src/pkg".to_string(), files(&["Cargo.toml"]));
    assert_eq!(sim.copy(&c, "build"), Ok(()));
    assert_eq!(sim.dir("build").unwrap(), &files(&["Cargo.toml"]));
}

#[test]
fn registry_copy_before_fetch_is_not_cached() {
    let mut sim = Sim::new();
    let c = Crate::crates_io("a", "1.0.0");
    assert_eq!(sim.copy(&c, "build"), Err(ErrorKind::NotCached));
}

#[test]
fn describe_each_kind() {
    assert_eq!(Crate::crates_io("left-pad", "1.0.0").describe(), "crates.io crate left-pad 1.0.0");
    let alt = AlternativeRegistry::new("https://example.com/index");
    assert_eq!(
        Crate::registry(alt, "serde", "1.0.0").describe(),
        "registry https://example.com/index crate serde 1.0.0"
    );
    assert_eq!(Crate::git("https://example.com/r.git", "r").describe(), "git repo https://example.com/r.git");
    assert_eq!(
        Crate::git_branch("https://example.com/r.git", "r", "dev").describe(),
        "git repo https://example.com/r.git (branch dev)"
    );
    assert_eq!(Crate::local("/src/pkg", "pkg").describe(), "local crate /src/pkg");
}
