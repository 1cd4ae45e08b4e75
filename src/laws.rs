use crate::model::{apply, contents, missing_error, run, Disk, ErrorKind, LocV, Remote, StepV};
use crate::package::CrateV;
use vstd::prelude::*;

verus! {

proof fn lemma_run_empty(disk: Disk, remote: Remote)
    ensures
        run(disk, remote, seq![]) == Ok::<Disk, ErrorKind>(disk),
{
}

proof fn lemma_run_one(disk: Disk, remote: Remote, s: StepV)
    ensures
        run(disk, remote, seq![s]) == apply(disk, remote, s),
{
    let steps = seq![s];
    assert(steps.drop_first() =~= seq![]);
    match apply(disk, remote, s) {
        Ok(d) => lemma_run_empty(d, remote),
        Err(_) => {},
    }
}

proof fn lemma_run_two(disk: Disk, remote: Remote, s: StepV, t: StepV)
    ensures
        run(disk, remote, seq![s, t]) == match apply(disk, remote, s) {
            Ok(d) => apply(d, remote, t),
            Err(e) => Err(e),
        },
{
    let steps = seq![s, t];
    assert(steps.drop_first() =~= seq![t]);
    match apply(disk, remote, s) {
        Ok(d) => lemma_run_one(d, remote, t),
        Err(_) => {},
    }
}

/// Fetching twice in a row leaves the disk as fetching once did, so whatever
/// is staged afterwards is the same too.
pub proof fn lemma_fetch_idempotent(c: CrateV, disk: Disk, remote: Remote)
    ensures
        c.fetch_on(disk, remote) matches Ok(d1) ==> c.fetch_on(d1, remote) == Ok::<Disk, ErrorKind>(
            d1,
        ),
        c.fetch_on(disk, remote) matches Ok(d1) ==> (c.fetch_on(d1, remote) matches Ok(d2)
            ==> forall|dest: Seq<char>| #[trigger]
            c.copy_on(dest, d2, remote) == c.copy_on(dest, d1, remote)),
{
    if let Ok(d1) = c.fetch_on(disk, remote) {
        match c {
            CrateV::Registry { .. } => {
                lemma_run_one(disk, remote, c.fetch_plan(false)[0]);
                lemma_run_empty(disk, remote);
                lemma_run_empty(d1, remote);
            },
            CrateV::Git { .. } => {
                let k = c.key().unwrap();
                lemma_run_one(disk, remote, c.fetch_plan(c.is_cached(disk))[0]);
                assert(c.fetch_plan(c.is_cached(disk)) =~= seq![c.fetch_plan(c.is_cached(disk))[0]]);
                assert(d1 == disk.insert(LocV::Cache(k), remote[k]));
                assert(c.is_cached(d1));
                assert(c.fetch_plan(true) =~= seq![StepV::Update(k)]);
                lemma_run_one(d1, remote, StepV::Update(k));
                assert(d1.insert(LocV::Cache(k), remote[k]) =~= d1);
            },
            CrateV::Local { .. } => {
                lemma_run_empty(disk, remote);
                lemma_run_empty(d1, remote);
            },
        }
    }
}

/// Purging removes the cache entry and nothing else; a fetch after it
/// starts from scratch, succeeds exactly when the source is local or the
/// remote serves it, and leaves in the cache exactly what the remote serves.
pub proof fn lemma_purge_then_fetch_is_fresh(c: CrateV, disk: Disk, remote: Remote)
    ensures
        c.purge_on(disk, remote) == Ok::<Disk, ErrorKind>(
            match c.key() {
                Some(k) => disk.remove(LocV::Cache(k)),
                None => disk,
            },
        ),
        c.purge_on(disk, remote) matches Ok(d2) && {
            &&& !c.is_cached(d2)
            &&& c.fetch_on(d2, remote) == run(d2, remote, c.fetch_plan(false))
            &&& (c.fetch_on(d2, remote) is Ok <==> match c.key() {
                Some(k) => remote.contains_key(k),
                None => true,
            })
            &&& c.fetch_on(d2, remote) matches Ok(d3) ==> match c.key() {
                Some(k) => d3 == d2.insert(LocV::Cache(k), remote[k]),
                None => d3 == d2,
            }
        },
{
    match c.key() {
        Some(k) => {
            lemma_run_one(disk, remote, StepV::RemoveDir(LocV::Cache(k)));
            let d2 = disk.remove(LocV::Cache(k));
            lemma_run_one(d2, remote, c.fetch_plan(false)[0]);
            assert(c.fetch_plan(false) =~= seq![c.fetch_plan(false)[0]]);
        },
        None => {
            lemma_run_empty(disk, remote);
        },
    }
}

proof fn lemma_stage(c: CrateV, dest: Seq<char>, disk: Disk, remote: Remote)
    ensures
        apply(disk, remote, c.stage_step(dest)) == if disk.contains_key(c.origin()) {
            Ok::<Disk, ErrorKind>(
                disk.insert(LocV::Dir(dest), contents(disk, LocV::Dir(dest)).union(c.staged_files(disk))),
            )
        } else {
            Err(missing_error(c.origin()))
        },
{
}

/// Staging into `dest` succeeds exactly when the source tree is on disk, and
/// then `dest` holds the source's files and nothing else, whatever it held
/// before; no other directory changes. This holds where the source does not
/// live at `dest` itself.
pub proof fn lemma_copy_replaces_destination(c: CrateV, dest: Seq<char>, disk: Disk, remote: Remote)
    requires
        c.origin() != LocV::Dir(dest),
    ensures
        c.copy_on(dest, disk, remote) == if disk.contains_key(c.origin()) {
            Ok::<Disk, ErrorKind>(disk.insert(LocV::Dir(dest), c.staged_files(disk)))
        } else {
            Err(missing_error(c.origin()))
        },
{
    let l = LocV::Dir(dest);
    if disk.contains_key(l) {
        lemma_run_two(disk, remote, StepV::RemoveDir(l), c.stage_step(dest));
        let d1 = disk.remove(l);
        lemma_stage(c, dest, d1, remote);
        assert(d1.contains_key(c.origin()) == disk.contains_key(c.origin()));
        if disk.contains_key(c.origin()) {
            assert(d1[c.origin()] == disk[c.origin()]);
            assert(c.staged_files(d1) == c.staged_files(disk));
            assert(contents(d1, l).union(c.staged_files(d1)) =~= c.staged_files(disk));
            assert(d1.insert(l, c.staged_files(disk)) =~= disk.insert(l, c.staged_files(disk)));
        }
    } else {
        lemma_run_one(disk, remote, c.stage_step(dest));
        lemma_stage(c, dest, disk, remote);
        if disk.contains_key(c.origin()) {
            assert(contents(disk, l).union(c.staged_files(disk)) =~= c.staged_files(disk));
        }
    }
}

/// Staging one package and then another at the same destination leaves only
/// the second one's files there, never a union of the two.
pub proof fn lemma_restage_leaves_only_last(
    a: CrateV,
    b: CrateV,
    dest: Seq<char>,
    disk: Disk,
    remote: Remote,
)
    requires
        a.origin() != LocV::Dir(dest),
        b.origin() != LocV::Dir(dest),
    ensures
        a.copy_on(dest, disk, remote) matches Ok(d1) ==> (b.copy_on(dest, d1, remote) matches Ok(d2)
            ==> d2[LocV::Dir(dest)] == b.staged_files(disk)),
{
    lemma_copy_replaces_destination(a, dest, disk, remote);
    if let Ok(d1) = a.copy_on(dest, disk, remote) {
        lemma_copy_replaces_destination(b, dest, d1, remote);
        if disk.contains_key(b.origin()) {
            assert(d1[b.origin()] == disk[b.origin()]);
        }
    }
}

/// A local source's fetch and purge change nothing on disk and always
/// succeed, whether or not its directory exists.
pub proof fn lemma_local_fetch_purge_untouched(c: CrateV, disk: Disk, remote: Remote)
    requires
        c is Local,
    ensures
        c.fetch_on(disk, remote) == Ok::<Disk, ErrorKind>(disk),
        c.purge_on(disk, remote) == Ok::<Disk, ErrorKind>(disk),
{
    lemma_run_empty(disk, remote);
}

/// Staging a local source fails exactly when its directory is missing, and
/// then with a not-found error. This holds where the directory is not the
/// destination itself.
pub proof fn lemma_local_copy_fails_iff_missing(c: CrateV, dest: Seq<char>, disk: Disk, remote: Remote)
    requires
        c matches CrateV::Local { path, .. } && path != dest,
    ensures
        c matches CrateV::Local { path, .. } && (c.copy_on(dest, disk, remote) is Err
            <==> !disk.contains_key(LocV::Dir(path))),
        c.copy_on(dest, disk, remote) is Err ==> c.copy_on(dest, disk, remote) == Err::<Disk, ErrorKind>(
            ErrorKind::NotFound,
        ),
{
    lemma_copy_replaces_destination(c, dest, disk, remote);
}

} // verus!
