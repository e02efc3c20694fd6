//! Resolution of the worker artifact across the candidate install layouts.
//!
//! In development the worker is a named script inside a source-tree
//! directory derived from the build-output anchor; in production it is a
//! packaged executable searched for in a fixed, ordered list of locations.
//! Which candidates exist on disk is the host's business: it hands the
//! per-candidate existence flags in, and resolution picks the first hit.

use vstd::prelude::*;
use crate::fspath::{FsPath, spec_ascend};

verus! {

/// Whether the worker runs as an interpreted script (development) or as a
/// packaged executable (production).
#[derive(Clone, Copy, Debug, PartialEq, Eq)]
pub enum LaunchMode {
    Development,
    Production,
}

/// The candidate location actually chosen, together with the mode it was
/// resolved for.
#[derive(Debug)]
pub struct ResolvedLocation {
    pub artifact: FsPath,
    pub mode: LaunchMode,
}

/// No candidate existed; carries every location that was searched, for
/// diagnostics.
#[derive(Debug)]
pub struct ResolveFailure {
    pub searched: Vec<FsPath>,
}

/// The development worker directory: three parent levels up from the
/// build-output anchor, then the source directory of the worker.
pub open spec fn spec_dev_worker_dir(anchor: Seq<Seq<char>>) -> Seq<Seq<char>> {
    spec_ascend(anchor, 3).push("parser-service"@)
}

/// The development entry script inside the worker directory.
pub open spec fn spec_dev_script(anchor: Seq<Seq<char>>) -> Seq<Seq<char>> {
    spec_dev_worker_dir(anchor).push("main.py"@)
}

/// The ordered production candidates: a binaries subfolder under the
/// executable directory, the same under the bundled resources, the resource
/// directory itself, and the executable directory itself.
pub open spec fn spec_production_candidates(
    exe_dir: Seq<Seq<char>>,
    resource_dir: Seq<Seq<char>>,
) -> Seq<Seq<Seq<char>>> {
    seq![
        exe_dir.push("binaries"@).push("backend_server.exe"@),
        resource_dir.push("binaries"@).push("backend_server.exe"@),
        resource_dir.push("backend_server.exe"@),
        exe_dir.push("backend_server.exe"@),
    ]
}

/// The ordered candidate list for a mode.  In development the bundled
/// resource directory doubles as the build-output anchor.
pub open spec fn spec_candidates(
    mode: LaunchMode,
    exe_dir: Seq<Seq<char>>,
    resource_dir: Seq<Seq<char>>,
) -> Seq<Seq<Seq<char>>> {
    match mode {
        LaunchMode::Development => seq![spec_dev_script(resource_dir)],
        LaunchMode::Production => spec_production_candidates(exe_dir, resource_dir),
    }
}

/// How many candidates a mode has.
pub open spec fn spec_candidate_count(mode: LaunchMode) -> int {
    match mode {
        LaunchMode::Development => 1,
        LaunchMode::Production => 4,
    }
}

/// The development worker directory under the given build-output anchor.
pub fn dev_worker_dir(anchor: &FsPath) -> (r: FsPath)
    ensures
        r@ == spec_dev_worker_dir(anchor@),
{
    let up = anchor.duplicate().ascend(3);
    up.child("parser-service")
}

/// The development entry script under the given build-output anchor.
pub fn dev_script_path(anchor: &FsPath) -> (r: FsPath)
    ensures
        r@ == spec_dev_script(anchor@),
{
    let dir = dev_worker_dir(anchor);
    dir.child("main.py")
}

/// The ordered candidate locations to probe for the worker artifact,
/// computed afresh for each start so a moved install is picked up.
pub fn candidate_locations(mode: LaunchMode, exe_dir: &FsPath, resource_dir: &FsPath) -> (r: Vec<
    FsPath,
>)
    ensures
        r@.len() == spec_candidate_count(mode),
        forall|i: int|
            0 <= i < r@.len() ==> r@[i]@ == spec_candidates(mode, exe_dir@, resource_dir@)[i],
{
    match mode {
        LaunchMode::Development => {
            let mut v: Vec<FsPath> = Vec::new();
            v.push(dev_script_path(resource_dir));
            v
        },
        LaunchMode::Production => {
            let mut v: Vec<FsPath> = Vec::new();
            v.push(exe_dir.child("binaries").child("backend_server.exe"));
            v.push(resource_dir.child("binaries").child("backend_server.exe"));
            v.push(resource_dir.child("backend_server.exe"));
            v.push(exe_dir.child("backend_server.exe"));
            v
        },
    }
}

/// Picks the first candidate that exists on disk.  `on_disk[i]` reports
/// whether the `i`-th candidate of `candidate_locations` exists; the host
/// checks the disk, this function makes the choice.  Succeeds exactly when
/// some candidate exists; otherwise the failure carries the whole searched
/// list.
pub fn resolve(
    mode: LaunchMode,
    exe_dir: &FsPath,
    resource_dir: &FsPath,
    on_disk: &Vec<bool>,
) -> (r: Result<ResolvedLocation, ResolveFailure>)
    requires
        on_disk@.len() == spec_candidate_count(mode),
    ensures
        (r is Ok) <==> (exists|i: int| 0 <= i < on_disk@.len() && on_disk@[i]),
        r matches Ok(loc) ==> ({
            &&& loc.mode == mode
            &&& exists|i: int|
                {
                    &&& 0 <= i < on_disk@.len()
                    &&& #[trigger] on_disk@[i]
                    &&& forall|j: int| 0 <= j < i ==> !on_disk@[j]
                    &&& loc.artifact@ == spec_candidates(mode, exe_dir@, resource_dir@)[i]
                }
        }),
        r matches Err(f) ==> ({
            &&& forall|i: int| 0 <= i < on_disk@.len() ==> !on_disk@[i]
            &&& f.searched@.len() == spec_candidate_count(mode)
            &&& forall|i: int|
                0 <= i < f.searched@.len() ==> f.searched@[i]@ == spec_candidates(
                    mode,
                    exe_dir@,
                    resource_dir@,
                )[i]
        }),
{
    let candidates = candidate_locations(mode, exe_dir, resource_dir);
    let mut i: usize = 0;
    while i < candidates.len()
        invariant
            i <= candidates.len(),
            candidates@.len() == spec_candidate_count(mode),
            on_disk@.len() == spec_candidate_count(mode),
            forall|k: int|
                0 <= k < candidates@.len() ==> candidates@[k]@ == spec_candidates(
                    mode,
                    exe_dir@,
                    resource_dir@,
                )[k],
            forall|j: int| 0 <= j < i ==> !on_disk@[j],
        decreases candidates.len() - i,
    {
        if on_disk[i] {
            let found = ResolvedLocation { artifact: candidates[i].duplicate(), mode };
            proof {
                assert(on_disk@[i as int]);
            }
            return Ok(found);
        }
        i = i + 1;
    }
    Err(ResolveFailure { searched: candidates })
}

} // verus!
