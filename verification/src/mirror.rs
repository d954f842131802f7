//! The optional local mirror of the full dependency graph: its
//! availability state machine, evaluated once at startup, and the
//! dependency lookups served from it.
//!
//! The mirror is the only source of dependency data; the live API is never
//! substituted. When it failed to initialize, every dependency lookup for
//! the rest of the process lifetime fails with the same remediation text,
//! and the search, detail and version paths are untouched — they do not
//! even take the availability flag.

use vstd::prelude::*;

use crate::errors::ClientError;
use crate::text::{has_sub, str_contains, str_eq};
use crate::types::CrateDependency;

verus! {

/// One version of a package as the mirror lists it.
pub struct MirrorVersion {
    pub version: String,
    pub dependencies: Vec<CrateDependency>,
}

/// One package as the mirror lists it. The mirror always lists at least
/// one version and designates one of them as its highest.
pub struct MirrorCrate {
    pub versions: Vec<MirrorVersion>,
    pub highest: usize,
}

impl MirrorCrate {
    /// The shape every mirror record has: a non-empty version list and a
    /// highest-version designation inside it.
    pub open spec fn wf(&self) -> bool {
        self.versions@.len() > 0 && (self.highest as int) < self.versions@.len()
    }
}

/// What looking a package up produced: no mirror at all, a mirror without
/// the package, or the package's record.
pub enum MirrorLookup {
    MirrorAbsent,
    CrateMissing,
    Found(MirrorCrate),
}

/// The operator-actionable text every dependency lookup fails with while
/// the mirror is absent: it names the on-disk index path and says to delete
/// and rebuild it.
pub open spec fn mirror_unavailable_message() -> Seq<char> {
    "Git index not available. Dependency viewing requires the local crates.io git index. This may be due to a corrupted git index. Try deleting ~/.cargo/registry/index/github.com-1ecc6299db9ec823/ (or the equivalent on Windows) and restart the server to rebuild the index."@
}

/// The position of the first listed version with exactly this version
/// text, or minus one when none matches.
pub open spec fn version_index(vs: Seq<MirrorVersion>, v: Seq<char>) -> int
    decreases vs.len(),
{
    if vs.len() == 0 {
        -1
    } else if vs[0].version@ == v {
        0
    } else {
        let r = version_index(vs.drop_first(), v);
        if r == -1 {
            -1
        } else {
            r + 1
        }
    }
}

proof fn lemma_version_index_found(vs: Seq<MirrorVersion>, v: Seq<char>, i: int)
    requires
        0 <= i < vs.len(),
        vs[i].version@ == v,
        forall|k: int| 0 <= k < i ==> (#[trigger] vs[k]).version@ != v,
    ensures
        version_index(vs, v) == i,
    decreases i,
{
    if i > 0 {
        lemma_version_index_found(vs.drop_first(), v, i - 1);
    }
}

proof fn lemma_version_index_none(vs: Seq<MirrorVersion>, v: Seq<char>)
    requires
        forall|k: int| 0 <= k < vs.len() ==> (#[trigger] vs[k]).version@ != v,
    ensures
        version_index(vs, v) == -1,
    decreases vs.len(),
{
    if vs.len() > 0 {
        lemma_version_index_none(vs.drop_first(), v);
    }
}

/// Serve one dependency lookup from what the mirror said. An absent
/// mirror fails with the remediation text; a package the mirror does not
/// list fails as not found; an explicit version absent from the package's
/// list fails as not found; an omitted version falls back to the mirror's
/// own highest version and never fails for want of one.
pub fn dependencies_from_mirror(lookup: MirrorLookup, version: Option<&str>) -> (r: Result<
    Vec<CrateDependency>,
    ClientError,
>)
    requires
        lookup matches MirrorLookup::Found(c) ==> c.wf(),
    ensures
        lookup is MirrorAbsent ==> (r matches Err(e) && e matches ClientError::Unavailable(m) && m@
            == mirror_unavailable_message()),
        lookup is CrateMissing ==> (r matches Err(e) && e matches ClientError::NotFound(m) && m@
            == "Crate not found in index"@),
        lookup matches MirrorLookup::Found(c) ==> match version {
            Option::None => r matches Ok(d) && d == c.versions@[c.highest as int].dependencies,
            Option::Some(v) => {
                if version_index(c.versions@, v@) >= 0 {
                    r matches Ok(d) && d == c.versions@[version_index(c.versions@, v@)].dependencies
                } else {
                    r matches Err(e) && e matches ClientError::NotFound(m) && m@
                        == "Version not found"@
                }
            },
        },
{
    match lookup {
        MirrorLookup::MirrorAbsent => Err(
            ClientError::Unavailable(
                "Git index not available. Dependency viewing requires the local crates.io git index. This may be due to a corrupted git index. Try deleting ~/.cargo/registry/index/github.com-1ecc6299db9ec823/ (or the equivalent on Windows) and restart the server to rebuild the index.".to_owned(),
            ),
        ),
        MirrorLookup::CrateMissing => Err(
            ClientError::NotFound("Crate not found in index".to_owned()),
        ),
        MirrorLookup::Found(c) => {
            let mut versions = c.versions;
            let ghost vs = versions@;
            match version {
                Option::None => {
                    let mv = versions.remove(c.highest);
                    Ok(mv.dependencies)
                },
                Option::Some(v) => {
                    let mut k: usize = 0;
                    let mut found = false;
                    let mut idx: usize = 0;
                    while k < versions.len()
                        invariant
                            k <= vs.len(),
                            versions@ == vs,
                            !found ==> idx == 0,
                            !found ==> forall|t: int|
                                0 <= t < k ==> (#[trigger] vs[t]).version@ != v@,
                            found ==> 0 <= idx < vs.len() && vs[idx as int].version@ == v@
                                && forall|t: int|
                                0 <= t < idx ==> (#[trigger] vs[t]).version@ != v@,
                        decreases versions.len() - k,
                    {
                        if !found && str_eq(versions[k].version.as_str(), v) {
                            found = true;
                            idx = k;
                        }
                        k += 1;
                    }
                    if found {
                        proof {
                            lemma_version_index_found(vs, v@, idx as int);
                        }
                        let mv = versions.remove(idx);
                        Ok(mv.dependencies)
                    } else {
                        proof {
                            lemma_version_index_none(vs, v@);
                        }
                        Err(ClientError::NotFound("Version not found".to_owned()))
                    }
                },
            }
        },
    }
}

/// The mirror's process-lifetime availability, set once by the startup
/// state machine and read by every dependency lookup thereafter.
#[derive(PartialEq, Eq, Structural, Clone, Copy)]
pub enum MirrorAvailability {
    Available,
    Unavailable,
}

/// The refusal that stands in front of every dependency lookup: while the
/// mirror is unavailable the lookup fails here, with the remediation text,
/// and the mirror itself is never consulted.
pub fn dependencies_refusal(a: MirrorAvailability) -> (r: Option<ClientError>)
    ensures
        r is None <==> a == MirrorAvailability::Available,
        r matches Option::Some(e) ==> (e matches ClientError::Unavailable(m) && m@
            == mirror_unavailable_message()),
{
    match a {
        MirrorAvailability::Available => None,
        MirrorAvailability::Unavailable => Some(
            ClientError::Unavailable(
                "Git index not available. Dependency viewing requires the local crates.io git index. This may be due to a corrupted git index. Try deleting ~/.cargo/registry/index/github.com-1ecc6299db9ec823/ (or the equivalent on Windows) and restart the server to rebuild the index.".to_owned(),
            ),
        ),
    }
}

/// The states of the startup lifecycle for the mirror.
#[derive(PartialEq, Eq, Structural, Clone, Copy)]
pub enum MirrorInit {
    Uninitialized,
    Attempting,
    AttemptingRecovery,
    Available,
    Unavailable,
}

/// What happened during startup: the machine was started, an open
/// returned, or the single recovery retry returned. A failed open reports
/// whether its error text indicates repository or index-layer corruption.
pub enum MirrorEvent {
    Begin,
    OpenOk,
    OpenFailed { corruption: bool },
    RetryOk,
    RetryFailed,
}

/// What the runner must do after a step.
#[derive(PartialEq, Eq, Structural, Clone, Copy)]
pub enum MirrorAction {
    Idle,
    OpenMirror,
    RetryAfterBackoff,
}

/// The whole transition table. Recovery is entered from a failed first
/// open whose error text indicates corruption; it waits out a short
/// backoff and retries exactly once. (The cache-root probe serves only the
/// operator diagnostic; it does not decide the retry.) Any other failure
/// goes straight to `Unavailable`, and the two terminal states absorb
/// every further event.
pub open spec fn spec_mirror_step(s: MirrorInit, e: MirrorEvent) -> (MirrorInit, MirrorAction) {
    match (s, e) {
        (MirrorInit::Uninitialized, MirrorEvent::Begin) => (
            MirrorInit::Attempting,
            MirrorAction::OpenMirror,
        ),
        (MirrorInit::Attempting, MirrorEvent::OpenOk) => (
            MirrorInit::Available,
            MirrorAction::Idle,
        ),
        (MirrorInit::Attempting, MirrorEvent::OpenFailed { corruption }) => if corruption {
            (MirrorInit::AttemptingRecovery, MirrorAction::RetryAfterBackoff)
        } else {
            (MirrorInit::Unavailable, MirrorAction::Idle)
        },
        (MirrorInit::AttemptingRecovery, MirrorEvent::RetryOk) => (
            MirrorInit::Available,
            MirrorAction::Idle,
        ),
        (MirrorInit::AttemptingRecovery, MirrorEvent::RetryFailed) => (
            MirrorInit::Unavailable,
            MirrorAction::Idle,
        ),
        (_, _) => (s, MirrorAction::Idle),
    }
}

/// Step the startup state machine.
pub fn mirror_step(s: MirrorInit, e: &MirrorEvent) -> (r: (MirrorInit, MirrorAction))
    ensures
        r == spec_mirror_step(s, *e),
{
    match (s, e) {
        (MirrorInit::Uninitialized, MirrorEvent::Begin) => (
            MirrorInit::Attempting,
            MirrorAction::OpenMirror,
        ),
        (MirrorInit::Attempting, MirrorEvent::OpenOk) => (
            MirrorInit::Available,
            MirrorAction::Idle,
        ),
        (MirrorInit::Attempting, MirrorEvent::OpenFailed { corruption }) => {
            if *corruption {
                (MirrorInit::AttemptingRecovery, MirrorAction::RetryAfterBackoff)
            } else {
                (MirrorInit::Unavailable, MirrorAction::Idle)
            }
        },
        (MirrorInit::AttemptingRecovery, MirrorEvent::RetryOk) => (
            MirrorInit::Available,
            MirrorAction::Idle,
        ),
        (MirrorInit::AttemptingRecovery, MirrorEvent::RetryFailed) => (
            MirrorInit::Unavailable,
            MirrorAction::Idle,
        ),
        (_, _) => (s, MirrorAction::Idle),
    }
}

/// Once the machine reaches a terminal state it never leaves it and never
/// asks for another open or retry: recovery happens at most once, at
/// startup.
pub proof fn lemma_mirror_terminal(e: MirrorEvent)
    ensures
        spec_mirror_step(MirrorInit::Available, e) == (MirrorInit::Available, MirrorAction::Idle),
        spec_mirror_step(MirrorInit::Unavailable, e) == (
            MirrorInit::Unavailable,
            MirrorAction::Idle,
        ),
{
}

/// The final availability a finished startup run reports.
pub fn availability_of(s: MirrorInit) -> (r: Option<MirrorAvailability>)
    ensures
        s == MirrorInit::Available ==> r == Option::Some(MirrorAvailability::Available),
        s == MirrorInit::Unavailable ==> r == Option::Some(MirrorAvailability::Unavailable),
        !(s == MirrorInit::Available || s == MirrorInit::Unavailable) ==> r is None,
{
    match s {
        MirrorInit::Available => Some(MirrorAvailability::Available),
        MirrorInit::Unavailable => Some(MirrorAvailability::Unavailable),
        _ => None,
    }
}

/// Whether a failed open's error text indicates repository or index-layer
/// corruption: it mentions the index's git machinery.
pub fn error_indicates_corruption(msg: &str) -> (r: bool)
    ensures
        r == (has_sub(msg@, "gix"@) || has_sub(msg@, "git"@)),
{
    if str_contains(msg, "gix") {
        true
    } else {
        str_contains(msg, "git")
    }
}

/// The registry cache roots to probe, in priority order: a user-home
/// default, the platform alternate root, then an explicit override. Each
/// candidate is the root handed in with the cache path appended; absent
/// environment values contribute no candidate.
pub fn registry_root_candidates(
    home: Option<&str>,
    appdata: Option<&str>,
    cargo_home: Option<&str>,
) -> (out: Vec<String>)
    ensures
        out@.map_values(|s: String| s@) == opt_path(home, "/.cargo/registry"@) + opt_path(
            appdata,
            "/.cargo/registry"@,
        ) + opt_path(cargo_home, "/registry"@),
{
    let mut out: Vec<String> = Vec::new();
    match home {
        Option::Some(h) => {
            let mut p = h.to_owned();
            p.append("/.cargo/registry");
            out.push(p);
        },
        Option::None => {},
    }
    match appdata {
        Option::Some(a) => {
            let mut p = a.to_owned();
            p.append("/.cargo/registry");
            out.push(p);
        },
        Option::None => {},
    }
    match cargo_home {
        Option::Some(c) => {
            let mut p = c.to_owned();
            p.append("/registry");
            out.push(p);
        },
        Option::None => {},
    }
    proof {
        assert(out@.map_values(|s: String| s@) =~= opt_path(home, "/.cargo/registry"@) + opt_path(
            appdata,
            "/.cargo/registry"@,
        ) + opt_path(cargo_home, "/registry"@));
    }
    out
}

/// The candidate one optional root contributes.
pub open spec fn opt_path(o: Option<&str>, suffix: Seq<char>) -> Seq<Seq<char>> {
    match o {
        Option::Some(p) => seq![p@ + suffix],
        Option::None => Seq::<Seq<char>>::empty(),
    }
}

/// The first candidate that exists on disk, by position; the runner hands
/// in one existence flag per candidate.
pub fn first_existing(exists_flags: &Vec<bool>) -> (r: Option<usize>)
    ensures
        r matches Option::Some(i) ==> i < exists_flags@.len() && exists_flags@[i as int]
            && forall|k: int| 0 <= k < i ==> !exists_flags@[k],
        r is None ==> forall|k: int| 0 <= k < exists_flags@.len() ==> !exists_flags@[k],
{
    let mut i: usize = 0;
    while i < exists_flags.len()
        invariant
            i <= exists_flags@.len(),
            forall|k: int| 0 <= k < i ==> !exists_flags@[k],
        decreases exists_flags.len() - i,
    {
        if exists_flags[i] {
            return Some(i);
        }
        i += 1;
    }
    None
}

/// The on-disk index directory under a cache root, the one the
/// remediation text tells the operator to delete.
pub fn index_dir_path(root: &str) -> (r: String)
    ensures
        r@ == root@ + "/index/github.com-1ecc6299db9ec823"@,
{
    let mut p = root.to_owned();
    p.append("/index/github.com-1ecc6299db9ec823");
    p
}

} // verus!
