//! The managed installer: deciding when the cached binary can be trusted,
//! which asset of the latest release to fetch, where the binary lands on
//! disk, and which working-directory entries to prune afterwards.
//!
//! The host performs every effect (file probes, the release query, the
//! download, directory listing and removal) and feeds the answers back in;
//! each decision here is a pure function of those answers.

use vstd::prelude::*;
use vstd::string::StringExecFns;

use crate::platform::{Arch, Os, asset_name, asset_name_spec, asset_stem, asset_stem_spec};
use crate::release::{Release, find_asset};

verus! {

/// How a downloaded archive is unpacked.
#[derive(Clone, Copy, PartialEq, Eq, Structural, Debug)]
pub enum ArchiveKind {
    Zip,
    GzipTar,
}

/// Process-wide installer state: the managed binary's path, once one has
/// been confirmed present. Never cleared; a later run re-validates the path
/// against the filesystem before trusting it.
pub struct InstallState {
    pub cached_binary_path: Option<String>,
}

/// Everything the host needs to materialize one release on disk.
#[derive(Debug)]
pub struct InstallPlan {
    /// Where the matching asset is downloaded from.
    pub asset_url: String,
    /// The version-scoped directory the archive unpacks under, `ty-<version>`.
    pub version_dir: String,
    /// The final binary file inside the version directory.
    pub binary_path: String,
    /// How the asset is unpacked.
    pub archive: ArchiveKind,
}

impl InstallState {
    /// A fresh session: nothing cached yet.
    pub fn new() -> (r: InstallState)
        ensures
            r.cached_binary_path is None,
    {
        InstallState { cached_binary_path: None }
    }
}

/// The project whose releases carry the managed binary, as the remote
/// release index identifies it.
pub fn release_repository() -> (r: &'static str)
    ensures
        r@ == "astral-sh/ty"@,
{
    "astral-sh/ty"
}

/// The archive kind for a platform: `zip` on windows, gzipped tar elsewhere.
pub open spec fn archive_kind_spec(os: Os) -> ArchiveKind {
    match os {
        Os::Windows => ArchiveKind::Zip,
        _ => ArchiveKind::GzipTar,
    }
}

pub fn archive_kind(os: Os) -> (r: ArchiveKind)
    ensures
        r == archive_kind_spec(os),
{
    match os {
        Os::Windows => ArchiveKind::Zip,
        _ => ArchiveKind::GzipTar,
    }
}

/// The version-scoped directory for a release: `ty-<version>`.
pub open spec fn version_dir_spec(version: Seq<char>) -> Seq<char> {
    "ty-"@ + version
}

pub fn version_dir(version: &String) -> (r: String)
    ensures
        r@ == version_dir_spec(version@),
{
    let mut s = String::from_str("ty-");
    s.append(version.as_str());
    s
}

/// The final binary path for a release: a flat `ty.exe` directly under the
/// version directory on windows, the archive's nested `<stem>/ty` elsewhere.
pub open spec fn binary_path_spec(os: Os, arch: Arch, version: Seq<char>) -> Seq<char> {
    match os {
        Os::Windows => version_dir_spec(version) + "/ty.exe"@,
        _ => version_dir_spec(version) + "/"@ + asset_stem_spec(os, arch) + "/ty"@,
    }
}

pub fn binary_path(os: Os, arch: Arch, version: &String) -> (r: String)
    ensures
        r@ == binary_path_spec(os, arch, version@),
{
    let mut s = version_dir(version);
    match os {
        Os::Windows => {
            s.append("/ty.exe");
        },
        _ => {
            s.append("/");
            let stem = asset_stem(os, arch);
            s.append(stem.as_str());
            s.append("/ty");
        },
    }
    s
}

/// The error reported when the release carries no asset for this platform.
pub open spec fn no_asset_message_spec(name: Seq<char>) -> Seq<char> {
    "no asset found matching \""@ + name + "\""@
}

/// Whether an install run must query the remote index: only a cached path
/// whose file the probe confirmed lets it skip the network.
pub open spec fn network_needed(state: InstallState, cached_is_file: bool) -> bool {
    !(state.cached_binary_path is Some && cached_is_file)
}

/// The fast path. `cached_is_file` is the host's answer to "is the cached
/// path an existing regular file?"; with no cached path the answer is
/// irrelevant. Returns the cached path exactly when it can be trusted.
pub fn cache_hit(state: &InstallState, cached_is_file: bool) -> (r: Option<String>)
    ensures
        r is Some <==> !network_needed(*state, cached_is_file),
        match r {
            Some(p) => state.cached_binary_path == Some(p),
            None => true,
        },
{
    match &state.cached_binary_path {
        Some(p) => {
            if cached_is_file {
                Some(p.clone())
            } else {
                None
            }
        },
        None => None,
    }
}

/// Remember a confirmed managed binary for the rest of the session.
pub fn record_install(state: &mut InstallState, path: &String)
    ensures
        final(state).cached_binary_path == Some(*path),
{
    state.cached_binary_path = Some(path.clone());
}

/// Idempotence of installation: after a run that ended in `record_install`,
/// a second run whose probe finds the recorded binary intact is answered by
/// `cache_hit` from memory — zero network calls.
pub proof fn lemma_reinstall_needs_no_network(state: InstallState, path: String)
    requires
        state.cached_binary_path matches Some(c) && c@ == path@,
    ensures
        !network_needed(state, true),
{
}

/// Decides installation from the latest release: picks the asset named
/// exactly for this platform, and computes the version directory and the
/// final binary path. Fails if and only if no asset matches — there is no
/// fallback to a different asset.
pub fn plan_install(os: Os, arch: Arch, release: &Release) -> (r: Result<InstallPlan, String>)
    ensures
        match r {
            Ok(plan) => {
                &&& exists|i: int|
                    {
                        &&& 0 <= i < release.assets@.len()
                        &&& release.assets@[i].name@ == asset_name_spec(os, arch)
                        &&& plan.asset_url@ == release.assets@[i].download_url@
                        &&& forall|j: int|
                            0 <= j < i ==> release.assets@[j].name@ != asset_name_spec(os, arch)
                    }
                &&& plan.version_dir@ == version_dir_spec(release.version@)
                &&& plan.binary_path@ == binary_path_spec(os, arch, release.version@)
                &&& plan.archive == archive_kind_spec(os)
            },
            Err(m) => {
                &&& forall|i: int|
                    0 <= i < release.assets@.len() ==> release.assets@[i].name@ != asset_name_spec(
                        os,
                        arch,
                    )
                &&& m@ == no_asset_message_spec(asset_name_spec(os, arch))
            },
        },
{
    let name = asset_name(os, arch);
    match find_asset(&release.assets, &name) {
        Some(asset) => {
            let url = asset.download_url.clone();
            let vd = version_dir(&release.version);
            let bp = binary_path(os, arch, &release.version);
            Ok(InstallPlan { asset_url: url, version_dir: vd, binary_path: bp, archive: archive_kind(os) })
        },
        None => {
            let mut m = String::from_str("no asset found matching \"");
            m.append(name.as_str());
            m.append("\"");
            Err(m)
        },
    }
}

/// Whether the archive must be fetched. Partial-install safety: only the
/// final binary file counts — a version directory left behind by an
/// interrupted extraction is never trusted, so the answer ignores
/// `version_dir_exists` entirely.
#[allow(unused_variables)]
pub fn download_needed(version_dir_exists: bool, binary_is_file: bool) -> (r: bool)
    ensures
        r == !binary_is_file,
{
    !binary_is_file
}

/// The names of a list of directory entries.
pub open spec fn views_of(entries: Seq<String>) -> Seq<Seq<char>> {
    entries.map_values(|s: String| s@)
}

/// The entries that pruning removes: every one not named for the kept
/// version directory, in listing order.
pub open spec fn stale_entries(entries: Seq<Seq<char>>, keep: Seq<char>) -> Seq<Seq<char>> {
    entries.filter(|e: Seq<char>| e != keep)
}

/// The entries that pruning leaves in place.
pub open spec fn surviving_entries(entries: Seq<Seq<char>>, keep: Seq<char>) -> Seq<Seq<char>> {
    entries.filter(|e: Seq<char>| e == keep)
}

/// Selects, from a listing of the working directory, the entries to remove
/// after a fresh extraction into `keep`: everything whose name differs from
/// the new version directory.
pub fn entries_to_remove(entries: &Vec<String>, keep: &String) -> (r: Vec<String>)
    ensures
        views_of(r@) == stale_entries(views_of(entries@), keep@),
{
    let ghost vs = views_of(entries@);
    let mut r: Vec<String> = Vec::new();
    let mut k: usize = 0;
    while k < entries.len()
        invariant
            k <= entries@.len(),
            vs == views_of(entries@),
            views_of(r@) == stale_entries(vs.subrange(0, k as int), keep@),
        decreases entries@.len() - k,
    {
        let ghost r_before = views_of(r@);
        if !(entries[k] == *keep) {
            r.push(entries[k].clone());
        }
        proof {
            reveal(Seq::filter);
            let prefix = vs.subrange(0, k as int);
            let extended = vs.subrange(0, k as int + 1);
            assert(extended =~= prefix.push(vs[k as int]));
            assert(extended.drop_last() =~= prefix);
            if entries@[k as int]@ != keep@ {
                assert(views_of(r@) =~= r_before.push(vs[k as int]));
            }
            assert(views_of(r@) =~= stale_entries(extended, keep@));
        }
        k = k + 1;
    }
    proof {
        assert(vs.subrange(0, entries@.len() as int) =~= vs);
    }
    r
}

/// Pruning touches every entry exactly once: each listed entry is either
/// stale (named differently from the kept directory) or surviving (named
/// for it), never both.
pub proof fn lemma_prune_partition(entries: Seq<Seq<char>>, keep: Seq<char>)
    ensures
        stale_entries(entries, keep).len() + surviving_entries(entries, keep).len()
            == entries.len(),
        forall|i: int|
            0 <= i < stale_entries(entries, keep).len() ==> stale_entries(entries, keep)[i]
                != keep,
        forall|i: int|
            0 <= i < surviving_entries(entries, keep).len() ==> surviving_entries(entries, keep)[i]
                == keep,
    decreases entries.len(),
{
    broadcast use vstd::seq_lib::group_filter_ensures;

    reveal(Seq::filter);
    if entries.len() > 0 {
        lemma_prune_partition(entries.drop_last(), keep);
    }
}

/// Pruning invariant: after a successful install, the working directory
/// holds exactly one version-scoped entry, the new version directory. The
/// extraction just created that directory, so the listing contained it;
/// pruning removes every differently-named entry and nothing else.
pub proof fn lemma_prune_leaves_exactly_new_version(entries: Seq<Seq<char>>, keep: Seq<char>)
    requires
        entries.contains(keep),
    ensures
        surviving_entries(entries, keep).to_set() =~= set![keep],
{
    broadcast use vstd::seq_lib::group_filter_ensures;

    let survivors = surviving_entries(entries, keep);
    let i = choose|i: int| 0 <= i < entries.len() && entries[i] == keep;
    assert(survivors.contains(entries[i]));
    assert(forall|x: Seq<char>|
        survivors.to_set().contains(x) ==> #[trigger] survivors.contains(x));
}

} // verus!
