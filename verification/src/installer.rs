//! The dependency installer, as a verified state machine.
//!
//! One in-flight package moves through the stages resolve, download,
//! verify, unpack, discover dependencies, link executables; a work queue
//! holds the packages still to install, and a visited set keyed by
//! (package name, resolved version) ends dependency cycles. The driver
//! outside the library performs each [`Action`] (network and filesystem
//! work) and reports what happened; every decision in between is made
//! here and verified. Within one package the order is fixed: nothing is
//! unpacked unless its digest was verified first.

use vstd::prelude::*;
use vstd::string::*;

use vstd::pervasive::unreached;

use crate::errors::InstallError;
use crate::integrity::{digest_matches, hex_lower, sha1_of};
use crate::manifest::{bin_links, bin_links_plan, lemma_pairs_view_concat, lemma_pairs_view_push,
    pairs_view, root_install_plan, transitive_install_plan, PackageJson};
use crate::registry::{is_candidate, Metadata, VersionRecord};
use crate::semver::{npm_req_is_tag, npm_req_parses, npm_version_of, parse_range, prec_lt};
use crate::strutil::{str_concat, str_eq};
use crate::unpack::{components, entry_components, is_dotdot, is_dotdot_str};

verus! {

/// The staging path a package's artifact is downloaded to.
pub open spec fn staging_of(name: Seq<char>) -> Seq<char> {
    "temp/"@ + name
}

/// The module-store directory a package is unpacked into.
pub open spec fn store_of(name: Seq<char>) -> Seq<char> {
    "node_modules/"@ + name
}

/// The manifest file inside a package's module directory.
pub open spec fn manifest_path_of(name: Seq<char>) -> Seq<char> {
    store_of(name) + "/package.json"@
}

/// The staging path a package's artifact is downloaded to.
pub fn staging_path(name: &str) -> (r: String)
    ensures
        r@ == staging_of(name@),
{
    str_concat("temp/", name)
}

/// The module-store directory a package is unpacked into.
pub fn store_path(name: &str) -> (r: String)
    ensures
        r@ == store_of(name@),
{
    str_concat("node_modules/", name)
}

/// The manifest file inside a package's module directory.
pub fn manifest_path(name: &str) -> (r: String)
    ensures
        r@ == manifest_path_of(name@),
{
    let s = store_path(name);
    s.concat("/package.json")
}

/// The shared directory executable links are created in.
pub fn bin_dir() -> (r: String)
    ensures
        r@ == "node_modules/.bin"@,
{
    String::from_str("node_modules/.bin")
}

/// A registry-supplied name may be used as a directory name only when it
/// has at least one path component and no parent-directory component.
pub open spec fn name_ok(s: Seq<char>) -> bool {
    components(s).len() >= 1 && forall|i: int|
        0 <= i < components(s).len() ==> !is_dotdot(#[trigger] components(s)[i])
}

/// Whether a registry-supplied name is usable as a directory name.
pub fn safe_name(name: &str) -> (r: bool)
    ensures
        r == name_ok(name@),
{
    let comps = entry_components(name);
    if comps.len() == 0 {
        return false;
    }
    let mut i: usize = 0;
    while i < comps.len()
        invariant
            i <= comps@.len(),
            crate::unpack::strs_view(comps@) == components(name@),
            forall|j: int| 0 <= j < i ==> !is_dotdot(#[trigger] components(name@)[j]),
        decreases comps@.len() - i,
    {
        if is_dotdot_str(comps[i].as_str()) {
            proof {
                assert(is_dotdot(components(name@)[i as int]));
            }
            return false;
        }
        i += 1;
    }
    true
}

/// The stage the in-flight package is in. `name` is the name the package
/// was requested under; `dir` the name its registry record carries, used
/// for its directories.
pub enum Stage {
    Idle,
    Fetching { name: Seq<char>, requirement: Seq<char> },
    Downloading { name: Seq<char>, dir: Seq<char>, version: Seq<char>, shasum: Seq<char> },
    Verifying { name: Seq<char>, dir: Seq<char>, version: Seq<char>, shasum: Seq<char> },
    Unpacking { name: Seq<char>, dir: Seq<char>, version: Seq<char> },
    Discovering { name: Seq<char>, dir: Seq<char>, version: Seq<char> },
    Linking { name: Seq<char>, dir: Seq<char>, version: Seq<char> },
    Failed,
}

/// The mathematical state of an installer: the work queue, the visited
/// set, and the stage of the in-flight package.
pub struct InstallerModel {
    pub pending: Seq<(Seq<char>, Seq<char>)>,
    pub visited: Seq<(Seq<char>, Seq<char>)>,
    pub stage: Stage,
}

/// The same state with the stage failed.
pub open spec fn failed(m: InstallerModel) -> InstallerModel {
    InstallerModel { stage: Stage::Failed, ..m }
}

/// How popping the work queue behaves: with nothing pending the run is
/// done; otherwise the front entry's metadata is fetched next.
pub open spec fn advance_spec(
    pending: Seq<(Seq<char>, Seq<char>)>,
    visited: Seq<(Seq<char>, Seq<char>)>,
    fs: InstallerModel,
    a: Action,
) -> bool {
    if pending.len() == 0 {
        a == Action::Done && fs == InstallerModel { pending, visited, stage: Stage::Idle }
    } else {
        (a matches Action::FetchMetadata { name } && name@ == pending[0].0) && fs
            == InstallerModel {
            pending: pending.skip(1),
            visited,
            stage: Stage::Fetching { name: pending[0].0, requirement: pending[0].1 },
        }
    }
}

enum Phase {
    Fetching { name: String, requirement: String },
    Downloading { name: String, dir: String, version: String, shasum: String },
    Verifying { name: String, dir: String, version: String, shasum: String },
    Unpacking { name: String, dir: String, version: String },
    Discovering { name: String, dir: String, version: String },
    Linking { name: String, dir: String, version: String },
    Failed,
}

/// What the driver must do next.
#[derive(Debug, Clone, PartialEq, Eq)]
pub enum Action {
    /// Fetch registry metadata for this package name.
    FetchMetadata { name: String },
    /// Download the artifact at `url` to the file `dest`.
    Download { url: String, dest: String },
    /// Read the downloaded artifact back as bytes.
    ReadArtifact { path: String },
    /// Unpack the archive at `archive` into the directory `dest`,
    /// deciding every entry through the `unpack` module.
    Unpack { archive: String, dest: String },
    /// Read and parse the manifest file at `path`.
    ReadManifest { path: String },
    /// Create each (link name, target) symlink under `bin_dir`, replacing
    /// what exists there.
    Link { bin_dir: String, links: Vec<(String, String)> },
    /// All pending work is finished.
    Done,
    /// The run stops with this error.
    Fail { error: InstallError },
}

/// The stage names alone, for a driver checking what the machine awaits.
#[derive(Clone, Copy, PartialEq, Eq, Structural, Debug)]
pub enum StageKind {
    Idle,
    Fetching,
    Downloading,
    Verifying,
    Unpacking,
    Discovering,
    Linking,
    Failed,
}

/// The name of a stage.
pub open spec fn kind_of(s: Stage) -> StageKind {
    match s {
        Stage::Idle => StageKind::Idle,
        Stage::Fetching { .. } => StageKind::Fetching,
        Stage::Downloading { .. } => StageKind::Downloading,
        Stage::Verifying { .. } => StageKind::Verifying,
        Stage::Unpacking { .. } => StageKind::Unpacking,
        Stage::Discovering { .. } => StageKind::Discovering,
        Stage::Linking { .. } => StageKind::Linking,
        Stage::Failed => StageKind::Failed,
    }
}

/// How a metadata fetch ended, as the driver reports it.
pub enum FetchOutcome {
    /// The registry answered and the body parsed.
    Fetched(Metadata),
    /// The registry answered that it does not know the package.
    NotFound,
    /// The registry could not be reached.
    TransportError,
    /// The registry's body did not describe a package.
    Malformed,
}

/// How an artifact download ended.
pub enum DownloadOutcome {
    /// The response ended with this status code and the body was written.
    Status(u16),
    /// The transfer failed before a response status was known.
    TransportError,
}

/// How unpacking ended.
pub enum UnpackOutcome {
    /// Every entry was either skipped or materialized.
    Completed,
    /// An entry was rejected as unsafe; the unpack was aborted.
    Unsafe,
}

/// How reading the unpacked package's manifest ended.
pub enum ManifestOutcome {
    /// The manifest was read and parsed.
    Found(PackageJson),
    /// No manifest file exists in the unpacked package.
    Absent,
    /// The manifest file exists but does not parse.
    Invalid,
}

/// An HTTP status that counts as success.
pub open spec fn status_is_success(s: u16) -> bool {
    200 <= s <= 299
}

spec fn stage_of(p: Option<Phase>) -> Stage {
    match p {
        None => Stage::Idle,
        Some(Phase::Fetching { name, requirement }) => Stage::Fetching {
            name: name@,
            requirement: requirement@,
        },
        Some(Phase::Downloading { name, dir, version, shasum }) => Stage::Downloading {
            name: name@,
            dir: dir@,
            version: version@,
            shasum: shasum@,
        },
        Some(Phase::Verifying { name, dir, version, shasum }) => Stage::Verifying {
            name: name@,
            dir: dir@,
            version: version@,
            shasum: shasum@,
        },
        Some(Phase::Unpacking { name, dir, version }) => Stage::Unpacking {
            name: name@,
            dir: dir@,
            version: version@,
        },
        Some(Phase::Discovering { name, dir, version }) => Stage::Discovering {
            name: name@,
            dir: dir@,
            version: version@,
        },
        Some(Phase::Linking { name, dir, version }) => Stage::Linking {
            name: name@,
            dir: dir@,
            version: version@,
        },
        Some(Phase::Failed) => Stage::Failed,
    }
}

/// The installer: work queue, visited set, and the in-flight package.
pub struct Installer {
    pending: Vec<(String, String)>,
    visited: Vec<(String, String)>,
    phase: Option<Phase>,
}

impl View for Installer {
    type V = InstallerModel;

    closed spec fn view(&self) -> InstallerModel {
        InstallerModel {
            pending: pairs_view(self.pending@),
            visited: pairs_view(self.visited@),
            stage: stage_of(self.phase),
        }
    }
}

fn contains_pair(v: &Vec<(String, String)>, a: &str, b: &str) -> (r: bool)
    ensures
        r == pairs_view(v@).contains((a@, b@)),
{
    let mut i: usize = 0;
    while i < v.len()
        invariant
            i <= v@.len(),
            forall|j: int| 0 <= j < i ==> #[trigger] pairs_view(v@)[j] != (a@, b@),
        decreases v@.len() - i,
    {
        if str_eq(v[i].0.as_str(), a) && str_eq(v[i].1.as_str(), b) {
            proof {
                assert(pairs_view(v@)[i as int] == (a@, b@));
            }
            return true;
        }
        proof {
            assert(pairs_view(v@)[i as int] == (v@[i as int].0@, v@[i as int].1@));
        }
        i += 1;
    }
    proof {
        if pairs_view(v@).contains((a@, b@)) {
            let w = choose|w: int|
                0 <= w < pairs_view(v@).len() && pairs_view(v@)[w] == (a@, b@);
        }
    }
    false
}

impl Installer {
    /// Starts an installation of the root manifest's dependencies: its
    /// regular, dev and optional dependencies are queued, in that order.
    /// This is the one place dev dependencies enter the queue.
    pub fn new(root: &PackageJson) -> (s: Installer)
        ensures
            s@.pending == root.root_plan(),
            s@.visited == Seq::<(Seq<char>, Seq<char>)>::empty(),
            s@.stage == Stage::Idle,
    {
        let pending = root_install_plan(root);
        let s = Installer { pending, visited: Vec::new(), phase: None };
        proof {
            assert(pairs_view(s.visited@) =~= Seq::<(Seq<char>, Seq<char>)>::empty());
        }
        s
    }

    /// Between packages: takes the next pending package, or reports that
    /// everything is done.
    pub fn next(&mut self) -> (a: Action)
        requires
            old(self)@.stage == Stage::Idle,
        ensures
            advance_spec(old(self)@.pending, old(self)@.visited, final(self)@, a),
    {
        if self.pending.len() == 0 {
            return Action::Done;
        }
        let ghost oldq = pairs_view(self.pending@);
        let entry = self.pending.remove(0);
        proof {
            assert(pairs_view(self.pending@) =~= oldq.skip(1));
        }
        let name_for_action = entry.0.clone();
        self.phase = Some(Phase::Fetching { name: entry.0, requirement: entry.1 });
        Action::FetchMetadata { name: name_for_action }
    }
}

/// A metadata answer resolves a requirement to the pair (k, rec) when k
/// is a version key of the answer, parses and satisfies the requirement,
/// no other satisfying key has higher precedence, and rec is the record
/// published under k.
pub open spec fn resolves(m: Metadata, req: Seq<char>, k: Seq<char>, rec: VersionRecord) -> bool {
    &&& is_candidate(req, k)
    &&& exists|i: int| 0 <= i < m.versions@.len() && #[trigger] m.key_view(i) == k
        && m.versions@[i].1 == rec
    &&& forall|j: int|
        0 <= j < m.versions@.len() && is_candidate(req, #[trigger] m.key_view(j)) ==> !prec_lt(
            npm_version_of(k),
            npm_version_of(m.key_view(j)),
        )
}

/// Whether any version key of the answer parses and satisfies the
/// requirement.
pub open spec fn has_candidate(m: Metadata, req: Seq<char>) -> bool {
    exists|i: int| 0 <= i < m.versions@.len() && is_candidate(req, #[trigger] m.key_view(i))
}

/// Resolution is determined up to precedence ties: any two keys the same
/// answer can resolve the same requirement to have equal precedence. With
/// distinct precedences among the satisfying versions, the resolved
/// version is unique.
pub proof fn lemma_resolution_determined(
    m: Metadata,
    req: Seq<char>,
    k1: Seq<char>,
    r1: VersionRecord,
    k2: Seq<char>,
    r2: VersionRecord,
)
    requires
        resolves(m, req, k1, r1),
        resolves(m, req, k2, r2),
    ensures
        !prec_lt(npm_version_of(k1), npm_version_of(k2)),
        !prec_lt(npm_version_of(k2), npm_version_of(k1)),
{
    let i1 = choose|i: int|
        0 <= i < m.versions@.len() && #[trigger] m.key_view(i) == k1 && m.versions@[i].1 == r1;
    let i2 = choose|i: int|
        0 <= i < m.versions@.len() && #[trigger] m.key_view(i) == k2 && m.versions@[i].1 == r2;
    assert(is_candidate(req, m.key_view(i1)));
    assert(is_candidate(req, m.key_view(i2)));
}

impl Installer {
    fn fail(&mut self, error: InstallError) -> (a: Action)
        ensures
            final(self)@ == failed(old(self)@),
            a == (Action::Fail { error }),
    {
        self.phase = Some(Phase::Failed);
        Action::Fail { error }
    }

    /// Consumes the metadata answer for the package being resolved. On a
    /// fetch failure the run fails with the matching error; otherwise the
    /// requirement is resolved to the highest satisfying version. A
    /// resolution already in the visited set is skipped — that is what
    /// ends dependency cycles — and anything else moves on to
    /// downloading, unless the record's name is unusable as a directory
    /// name.
    pub fn on_metadata(&mut self, outcome: FetchOutcome) -> (a: Action)
        requires
            old(self)@.stage is Fetching,
        ensures
            old(self)@.stage matches Stage::Fetching { name, requirement } ==> match outcome {
                FetchOutcome::TransportError => a == (Action::Fail {
                    error: InstallError::RegistryUnreachable,
                }) && final(self)@ == failed(old(self)@),
                FetchOutcome::NotFound => a == (Action::Fail {
                    error: InstallError::PackageNotFound,
                }) && final(self)@ == failed(old(self)@),
                FetchOutcome::Malformed => a == (Action::Fail {
                    error: InstallError::MalformedMetadata,
                }) && final(self)@ == failed(old(self)@),
                FetchOutcome::Fetched(m) => {
                    if !(npm_req_parses(requirement) && !npm_req_is_tag(requirement)) {
                        a == (Action::Fail { error: InstallError::InvalidConstraint })
                            && final(self)@ == failed(old(self)@)
                    } else if !has_candidate(m, requirement) {
                        a == (Action::Fail { error: InstallError::NoSatisfyingVersion })
                            && final(self)@ == failed(old(self)@)
                    } else {
                        exists|k: Seq<char>, rec: VersionRecord|
                            #[trigger] resolves(m, requirement, k, rec) && ({
                                if !name_ok(rec.name@) {
                                    a == (Action::Fail { error: InstallError::MalformedMetadata })
                                        && final(self)@ == failed(old(self)@)
                                } else if old(self)@.visited.contains((name, k)) {
                                    advance_spec(
                                        old(self)@.pending,
                                        old(self)@.visited,
                                        final(self)@,
                                        a,
                                    )
                                } else {
                                    &&& (a matches Action::Download { url, dest } && url@
                                        == rec.dist.tarball@ && dest@ == staging_of(rec.name@))
                                    &&& final(self)@ == (InstallerModel {
                                        pending: old(self)@.pending,
                                        visited: old(self)@.visited,
                                        stage: Stage::Downloading {
                                            name,
                                            dir: rec.name@,
                                            version: k,
                                            shasum: rec.dist.shasum@,
                                        },
                                    })
                                }
                            })
                    }
                },
            },
    {
        let (name, requirement) = match &self.phase {
            Some(Phase::Fetching { name, requirement }) => (name.clone(), requirement.clone()),
            _ => unreached(),
        };
        match outcome {
            FetchOutcome::TransportError => self.fail(InstallError::RegistryUnreachable),
            FetchOutcome::NotFound => self.fail(InstallError::PackageNotFound),
            FetchOutcome::Malformed => self.fail(InstallError::MalformedMetadata),
            FetchOutcome::Fetched(m) => {
                let range = match parse_range(requirement.as_str()) {
                    Ok(q) => q,
                    Err(e) => {
                        return self.fail(e);
                    },
                };
                let key = match m.best_key(&range) {
                    Some(k) => k,
                    None => {
                        return self.fail(InstallError::NoSatisfyingVersion);
                    },
                };
                let record = match m.lookup_version(key.as_str()) {
                    Some(r) => r,
                    None => unreached(),
                };
                proof {
                    assert(resolves(m, requirement@, key@, *record));
                }
                if !safe_name(record.name.as_str()) {
                    return self.fail(InstallError::MalformedMetadata);
                }
                if contains_pair(&self.visited, name.as_str(), key.as_str()) {
                    self.phase = None;
                    return self.next();
                }
                let url = record.dist.tarball.clone();
                let shasum = record.dist.shasum.clone();
                let dir = record.name.clone();
                let dest = staging_path(dir.as_str());
                self.phase = Some(Phase::Downloading { name, dir, version: key, shasum });
                Action::Download { url, dest }
            },
        }
    }

    /// Consumes the end of an artifact download. A non-success status
    /// fails the run with that status; a transfer cut off before any
    /// status fails it as the registry being unreachable. On success the
    /// artifact is read back for verification.
    pub fn on_downloaded(&mut self, outcome: DownloadOutcome) -> (a: Action)
        requires
            old(self)@.stage is Downloading,
        ensures
            old(self)@.stage matches Stage::Downloading { name, dir, version, shasum }
                ==> match outcome {
                DownloadOutcome::TransportError => a == (Action::Fail {
                    error: InstallError::RegistryUnreachable,
                }) && final(self)@ == failed(old(self)@),
                DownloadOutcome::Status(s) => {
                    if status_is_success(s) {
                        &&& (a matches Action::ReadArtifact { path } && path@ == staging_of(dir))
                        &&& final(self)@ == (InstallerModel {
                            pending: old(self)@.pending,
                            visited: old(self)@.visited,
                            stage: Stage::Verifying { name, dir, version, shasum },
                        })
                    } else {
                        a == (Action::Fail { error: InstallError::DownloadFailed { status: s } })
                            && final(self)@ == failed(old(self)@)
                    }
                },
            },
    {
        let (name, dir, version, shasum) = match &self.phase {
            Some(Phase::Downloading { name, dir, version, shasum }) => (
                name.clone(),
                dir.clone(),
                version.clone(),
                shasum.clone(),
            ),
            _ => unreached(),
        };
        match outcome {
            DownloadOutcome::TransportError => self.fail(InstallError::RegistryUnreachable),
            DownloadOutcome::Status(s) => {
                if 200 <= s && s <= 299 {
                    let path = staging_path(dir.as_str());
                    self.phase = Some(Phase::Verifying { name, dir, version, shasum });
                    Action::ReadArtifact { path }
                } else {
                    self.fail(InstallError::DownloadFailed { status: s })
                }
            },
        }
    }

    /// Consumes the downloaded artifact's bytes and verifies them against
    /// the declared digest. Only a verified artifact is ever unpacked; a
    /// mismatch fails the run with both digest strings.
    pub fn on_artifact(&mut self, data: &[u8]) -> (a: Action)
        requires
            old(self)@.stage is Verifying,
        ensures
            old(self)@.stage matches Stage::Verifying { name, dir, version, shasum } ==> {
                if digest_matches(sha1_of(data@), shasum) {
                    &&& (a matches Action::Unpack { archive, dest } && archive@ == staging_of(dir)
                        && dest@ == store_of(dir))
                    &&& final(self)@ == (InstallerModel {
                        pending: old(self)@.pending,
                        visited: old(self)@.visited,
                        stage: Stage::Unpacking { name, dir, version },
                    })
                } else {
                    &&& (a matches Action::Fail { error } && (error
                        matches InstallError::IntegrityMismatch { expected, actual } && expected@
                        == shasum && actual@ == hex_lower(sha1_of(data@))))
                    &&& final(self)@ == failed(old(self)@)
                }
            },
    {
        let (name, dir, version, shasum) = match &self.phase {
            Some(Phase::Verifying { name, dir, version, shasum }) => (
                name.clone(),
                dir.clone(),
                version.clone(),
                shasum.clone(),
            ),
            _ => unreached(),
        };
        match crate::integrity::verify(data, shasum.as_str()) {
            Ok(_) => {
                let archive = staging_path(dir.as_str());
                let dest = store_path(dir.as_str());
                self.phase = Some(Phase::Unpacking { name, dir, version });
                Action::Unpack { archive, dest }
            },
            Err(e) => self.fail(e),
        }
    }

    /// Consumes the end of the unpack. An unsafe entry fails the run;
    /// otherwise the unpacked package's own manifest is read next.
    pub fn on_unpacked(&mut self, outcome: UnpackOutcome) -> (a: Action)
        requires
            old(self)@.stage is Unpacking,
        ensures
            old(self)@.stage matches Stage::Unpacking { name, dir, version } ==> match outcome {
                UnpackOutcome::Unsafe => a == (Action::Fail {
                    error: InstallError::UnsafeArchivePath,
                }) && final(self)@ == failed(old(self)@),
                UnpackOutcome::Completed => {
                    &&& (a matches Action::ReadManifest { path } && path@ == manifest_path_of(dir))
                    &&& final(self)@ == (InstallerModel {
                        pending: old(self)@.pending,
                        visited: old(self)@.visited,
                        stage: Stage::Discovering { name, dir, version },
                    })
                },
            },
    {
        let (name, dir, version) = match &self.phase {
            Some(Phase::Unpacking { name, dir, version }) => (
                name.clone(),
                dir.clone(),
                version.clone(),
            ),
            _ => unreached(),
        };
        match outcome {
            UnpackOutcome::Unsafe => self.fail(InstallError::UnsafeArchivePath),
            UnpackOutcome::Completed => {
                let path = manifest_path(dir.as_str());
                self.phase = Some(Phase::Discovering { name, dir, version });
                Action::ReadManifest { path }
            },
        }
    }

    /// Consumes the unpacked package's manifest. Its regular and optional
    /// dependencies go to the front of the queue — its dev dependencies
    /// never do — and the resolution is marked visited. Declared
    /// executables are linked next; without any, the next pending package
    /// is taken up.
    pub fn on_manifest(&mut self, outcome: ManifestOutcome) -> (a: Action)
        requires
            old(self)@.stage is Discovering,
        ensures
            old(self)@.stage matches Stage::Discovering { name, dir, version } ==> match outcome {
                ManifestOutcome::Absent => a == (Action::Fail {
                    error: InstallError::MissingManifest,
                }) && final(self)@ == failed(old(self)@),
                ManifestOutcome::Invalid => a == (Action::Fail {
                    error: InstallError::MalformedMetadata,
                }) && final(self)@ == failed(old(self)@),
                ManifestOutcome::Found(pkg) => {
                    let new_pending = pkg.transitive_plan() + old(self)@.pending;
                    let new_visited = old(self)@.visited.push((name, version));
                    match pkg.bin {
                        Some(b) => {
                            &&& (a matches Action::Link { bin_dir, links } && bin_dir@
                                == "node_modules/.bin"@ && pairs_view(links@) == bin_links_plan(
                                pkg.name@,
                                store_of(dir),
                                b,
                            ))
                            &&& final(self)@ == (InstallerModel {
                                pending: new_pending,
                                visited: new_visited,
                                stage: Stage::Linking { name, dir, version },
                            })
                        },
                        None => advance_spec(new_pending, new_visited, final(self)@, a),
                    }
                },
            },
    {
        let (name, dir, version) = match &self.phase {
            Some(Phase::Discovering { name, dir, version }) => (
                name.clone(),
                dir.clone(),
                version.clone(),
            ),
            _ => unreached(),
        };
        match outcome {
            ManifestOutcome::Absent => self.fail(InstallError::MissingManifest),
            ManifestOutcome::Invalid => self.fail(InstallError::MalformedMetadata),
            ManifestOutcome::Found(pkg) => {
                let ghost old_pending = pairs_view(self.pending@);
                let ghost old_visited = pairs_view(self.visited@);
                let mut newq = transitive_install_plan(&pkg);
                proof {
                    lemma_pairs_view_concat(newq@, self.pending@);
                }
                newq.append(&mut self.pending);
                self.pending = newq;
                proof {
                    lemma_pairs_view_push(self.visited@, (name, version));
                }
                self.visited.push((name.clone(), version.clone()));
                match &pkg.bin {
                    Some(b) => {
                        let module_dir = store_path(dir.as_str());
                        let links = bin_links(pkg.name.as_str(), module_dir.as_str(), b);
                        self.phase = Some(Phase::Linking { name, dir, version });
                        Action::Link { bin_dir: bin_dir(), links }
                    },
                    None => {
                        self.phase = None;
                        self.next()
                    },
                }
            },
        }
    }

    /// Which stage the machine is in, so a driver can check what it is
    /// about to report.
    pub fn stage_kind(&self) -> (k: StageKind)
        ensures
            k == kind_of(self@.stage),
    {
        match &self.phase {
            None => StageKind::Idle,
            Some(Phase::Fetching { .. }) => StageKind::Fetching,
            Some(Phase::Downloading { .. }) => StageKind::Downloading,
            Some(Phase::Verifying { .. }) => StageKind::Verifying,
            Some(Phase::Unpacking { .. }) => StageKind::Unpacking,
            Some(Phase::Discovering { .. }) => StageKind::Discovering,
            Some(Phase::Linking { .. }) => StageKind::Linking,
            Some(Phase::Failed) => StageKind::Failed,
        }
    }

    /// Consumes the end of executable linking: failure fails the run,
    /// success takes up the next pending package.
    pub fn on_linked(&mut self, ok: bool) -> (a: Action)
        requires
            old(self)@.stage is Linking,
        ensures
            old(self)@.stage is Linking ==> {
                if ok {
                    advance_spec(old(self)@.pending, old(self)@.visited, final(self)@, a)
                } else {
                    a == (Action::Fail { error: InstallError::LinkCreationFailed }) && final(self)@
                        == failed(old(self)@)
                }
            },
    {
        if ok {
            self.phase = None;
            self.next()
        } else {
            self.fail(InstallError::LinkCreationFailed)
        }
    }
}

} // verus!
