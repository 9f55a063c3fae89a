//! The binary resolution protocol.
//!
//! A `Resolver` holds the one piece of state the extension keeps: the
//! binary path cached by the last successful resolution. A resolution
//! attempt is driven as a state machine: `begin` and `step` never touch
//! the file system or the network themselves; each returns an [`Action`]
//! asking the host for one piece of outside work (probe a path, fetch the
//! latest release, download an asset, mark a file executable), and `step`
//! consumes the [`Event`] the host answers with. The order is the
//! protocol's: a still-valid cached path is returned after a single
//! existence check; otherwise two development candidates under the
//! project root are probed; only then does network resolution run.

use crate::errors::{ErrorModel, ExtensionError};
use crate::platform::{asset_suffix_for_platform, suffix_for, Architecture, Os};
use crate::release::{ends_with, first_matching, select_asset, Release, ReleaseModel};
use vstd::pervasive::unreached;
use vstd::prelude::*;
use vstd::string::StringExecFns;

verus! {

/// The repository whose latest release supplies the binary.
pub open spec fn repo_name() -> Seq<char> {
    "shopwareLabs/shopware-lsp"@
}

/// The binary's file name; a downloaded binary is extracted under this
/// name in the extension's working directory.
pub open spec fn binary_name() -> Seq<char> {
    "shopware-lsp"@
}

/// The two development-build candidates derived from the project root:
/// the binary inside the root itself, and one in a sibling checkout of
/// the language server.
pub open spec fn dev_candidate(root: Seq<char>, second: bool) -> Seq<char> {
    if second {
        root + "/../shopware-lsp/shopware-lsp"@
    } else {
        root + "/shopware-lsp"@
    }
}

/// Builds a development-candidate path from the project root.
pub fn dev_path(root: &str, second: bool) -> (r: String)
    ensures
        r@ == dev_candidate(root@, second),
{
    let mut s = String::from_str(root);
    if second {
        s.append("/../shopware-lsp/shopware-lsp");
    } else {
        s.append("/shopware-lsp");
    }
    s
}

/// The extension's state: the path cached by the last successful
/// resolution, if any.
pub struct Resolver {
    pub cached_binary_path: Option<String>,
}

/// Where a resolution attempt stands between two host answers.
pub enum Phase {
    /// Probing the cached path.
    CacheProbe { path: String },
    /// Probing a development candidate; `second` picks which.
    DevProbe { second: bool },
    /// Waiting for the host to report its platform.
    PlatformQuery,
    /// Waiting for the latest release; `suffix` is the asset suffix the
    /// platform requires.
    ReleaseQuery { suffix: String },
    /// Waiting for the selected asset to download and unpack.
    AwaitDownload,
    /// Waiting for the downloaded binary to be marked executable.
    AwaitChmod,
    /// The attempt has finished; its result went out with the last action.
    Done,
}

/// One resolution attempt: the project root it works under and its phase.
pub struct Attempt {
    pub root: String,
    pub phase: Phase,
}

/// The host's answer to the last action of an attempt.
pub enum Event {
    /// Whether the probed path exists and is a regular file.
    Probed { exists_as_file: bool },
    /// The host's platform.
    PlatformIs { os: Os, arch: Architecture },
    /// The latest release, fetched successfully.
    ReleaseFetched { release: Release },
    /// The release fetch failed; carries the host's message.
    ReleaseFetchFailed { message: String },
    /// The asset downloaded and unpacked successfully.
    Downloaded,
    /// The download failed; carries the host's message.
    DownloadFailed { message: String },
    /// The binary was marked executable.
    MadeExecutable,
    /// Marking the binary executable failed; carries the host's message.
    MakeExecutableFailed { message: String },
}

/// What an attempt asks of the host next.
pub enum Action {
    /// Report whether `path` exists and is a regular file.
    ProbePath { path: String },
    /// Report the platform. The host tells the user it is checking for an
    /// update first.
    QueryPlatform,
    /// Fetch the latest release of `repo` that is no prerelease and has
    /// at least one asset.
    FetchRelease { repo: String },
    /// Tell the user a download is running, then download the asset at
    /// `url` and unpack the zip archive into the working directory.
    DownloadAsset { url: String, file_name: String },
    /// Mark the file at `path` executable.
    MakeExecutable { path: String },
    /// The attempt is over; hand `result` to the caller.
    Finish { result: Result<String, ExtensionError> },
}

/// Mathematical model of a phase.
pub enum PhaseModel {
    CacheProbe { path: Seq<char> },
    DevProbe { second: bool },
    PlatformQuery,
    ReleaseQuery { suffix: Seq<char> },
    AwaitDownload,
    AwaitChmod,
    Done,
}

/// Mathematical model of an attempt.
pub struct AttemptModel {
    pub root: Seq<char>,
    pub phase: PhaseModel,
}

/// Mathematical model of an event.
pub enum EventModel {
    Probed { exists_as_file: bool },
    PlatformIs { os: Os, arch: Architecture },
    ReleaseFetched { release: ReleaseModel },
    ReleaseFetchFailed { message: Seq<char> },
    Downloaded,
    DownloadFailed { message: Seq<char> },
    MadeExecutable,
    MakeExecutableFailed { message: Seq<char> },
}

/// Mathematical model of an action.
pub enum ActionModel {
    ProbePath { path: Seq<char> },
    QueryPlatform,
    FetchRelease { repo: Seq<char> },
    DownloadAsset { url: Seq<char>, file_name: Seq<char> },
    MakeExecutable { path: Seq<char> },
    Finish { result: Result<Seq<char>, ErrorModel> },
}

impl View for Resolver {
    type V = Option<Seq<char>>;

    open spec fn view(&self) -> Option<Seq<char>> {
        match self.cached_binary_path {
            Some(p) => Some(p@),
            None => None,
        }
    }
}

impl View for Phase {
    type V = PhaseModel;

    open spec fn view(&self) -> PhaseModel {
        match self {
            Phase::CacheProbe { path } => PhaseModel::CacheProbe { path: path@ },
            Phase::DevProbe { second } => PhaseModel::DevProbe { second: *second },
            Phase::PlatformQuery => PhaseModel::PlatformQuery,
            Phase::ReleaseQuery { suffix } => PhaseModel::ReleaseQuery { suffix: suffix@ },
            Phase::AwaitDownload => PhaseModel::AwaitDownload,
            Phase::AwaitChmod => PhaseModel::AwaitChmod,
            Phase::Done => PhaseModel::Done,
        }
    }
}

impl View for Attempt {
    type V = AttemptModel;

    open spec fn view(&self) -> AttemptModel {
        AttemptModel { root: self.root@, phase: self.phase@ }
    }
}

impl View for Event {
    type V = EventModel;

    open spec fn view(&self) -> EventModel {
        match self {
            Event::Probed { exists_as_file } => EventModel::Probed {
                exists_as_file: *exists_as_file,
            },
            Event::PlatformIs { os, arch } => EventModel::PlatformIs { os: *os, arch: *arch },
            Event::ReleaseFetched { release } => EventModel::ReleaseFetched { release: release@ },
            Event::ReleaseFetchFailed { message } => EventModel::ReleaseFetchFailed {
                message: message@,
            },
            Event::Downloaded => EventModel::Downloaded,
            Event::DownloadFailed { message } => EventModel::DownloadFailed { message: message@ },
            Event::MadeExecutable => EventModel::MadeExecutable,
            Event::MakeExecutableFailed { message } => EventModel::MakeExecutableFailed {
                message: message@,
            },
        }
    }
}

impl View for Action {
    type V = ActionModel;

    open spec fn view(&self) -> ActionModel {
        match self {
            Action::ProbePath { path } => ActionModel::ProbePath { path: path@ },
            Action::QueryPlatform => ActionModel::QueryPlatform,
            Action::FetchRelease { repo } => ActionModel::FetchRelease { repo: repo@ },
            Action::DownloadAsset { url, file_name } => ActionModel::DownloadAsset {
                url: url@,
                file_name: file_name@,
            },
            Action::MakeExecutable { path } => ActionModel::MakeExecutable { path: path@ },
            Action::Finish { result } => ActionModel::Finish {
                result: match result {
                    Ok(p) => Ok(p@),
                    Err(e) => Err(e@),
                },
            },
        }
    }
}

/// What `begin` produces: the opening phase and action of an attempt.
/// A cached path is probed first; without one the first development
/// candidate is.
pub open spec fn begin_model(cached: Option<Seq<char>>, root: Seq<char>) -> (
    PhaseModel,
    ActionModel,
) {
    match cached {
        Some(path) => (
            PhaseModel::CacheProbe { path },
            ActionModel::ProbePath { path },
        ),
        None => (
            PhaseModel::DevProbe { second: false },
            ActionModel::ProbePath { path: dev_candidate(root, false) },
        ),
    }
}

/// The events a phase is waiting for; `step` accepts exactly these.
pub open spec fn step_allowed(phase: PhaseModel, event: EventModel) -> bool {
    match (phase, event) {
        (PhaseModel::CacheProbe { .. }, EventModel::Probed { .. }) => true,
        (PhaseModel::DevProbe { .. }, EventModel::Probed { .. }) => true,
        (PhaseModel::PlatformQuery, EventModel::PlatformIs { .. }) => true,
        (PhaseModel::ReleaseQuery { .. }, EventModel::ReleaseFetched { .. }) => true,
        (PhaseModel::ReleaseQuery { .. }, EventModel::ReleaseFetchFailed { .. }) => true,
        (PhaseModel::AwaitDownload, EventModel::Downloaded) => true,
        (PhaseModel::AwaitDownload, EventModel::DownloadFailed { .. }) => true,
        (PhaseModel::AwaitChmod, EventModel::MadeExecutable) => true,
        (PhaseModel::AwaitChmod, EventModel::MakeExecutableFailed { .. }) => true,
        _ => false,
    }
}

/// What one step leaves behind: the cache, the attempt's phase, and the
/// action handed to the host.
pub struct StepModel {
    pub cached: Option<Seq<char>>,
    pub phase: PhaseModel,
    pub action: ActionModel,
}

/// The transition relation of a resolution attempt. The final arm covers
/// the pairs that `step_allowed` refuses, only to keep the function
/// total: `step` is never called on those, and what the arm holds is
/// never looked at.
pub open spec fn step_model(
    cached: Option<Seq<char>>,
    root: Seq<char>,
    phase: PhaseModel,
    event: EventModel,
) -> StepModel {
    match (phase, event) {
        (PhaseModel::CacheProbe { path }, EventModel::Probed { exists_as_file }) => {
            if exists_as_file {
                StepModel {
                    cached,
                    phase: PhaseModel::Done,
                    action: ActionModel::Finish { result: Ok(path) },
                }
            } else {
                StepModel {
                    cached: None,
                    phase: PhaseModel::DevProbe { second: false },
                    action: ActionModel::ProbePath { path: dev_candidate(root, false) },
                }
            }
        },
        (PhaseModel::DevProbe { second }, EventModel::Probed { exists_as_file }) => {
            if exists_as_file {
                StepModel {
                    cached: Some(dev_candidate(root, second)),
                    phase: PhaseModel::Done,
                    action: ActionModel::Finish { result: Ok(dev_candidate(root, second)) },
                }
            } else if !second {
                StepModel {
                    cached,
                    phase: PhaseModel::DevProbe { second: true },
                    action: ActionModel::ProbePath { path: dev_candidate(root, true) },
                }
            } else {
                StepModel {
                    cached,
                    phase: PhaseModel::PlatformQuery,
                    action: ActionModel::QueryPlatform,
                }
            }
        },
        (PhaseModel::PlatformQuery, EventModel::PlatformIs { os, arch }) => {
            match suffix_for(os, arch) {
                Some(suffix) => StepModel {
                    cached,
                    phase: PhaseModel::ReleaseQuery { suffix },
                    action: ActionModel::FetchRelease { repo: repo_name() },
                },
                None => StepModel {
                    cached,
                    phase: PhaseModel::Done,
                    action: ActionModel::Finish {
                        result: Err(ErrorModel::UnsupportedPlatform { os, arch }),
                    },
                },
            }
        },
        (PhaseModel::ReleaseQuery { suffix }, EventModel::ReleaseFetched { release }) => {
            match first_matching(release.assets, suffix) {
                Some(i) => StepModel {
                    cached,
                    phase: PhaseModel::AwaitDownload,
                    action: ActionModel::DownloadAsset {
                        url: release.assets[i].url,
                        file_name: release.assets[i].name,
                    },
                },
                None => StepModel {
                    cached,
                    phase: PhaseModel::Done,
                    action: ActionModel::Finish {
                        result: Err(
                            ErrorModel::NoMatchingAsset { suffix, version: release.version },
                        ),
                    },
                },
            }
        },
        (PhaseModel::ReleaseQuery { .. }, EventModel::ReleaseFetchFailed { message }) => StepModel {
            cached,
            phase: PhaseModel::Done,
            action: ActionModel::Finish { result: Err(ErrorModel::ReleaseFetchFailed { message }) },
        },
        (PhaseModel::AwaitDownload, EventModel::Downloaded) => StepModel {
            cached,
            phase: PhaseModel::AwaitChmod,
            action: ActionModel::MakeExecutable { path: binary_name() },
        },
        (PhaseModel::AwaitDownload, EventModel::DownloadFailed { message }) => StepModel {
            cached,
            phase: PhaseModel::Done,
            action: ActionModel::Finish { result: Err(ErrorModel::DownloadFailed { message }) },
        },
        (PhaseModel::AwaitChmod, EventModel::MadeExecutable) => StepModel {
            cached: Some(binary_name()),
            phase: PhaseModel::Done,
            action: ActionModel::Finish { result: Ok(binary_name()) },
        },
        (PhaseModel::AwaitChmod, EventModel::MakeExecutableFailed { message }) => StepModel {
            cached,
            phase: PhaseModel::Done,
            action: ActionModel::Finish {
                result: Err(ErrorModel::PermissionSetFailed { message }),
            },
        },
        _ => StepModel { cached, phase, action: ActionModel::QueryPlatform },
    }
}

/// A well-formed attempt: while the cached path is being probed, it is
/// the path the resolver has cached.
pub open spec fn attempt_wf(cached: Option<Seq<char>>, phase: PhaseModel) -> bool {
    phase matches PhaseModel::CacheProbe { path } ==> cached == Some(path)
}

impl Resolver {
    /// A fresh extension instance: nothing cached yet.
    pub fn new() -> (r: Resolver)
        ensures
            r@ is None,
    {
        Resolver { cached_binary_path: None }
    }

    /// Opens a resolution attempt under `worktree_root` and asks for the
    /// first probe.
    pub fn begin(&self, worktree_root: &str) -> (r: (Attempt, Action))
        ensures
            r.0@.root == worktree_root@,
            (r.0@.phase, r.1@) == begin_model(self@, worktree_root@),
            attempt_wf(self@, r.0@.phase),
    {
        match &self.cached_binary_path {
            Some(p) => (
                Attempt {
                    root: String::from_str(worktree_root),
                    phase: Phase::CacheProbe { path: p.clone() },
                },
                Action::ProbePath { path: p.clone() },
            ),
            None => {
                let path = dev_path(worktree_root, false);
                (
                    Attempt {
                        root: String::from_str(worktree_root),
                        phase: Phase::DevProbe { second: false },
                    },
                    Action::ProbePath { path },
                )
            },
        }
    }

    /// Advances an attempt by one host answer: updates the cache as the
    /// protocol says and returns the attempt and the next action.
    pub fn step(&mut self, attempt: Attempt, event: Event) -> (r: (Attempt, Action))
        requires
            step_allowed(attempt@.phase, event@),
        ensures
            ({
                let m = step_model(old(self)@, attempt@.root, attempt@.phase, event@);
                &&& final(self)@ == m.cached
                &&& r.0@.root == attempt@.root
                &&& r.0@.phase == m.phase
                &&& r.1@ == m.action
            }),
    {
        let Attempt { root, phase } = attempt;
        match (phase, event) {
            (Phase::CacheProbe { path }, Event::Probed { exists_as_file }) => {
                if exists_as_file {
                    (
                        Attempt { root, phase: Phase::Done },
                        Action::Finish { result: Ok(path) },
                    )
                } else {
                    self.cached_binary_path = None;
                    let candidate = dev_path(root.as_str(), false);
                    (
                        Attempt { root, phase: Phase::DevProbe { second: false } },
                        Action::ProbePath { path: candidate },
                    )
                }
            },
            (Phase::DevProbe { second }, Event::Probed { exists_as_file }) => {
                if exists_as_file {
                    let found = dev_path(root.as_str(), second);
                    self.cached_binary_path = Some(found.clone());
                    (
                        Attempt { root, phase: Phase::Done },
                        Action::Finish { result: Ok(found) },
                    )
                } else if !second {
                    let candidate = dev_path(root.as_str(), true);
                    (
                        Attempt { root, phase: Phase::DevProbe { second: true } },
                        Action::ProbePath { path: candidate },
                    )
                } else {
                    (Attempt { root, phase: Phase::PlatformQuery }, Action::QueryPlatform)
                }
            },
            (Phase::PlatformQuery, Event::PlatformIs { os, arch }) => {
                match asset_suffix_for_platform(os, arch) {
                    Some(suffix) => (
                        Attempt {
                            root,
                            phase: Phase::ReleaseQuery { suffix: String::from_str(suffix) },
                        },
                        Action::FetchRelease {
                            repo: String::from_str("shopwareLabs/shopware-lsp"),
                        },
                    ),
                    None => (
                        Attempt { root, phase: Phase::Done },
                        Action::Finish {
                            result: Err(ExtensionError::UnsupportedPlatform { os, arch }),
                        },
                    ),
                }
            },
            (Phase::ReleaseQuery { suffix }, Event::ReleaseFetched { release }) => {
                match select_asset(&release.assets, suffix.as_str()) {
                    Some(i) => {
                        let url = release.assets[i].download_url.clone();
                        let file_name = release.assets[i].name.clone();
                        (
                            Attempt { root, phase: Phase::AwaitDownload },
                            Action::DownloadAsset { url, file_name },
                        )
                    },
                    None => (
                        Attempt { root, phase: Phase::Done },
                        Action::Finish {
                            result: Err(
                                ExtensionError::NoMatchingAsset {
                                    suffix,
                                    version: release.version,
                                },
                            ),
                        },
                    ),
                }
            },
            (Phase::ReleaseQuery { .. }, Event::ReleaseFetchFailed { message }) => (
                Attempt { root, phase: Phase::Done },
                Action::Finish { result: Err(ExtensionError::ReleaseFetchFailed { message }) },
            ),
            (Phase::AwaitDownload, Event::Downloaded) => (
                Attempt { root, phase: Phase::AwaitChmod },
                Action::MakeExecutable { path: String::from_str("shopware-lsp") },
            ),
            (Phase::AwaitDownload, Event::DownloadFailed { message }) => (
                Attempt { root, phase: Phase::Done },
                Action::Finish { result: Err(ExtensionError::DownloadFailed { message }) },
            ),
            (Phase::AwaitChmod, Event::MadeExecutable) => {
                let found = String::from_str("shopware-lsp");
                self.cached_binary_path = Some(found.clone());
                (
                    Attempt { root, phase: Phase::Done },
                    Action::Finish { result: Ok(found) },
                )
            },
            (Phase::AwaitChmod, Event::MakeExecutableFailed { message }) => (
                Attempt { root, phase: Phase::Done },
                Action::Finish { result: Err(ExtensionError::PermissionSetFailed { message }) },
            ),
            _ => unreached(),
        }
    }
}

/// Actions that reach the network.
pub open spec fn is_network_action(a: ActionModel) -> bool {
    a is FetchRelease || a is DownloadAsset
}

/// A step of a well-formed attempt leaves the attempt well formed.
pub proof fn lemma_step_preserves_wf(
    cached: Option<Seq<char>>,
    root: Seq<char>,
    phase: PhaseModel,
    event: EventModel,
)
    requires
        attempt_wf(cached, phase),
        step_allowed(phase, event),
    ensures
        ({
            let m = step_model(cached, root, phase, event);
            attempt_wf(m.cached, m.phase)
        }),
{
}

/// Whenever a step finishes a well-formed attempt successfully, the path
/// it returns is exactly the path it leaves cached.
pub proof fn lemma_success_is_cached(
    cached: Option<Seq<char>>,
    root: Seq<char>,
    phase: PhaseModel,
    event: EventModel,
)
    requires
        attempt_wf(cached, phase),
        step_allowed(phase, event),
    ensures
        ({
            let m = step_model(cached, root, phase, event);
            m.action matches ActionModel::Finish { result } ==> (result matches Ok(p) ==> m.cached
                == Some(p))
        }),
{
}

/// With a path cached, an attempt opens by probing that path and nothing
/// else, and a successful probe finishes at once with the identical
/// cached path: the cache is untouched and no further probe and no
/// network action is ever requested.
pub proof fn lemma_cached_hit_single_probe(cached_path: Seq<char>, root: Seq<char>)
    ensures
        begin_model(Some(cached_path), root) == (
            PhaseModel::CacheProbe { path: cached_path },
            ActionModel::ProbePath { path: cached_path },
        ),
        ({
            let m = step_model(
                Some(cached_path),
                root,
                PhaseModel::CacheProbe { path: cached_path },
                EventModel::Probed { exists_as_file: true },
            );
            &&& m.action == ActionModel::Finish {
                result: Ok::<Seq<char>, ErrorModel>(cached_path),
            }
            &&& m.cached == Some(cached_path)
            &&& m.phase is Done
        }),
{
}

/// When the probe of a cached path finds the file gone, the stale path is
/// forgotten and the attempt turns to the first development candidate:
/// the stale path is never returned and no network action follows
/// directly.
pub proof fn lemma_stale_cache_reprobes(cached_path: Seq<char>, root: Seq<char>)
    ensures
        ({
            let m = step_model(
                Some(cached_path),
                root,
                PhaseModel::CacheProbe { path: cached_path },
                EventModel::Probed { exists_as_file: false },
            );
            &&& m.cached is None
            &&& m.phase == PhaseModel::DevProbe { second: false }
            &&& m.action == ActionModel::ProbePath { path: dev_candidate(root, false) }
            &&& !is_network_action(m.action)
        }),
{
}

/// With nothing cached, an attempt opens by probing the development
/// binary under the project root, and finding it finishes the attempt at
/// once with that path: neither action taken is a network action, so a
/// present development binary is returned without any network call.
pub proof fn lemma_dev_binary_short_circuits(root: Seq<char>)
    ensures
        begin_model(None, root) == (
            PhaseModel::DevProbe { second: false },
            ActionModel::ProbePath { path: dev_candidate(root, false) },
        ),
        !is_network_action(begin_model(None, root).1),
        ({
            let m = step_model(
                None,
                root,
                PhaseModel::DevProbe { second: false },
                EventModel::Probed { exists_as_file: true },
            );
            &&& m.action == ActionModel::Finish {
                result: Ok::<Seq<char>, ErrorModel>(dev_candidate(root, false)),
            }
            &&& m.cached == Some(dev_candidate(root, false))
            &&& m.phase is Done
            &&& !is_network_action(m.action)
        }),
{
}

/// When no asset of the fetched release ends with the required suffix,
/// the attempt fails with a no-matching-asset error naming that suffix
/// and the release's version.
pub proof fn lemma_no_matching_asset_fails(
    cached: Option<Seq<char>>,
    root: Seq<char>,
    suffix: Seq<char>,
    release: ReleaseModel,
)
    requires
        forall|j: int| 0 <= j < release.assets.len() ==> !ends_with(release.assets[j].name, suffix),
    ensures
        ({
            let m = step_model(
                cached,
                root,
                PhaseModel::ReleaseQuery { suffix },
                EventModel::ReleaseFetched { release },
            );
            m.action == ActionModel::Finish {
                result: Err::<Seq<char>, ErrorModel>(
                    ErrorModel::NoMatchingAsset { suffix, version: release.version },
                ),
            }
        }),
{
    crate::release::lemma_first_matching_characterization(release.assets, suffix);
}

} // verus!
