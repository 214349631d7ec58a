use crate::text::{concat, str_eq};
use vstd::prelude::*;
use vstd::string::*;

verus! {

/// Name of the directory, below a binary's folder, that holds transfers that
/// are under way or not yet checked.
pub const STAGING_FOLDER: &'static str = "in_progress";

/// What is appended to an asset's name and address to get its checksum sidecar.
pub const CHECKSUM_SUFFIX: &'static str = ".sha256";

/// Why a binary could not be resolved.
#[derive(Debug, Clone, Copy, PartialEq, Eq, Structural)]
pub enum ResolveError {
    /// The list of releases could not be fetched or read.
    SourceUnavailable,
    /// No asset naming convention is known for the running platform.
    UnsupportedPlatform,
    /// No asset of the release is meant for the running platform.
    AssetNotFound,
    /// Every attempt to transfer a file failed.
    TransferFailed,
    /// A downloaded file does not have the digest that its sidecar names.
    IntegrityViolation,
    /// The cache directory could not be found or written.
    IOError,
}

/// One downloadable file of a release.
#[derive(Debug, Clone)]
pub struct VersionAsset {
    pub url: String,
    pub name: String,
}

impl VersionAsset {
    /// A copy of this asset.
    pub fn duplicate(&self) -> (r: VersionAsset)
        ensures
            r == *self,
    {
        VersionAsset { url: self.url.clone(), name: self.name.clone() }
    }
}

/// One published version with its assets, in the order of publication.
#[derive(Debug, Clone)]
pub struct VersionDownloadInfo {
    pub version: String,
    pub assets: Vec<VersionAsset>,
}

#[derive(Debug, Clone, Copy, PartialEq, Eq, Structural)]
pub enum Os {
    Windows,
    MacOs,
    Linux,
    Other,
}

#[derive(Debug, Clone, Copy, PartialEq, Eq, Structural)]
pub enum Arch {
    X86_64,
    Aarch64,
    Other,
}

/// The operating system and processor architecture that the process runs on.
#[derive(Debug, Clone, Copy, PartialEq, Eq, Structural)]
pub struct PlatformKey {
    pub os: Os,
    pub arch: Arch,
}

impl PlatformKey {
    /// The pattern that the name of an asset for this platform matches, for
    /// the platforms that binaries are published for.
    pub open spec fn suffix_pattern(self) -> Option<Seq<char>> {
        match (self.os, self.arch) {
            (Os::Windows, Arch::X86_64) => Some("windows-x64.*\\.zip"@),
            (Os::MacOs, Arch::X86_64) => Some("macos-x86_64.*\\.zip"@),
            (Os::MacOs, Arch::Aarch64) => Some("macos-arm64.*\\.zip"@),
            (Os::Linux, Arch::X86_64) => Some("linux-x86_64.*\\.zip"@),
            _ => None,
        }
    }

    /// Whether binaries are published for this platform.
    pub open spec fn is_supported(self) -> bool {
        self.suffix_pattern().is_some()
    }

    pub fn platform_suffix(&self) -> (r: Option<&'static str>)
        ensures
            match r {
                Some(s) => self.suffix_pattern() == Some(s@),
                None => self.suffix_pattern().is_none(),
            },
    {
        match (self.os, self.arch) {
            (Os::Windows, Arch::X86_64) => Some("windows-x64.*\\.zip"),
            (Os::MacOs, Arch::X86_64) => Some("macos-x86_64.*\\.zip"),
            (Os::MacOs, Arch::Aarch64) => Some("macos-arm64.*\\.zip"),
            (Os::Linux, Arch::X86_64) => Some("linux-x86_64.*\\.zip"),
            _ => None,
        }
    }
}

/// A place in the file system: a root directory and the names that lead down
/// from it, outermost first.
#[derive(Debug, Clone)]
pub struct CachePath {
    pub root: String,
    pub components: Vec<String>,
}

impl CachePath {
    /// The path that `child` has inside this directory.
    pub open spec fn joined(self, child: Seq<char>, r: CachePath) -> bool {
        &&& r.root@ == self.root@
        &&& r.components@.len() == self.components@.len() + 1
        &&& forall|i: int|
            0 <= i < self.components@.len() ==> (#[trigger] r.components@[i])@
                == self.components@[i]@
        &&& r.components@[self.components@.len() as int]@ == child
    }

    pub fn join(&self, child: &str) -> (r: CachePath)
        ensures
            self.joined(child@, r),
    {
        let mut components: Vec<String> = Vec::new();
        let mut i: usize = 0;
        while i < self.components.len()
            invariant
                i <= self.components.len(),
                components@.len() == i,
                forall|k: int|
                    0 <= k < i ==> (#[trigger] components@[k])@ == self.components@[k]@,
            decreases self.components.len() - i,
        {
            components.push(self.components[i].clone());
            i = i + 1;
        }
        components.push(child.to_owned());
        CachePath { root: self.root.clone(), components }
    }

    /// The directory, inside this folder of binaries, in which `version` is
    /// installed once it is verified.
    pub fn version_folder(&self, version: &str) -> (r: CachePath)
        ensures
            self.joined(version@, r),
    {
        self.join(version)
    }

    /// The staging directory inside this directory.
    pub fn staging(&self) -> (r: CachePath)
        ensures
            self.joined(STAGING_FOLDER@, r),
    {
        self.join(STAGING_FOLDER)
    }
}

/// The name of the checksum sidecar of an asset, or its address: the asset's
/// own with the checksum suffix behind it.
pub fn checksum_name(of: &str) -> (r: String)
    ensures
        r@ == of@ + CHECKSUM_SUFFIX@,
{
    concat(of, CHECKSUM_SUFFIX)
}

/// The index of the first `true` in `hits`, where there is one.
pub open spec fn is_first_hit(hits: Seq<bool>, i: int) -> bool {
    &&& 0 <= i < hits.len()
    &&& hits[i]
    &&& forall|j: int| 0 <= j < i ==> !hits[j]
}

/// Whether `r` is the right pick from `assets`, given for each asset whether
/// it fits: a copy of the first that fits, or nothing where none does.
pub open spec fn is_first_fitting(
    assets: Seq<VersionAsset>,
    hits: Seq<bool>,
    r: Option<VersionAsset>,
) -> bool {
    match r {
        Some(asset) => exists|i: int| #[trigger] is_first_hit(hits, i) && asset == assets[i],
        None => forall|j: int| 0 <= j < hits.len() ==> !hits[j],
    }
}

/// Picks, in list order, the first asset that fits. `hits` says of each asset
/// whether it fits.
pub fn first_fitting(assets: &Vec<VersionAsset>, hits: &Vec<bool>) -> (r: Option<VersionAsset>)
    requires
        assets@.len() == hits@.len(),
    ensures
        is_first_fitting(assets@, hits@, r),
{
    let mut i: usize = 0;
    while i < hits.len()
        invariant
            i <= hits.len(),
            assets@.len() == hits@.len(),
            forall|j: int| 0 <= j < i ==> !hits@[j],
        decreases hits.len() - i,
    {
        if hits[i] {
            let found = assets[i].duplicate();
            assert(is_first_hit(hits@, i as int));
            return Some(found);
        }
        i = i + 1;
    }
    None
}

/// Where a resolution pass stands.
#[derive(Debug, Clone, Copy, PartialEq, Eq, Structural)]
pub enum ResolverState {
    Idle,
    ListingReleases,
    SelectingVersion,
    /// The asset and its checksum sidecar are being fetched into staging.
    Downloading,
    Verifying,
    /// The verified file is being moved from staging to its final place.
    Installing,
    Done,
    Failed(ResolveError),
}

/// What happened since the last step of a resolution pass.
#[derive(Debug, Clone, Copy, PartialEq, Eq, Structural)]
pub enum ResolverEvent {
    Started,
    ReleasesListed,
    ListingFailed,
    /// A release was chosen whose version is not installed yet.
    VersionSelected,
    /// The release that was chosen is installed and verified already.
    AlreadyInstalled,
    /// No release has an asset for the platform; the error says why.
    SelectionFailed(ResolveError),
    /// Both the asset and its sidecar have arrived.
    DownloadsCompleted,
    /// The attempts to fetch one of the two are spent.
    DownloadFailed,
    ChecksumAccepted,
    ChecksumRejected,
    Installed,
    InstallFailed,
}

impl ResolverState {
    /// Whether the pass has ended.
    pub open spec fn is_terminal(self) -> bool {
        self == ResolverState::Done || self is Failed
    }

    /// The state that follows on an event. An event that a state does not
    /// expect leaves the state as it is, and nothing leads out of the end of a
    /// pass.
    pub open spec fn next(self, event: ResolverEvent) -> ResolverState {
        match (self, event) {
            (ResolverState::Idle, ResolverEvent::Started) => ResolverState::ListingReleases,
            (ResolverState::ListingReleases, ResolverEvent::ReleasesListed) => ResolverState::SelectingVersion,
            (ResolverState::ListingReleases, ResolverEvent::ListingFailed) => ResolverState::Failed(
                ResolveError::SourceUnavailable,
            ),
            (ResolverState::SelectingVersion, ResolverEvent::VersionSelected) => ResolverState::Downloading,
            (ResolverState::SelectingVersion, ResolverEvent::AlreadyInstalled) => ResolverState::Done,
            (ResolverState::SelectingVersion, ResolverEvent::SelectionFailed(e)) => ResolverState::Failed(e),
            (ResolverState::Downloading, ResolverEvent::DownloadsCompleted) => ResolverState::Verifying,
            (ResolverState::Downloading, ResolverEvent::DownloadFailed) => ResolverState::Failed(
                ResolveError::TransferFailed,
            ),
            (ResolverState::Verifying, ResolverEvent::ChecksumAccepted) => ResolverState::Installing,
            (ResolverState::Verifying, ResolverEvent::ChecksumRejected) => ResolverState::Failed(
                ResolveError::IntegrityViolation,
            ),
            (ResolverState::Installing, ResolverEvent::Installed) => ResolverState::Done,
            (ResolverState::Installing, ResolverEvent::InstallFailed) => ResolverState::Failed(
                ResolveError::IOError,
            ),
            _ => self,
        }
    }

    /// Takes the pass one step further.
    pub fn advance(self, event: ResolverEvent) -> (r: ResolverState)
        ensures
            r == self.next(event),
    {
        match (self, event) {
            (ResolverState::Idle, ResolverEvent::Started) => ResolverState::ListingReleases,
            (ResolverState::ListingReleases, ResolverEvent::ReleasesListed) => ResolverState::SelectingVersion,
            (ResolverState::ListingReleases, ResolverEvent::ListingFailed) => ResolverState::Failed(
                ResolveError::SourceUnavailable,
            ),
            (ResolverState::SelectingVersion, ResolverEvent::VersionSelected) => ResolverState::Downloading,
            (ResolverState::SelectingVersion, ResolverEvent::AlreadyInstalled) => ResolverState::Done,
            (ResolverState::SelectingVersion, ResolverEvent::SelectionFailed(e)) => ResolverState::Failed(e),
            (ResolverState::Downloading, ResolverEvent::DownloadsCompleted) => ResolverState::Verifying,
            (ResolverState::Downloading, ResolverEvent::DownloadFailed) => ResolverState::Failed(
                ResolveError::TransferFailed,
            ),
            (ResolverState::Verifying, ResolverEvent::ChecksumAccepted) => ResolverState::Installing,
            (ResolverState::Verifying, ResolverEvent::ChecksumRejected) => ResolverState::Failed(
                ResolveError::IntegrityViolation,
            ),
            (ResolverState::Installing, ResolverEvent::Installed) => ResolverState::Done,
            (ResolverState::Installing, ResolverEvent::InstallFailed) => ResolverState::Failed(
                ResolveError::IOError,
            ),
            _ => self,
        }
    }

    /// A file is installed only after its checksum was accepted: nothing but
    /// that leads into `Installing`, and a rejected checksum ends the pass with
    /// `IntegrityViolation`.
    pub proof fn lemma_only_verified_files_are_installed(state: ResolverState, event: ResolverEvent)
        ensures
            state != ResolverState::Installing && state.next(event) == ResolverState::Installing
                ==> state == ResolverState::Verifying && event == ResolverEvent::ChecksumAccepted,
            ResolverState::Verifying.next(ResolverEvent::ChecksumRejected) == ResolverState::Failed(
                ResolveError::IntegrityViolation,
            ),
    {
    }

    /// Nothing leads out of the end of a pass.
    pub proof fn lemma_end_is_final(state: ResolverState, event: ResolverEvent)
        requires
            state.is_terminal(),
        ensures
            state.next(event) == state,
    {
    }

    /// The state after a run of events, taken one after the other.
    pub open spec fn after(self, events: Seq<ResolverEvent>) -> ResolverState
        decreases events.len(),
    {
        if events.len() == 0 {
            self
        } else {
            self.next(events[0]).after(events.drop_first())
        }
    }

    /// A pass that has ended stays as it ended, whatever happens later.
    pub proof fn lemma_end_stays(state: ResolverState, events: Seq<ResolverEvent>)
        requires
            state.is_terminal(),
        ensures
            state.after(events) == state,
        decreases events.len(),
    {
        if events.len() > 0 {
            Self::lemma_end_is_final(state, events[0]);
            Self::lemma_end_stays(state, events.drop_first());
        }
    }

    /// Resolving again what is installed and verified is no work: where the
    /// version that was chosen is the one installed, the pass is done at the
    /// choice, and no later event takes it into a download, a verification or
    /// an installation.
    pub proof fn lemma_installed_version_is_no_work(version: Seq<char>, events: Seq<ResolverEvent>)
        ensures
            selection_of(Some(version), version) == ResolverEvent::AlreadyInstalled,
            ResolverState::SelectingVersion.next(selection_of(Some(version), version)).after(events)
                == ResolverState::Done,
    {
        Self::lemma_end_stays(ResolverState::Done, events);
    }

    /// A file whose checksum was rejected is never installed: the pass has
    /// failed with `IntegrityViolation`, and no later event takes it into an
    /// installation.
    pub proof fn lemma_rejected_file_is_never_installed(events: Seq<ResolverEvent>)
        ensures
            ResolverState::Verifying.next(ResolverEvent::ChecksumRejected).after(events)
                == ResolverState::Failed(ResolveError::IntegrityViolation),
    {
        Self::lemma_end_stays(ResolverState::Failed(ResolveError::IntegrityViolation), events);
    }
}

/// The event that the choice of a release gives rise to: the release is
/// installed already where its version is the one that is installed and
/// verified.
pub open spec fn selection_of(installed: Option<Seq<char>>, chosen: Seq<char>) -> ResolverEvent {
    if installed == Some(chosen) {
        ResolverEvent::AlreadyInstalled
    } else {
        ResolverEvent::VersionSelected
    }
}

/// What a pass is to do about the release that it chose, given the version
/// that is installed and verified, if any.
pub fn selection_event(installed: Option<&str>, chosen: &str) -> (r: ResolverEvent)
    ensures
        r == selection_of(
            match installed {
                Some(v) => Some(v@),
                None => None,
            },
            chosen@,
        ),
{
    match installed {
        Some(v) => {
            if str_eq(v, chosen) {
                ResolverEvent::AlreadyInstalled
            } else {
                ResolverEvent::VersionSelected
            }
        },
        None => ResolverEvent::VersionSelected,
    }
}

} // verus!
