use crate::binaries::binaries_resolver::{
    checksum_name, first_fitting, is_first_fitting, is_first_hit, CachePath, PlatformKey,
    ResolveError, VersionAsset, VersionDownloadInfo, CHECKSUM_SUFFIX, STAGING_FOLDER,
};
use crate::consts::APPLICATION_FOLDER_ID;
use crate::network::Network;
use vstd::prelude::*;
use vstd::string::*;

verus! {

/// Whether `regex::Regex::new` accepts `pattern`.
pub uninterp spec fn regex_is_valid(pattern: Seq<char>) -> bool;

/// Whether the regular expression compiled from `pattern` matches somewhere
/// in `haystack`, as `regex::Regex::is_match` tells.
pub uninterp spec fn regex_is_match(pattern: Seq<char>, haystack: Seq<char>) -> bool;

/// Whether `pattern` is a regular expression that matches somewhere in `text`.
pub open spec fn pattern_hits(pattern: Seq<char>, text: Seq<char>) -> bool {
    regex_is_valid(pattern) && regex_is_match(pattern, text)
}

/// Searches `haystack` for `pattern`.
///
/// Trusted: compiles the pattern with `regex::Regex::new` and searches with
/// `regex::Regex::is_match`. Both depend on their arguments alone: the result
/// is `None` exactly where the pattern is refused, else whether there is a
/// match anywhere in the haystack.
#[verifier::external_body]
fn regex_search(pattern: &str, haystack: &str) -> (r: Option<bool>)
    ensures
        r == (if regex_is_valid(pattern@) {
            Some(regex_is_match(pattern@, haystack@))
        } else {
            None::<bool>
        }),
{
    match regex::Regex::new(pattern) {
        Ok(re) => Some(re.is_match(haystack)),
        Err(_) => None,
    }
}

/// The user's cache directory.
///
/// Trusted: `dirs::cache_dir` asks the operating system and the environment
/// for the directory; it is `None` where there is none, and here also where
/// its name is not valid Unicode. Nothing is claimed of the answer.
#[verifier::external_body]
fn cache_dir() -> (r: Option<String>) {
    dirs::cache_dir().and_then(|p| p.into_os_string().into_string().ok())
}

/// Whether an asset is acceptable, given what the search for its name gave:
/// `filter_hit` is `None` where the adapter has no filter. Both the platform
/// pattern and the filter, where there is one, have to match.
pub fn both_hit(filter_hit: Option<Option<bool>>, platform_hit: Option<bool>) -> (r: bool)
    ensures
        r == (platform_hit == Some(true) && (filter_hit.is_none() || filter_hit == Some(
            Some(true),
        ))),
{
    let platform_ok = match platform_hit {
        Some(hit) => hit,
        None => false,
    };
    let filter_ok = match filter_hit {
        None => true,
        Some(Some(hit)) => hit,
        Some(None) => false,
    };
    filter_ok && platform_ok
}

/// What is to be fetched, and where it is to be put.
#[derive(Debug, Clone)]
pub struct DownloadRequest {
    pub url: String,
    pub destination: CachePath,
}

/// A source of releases that are published on GitHub.
#[derive(Debug, Clone)]
pub struct GithubReleasesAdapter {
    pub repo: String,
    pub owner: String,
    /// A regular expression that narrows the assets of a platform down to one
    /// binary, for releases that publish several.
    pub specific_name: Option<String>,
}

impl GithubReleasesAdapter {
    /// Whether an asset of the given name is the one for `platform`: its name
    /// matches the platform's pattern and, where the adapter has a filter,
    /// the filter too.
    pub open spec fn fits(self, platform: PlatformKey, name: Seq<char>) -> bool {
        match platform.suffix_pattern() {
            Some(suffix) => pattern_hits(suffix, name) && match self.specific_name {
                Some(filter) => pattern_hits(filter@, name),
                None => true,
            },
            None => false,
        }
    }

    /// For each asset, whether it fits.
    pub open spec fn hits(self, platform: PlatformKey, assets: Seq<VersionAsset>) -> Seq<bool> {
        Seq::new(assets.len(), |i: int| self.fits(platform, assets[i].name@))
    }

    /// Whether `r` is the right answer to the question which of `assets` is
    /// meant for `platform`: the first that fits, in list order.
    pub open spec fn selects(
        self,
        platform: PlatformKey,
        assets: Seq<VersionAsset>,
        r: Result<VersionAsset, ResolveError>,
    ) -> bool {
        if !platform.is_supported() {
            r == Err::<VersionAsset, ResolveError>(ResolveError::UnsupportedPlatform)
        } else {
            match r {
                Ok(asset) => is_first_fitting(assets, self.hits(platform, assets), Some(asset)),
                Err(e) => e == ResolveError::AssetNotFound && is_first_fitting(
                    assets,
                    self.hits(platform, assets),
                    None,
                ),
            }
        }
    }

    /// Whether `r` is the folder of this adapter's binaries below `cache_root`
    /// for `network`: the application's folder, `binaries`, the repository and
    /// the network's name.
    pub open spec fn is_binary_folder(self, cache_root: Seq<char>, network: Network, r: CachePath) -> bool {
        &&& r.root@ == cache_root
        &&& r.components@.len() == 4
        &&& r.components@[0]@ == APPLICATION_FOLDER_ID@
        &&& r.components@[1]@ == "binaries"@
        &&& r.components@[2]@ == self.repo@
        &&& r.components@[3]@ == network.key()
    }

    /// Whether `r` is the folder of this adapter's binaries for one of the
    /// networks, below the root that it names.
    pub open spec fn is_own_binary_folder(self, r: CachePath) -> bool {
        exists|network: Network| #[trigger] self.is_binary_folder(r.root@, network, r)
    }

    /// Whether an asset called `name` fits the platform whose pattern is
    /// `suffix`.
    fn asset_fits(&self, suffix: &str, name: &str) -> (r: bool)
        ensures
            r == (pattern_hits(suffix@, name@) && match self.specific_name {
                Some(filter) => pattern_hits(filter@, name@),
                None => true,
            }),
    {
        let filter_hit = match &self.specific_name {
            Some(filter) => Some(regex_search(filter.as_str(), name)),
            None => None,
        };
        let platform_hit = regex_search(suffix, name);
        both_hit(filter_hit, platform_hit)
    }

    /// The asset of `version` that is meant for `platform`: the first, in list
    /// order, whose name matches the platform's pattern and the adapter's
    /// filter. Fails with `UnsupportedPlatform` where no binaries are published
    /// for the platform, and with `AssetNotFound` where no asset fits.
    pub fn find_version_for_platform(
        &self,
        version: &VersionDownloadInfo,
        platform: PlatformKey,
    ) -> (r: Result<VersionAsset, ResolveError>)
        ensures
            self.selects(platform, version.assets@, r),
    {
        let suffix = match platform.platform_suffix() {
            Some(s) => s,
            None => {
                return Err(ResolveError::UnsupportedPlatform);
            },
        };
        let mut hits: Vec<bool> = Vec::new();
        let mut i: usize = 0;
        while i < version.assets.len()
            invariant
                i <= version.assets.len(),
                hits@.len() == i,
                platform.suffix_pattern() == Some(suffix@),
                forall|k: int|
                    0 <= k < i ==> hits@[k] == self.fits(platform, version.assets@[k].name@),
            decreases version.assets.len() - i,
        {
            let hit = self.asset_fits(suffix, version.assets[i].name.as_str());
            hits.push(hit);
            i = i + 1;
        }
        assert(hits@ =~= self.hits(platform, version.assets@));
        match first_fitting(&version.assets, &hits) {
            Some(asset) => Ok(asset),
            None => Err(ResolveError::AssetNotFound),
        }
    }

    /// The folder of this adapter's binaries below `cache_root` for `network`.
    pub fn binary_folder_in(&self, cache_root: String, network: Network) -> (r: CachePath)
        ensures
            self.is_binary_folder(cache_root@, network, r),
    {
        let mut components: Vec<String> = Vec::new();
        components.push(APPLICATION_FOLDER_ID.to_owned());
        components.push("binaries".to_owned());
        components.push(self.repo.clone());
        components.push(network.as_key_str().to_owned());
        CachePath { root: cache_root, components }
    }

    /// The folder of this adapter's binaries below the user's cache directory,
    /// for the network that the process runs against. Fails with `IOError`
    /// where the user has no cache directory.
    pub fn get_binary_folder(&self) -> (r: Result<CachePath, ResolveError>)
        ensures
            match r {
                Ok(folder) => self.is_own_binary_folder(folder),
                Err(e) => e == ResolveError::IOError,
            },
    {
        match cache_dir() {
            Some(cache_root) => {
                let network = Network::current();
                let folder = self.binary_folder_in(cache_root, network);
                assert(self.is_binary_folder(folder.root@, network, folder));
                Ok(folder)
            },
            None => Err(ResolveError::IOError),
        }
    }

    /// Whether `r` asks for the checksum sidecar of `asset` to be put into the
    /// staging folder of `directory`.
    pub open spec fn is_checksum_request(directory: CachePath, asset: VersionAsset, r: DownloadRequest) -> bool {
        let depth = directory.components@.len() as int;
        &&& r.url@ == asset.url@ + CHECKSUM_SUFFIX@
        &&& r.destination.root@ == directory.root@
        &&& r.destination.components@.len() == depth + 2
        &&& forall|i: int|
            0 <= i < depth ==> (#[trigger] r.destination.components@[i])@
                == directory.components@[i]@
        &&& r.destination.components@[depth]@ == STAGING_FOLDER@
        &&& r.destination.components@[depth + 1]@ == asset.name@ + CHECKSUM_SUFFIX@
    }

    /// Where the checksum sidecar of `asset` is fetched from and where, below
    /// `directory`, it is staged.
    pub fn checksum_request(directory: &CachePath, asset: &VersionAsset) -> (r: DownloadRequest)
        ensures
            Self::is_checksum_request(*directory, *asset, r),
    {
        let file_name = checksum_name(asset.name.as_str());
        let staging = directory.staging();
        let destination = staging.join(file_name.as_str());
        DownloadRequest { url: checksum_name(asset.url.as_str()), destination }
    }

    /// Resolves the asset of `download_info` for `platform` and says where its
    /// checksum sidecar is fetched from and staged. Fails as
    /// `find_version_for_platform` does.
    pub fn download_and_get_checksum_path(
        &self,
        directory: &CachePath,
        download_info: &VersionDownloadInfo,
        platform: PlatformKey,
    ) -> (r: Result<DownloadRequest, ResolveError>)
        ensures
            match r {
                Ok(request) => exists|asset: VersionAsset| #[trigger]
                    self.selects(platform, download_info.assets@, Ok(asset))
                        && Self::is_checksum_request(*directory, asset, request),
                Err(e) => self.selects(platform, download_info.assets@, Err(e)),
            },
    {
        match self.find_version_for_platform(download_info, platform) {
            Ok(asset) => Ok(Self::checksum_request(directory, &asset)),
            Err(e) => Err(e),
        }
    }

    /// Whether one of `assets` is meant for `platform`.
    pub open spec fn resolves(self, platform: PlatformKey, assets: Seq<VersionAsset>) -> bool {
        platform.is_supported() && exists|i: int|
            0 <= i < assets.len() && self.fits(platform, #[trigger] assets[i].name@)
    }

    /// Whether `r` is the right choice among `releases`, newest first: the
    /// first release that has an asset for `platform`, with that asset.
    /// Releases without one are passed over. Where no release has one, the
    /// choice fails as the search in a single release does.
    pub open spec fn chooses(
        self,
        platform: PlatformKey,
        releases: Seq<VersionDownloadInfo>,
        r: Result<(usize, VersionAsset), ResolveError>,
    ) -> bool {
        match r {
            Ok((index, asset)) => {
                &&& index < releases.len()
                &&& self.selects(platform, releases[index as int].assets@, Ok(asset))
                &&& forall|j: int|
                    0 <= j < index ==> !self.resolves(platform, #[trigger] releases[j].assets@)
            },
            Err(e) => {
                &&& forall|j: int|
                    0 <= j < releases.len() ==> !self.resolves(
                        platform,
                        #[trigger] releases[j].assets@,
                    )
                &&& e == (if platform.is_supported() {
                    ResolveError::AssetNotFound
                } else {
                    ResolveError::UnsupportedPlatform
                })
            },
        }
    }

    /// A release in which the search fails has no asset for the platform.
    pub proof fn lemma_failed_search_resolves_nothing(
        self,
        platform: PlatformKey,
        assets: Seq<VersionAsset>,
        e: ResolveError,
    )
        requires
            self.selects(platform, assets, Err(e)),
        ensures
            !self.resolves(platform, assets),
    {
        if platform.is_supported() {
            let hits = self.hits(platform, assets);
            assert forall|i: int| 0 <= i < assets.len() implies !self.fits(
                platform,
                #[trigger] assets[i].name@,
            ) by {
                assert(!hits[i]);
            }
        }
    }

    /// Chooses the release to install from `releases`, newest first: the first
    /// that has an asset for `platform`.
    pub fn select_release(&self, releases: &Vec<VersionDownloadInfo>, platform: PlatformKey) -> (r:
        Result<(usize, VersionAsset), ResolveError>)
        ensures
            self.chooses(platform, releases@, r),
    {
        let mut i: usize = 0;
        while i < releases.len()
            invariant
                i <= releases.len(),
                forall|j: int|
                    0 <= j < i ==> !self.resolves(platform, #[trigger] releases@[j].assets@),
            decreases releases.len() - i,
        {
            match self.find_version_for_platform(&releases[i], platform) {
                Ok(asset) => {
                    return Ok((i, asset));
                },
                Err(e) => {
                    proof {
                        self.lemma_failed_search_resolves_nothing(platform, releases@[i as int].assets@, e);
                    }
                },
            }
            i = i + 1;
        }
        if platform.platform_suffix().is_some() {
            Err(ResolveError::AssetNotFound)
        } else {
            Err(ResolveError::UnsupportedPlatform)
        }
    }

    /// The answer to which asset is meant for a platform is fixed by the
    /// assets and the platform: two right answers are the same answer.
    pub proof fn lemma_selection_is_determined(
        self,
        platform: PlatformKey,
        assets: Seq<VersionAsset>,
        r1: Result<VersionAsset, ResolveError>,
        r2: Result<VersionAsset, ResolveError>,
    )
        requires
            self.selects(platform, assets, r1),
            self.selects(platform, assets, r2),
        ensures
            r1 == r2,
    {
        let hits = self.hits(platform, assets);
        if platform.is_supported() {
            match (r1, r2) {
                (Ok(a1), Ok(a2)) => {
                    let i1 = choose|i: int| #[trigger] is_first_hit(hits, i) && a1 == assets[i];
                    let i2 = choose|i: int| #[trigger] is_first_hit(hits, i) && a2 == assets[i];
                    assert(i1 == i2);
                },
                (Ok(a1), Err(_)) => {
                    let i1 = choose|i: int| #[trigger] is_first_hit(hits, i) && a1 == assets[i];
                    assert(!hits[i1]);
                },
                (Err(_), Ok(a2)) => {
                    let i2 = choose|i: int| #[trigger] is_first_hit(hits, i) && a2 == assets[i];
                    assert(!hits[i2]);
                },
                (Err(_), Err(_)) => {},
            }
        }
    }

    /// Where exactly one asset of a list fits a supported platform, that asset
    /// is selected, wherever in the list it stands.
    pub proof fn lemma_only_fit_is_selected(
        self,
        platform: PlatformKey,
        assets: Seq<VersionAsset>,
        i: int,
        r: Result<VersionAsset, ResolveError>,
    )
        requires
            0 <= i < assets.len(),
            self.fits(platform, assets[i].name@),
            forall|j: int|
                0 <= j < assets.len() && j != i ==> !self.fits(platform, #[trigger] assets[j].name@),
            self.selects(platform, assets, r),
        ensures
            r == Ok::<VersionAsset, ResolveError>(assets[i]),
    {
        let hits = self.hits(platform, assets);
        assert(hits[i]);
        assert(is_first_hit(hits, i)) by {
            assert forall|j: int| 0 <= j < i implies !hits[j] by {
                assert(!self.fits(platform, assets[j].name@));
            }
        }
        assert(self.selects(platform, assets, Ok(assets[i])));
        self.lemma_selection_is_determined(platform, assets, r, Ok(assets[i]));
    }

    /// The selection does not depend on the order of the list: two lists in
    /// each of which the same asset is the only one that fits give the same
    /// answer, that asset.
    pub proof fn lemma_selection_ignores_order(
        self,
        platform: PlatformKey,
        first: Seq<VersionAsset>,
        i: int,
        r1: Result<VersionAsset, ResolveError>,
        second: Seq<VersionAsset>,
        k: int,
        r2: Result<VersionAsset, ResolveError>,
    )
        requires
            0 <= i < first.len(),
            0 <= k < second.len(),
            first[i] == second[k],
            self.fits(platform, first[i].name@),
            forall|j: int|
                0 <= j < first.len() && j != i ==> !self.fits(platform, #[trigger] first[j].name@),
            forall|j: int|
                0 <= j < second.len() && j != k ==> !self.fits(
                    platform,
                    #[trigger] second[j].name@,
                ),
            self.selects(platform, first, r1),
            self.selects(platform, second, r2),
        ensures
            r1 == r2,
            r1 == Ok::<VersionAsset, ResolveError>(first[i]),
    {
        self.lemma_only_fit_is_selected(platform, first, i, r1);
        self.lemma_only_fit_is_selected(platform, second, k, r2);
    }

    /// Where no asset fits a supported platform, the answer is `AssetNotFound`.
    pub proof fn lemma_no_fit_is_asset_not_found(
        self,
        platform: PlatformKey,
        assets: Seq<VersionAsset>,
        r: Result<VersionAsset, ResolveError>,
    )
        requires
            platform.is_supported(),
            forall|j: int| 0 <= j < assets.len() ==> !self.fits(platform, #[trigger] assets[j].name@),
            self.selects(platform, assets, r),
        ensures
            r == Err::<VersionAsset, ResolveError>(ResolveError::AssetNotFound),
    {
        let hits = self.hits(platform, assets);
        match r {
            Ok(asset) => {
                let i = choose|i: int| #[trigger] is_first_hit(hits, i) && asset == assets[i];
                assert(!self.fits(platform, assets[i].name@));
            },
            Err(_) => {},
        }
    }

    /// On a platform that no binaries are published for, the answer is
    /// `UnsupportedPlatform`, whatever the assets.
    pub proof fn lemma_unsupported_platform_is_reported(
        self,
        platform: PlatformKey,
        assets: Seq<VersionAsset>,
        r: Result<VersionAsset, ResolveError>,
    )
        requires
            !platform.is_supported(),
            self.selects(platform, assets, r),
        ensures
            r == Err::<VersionAsset, ResolveError>(ResolveError::UnsupportedPlatform),
    {
    }
}

} // verus!
