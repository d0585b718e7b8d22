//! Published releases, their assets, and where a release is installed.

use vstd::prelude::*;
use vstd::string::*;

verus! {

/// One downloadable artifact of a release.
#[derive(Clone, Debug, PartialEq, Eq)]
pub struct ReleaseAsset {
    pub name: String,
    pub download_url: String,
}

/// What a [`ReleaseAsset`] holds, as plain text.
pub struct ReleaseAssetView {
    pub name: Seq<char>,
    pub download_url: Seq<char>,
}

impl View for ReleaseAsset {
    type V = ReleaseAssetView;

    open spec fn view(&self) -> ReleaseAssetView {
        ReleaseAssetView { name: self.name@, download_url: self.download_url@ }
    }
}

impl DeepView for ReleaseAsset {
    type V = ReleaseAssetView;

    open spec fn deep_view(&self) -> ReleaseAssetView {
        self@
    }
}

/// A published release: its version string and the assets attached to it.
#[derive(Clone, Debug, PartialEq, Eq)]
pub struct Release {
    pub version: String,
    pub assets: Vec<ReleaseAsset>,
}

/// What a [`Release`] holds, as plain text.
pub struct ReleaseView {
    pub version: Seq<char>,
    pub assets: Seq<ReleaseAssetView>,
}

impl View for Release {
    type V = ReleaseView;

    open spec fn view(&self) -> ReleaseView {
        ReleaseView { version: self.version@, assets: self.assets.deep_view() }
    }
}

/// Where a release of a binary lives on disk.
#[derive(Clone, Debug, PartialEq, Eq)]
pub struct ProvisionedBinary {
    pub version_directory: String,
    pub executable_path: String,
}

/// What a [`ProvisionedBinary`] holds, as plain text.
pub struct ProvisionedBinaryView {
    pub version_directory: Seq<char>,
    pub executable_path: Seq<char>,
}

impl View for ProvisionedBinary {
    type V = ProvisionedBinaryView;

    open spec fn view(&self) -> ProvisionedBinaryView {
        ProvisionedBinaryView {
            version_directory: self.version_directory@,
            executable_path: self.executable_path@,
        }
    }
}

/// Whether no asset before position `end` is called `name`.
pub open spec fn spec_absent_before(assets: Seq<ReleaseAssetView>, name: Seq<char>, end: int) -> bool {
    forall|j: int| 0 <= j < end && j < assets.len() ==> (#[trigger] assets[j]).name != name
}

/// The position of the first asset called exactly `name`, if there is one.
pub open spec fn spec_find_asset(assets: Seq<ReleaseAssetView>, name: Seq<char>) -> Option<int>
    decreases assets.len(),
{
    if assets.len() == 0 {
        None
    } else if assets.first().name == name {
        Some(0)
    } else {
        match spec_find_asset(assets.drop_first(), name) {
            Some(i) => Some(i + 1),
            None => None,
        }
    }
}

/// What `spec_find_asset` gives is in range, matches, and has no match before
/// it; it gives nothing only when no asset matches.
pub proof fn lemma_find_asset(assets: Seq<ReleaseAssetView>, name: Seq<char>)
    ensures
        match spec_find_asset(assets, name) {
            Some(i) => 0 <= i < assets.len() && assets[i].name == name && spec_absent_before(
                assets,
                name,
                i,
            ),
            None => spec_absent_before(assets, name, assets.len() as int),
        },
    decreases assets.len(),
{
    if assets.len() > 0 && assets.first().name != name {
        let rest = assets.drop_first();
        lemma_find_asset(rest, name);
        let end = match spec_find_asset(rest, name) {
            Some(i) => i + 1,
            None => assets.len() as int,
        };
        assert forall|j: int| 0 <= j < end && j < assets.len() implies (#[trigger] assets[j]).name
            != name by {
            if j > 0 {
                assert(rest[j - 1] == assets[j]);
            }
        }
    }
}

/// A position that is in range, matches and has no match before it is the one
/// that `spec_find_asset` gives; where no asset matches, it gives nothing.
pub proof fn lemma_find_asset_unique(
    assets: Seq<ReleaseAssetView>,
    name: Seq<char>,
    found: Option<int>,
)
    requires
        match found {
            Some(i) => 0 <= i < assets.len() && assets[i].name == name && spec_absent_before(
                assets,
                name,
                i,
            ),
            None => spec_absent_before(assets, name, assets.len() as int),
        },
    ensures
        found == spec_find_asset(assets, name),
{
    lemma_find_asset(assets, name);
}

/// Looks for the asset whose name is exactly `name`; of several, the first.
pub fn find_asset(assets: &Vec<ReleaseAsset>, name: &String) -> (found: Option<usize>)
    ensures
        spec_find_asset(assets.deep_view(), name@) == match found {
            Some(i) => Some(i as int),
            None => None,
        },
        found matches Some(i) ==> i < assets.len(),
{
    let mut i: usize = 0;
    while i < assets.len()
        invariant
            i <= assets.len(),
            spec_absent_before(assets.deep_view(), name@, i as int),
        decreases assets.len() - i,
    {
        if assets[i].name == *name {
            proof {
                lemma_find_asset_unique(assets.deep_view(), name@, Some(i as int));
            }
            return Some(i);
        }
        i += 1;
    }
    proof {
        lemma_find_asset_unique(assets.deep_view(), name@, None);
    }
    None
}

/// The directory that holds one version of a binary: `{binary}-{version}`.
pub open spec fn spec_version_directory(binary_name: Seq<char>, version: Seq<char>) -> Seq<char> {
    binary_name + "-"@ + version
}

/// The path of the executable inside its version directory:
/// `{directory}/{binary}`.
pub open spec fn spec_executable_path(directory: Seq<char>, binary_name: Seq<char>) -> Seq<char> {
    directory + "/"@ + binary_name
}

/// Where version `version` of `binary_name` is installed.
pub open spec fn spec_locate(binary_name: Seq<char>, version: Seq<char>) -> ProvisionedBinaryView {
    ProvisionedBinaryView {
        version_directory: spec_version_directory(binary_name, version),
        executable_path: spec_executable_path(
            spec_version_directory(binary_name, version),
            binary_name,
        ),
    }
}

/// Names the directory for version `version` of `binary_name`.
pub fn version_directory(binary_name: &str, version: &str) -> (directory: String)
    ensures
        directory@ == spec_version_directory(binary_name@, version@),
{
    let mut directory = String::from_str(binary_name);
    directory.append("-");
    directory.append(version);
    directory
}

/// Names the executable of `binary_name` inside `directory`.
pub fn executable_path(directory: &str, binary_name: &str) -> (path: String)
    ensures
        path@ == spec_executable_path(directory@, binary_name@),
{
    let mut path = String::from_str(directory);
    path.append("/");
    path.append(binary_name);
    path
}

impl ProvisionedBinary {
    /// Where version `version` of `binary_name` is installed.
    pub fn locate(binary_name: &str, version: &str) -> (binary: ProvisionedBinary)
        ensures
            binary@ == spec_locate(binary_name@, version@),
    {
        let version_directory = version_directory(binary_name, version);
        let executable_path = executable_path(version_directory.as_str(), binary_name);
        ProvisionedBinary { version_directory, executable_path }
    }
}

/// Two versions of a binary never share a directory or an executable path:
/// the directory of one version is a stale entry beside that of another.
pub proof fn lemma_versions_are_kept_apart(
    binary_name: Seq<char>,
    version: Seq<char>,
    other_version: Seq<char>,
)
    requires
        version != other_version,
    ensures
        spec_locate(binary_name, version).version_directory != spec_locate(
            binary_name,
            other_version,
        ).version_directory,
        spec_locate(binary_name, version).executable_path != spec_locate(
            binary_name,
            other_version,
        ).executable_path,
{
    let prefix = binary_name + "-"@;
    let suffix = "/"@ + binary_name;
    let directory = spec_version_directory(binary_name, version);
    let other_directory = spec_version_directory(binary_name, other_version);
    if directory == other_directory {
        assert(version =~= directory.skip(prefix.len() as int));
        assert(other_version =~= other_directory.skip(prefix.len() as int));
    }
    let path = spec_executable_path(directory, binary_name);
    let other_path = spec_executable_path(other_directory, binary_name);
    if path == other_path {
        assert(directory =~= path.take(path.len() - suffix.len()));
        assert(other_directory =~= other_path.take(other_path.len() - suffix.len()));
    }
}

} // verus!
