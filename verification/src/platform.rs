//! The platforms for which release archives are published, and the names
//! under which the archives appear in a release.

use vstd::prelude::*;
use vstd::string::*;

verus! {

/// An operating system.
#[derive(Clone, Copy, Debug, PartialEq, Eq, Structural)]
pub enum Platform {
    Mac,
    Linux,
    Windows,
}

/// A processor architecture.
#[derive(Clone, Copy, Debug, PartialEq, Eq, Structural)]
pub enum Architecture {
    Aarch64,
    X86,
    X8664,
}

/// The format of a release archive.
#[derive(Clone, Copy, Debug, PartialEq, Eq, Structural)]
pub enum ArchiveKind {
    GzipTar,
    Zip,
}

/// The label that asset names carry for `platform`.
pub open spec fn spec_platform_label(platform: Platform) -> Seq<char> {
    match platform {
        Platform::Mac => "Darwin"@,
        Platform::Linux => "Linux"@,
        Platform::Windows => "Windows"@,
    }
}

/// The label that asset names carry for `architecture`.
pub open spec fn spec_architecture_label(architecture: Architecture) -> Seq<char> {
    match architecture {
        Architecture::Aarch64 => "arm64"@,
        Architecture::X86 => "i386"@,
        Architecture::X8664 => "x86_64"@,
    }
}

/// The archive format published for `platform`.
pub open spec fn spec_archive_kind(platform: Platform) -> ArchiveKind {
    match platform {
        Platform::Mac | Platform::Linux => ArchiveKind::GzipTar,
        Platform::Windows => ArchiveKind::Zip,
    }
}

/// The file extension of an archive of the given kind.
pub open spec fn spec_archive_extension(kind: ArchiveKind) -> Seq<char> {
    match kind {
        ArchiveKind::GzipTar => "tar.gz"@,
        ArchiveKind::Zip => "zip"@,
    }
}

/// The name of the release asset for a binary on a platform and architecture:
/// `{binary}_{platform label}_{architecture label}.{extension}`.
pub open spec fn spec_asset_name(
    binary_name: Seq<char>,
    platform: Platform,
    architecture: Architecture,
) -> Seq<char> {
    binary_name + "_"@ + spec_platform_label(platform) + "_"@ + spec_architecture_label(
        architecture,
    ) + "."@ + spec_archive_extension(spec_archive_kind(platform))
}

impl Platform {
    /// The label that asset names carry for this platform.
    pub fn label(self) -> (label: &'static str)
        ensures
            label@ == spec_platform_label(self),
    {
        match self {
            Platform::Mac => "Darwin",
            Platform::Linux => "Linux",
            Platform::Windows => "Windows",
        }
    }

    /// The archive format published for this platform.
    pub fn archive_kind(self) -> (kind: ArchiveKind)
        ensures
            kind == spec_archive_kind(self),
    {
        match self {
            Platform::Mac | Platform::Linux => ArchiveKind::GzipTar,
            Platform::Windows => ArchiveKind::Zip,
        }
    }
}

impl Architecture {
    /// The label that asset names carry for this architecture.
    pub fn label(self) -> (label: &'static str)
        ensures
            label@ == spec_architecture_label(self),
    {
        match self {
            Architecture::Aarch64 => "arm64",
            Architecture::X86 => "i386",
            Architecture::X8664 => "x86_64",
        }
    }
}

impl ArchiveKind {
    /// The file extension of archives of this kind.
    pub fn extension(self) -> (extension: &'static str)
        ensures
            extension@ == spec_archive_extension(self),
    {
        match self {
            ArchiveKind::GzipTar => "tar.gz",
            ArchiveKind::Zip => "zip",
        }
    }
}

/// Computes the name of the release asset for `binary_name` on the given
/// platform and architecture.
pub fn asset_name(binary_name: &str, platform: Platform, architecture: Architecture) -> (name:
    String)
    ensures
        name@ == spec_asset_name(binary_name@, platform, architecture),
{
    let mut name = String::from_str(binary_name);
    name.append("_");
    name.append(platform.label());
    name.append("_");
    name.append(architecture.label());
    name.append(".");
    name.append(platform.archive_kind().extension());
    name
}

/// The characters of the labels, which are otherwise opaque.
proof fn lemma_labels(platform: Platform, architecture: Architecture)
    ensures
        "_"@.len() == 1,
        spec_platform_label(platform).len() > 0,
        spec_platform_label(platform)[0] == match platform {
            Platform::Mac => 'D',
            Platform::Linux => 'L',
            Platform::Windows => 'W',
        },
        spec_architecture_label(architecture).len() > 0,
        spec_architecture_label(architecture)[0] == match architecture {
            Architecture::Aarch64 => 'a',
            Architecture::X86 => 'i',
            Architecture::X8664 => 'x',
        },
{
    reveal_strlit("_");
    reveal_strlit("Darwin");
    reveal_strlit("Linux");
    reveal_strlit("Windows");
    reveal_strlit("arm64");
    reveal_strlit("i386");
    reveal_strlit("x86_64");
}

/// The assets of two platforms, or of two architectures of one platform,
/// never share a name: an exact match on the name picks the asset of the
/// host and no other.
pub proof fn lemma_asset_names_differ(
    binary_name: Seq<char>,
    platform: Platform,
    architecture: Architecture,
    other_platform: Platform,
    other_architecture: Architecture,
)
    requires
        platform != other_platform || architecture != other_architecture,
    ensures
        spec_asset_name(binary_name, platform, architecture) != spec_asset_name(
            binary_name,
            other_platform,
            other_architecture,
        ),
{
    lemma_labels(platform, architecture);
    lemma_labels(other_platform, other_architecture);
    let name = spec_asset_name(binary_name, platform, architecture);
    let other = spec_asset_name(binary_name, other_platform, other_architecture);
    let at_platform = binary_name.len() as int + 1;
    assert(name[at_platform] == spec_platform_label(platform)[0]);
    assert(other[at_platform] == spec_platform_label(other_platform)[0]);
    if platform == other_platform {
        let at_architecture = at_platform + spec_platform_label(platform).len() + 1;
        assert(name[at_architecture] == spec_architecture_label(architecture)[0]);
        assert(other[at_architecture] == spec_architecture_label(other_architecture)[0]);
    }
}

} // verus!
