use vstd::prelude::*;
use vstd::string::StringExecFns;

verus! {

// ---------------------------------------------------------------------------
// Distribution side
// ---------------------------------------------------------------------------

/// The distribution side a mod belongs to. It doubles as the name of the
/// side's subdirectory under the download directory and as the `side`
/// field of a mod descriptor, spelled in lowercase.
#[derive(Debug, Clone, Copy, PartialEq, Eq, Structural)]
pub enum PackwizModSide {
    Server,
    Client,
    Both,
}

/// The lowercase token a side is written as, both in documents and as the
/// directory segment of that side.
pub open spec fn side_token(side: PackwizModSide) -> Seq<char> {
    match side {
        PackwizModSide::Server => "server"@,
        PackwizModSide::Client => "client"@,
        PackwizModSide::Both => "both"@,
    }
}

impl PackwizModSide {
    /// Every side, in the fixed enumeration order (server, client, both)
    /// that the directory probes and the index walk follow.
    pub fn all() -> (sides: Vec<PackwizModSide>)
        ensures
            sides@ =~= seq![
                PackwizModSide::Server,
                PackwizModSide::Client,
                PackwizModSide::Both,
            ],
    {
        let mut sides: Vec<PackwizModSide> = Vec::new();
        sides.push(PackwizModSide::Server);
        sides.push(PackwizModSide::Client);
        sides.push(PackwizModSide::Both);
        sides
    }

    /// The lowercase token of this side.
    pub fn as_token(&self) -> (s: String)
        ensures
            s@ == side_token(*self),
    {
        match self {
            PackwizModSide::Server => String::from_str("server"),
            PackwizModSide::Client => String::from_str("client"),
            PackwizModSide::Both => String::from_str("both"),
        }
    }

    /// Parses a side token: succeeds on exactly the three lowercase
    /// tokens, the inverse of the token spelling, and on nothing else.
    pub fn from_token(s: &str) -> (r: Option<PackwizModSide>)
        ensures
            match r {
                Some(side) => s@ == side_token(side),
                None => forall|side: PackwizModSide| s@ != side_token(side),
            },
    {
        if crate::strutil::str_eq(s, "server") {
            Some(PackwizModSide::Server)
        } else if crate::strutil::str_eq(s, "client") {
            Some(PackwizModSide::Client)
        } else if crate::strutil::str_eq(s, "both") {
            Some(PackwizModSide::Both)
        } else {
            proof {
                assert forall|side: PackwizModSide| s@ != side_token(side) by {
                    match side {
                        PackwizModSide::Server => {},
                        PackwizModSide::Client => {},
                        PackwizModSide::Both => {},
                    }
                }
            }
            None
        }
    }
}

// ---------------------------------------------------------------------------
// Hash format
// ---------------------------------------------------------------------------

/// The digest algorithm named in a document's `hash-format` field.
#[derive(Debug, Clone, Copy, PartialEq, Eq, Structural)]
pub enum PackwizHashFormat {
    Sha256,
    Sha512,
}

/// The token a hash format is written as in documents.
pub open spec fn hash_format_token(f: PackwizHashFormat) -> Seq<char> {
    match f {
        PackwizHashFormat::Sha256 => "sha256"@,
        PackwizHashFormat::Sha512 => "sha512"@,
    }
}

impl PackwizHashFormat {
    /// The token of this hash format.
    pub fn as_token(&self) -> (s: String)
        ensures
            s@ == hash_format_token(*self),
    {
        match self {
            PackwizHashFormat::Sha256 => String::from_str("sha256"),
            PackwizHashFormat::Sha512 => String::from_str("sha512"),
        }
    }
}

// ---------------------------------------------------------------------------
// Pack format version
// ---------------------------------------------------------------------------

/// The pack format revision stamped into the root metadata document.
#[derive(Debug, Clone, Copy, PartialEq, Eq, Structural)]
pub enum PackwizFormatVersion {
    V1_1_0,
}

/// The token a pack format version is written as.
pub open spec fn format_version_token(v: PackwizFormatVersion) -> Seq<char> {
    match v {
        PackwizFormatVersion::V1_1_0 => "packwiz:1.1.0"@,
    }
}

impl PackwizFormatVersion {
    /// The token of this format version.
    pub fn as_token(&self) -> (s: String)
        ensures
            s@ == format_version_token(*self),
    {
        match self {
            PackwizFormatVersion::V1_1_0 => String::from_str("packwiz:1.1.0"),
        }
    }
}

// ---------------------------------------------------------------------------
// Per-mod descriptor
// ---------------------------------------------------------------------------

/// Where a mod file is downloaded from and how its bytes are checked.
#[derive(Debug, Clone)]
pub struct PackwizModDownload {
    pub url: String,
    pub hash_format: PackwizHashFormat,
    pub hash: String,
}

/// The descriptor document of one mod: built fresh per request from the
/// mod's filename, an optional display-name override, and its content hash.
#[derive(Debug, Clone)]
pub struct PackwizMod {
    pub name: String,
    pub filename: String,
    pub side: PackwizModSide,
    pub download: PackwizModDownload,
}

// ---------------------------------------------------------------------------
// Index
// ---------------------------------------------------------------------------

/// One entry of the index: a relative path to a descriptor document and
/// the digest of that document's exact serialized bytes.
#[derive(Debug, Clone)]
pub struct PackwizIndexFile {
    pub file: String,
    pub hash: String,
    pub metafile: bool,
}

/// The top-level index: one entry per mod found, in walk order.
#[derive(Debug, Clone)]
pub struct PackwizIndex {
    pub hash_format: PackwizHashFormat,
    pub files: Vec<PackwizIndexFile>,
}

// ---------------------------------------------------------------------------
// Root metadata
// ---------------------------------------------------------------------------

/// The game and loader versions advertised by the root document.
#[derive(Debug, Clone)]
pub struct PackwizMetadataVersions {
    pub minecraft: String,
    pub fabric: String,
}

/// Where the index document lives and the digest of its serialized bytes.
#[derive(Debug, Clone)]
pub struct PackwizMetadataIndex {
    pub file: String,
    pub hash_format: PackwizHashFormat,
    pub hash: String,
}

/// The root document consumers fetch first. Its hash chain binds the pack
/// configuration to the index, the index to every descriptor, and each
/// descriptor to the bytes of its mod file.
#[derive(Debug, Clone)]
pub struct PackwizMetadata {
    pub name: String,
    pub author: String,
    pub version: String,
    pub pack_format: PackwizFormatVersion,
    pub versions: PackwizMetadataVersions,
    pub index: PackwizMetadataIndex,
}

// ---------------------------------------------------------------------------
// Pack configuration
// ---------------------------------------------------------------------------

/// One component of the launcher bundle's component list.
#[derive(Debug, Clone)]
pub struct MmcPackComponent {
    pub uid: String,
    pub version: String,
    pub dependency_only: bool,
}

/// The format revision of the launcher bundle's component document.
#[derive(Debug, Clone, Copy, PartialEq, Eq, Structural)]
pub enum MmcPackVersion {
    V1,
}

impl MmcPackVersion {
    /// The number this revision is written as in the component document.
    pub fn as_number(&self) -> (n: u8)
        ensures
            n == 1,
    {
        match self {
            MmcPackVersion::V1 => 1,
        }
    }
}

/// The launcher bundle's component document.
#[derive(Debug, Clone)]
pub struct MmcPack {
    pub components: Vec<MmcPackComponent>,
    pub format_version: MmcPackVersion,
}

/// The repository a mod is scraped from.
#[derive(Debug, Clone, Copy, PartialEq, Eq, Structural)]
pub enum ModRepo {
    Curseforge,
    Modrinth,
}

/// The release channel a mod is taken from.
#[derive(Debug, Clone, Copy, PartialEq, Eq, Structural)]
pub enum ModRepoChannel {
    Release,
    Beta,
    Alpha,
}

/// One mod of the scraper's shopping list.
#[derive(Debug, Clone)]
pub struct ModListItem {
    pub id: String,
    pub repo: ModRepo,
    pub channel: ModRepoChannel,
}

/// One server of the client's pre-filled server list.
#[derive(Debug, Clone)]
pub struct MinecraftClientServerListInfo {
    pub name: String,
    pub ip: String,
}

/// The client's pre-filled server list.
#[derive(Debug, Clone)]
pub struct MinecraftClientServerList {
    pub servers: Vec<MinecraftClientServerListInfo>,
}

/// Pack-level configuration, loaded once at startup from the config file
/// and treated as immutable for the process lifetime.
#[derive(Debug, Clone)]
pub struct DrakermoreModConfig {
    pub name: String,
    pub minecraft_version: String,
    pub pack_author: String,
    pub pack_version: String,
    pub fabric_loader_version: String,
    pub mmc_pack_components: Vec<MmcPackComponent>,
    pub minecraft_servers: Vec<MinecraftClientServerListInfo>,
}

} // verus!
