use vstd::prelude::*;
use vstd::string::StrSliceExecFns;
use vstd::string::StringExecFns;
use crate::errors::PackError;
use crate::hashing::{doc_digest_of, hash_str_hex};
use crate::render::{
    render_index, render_mod, render_pack, spec_bool_token, spec_render_index_entries,
    spec_render_mod_fields, spec_toml_escape,
};
use crate::schemas::{
    format_version_token, hash_format_token, side_token, DrakermoreModConfig,
    PackwizFormatVersion, PackwizHashFormat, PackwizIndex, PackwizIndexFile, PackwizMetadata,
    PackwizMetadataIndex, PackwizMetadataVersions, PackwizMod, PackwizModDownload,
    PackwizModSide,
};
use crate::strutil::{has_suffix, spec_has_suffix, spec_trim, trim_ws};

verus! {

// ---------------------------------------------------------------------------
// Per-mod inputs
// ---------------------------------------------------------------------------

/// What the edge hands the pipeline for one mod after reading the disk:
/// the side whose subdirectory held it, its bare filename, the contents
/// of its optional display-name override file, and the hex digest of the
/// mod file's bytes (from the hash cache).
pub struct ModInput {
    pub side: PackwizModSide,
    pub filename: String,
    pub name_override: Option<String>,
    pub jar_hash: String,
}

/// Whether a name carries the required mod-file extension.
pub open spec fn spec_is_mod_filename(name: Seq<char>) -> bool {
    spec_has_suffix(name, ".jar"@)
}

/// The view of an optional override file's contents.
pub open spec fn spec_override_view(o: Option<String>) -> Option<Seq<char>> {
    match o {
        Some(s) => Some(s@),
        None => None,
    }
}

/// The display name of a mod: the trimmed contents of its override file
/// when one was readable, else the filename with the extension cut off.
pub open spec fn spec_display_name(filename: Seq<char>, name_override: Option<Seq<char>>) -> Seq<
    char,
> {
    match name_override {
        Some(text) => spec_trim(text),
        None => filename.take(filename.len() - 4),
    }
}

/// The download URL a descriptor advertises for its mod.
pub open spec fn spec_mod_url(
    url_prefix: Seq<char>,
    side: PackwizModSide,
    filename: Seq<char>,
) -> Seq<char> {
    url_prefix + "/jars/"@ + side_token(side) + "/"@ + filename
}

/// The index-relative path of a mod's descriptor document.
pub open spec fn spec_descriptor_path(filename: Seq<char>) -> Seq<char> {
    "mods/"@ + filename.take(filename.len() - 4) + ".pw.toml"@
}

/// The exact text of the descriptor document a mod input produces.
pub open spec fn spec_descriptor_doc(inp: ModInput, url_prefix: Seq<char>) -> Seq<char> {
    spec_render_mod_fields(
        spec_display_name(inp.filename@, spec_override_view(inp.name_override)),
        inp.filename@,
        inp.side,
        spec_mod_url(url_prefix, inp.side, inp.filename@),
        PackwizHashFormat::Sha512,
        inp.jar_hash@,
    )
}

// ---------------------------------------------------------------------------
// Mod descriptor builder
// ---------------------------------------------------------------------------

/// Builds the descriptor of one mod. Fails, with an invalid-input error,
/// if and only if the filename does not end in the mod extension; on
/// success every field is exactly what the inputs derive.
pub fn build_mod_descriptor(inp: &ModInput, url_prefix: &str) -> (r: Result<
    PackwizMod,
    PackError,
>)
    ensures
        match r {
            Ok(d) => {
                &&& spec_is_mod_filename(inp.filename@)
                &&& d.name@ == spec_display_name(
                    inp.filename@,
                    spec_override_view(inp.name_override),
                )
                &&& d.filename@ == inp.filename@
                &&& d.side == inp.side
                &&& d.download.url@ == spec_mod_url(url_prefix@, inp.side, inp.filename@)
                &&& d.download.hash_format == PackwizHashFormat::Sha512
                &&& d.download.hash@ == inp.jar_hash@
            },
            Err(e) => !spec_is_mod_filename(inp.filename@) && e is InvalidInput,
        },
{
    if !has_suffix(inp.filename.as_str(), ".jar") {
        let mut msg = String::new();
        msg.append("attempted to show mod metadata for a file whose name does not end in \".jar\": ");
        msg.append(inp.filename.as_str());
        return Err(PackError::InvalidInput(msg));
    }
    let name = match &inp.name_override {
        Some(text) => trim_ws(text.as_str()),
        None => {
            proof {
                reveal_strlit(".jar");
            }
            let n = inp.filename.unicode_len();
            inp.filename.as_str().substring_char(0, n - 4).to_owned()
        },
    };
    let mut url = String::new();
    url.append(url_prefix);
    url.append("/jars/");
    let side_tok = inp.side.as_token();
    url.append(side_tok.as_str());
    url.append("/");
    url.append(inp.filename.as_str());
    Ok(
        PackwizMod {
            name,
            filename: inp.filename.clone(),
            side: inp.side,
            download: PackwizModDownload {
                url,
                hash_format: PackwizHashFormat::Sha512,
                hash: inp.jar_hash.clone(),
            },
        },
    )
}

/// Builds and renders the descriptor document of one mod: the exact text
/// served at the descriptor route, and the exact text whose digest the
/// index stores for that mod.
pub fn mod_descriptor_document(inp: &ModInput, url_prefix: &str) -> (r: Result<
    String,
    PackError,
>)
    ensures
        match r {
            Ok(doc) => spec_is_mod_filename(inp.filename@) && doc@ == spec_descriptor_doc(
                *inp,
                url_prefix@,
            ),
            Err(e) => !spec_is_mod_filename(inp.filename@) && e is InvalidInput,
        },
{
    match build_mod_descriptor(inp, url_prefix) {
        Ok(d) => Ok(render_mod(&d)),
        Err(e) => Err(e),
    }
}

// ---------------------------------------------------------------------------
// Index builder
// ---------------------------------------------------------------------------

/// The path the index records for a mod input's descriptor.
pub open spec fn spec_index_entry_file(inp: ModInput) -> Seq<char> {
    spec_descriptor_path(inp.filename@)
}

/// The digest the index records for a mod input: the digest of the exact
/// text of that mod's descriptor document.
pub open spec fn spec_index_entry_hash(inp: ModInput, url_prefix: Seq<char>) -> Seq<char> {
    doc_digest_of(spec_descriptor_doc(inp, url_prefix))
}

/// Law: what the index stores for a mod is the digest of the exact
/// descriptor document independently served for that mod — the two
/// routes can never disagree.
pub proof fn law_index_hash_matches_descriptor(inp: ModInput, url_prefix: Seq<char>)
    ensures
        spec_index_entry_hash(inp, url_prefix) == doc_digest_of(
            spec_descriptor_doc(inp, url_prefix),
        ),
{
}

/// Aggregates one index entry per mod input, in input order. Succeeds if
/// and only if every filename carries the mod extension; the first
/// offender fails the whole build and no partial index is returned.
pub fn build_index(inputs: &Vec<ModInput>, url_prefix: &str) -> (r: Result<
    PackwizIndex,
    PackError,
>)
    ensures
        match r {
            Ok(ix) => {
                &&& forall|i: int|
                    0 <= i < inputs@.len() ==> spec_is_mod_filename(
                        (#[trigger] inputs@[i]).filename@,
                    )
                &&& ix.hash_format == PackwizHashFormat::Sha512
                &&& ix.files@.len() == inputs@.len()
                &&& forall|i: int|
                    0 <= i < inputs@.len() ==> {
                        &&& (#[trigger] ix.files@[i]).file@ == spec_index_entry_file(inputs@[i])
                        &&& ix.files@[i].hash@ == spec_index_entry_hash(inputs@[i], url_prefix@)
                        &&& ix.files@[i].metafile == true
                    }
            },
            Err(e) => {
                &&& exists|i: int|
                    0 <= i < inputs@.len() && !spec_is_mod_filename(
                        (#[trigger] inputs@[i]).filename@,
                    )
                &&& e is InvalidInput
            },
        },
{
    let mut files: Vec<PackwizIndexFile> = Vec::new();
    let n = inputs.len();
    let mut i: usize = 0;
    while i < n
        invariant
            i <= n,
            n == inputs@.len(),
            files@.len() == i,
            forall|j: int|
                0 <= j < i ==> spec_is_mod_filename((#[trigger] inputs@[j]).filename@),
            forall|j: int|
                0 <= j < i ==> {
                    &&& (#[trigger] files@[j]).file@ == spec_index_entry_file(inputs@[j])
                    &&& files@[j].hash@ == spec_index_entry_hash(inputs@[j], url_prefix@)
                    &&& files@[j].metafile == true
                },
        decreases n - i,
    {
        let inp = &inputs[i];
        let doc = match mod_descriptor_document(inp, url_prefix) {
            Ok(doc) => doc,
            Err(e) => {
                return Err(e);
            },
        };
        let hash = hash_str_hex(doc.as_str());
        proof {
            reveal_strlit(".jar");
        }
        let stem_len = inp.filename.unicode_len() - 4;
        let mut path = String::new();
        path.append("mods/");
        let stem = inp.filename.as_str().substring_char(0, stem_len);
        path.append(stem);
        path.append(".pw.toml");
        files.push(PackwizIndexFile { file: path, hash, metafile: true });
        i += 1;
    }
    Ok(PackwizIndex { hash_format: PackwizHashFormat::Sha512, files })
}

// ---------------------------------------------------------------------------
// Whole-document texts
// ---------------------------------------------------------------------------

/// The exact text of one mod input's index entry.
pub open spec fn spec_index_entry_text(inp: ModInput, url_prefix: Seq<char>) -> Seq<char> {
    "\n[[files]]\nfile = \""@ + spec_toml_escape(spec_index_entry_file(inp)) + "\"\nhash = \""@
        + spec_toml_escape(spec_index_entry_hash(inp, url_prefix)) + "\"\nmetafile = "@
        + spec_bool_token(true) + "\n"@
}

/// The exact text of the entry list the mod inputs produce, in order.
pub open spec fn spec_index_entries_text(inputs: Seq<ModInput>, url_prefix: Seq<char>) -> Seq<
    char,
>
    decreases inputs.len(),
{
    if inputs.len() == 0 {
        Seq::empty()
    } else {
        spec_index_entry_text(inputs.first(), url_prefix) + spec_index_entries_text(
            inputs.drop_first(),
            url_prefix,
        )
    }
}

/// The exact text of the index document the mod inputs produce.
pub open spec fn spec_index_doc(inputs: Seq<ModInput>, url_prefix: Seq<char>) -> Seq<char> {
    "hash-format = \""@ + hash_format_token(PackwizHashFormat::Sha512) + "\"\n"@ + (
    if inputs.len() == 0 {
        "files = []\n"@
    } else {
        spec_index_entries_text(inputs, url_prefix)
    })
}

proof fn lemma_entries_text(
    files: Seq<PackwizIndexFile>,
    inputs: Seq<ModInput>,
    url_prefix: Seq<char>,
)
    requires
        files.len() == inputs.len(),
        forall|i: int|
            0 <= i < inputs.len() ==> {
                &&& (#[trigger] files[i]).file@ == spec_index_entry_file(inputs[i])
                &&& files[i].hash@ == spec_index_entry_hash(inputs[i], url_prefix)
                &&& files[i].metafile == true
            },
    ensures
        spec_render_index_entries(files) == spec_index_entries_text(inputs, url_prefix),
    decreases files.len(),
{
    if files.len() > 0 {
        assert(files[0].file@ == spec_index_entry_file(inputs[0]));
        assert forall|i: int| 0 <= i < inputs.drop_first().len() implies {
            &&& (#[trigger] files.drop_first()[i]).file@ == spec_index_entry_file(
                inputs.drop_first()[i],
            )
            &&& files.drop_first()[i].hash@ == spec_index_entry_hash(
                inputs.drop_first()[i],
                url_prefix,
            )
            &&& files.drop_first()[i].metafile == true
        } by {
            assert(files.drop_first()[i] == files[i + 1]);
            assert(inputs.drop_first()[i] == inputs[i + 1]);
        }
        lemma_entries_text(files.drop_first(), inputs.drop_first(), url_prefix);
        assert(spec_render_index_entries(files) =~= spec_index_entries_text(inputs, url_prefix));
    }
}

// ---------------------------------------------------------------------------
// Root metadata builder
// ---------------------------------------------------------------------------

/// Wraps the digest of the index document and the pack-level
/// configuration into the root metadata document's fields. The stored
/// index hash is the digest of the exact bytes of the document handed
/// in — the root of the trust chain.
pub fn build_pack_metadata(config: &DrakermoreModConfig, index_doc: &str) -> (m:
    PackwizMetadata)
    ensures
        m.name@ == config.name@,
        m.author@ == config.pack_author@,
        m.version@ == config.pack_version@,
        m.pack_format == PackwizFormatVersion::V1_1_0,
        m.versions.minecraft@ == config.minecraft_version@,
        m.versions.fabric@ == config.fabric_loader_version@,
        m.index.file@ == "index.toml"@,
        m.index.hash_format == PackwizHashFormat::Sha512,
        m.index.hash@ == doc_digest_of(index_doc@),
{
    PackwizMetadata {
        name: config.name.clone(),
        author: config.pack_author.clone(),
        version: config.pack_version.clone(),
        pack_format: PackwizFormatVersion::V1_1_0,
        versions: PackwizMetadataVersions {
            minecraft: config.minecraft_version.clone(),
            fabric: config.fabric_loader_version.clone(),
        },
        index: PackwizMetadataIndex {
            file: String::from_str("index.toml"),
            hash_format: PackwizHashFormat::Sha512,
            hash: hash_str_hex(index_doc),
        },
    }
}

/// The exact text of the root metadata document, from the configuration
/// and the digest recorded for the index document.
pub open spec fn spec_pack_doc(config: DrakermoreModConfig, index_hash: Seq<char>) -> Seq<
    char,
> {
    "name = \""@ + spec_toml_escape(config.name@) + "\"\nauthor = \""@ + spec_toml_escape(
        config.pack_author@,
    ) + "\"\nversion = \""@ + spec_toml_escape(config.pack_version@) + "\"\npack-format = \""@
        + format_version_token(PackwizFormatVersion::V1_1_0) + "\"\n\n[versions]\nminecraft = \""@
        + spec_toml_escape(config.minecraft_version@) + "\"\nfabric = \""@ + spec_toml_escape(
        config.fabric_loader_version@,
    ) + "\"\n\n[index]\nfile = \""@ + spec_toml_escape("index.toml"@) + "\"\nhash-format = \""@
        + hash_format_token(PackwizHashFormat::Sha512) + "\"\nhash = \""@ + spec_toml_escape(
        index_hash,
    ) + "\"\n"@
}

/// Derives the index document and the root document of one request
/// together. The root document embeds the digest of the exact index text
/// returned beside it: fetching the two routes independently can never
/// yield a root hash that disagrees with the served index bytes.
pub fn pack_documents(
    config: &DrakermoreModConfig,
    inputs: &Vec<ModInput>,
    url_prefix: &str,
) -> (r: Result<(String, String), PackError>)
    ensures
        match r {
            Ok(docs) => {
                &&& docs.0@ == spec_index_doc(inputs@, url_prefix@)
                &&& docs.1@ == spec_pack_doc(*config, doc_digest_of(docs.0@))
            },
            Err(e) => {
                &&& exists|i: int|
                    0 <= i < inputs@.len() && !spec_is_mod_filename(
                        (#[trigger] inputs@[i]).filename@,
                    )
                &&& e is InvalidInput
            },
        },
{
    let ix = match build_index(inputs, url_prefix) {
        Ok(ix) => ix,
        Err(e) => {
            return Err(e);
        },
    };
    let index_doc = render_index(&ix);
    proof {
        lemma_entries_text(ix.files@, inputs@, url_prefix@);
        assert(index_doc@ =~= spec_index_doc(inputs@, url_prefix@));
    }
    let pack = build_pack_metadata(config, index_doc.as_str());
    let pack_doc = render_pack(&pack);
    proof {
        assert(pack_doc@ =~= spec_pack_doc(*config, doc_digest_of(index_doc@)));
    }
    Ok((index_doc, pack_doc))
}

// ---------------------------------------------------------------------------
// Request resolution
// ---------------------------------------------------------------------------

/// Whether a directory entry is one of the mod files the index lists: a
/// regular file whose name ends in the mod extension.
pub fn is_mod_file(name: &str, is_regular_file: bool) -> (r: bool)
    ensures
        r == (is_regular_file && spec_is_mod_filename(name@)),
{
    if is_regular_file {
        has_suffix(name, ".jar")
    } else {
        false
    }
}

/// Resolves a descriptor-route request to the mod filename it asks
/// about. Fails, with a not-found error, if and only if the requested
/// name does not end in the descriptor suffix: such a request is never
/// served a document.
pub fn descriptor_target(request_name: &str) -> (r: Result<String, PackError>)
    ensures
        match r {
            Ok(jar) => spec_has_suffix(request_name@, ".pw.toml"@) && jar@ == request_name@.take(
                request_name@.len() - 7,
            ) + "jar"@,
            Err(e) => !spec_has_suffix(request_name@, ".pw.toml"@) && e is NotFound,
        },
{
    if !has_suffix(request_name, ".pw.toml") {
        let mut msg = String::new();
        msg.append("cannot find ");
        msg.append(request_name);
        msg.append(" in this folder");
        return Err(PackError::NotFound(msg));
    }
    let n = request_name.unicode_len();
    proof {
        reveal_strlit(".pw.toml");
    }
    let mut jar = request_name.substring_char(0, n - 7).to_owned();
    jar.append("jar");
    Ok(jar)
}

/// The side a bare mod filename resolves to: the sides are probed for
/// the file in the fixed enumeration order (server, client, both) and
/// the first hit wins; no hit resolves to nothing.
pub fn first_present_side(
    present_server: bool,
    present_client: bool,
    present_both: bool,
) -> (r: Option<PackwizModSide>)
    ensures
        r == (if present_server {
            Some(PackwizModSide::Server)
        } else if present_client {
            Some(PackwizModSide::Client)
        } else if present_both {
            Some(PackwizModSide::Both)
        } else {
            None::<PackwizModSide>
        }),
{
    if present_server {
        Some(PackwizModSide::Server)
    } else if present_client {
        Some(PackwizModSide::Client)
    } else if present_both {
        Some(PackwizModSide::Both)
    } else {
        None
    }
}

} // verus!
