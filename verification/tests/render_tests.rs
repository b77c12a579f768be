use drakermore::render::{render_index, render_mod, render_pack};
use drakermore::schemas::{
    PackwizFormatVersion, PackwizHashFormat, PackwizIndex, PackwizIndexFile, PackwizMetadata,
    PackwizMetadataIndex, PackwizMetadataVersions, PackwizMod, PackwizModDownload,
    PackwizModSide,
};

fn sample_mod() -> PackwizMod {
    PackwizMod {
        name: "Foo Mod".to_string(),
        filename: "foo.jar".to_string(),
        side: PackwizModSide::Server,
        download: PackwizModDownload {
            url: "http://h/jars/server/foo.jar".to_string(),
            hash_format: PackwizHashFormat::Sha512,
            hash: "abc123".to_string(),
        },
    }
}

#[test]
fn render_mod_exact_text() {
    let doc = render_mod(&sample_mod());
    assert_eq!(
        doc,
        "name = \"Foo Mod\"\nfilename = \"foo.jar\"\nside = \"server\"\n\n[download]\nurl = \"http://h/jars/server/foo.jar\"\nhash-format = \"sha512\"\nhash = \"abc123\"\n"
    );
}

#[test]
fn render_mod_is_byte_stable() {
    let a = render_mod(&sample_mod());
    let b = render_mod(&sample_mod());
    assert_eq!(a, b);
}

#[test]
fn render_mod_escapes_special_characters() {
    let mut m = sample_mod();
    m.name = "A \"quoted\" \\ name\twith\ncontrols".to_string();
    let doc = render_mod(&m);
    assert!(doc.starts_with(
        "name = \"A \\\"quoted\\\" \\\\ name\\u0009with\\u000acontrols\"\n"
    ));
}

#[test]
fn render_index_empty_list() {
    let ix = PackwizIndex { hash_format: PackwizHashFormat::Sha512, files: Vec::new() };
    assert_eq!(render_index(&ix), "hash-format = \"sha512\"\nfiles = []\n");
}

#[test]
fn render_index_entries_in_order() {
    let ix = PackwizIndex {
        hash_format: PackwizHashFormat::Sha512,
        files: vec![
            PackwizIndexFile {
                file: "mods/foo.pw.toml".to_string(),
                hash: "aaaa".to_string(),
                metafile: true,
            },
            PackwizIndexFile {
                file: "mods/bar.pw.toml".to_string(),
                hash: "bbbb".to_string(),
                metafile: false,
            },
        ],
    };
    assert_eq!(
        render_index(&ix),
        "hash-format = \"sha512\"\n\n[[files]]\nfile = \"mods/foo.pw.toml\"\nhash = \"aaaa\"\nmetafile = true\n\n[[files]]\nfile = \"mods/bar.pw.toml\"\nhash = \"bbbb\"\nmetafile = false\n"
    );
}

#[test]
fn render_pack_exact_text() {
    let m = PackwizMetadata {
        name: "Drakermore".to_string(),
        author: "The Drakers".to_string(),
        version: "3.0".to_string(),
        pack_format: PackwizFormatVersion::V1_1_0,
        versions: PackwizMetadataVersions {
            minecraft: "1.20.1".to_string(),
            fabric: "0.15.7".to_string(),
        },
        index: PackwizMetadataIndex {
            file: "index.toml".to_string(),
            hash_format: PackwizHashFormat::Sha512,
            hash: "cdef".to_string(),
        },
    };
    assert_eq!(
        render_pack(&m),
        "name = \"Drakermore\"\nauthor = \"The Drakers\"\nversion = \"3.0\"\npack-format = \"packwiz:1.1.0\"\n\n[versions]\nminecraft = \"1.20.1\"\nfabric = \"0.15.7\"\n\n[index]\nfile = \"index.toml\"\nhash-format = \"sha512\"\nhash = \"cdef\"\n"
    );
}

#[test]
fn rendered_documents_parse_as_toml() {
    let mut m = sample_mod();
    m.name = "Quote \" and backslash \\".to_string();
    let doc = render_mod(&m);
    let parsed: toml::Value = toml::from_str(&doc).unwrap();
    assert_eq!(
        parsed["name"].as_str().unwrap(),
        "Quote \" and backslash \\"
    );
    assert_eq!(parsed["side"].as_str().unwrap(), "server");
    assert_eq!(parsed["download"]["hash-format"].as_str().unwrap(), "sha512");
}
