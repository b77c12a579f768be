use drakermore::errors::PackError;
use drakermore::hashing::hash_bytes_hex;
use drakermore::pipeline::{
    build_index, build_mod_descriptor, build_pack_metadata, descriptor_target,
    first_present_side, is_mod_file, mod_descriptor_document, pack_documents, ModInput,
};
use drakermore::schemas::{DrakermoreModConfig, PackwizHashFormat, PackwizModSide};
use sha2::Digest;

fn sha512_hex(data: &[u8]) -> String {
    hex::encode(sha2::Sha512::digest(data))
}

fn config() -> DrakermoreModConfig {
    DrakermoreModConfig {
        name: "Drakermore".to_string(),
        minecraft_version: "1.20.1".to_string(),
        pack_author: "The Drakers".to_string(),
        pack_version: "3.0".to_string(),
        fabric_loader_version: "0.15.7".to_string(),
        mmc_pack_components: Vec::new(),
        minecraft_servers: Vec::new(),
    }
}

#[test]
fn descriptor_for_server_jar_with_override() {
    let jar_bytes: &[u8] = b"fake jar contents";
    let jar_hash = hash_bytes_hex(jar_bytes);
    assert_eq!(jar_hash, sha512_hex(jar_bytes));
    let inp = ModInput {
        side: PackwizModSide::Server,
        filename: "foo.jar".to_string(),
        name_override: Some("Foo Mod\n".to_string()),
        jar_hash: jar_hash.clone(),
    };
    let d = build_mod_descriptor(&inp, "https://packs.example").unwrap();
    assert_eq!(d.name, "Foo Mod");
    assert_eq!(d.filename, "foo.jar");
    assert_eq!(d.side, PackwizModSide::Server);
    assert_eq!(d.download.url, "https://packs.example/jars/server/foo.jar");
    assert_eq!(d.download.hash_format, PackwizHashFormat::Sha512);
    assert_eq!(d.download.hash, jar_hash);

    let doc = mod_descriptor_document(&inp, "https://packs.example").unwrap();
    let expected = format!(
        "name = \"Foo Mod\"\nfilename = \"foo.jar\"\nside = \"server\"\n\n[download]\nurl = \"https://packs.example/jars/server/foo.jar\"\nhash-format = \"sha512\"\nhash = \"{}\"\n",
        jar_hash
    );
    assert_eq!(doc, expected);
}

#[test]
fn descriptor_name_falls_back_to_stem() {
    let inp = ModInput {
        side: PackwizModSide::Both,
        filename: "lithium-0.11.2.jar".to_string(),
        name_override: None,
        jar_hash: sha512_hex(b"x"),
    };
    let d = build_mod_descriptor(&inp, "http://h").unwrap();
    assert_eq!(d.name, "lithium-0.11.2");
    assert_eq!(d.download.url, "http://h/jars/both/lithium-0.11.2.jar");
}

#[test]
fn descriptor_trims_override_whitespace() {
    let inp = ModInput {
        side: PackwizModSide::Client,
        filename: "a.jar".to_string(),
        name_override: Some("  Shiny Mod \t\n".to_string()),
        jar_hash: sha512_hex(b"y"),
    };
    let d = build_mod_descriptor(&inp, "http://h").unwrap();
    assert_eq!(d.name, "Shiny Mod");
}

#[test]
fn descriptor_rejects_wrong_extension() {
    let inp = ModInput {
        side: PackwizModSide::Server,
        filename: "foo.zip".to_string(),
        name_override: None,
        jar_hash: sha512_hex(b"z"),
    };
    let e = build_mod_descriptor(&inp, "http://h").unwrap_err();
    assert!(matches!(e, PackError::InvalidInput(_)));
    assert_eq!(e.http_status(), 500);
}

#[test]
fn index_hash_is_digest_of_each_descriptor() {
    let prefix = "https://packs.example";
    let inputs = vec![
        ModInput {
            side: PackwizModSide::Server,
            filename: "foo.jar".to_string(),
            name_override: Some("Foo Mod\n".to_string()),
            jar_hash: sha512_hex(b"foo bytes"),
        },
        ModInput {
            side: PackwizModSide::Client,
            filename: "bar.jar".to_string(),
            name_override: None,
            jar_hash: sha512_hex(b"bar bytes"),
        },
    ];
    let ix = build_index(&inputs, prefix).unwrap();
    assert_eq!(ix.hash_format, PackwizHashFormat::Sha512);
    assert_eq!(ix.files.len(), 2);
    assert_eq!(ix.files[0].file, "mods/foo.pw.toml");
    assert_eq!(ix.files[1].file, "mods/bar.pw.toml");
    assert!(ix.files[0].metafile);
    for (i, inp) in inputs.iter().enumerate() {
        let doc = mod_descriptor_document(inp, prefix).unwrap();
        assert_eq!(ix.files[i].hash, sha512_hex(doc.as_bytes()));
    }
}

#[test]
fn index_build_fails_on_first_bad_name() {
    let inputs = vec![
        ModInput {
            side: PackwizModSide::Server,
            filename: "good.jar".to_string(),
            name_override: None,
            jar_hash: sha512_hex(b"g"),
        },
        ModInput {
            side: PackwizModSide::Server,
            filename: "bad.txt".to_string(),
            name_override: None,
            jar_hash: sha512_hex(b"b"),
        },
    ];
    let e = build_index(&inputs, "http://h").unwrap_err();
    assert!(matches!(e, PackError::InvalidInput(_)));
}

#[test]
fn pack_metadata_hash_is_digest_of_index_doc() {
    let index_doc = "hash-format = \"sha512\"\nfiles = []\n";
    let m = build_pack_metadata(&config(), index_doc);
    assert_eq!(m.name, "Drakermore");
    assert_eq!(m.author, "The Drakers");
    assert_eq!(m.version, "3.0");
    assert_eq!(m.versions.minecraft, "1.20.1");
    assert_eq!(m.versions.fabric, "0.15.7");
    assert_eq!(m.index.file, "index.toml");
    assert_eq!(m.index.hash, sha512_hex(index_doc.as_bytes()));
}

#[test]
fn empty_mod_directory_yields_empty_index() {
    let inputs: Vec<ModInput> = Vec::new();
    let (index_doc, pack_doc) = pack_documents(&config(), &inputs, "http://h").unwrap();
    assert_eq!(index_doc, "hash-format = \"sha512\"\nfiles = []\n");
    let expected_pack = format!(
        "name = \"Drakermore\"\nauthor = \"The Drakers\"\nversion = \"3.0\"\npack-format = \"packwiz:1.1.0\"\n\n[versions]\nminecraft = \"1.20.1\"\nfabric = \"0.15.7\"\n\n[index]\nfile = \"index.toml\"\nhash-format = \"sha512\"\nhash = \"{}\"\n",
        sha512_hex(index_doc.as_bytes())
    );
    assert_eq!(pack_doc, expected_pack);
}

#[test]
fn pack_documents_chain_hashes_with_mods() {
    let inputs = vec![ModInput {
        side: PackwizModSide::Both,
        filename: "baz.jar".to_string(),
        name_override: None,
        jar_hash: sha512_hex(b"baz"),
    }];
    let (index_doc, pack_doc) = pack_documents(&config(), &inputs, "http://h").unwrap();
    let index_digest = sha512_hex(index_doc.as_bytes());
    assert!(pack_doc.contains(&format!("hash = \"{}\"", index_digest)));
    let descriptor = mod_descriptor_document(&inputs[0], "http://h").unwrap();
    assert!(index_doc.contains(&format!("hash = \"{}\"", sha512_hex(descriptor.as_bytes()))));
}

#[test]
fn descriptor_target_maps_request_to_jar() {
    assert_eq!(descriptor_target("foo.pw.toml").unwrap(), "foo.jar");
    assert_eq!(descriptor_target("lithium-0.11.2.pw.toml").unwrap(), "lithium-0.11.2.jar");
}

#[test]
fn descriptor_target_rejects_other_suffixes() {
    for bad in ["foo.jar", "foo.toml", "pw.toml", "", "foo"] {
        let e = descriptor_target(bad).unwrap_err();
        assert!(matches!(e, PackError::NotFound(_)));
        assert_eq!(e.http_status(), 404);
    }
}

#[test]
fn is_mod_file_filters_by_kind_and_suffix() {
    assert!(is_mod_file("a.jar", true));
    assert!(!is_mod_file("a.jar", false));
    assert!(!is_mod_file("a.txt", true));
    assert!(!is_mod_file("a.jar.name.txt", true));
    assert!(!is_mod_file("", true));
}

#[test]
fn first_present_side_prefers_enumeration_order() {
    assert_eq!(first_present_side(true, true, true), Some(PackwizModSide::Server));
    assert_eq!(first_present_side(false, true, true), Some(PackwizModSide::Client));
    assert_eq!(first_present_side(false, false, true), Some(PackwizModSide::Both));
    assert_eq!(first_present_side(false, false, false), None);
}
