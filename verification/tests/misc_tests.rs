use drakermore::bundle::instance_cfg_contents;
use drakermore::errors::PackError;
use drakermore::options::{normalize_url_prefix, CliOptions};
use drakermore::schemas::{
    MmcPackVersion, PackwizFormatVersion, PackwizHashFormat, PackwizModSide,
};

#[test]
fn side_tokens_are_lowercase() {
    assert_eq!(PackwizModSide::Server.as_token(), "server");
    assert_eq!(PackwizModSide::Client.as_token(), "client");
    assert_eq!(PackwizModSide::Both.as_token(), "both");
}

#[test]
fn all_sides_in_probe_order() {
    let sides = PackwizModSide::all();
    assert_eq!(
        sides,
        vec![PackwizModSide::Server, PackwizModSide::Client, PackwizModSide::Both]
    );
}

#[test]
fn format_tokens() {
    assert_eq!(PackwizHashFormat::Sha512.as_token(), "sha512");
    assert_eq!(PackwizHashFormat::Sha256.as_token(), "sha256");
    assert_eq!(PackwizFormatVersion::V1_1_0.as_token(), "packwiz:1.1.0");
    assert_eq!(MmcPackVersion::V1.as_number(), 1);
}

#[test]
fn error_statuses_follow_the_taxonomy() {
    assert_eq!(PackError::NotFound("x".to_string()).http_status(), 404);
    assert_eq!(PackError::PermissionDenied("x".to_string()).http_status(), 403);
    assert_eq!(PackError::InvalidInput("x".to_string()).http_status(), 500);
    assert_eq!(PackError::IoError("x".to_string()).http_status(), 500);
    assert_eq!(PackError::SerializationError("x".to_string()).http_status(), 500);
    assert_eq!(PackError::NotFound("gone".to_string()).message(), "gone");
}

#[test]
fn url_prefix_loses_trailing_slashes() {
    assert_eq!(normalize_url_prefix("https://h/"), "https://h");
    assert_eq!(normalize_url_prefix("https://h///"), "https://h");
    assert_eq!(normalize_url_prefix("https://h"), "https://h");
    assert_eq!(normalize_url_prefix(""), "");
    assert_eq!(normalize_url_prefix("///"), "");
}

#[test]
fn options_normalization_touches_only_the_prefix() {
    let o = CliOptions {
        config: "drakermore.toml".to_string(),
        download_dir: "/srv/mods".to_string(),
        bind: "0.0.0.0:3000".to_string(),
        url_prefix: "https://packs.example//".to_string(),
    };
    let n = o.normalized();
    assert_eq!(n.config, "drakermore.toml");
    assert_eq!(n.download_dir, "/srv/mods");
    assert_eq!(n.bind, "0.0.0.0:3000");
    assert_eq!(n.url_prefix, "https://packs.example");
}

#[test]
fn instance_cfg_points_at_the_pack_route() {
    let cfg = instance_cfg_contents("https://packs.example", "Drakermore");
    assert_eq!(
        cfg,
        "InstanceType=OneSix\nOverrideCommands=true\nPreLaunchCommand=\"$INST_JAVA\" -jar packwiz-installer-bootstrap.jar https://packs.example/packwiz/pack.toml\nname=$Drakermore\n"
    );
}

#[test]
fn side_parsing_inverts_the_tokens() {
    for side in PackwizModSide::all() {
        assert_eq!(PackwizModSide::from_token(&side.as_token()), Some(side));
    }
    assert_eq!(PackwizModSide::from_token("Server"), None);
    assert_eq!(PackwizModSide::from_token(""), None);
    assert_eq!(PackwizModSide::from_token("serverr"), None);
}
