use drakermore::headers::{content_disposition_value, sanitize_filename};
use url_encor::Encoder;

#[test]
fn sanitize_keeps_allowed_characters() {
    assert_eq!(sanitize_filename("Foo-1.2_final+x,(y)[z]{w}.jar"), "Foo-1.2_final+x,(y)[z]{w}.jar");
}

#[test]
fn sanitize_replaces_disallowed_characters() {
    assert_eq!(sanitize_filename("foo bar.jar"), "foo_bar.jar");
    assert_eq!(sanitize_filename("a\"b;c/d\\e.jar"), "a_b_c_d_e.jar");
    assert_eq!(sanitize_filename("naïve.jar"), "na_ve.jar");
}

#[test]
fn content_disposition_carries_both_tokens() {
    let v = content_disposition_value("foo bar.jar");
    assert_eq!(
        v,
        "attachment; filename=\"foo_bar.jar\"; filename*=utf-8''foo%20bar.jar"
    );
}

#[test]
fn percent_encoding_matches_the_encoder() {
    for name in ["foo bar.jar", "a+b.jar", "plain.jar", "100%.jar"] {
        let v = content_disposition_value(name);
        let expected_suffix = format!("filename*=utf-8''{}", name.to_string().url_encode());
        assert!(v.ends_with(&expected_suffix));
    }
    // The encoded token is not the raw name handed back.
    let v = content_disposition_value("sp ace.jar");
    assert!(v.ends_with("filename*=utf-8''sp%20ace.jar"));
}
