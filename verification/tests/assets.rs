use test_app::assets::{
    alternative_origins_update, app_metadata_update, auth_callbacks, auth_callbacks_asset,
    extra_auth_callbacks, fixup_html, init_assets, AssetUpdate, InitArg, EMPTY_ALTERNATIVE_ORIGINS,
};
use test_app::http::{AlternativeOriginsMode, AppMetadataMode};
use test_app::principal::PrincipalId;
use test_app::text::replace_all;

fn canister() -> PrincipalId {
    // rrkah-fqaaa-aaaaa-aaaaq-cai
    PrincipalId::from_slice(&[0, 0, 0, 0, 0, 0, 0, 1, 1, 1])
}

#[test]
fn principal_text_is_the_canister_id() {
    assert_eq!(canister().text(), "rrkah-fqaaa-aaaaa-aaaaq-cai");
    let bytes = [7u8, 9, 200];
    assert_eq!(
        PrincipalId::from_slice(&bytes).text(),
        candid::Principal::from_slice(&bytes).to_text()
    );
}

#[test]
fn alternative_origins_are_certified_or_redirected() {
    for mode in [AlternativeOriginsMode::CertifiedContent, AlternativeOriginsMode::UncertifiedContent] {
        match alternative_origins_update("{\"alternativeOrigins\":[\"https://a.b\"]}", &mode) {
            AssetUpdate::Certify(asset) => {
                assert_eq!(asset.url_path, "/.well-known/ii-alternative-origins");
                assert_eq!(asset.content, b"{\"alternativeOrigins\":[\"https://a.b\"]}".to_vec());
            }
            AssetUpdate::Redirect { .. } => panic!("expected a certified asset"),
        }
    }
    match alternative_origins_update("ignored", &AlternativeOriginsMode::Redirect { location: "https://evil.com".to_string() }) {
        AssetUpdate::Redirect { url_path, location } => {
            assert_eq!(url_path, "/.well-known/ii-alternative-origins");
            assert_eq!(location, "https://evil.com");
        }
        AssetUpdate::Certify(_) => panic!("expected a redirect"),
    }
}

#[test]
fn app_metadata_is_served_as_written_or_redirected() {
    match app_metadata_update("{not json", &AppMetadataMode::CertifiedContent) {
        AssetUpdate::Certify(asset) => {
            assert_eq!(asset.url_path, "/.well-known/ii-app-metadata");
            assert_eq!(asset.content, b"{not json".to_vec());
        }
        AssetUpdate::Redirect { .. } => panic!("expected a certified asset"),
    }
    match app_metadata_update("x", &AppMetadataMode::Redirect { location: "/.well-known/evil-app-metadata".to_string() }) {
        AssetUpdate::Redirect { url_path, location } => {
            assert_eq!(url_path, "/.well-known/ii-app-metadata");
            assert_eq!(location, "/.well-known/evil-app-metadata");
        }
        AssetUpdate::Certify(_) => panic!("expected a redirect"),
    }
}

#[test]
fn the_install_argument_adds_callbacks() {
    assert!(extra_auth_callbacks(None).is_empty());
    let extra = extra_auth_callbacks(Some(InitArg { auth_callbacks: vec!["https://nice-name.com/callback".to_string()] }));
    assert_eq!(extra, vec!["https://nice-name.com/callback".to_string()]);
}

#[test]
fn the_callbacks_cover_the_gateways_first() {
    let callbacks = auth_callbacks(&canister(), vec!["https://nice-name.com/callback".to_string()]);
    assert_eq!(
        callbacks,
        vec![
            "https://rrkah-fqaaa-aaaaa-aaaaq-cai.icp0.io/callback".to_string(),
            "https://rrkah-fqaaa-aaaaa-aaaaq-cai.ic0.app/callback".to_string(),
            "https://rrkah-fqaaa-aaaaa-aaaaq-cai.icp.net/callback".to_string(),
            "https://nice-name.com/callback".to_string(),
        ]
    );
}

#[test]
fn the_callbacks_document_is_escaped_json() {
    let asset = auth_callbacks_asset(&canister(), vec!["https://x.com/\"q\"".to_string()]);
    assert_eq!(asset.url_path, "/.well-known/ii-auth-callbacks");
    let expected = "{\"callbacks\":[\
        \"https://rrkah-fqaaa-aaaaa-aaaaq-cai.icp0.io/callback\",\
        \"https://rrkah-fqaaa-aaaaa-aaaaq-cai.ic0.app/callback\",\
        \"https://rrkah-fqaaa-aaaaa-aaaaq-cai.icp.net/callback\",\
        \"https://x.com/\\\"q\\\"\"]}";
    assert_eq!(String::from_utf8(asset.content).unwrap(), expected);
}

#[test]
fn control_characters_are_escaped_and_the_rest_kept() {
    let asset = auth_callbacks_asset(&canister(), vec!["a\u{1}b\n\t\\é\u{1f}".to_string()]);
    let text = String::from_utf8(asset.content).unwrap();
    assert!(text.ends_with(",\"a\\u0001b\\n\\t\\\\é\\u001f\"]}"), "{text}");
    assert!(text.starts_with("{\"callbacks\":[\"https://rrkah-fqaaa-aaaaa-aaaaq-cai.icp0.io/callback\","));
}

#[test]
fn html_gets_the_canister_id() {
    let html = "<head><script type=\"module\" crossorigin src=\"/index.js\"></script></head>";
    assert_eq!(
        fixup_html(html, &canister()),
        "<head><script data-canister-id=\"rrkah-fqaaa-aaaaa-aaaaq-cai\" type=\"module\" crossorigin src=\"/index.js\"></script></head>"
    );
    assert_eq!(fixup_html("<p>plain</p>", &canister()), "<p>plain</p>");
}

#[test]
fn replacing_goes_left_to_right_without_overlap() {
    assert_eq!(replace_all("aaaa", "aa", "b"), "bb");
    assert_eq!(replace_all("aaa", "aa", "b"), "ba");
    assert_eq!(replace_all("xaay", "a", "éé"), "xééééy");
    assert_eq!(replace_all("", "a", "b"), "");
    assert_eq!(replace_all("abc", "abcd", "z"), "abc");
}

#[test]
fn the_install_assets_come_in_order() {
    let assets = init_assets(EMPTY_ALTERNATIVE_ORIGINS, &canister(), vec![], "{\"senders\":[]}");
    let paths: Vec<&str> = assets.iter().map(|a| a.url_path.as_str()).collect();
    assert_eq!(
        paths,
        vec![
            "/.well-known/ii-alternative-origins",
            "/.well-known/evil-alternative-origins",
            "/.well-known/evil-app-metadata",
            "/.well-known/ii-auth-callbacks",
            "/.well-known/ii-notification-senders",
        ]
    );
    assert_eq!(assets[0].content, br#"{"alternativeOrigins":[]}"#.to_vec());
    assert_eq!(assets[1].content, b"{\"alternativeOrigins\":[\"https://evil.com\"]}".to_vec());
    assert_eq!(
        assets[2].content,
        br#"{"name":"Evil App","description":"Served from the redirect target"}"#.to_vec()
    );
    assert_eq!(assets[4].content, b"{\"senders\":[]}".to_vec());
}
