use test_app::http::{
    certified_response, http_request, not_found_response, request_path, static_headers, AlternativeOriginsMode,
    CertifiedAsset, HttpRequest, ALTERNATIVE_ORIGINS_PATH,
};

fn header(name: &str, value: &str) -> (String, String) {
    (name.to_string(), value.to_string())
}

fn request(url: &str) -> HttpRequest {
    HttpRequest {
        method: "GET".to_string(),
        url: url.to_string(),
        headers: vec![],
        body: vec![],
        certificate_version: Some(2),
    }
}

fn stored() -> CertifiedAsset {
    CertifiedAsset {
        status_code: 200,
        headers: vec![header("IC-Certificate", "good"), header("Content-Type", "application/json")],
        content: b"{\"alternativeOrigins\":[]}".to_vec(),
    }
}

#[test]
fn the_static_headers_open_cors() {
    assert_eq!(
        static_headers(),
        vec![
            header("Access-Control-Allow-Origin", "*"),
            header("Referrer-Policy", "strict-origin-when-cross-origin"),
        ]
    );
}

#[test]
fn the_query_string_is_not_part_of_the_path() {
    assert_eq!(request_path("/index.html?x=1?y=2"), "/index.html");
    assert_eq!(request_path("/index.html"), "/index.html");
    assert_eq!(request_path("?"), "");
    assert_eq!(request_path(""), "");
}

#[test]
fn an_unknown_path_is_not_found() {
    let r = not_found_response("/nope");
    assert_eq!(r.status_code, 404);
    assert_eq!(r.body, b"Asset /nope not found.".to_vec());
    assert_eq!(r.headers, static_headers());

    let r = http_request(&request("/nope?v=3"), &AlternativeOriginsMode::CertifiedContent, None);
    assert_eq!(r.status_code, 404);
    assert_eq!(r.body, b"Asset /nope not found.".to_vec());
}

#[test]
fn a_certified_asset_gets_the_static_headers_too() {
    assert!(certified_response(None).is_none());
    let r = certified_response(Some(stored())).unwrap();
    assert_eq!(r.status_code, 200);
    assert_eq!(r.body, b"{\"alternativeOrigins\":[]}".to_vec());
    assert_eq!(
        r.headers,
        vec![
            header("IC-Certificate", "good"),
            header("Content-Type", "application/json"),
            header("Access-Control-Allow-Origin", "*"),
            header("Referrer-Policy", "strict-origin-when-cross-origin"),
        ]
    );
}

#[test]
fn uncertified_alternative_origins_carry_no_certificate() {
    let mut asset = stored();
    asset.headers.push(header("IC-Certificate", "second"));
    asset.headers.push(header("IC-CertificateExpression", "kept"));
    let r = http_request(
        &request(&format!("{ALTERNATIVE_ORIGINS_PATH}?q")),
        &AlternativeOriginsMode::UncertifiedContent,
        Some(asset),
    );
    assert_eq!(r.status_code, 200);
    assert_eq!(
        r.headers,
        vec![
            header("Content-Type", "application/json"),
            header("IC-CertificateExpression", "kept"),
            header("Access-Control-Allow-Origin", "*"),
            header("Referrer-Policy", "strict-origin-when-cross-origin"),
        ]
    );
    assert!(!r.headers.iter().any(|(name, _)| name == "IC-Certificate"));
    assert_eq!(r.body, b"{\"alternativeOrigins\":[]}".to_vec());
}

#[test]
fn certified_and_redirected_alternative_origins_are_untouched() {
    for mode in [
        AlternativeOriginsMode::CertifiedContent,
        AlternativeOriginsMode::Redirect { location: "https://evil.com".to_string() },
    ] {
        let r = http_request(&request(ALTERNATIVE_ORIGINS_PATH), &mode, Some(stored()));
        assert_eq!(r.headers[0], header("IC-Certificate", "good"));
        assert_eq!(r.headers.len(), 4);
    }
}

#[test]
fn other_paths_are_never_spoiled() {
    let r = http_request(&request("/index.html"), &AlternativeOriginsMode::UncertifiedContent, Some(stored()));
    assert_eq!(r.headers[0], header("IC-Certificate", "good"));
}
