//! The JSON documents the canister serves under `/.well-known/`, and how the
//! test endpoints change them.
use vstd::prelude::*;
use vstd::utf8::encode_utf8;

use crate::http::{AlternativeOriginsMode, AppMetadataMode, ALTERNATIVE_ORIGINS_PATH};
use crate::principal::{principal_text, PrincipalId};
use crate::text::{replace_all, replaced};

verus! {

/// A convenience asset to have a URL to point to when testing the redirect
/// behaviour of the alternative origins.
pub const EVIL_ALTERNATIVE_ORIGINS_PATH: &'static str = "/.well-known/evil-alternative-origins";

/// The ICRC-167 URL transport auth-callback allow-list. It points at this
/// app's redirect callback page (`/callback`), so II's URL transport accepts
/// delivering a response back to it.
pub const AUTH_CALLBACKS_PATH: &'static str = "/.well-known/ii-auth-callbacks";

/// Permissionless app display metadata (name, description, logo) read by II
/// when it renders its authorization screens. Not served until a test sets it
/// through the app-metadata update, so by default II falls back to whatever it
/// knows about this origin on its own.
pub const APP_METADATA_PATH: &'static str = "/.well-known/ii-app-metadata";

/// A convenience asset to have a URL to point to when testing the redirect
/// behaviour of the app metadata.
pub const EVIL_APP_METADATA_PATH: &'static str = "/.well-known/evil-app-metadata";

/// The notification sender allowlist II fetches (at consent) to authorize a
/// canister as a sender for this origin. This canister lists itself.
pub const NOTIFICATION_SENDERS_PATH: &'static str = "/.well-known/ii-notification-senders";

/// The alternative origins served after install: none.
pub const EMPTY_ALTERNATIVE_ORIGINS: &'static str = "{\"alternativeOrigins\":[]}";

/// What the evil alternative-origins asset serves.
pub const EVIL_ALTERNATIVE_ORIGINS: &'static str = "{\"alternativeOrigins\":[\"https://evil.com\"]}";

/// What the evil app-metadata asset serves: a document that would be
/// perfectly valid if it were read, so a test can tell "II didn't follow the
/// redirect" apart from "II read the redirect target and rejected it".
pub const EVIL_APP_METADATA: &'static str = "{\"name\":\"Evil App\",\"description\":\"Served from the redirect target\"}";

/// The script tag the front-end build writes into the HTML pages.
pub const INDEX_SCRIPT_TAG: &'static str = "<script type=\"module\" crossorigin src=\"/index.js\"></script>";

/// A JSON document served at `url_path`, with identity encoding.
pub struct JsonAsset {
    pub url_path: String,
    pub content: Vec<u8>,
}

pub struct JsonAssetView {
    pub url_path: Seq<char>,
    pub content: Seq<u8>,
}

impl View for JsonAsset {
    type V = JsonAssetView;

    open spec fn view(&self) -> JsonAssetView {
        JsonAssetView { url_path: self.url_path@, content: self.content@ }
    }
}

/// What a test endpoint asks of the certified asset store.
pub enum AssetUpdate {
    /// Certify `0` (replacing whatever was at its path).
    Certify(JsonAsset),
    /// Certify a redirect from `url_path` to `location`.
    Redirect { url_path: String, location: String },
}

pub enum AssetUpdateView {
    Certify(JsonAssetView),
    Redirect { url_path: Seq<char>, location: Seq<char> },
}

impl View for AssetUpdate {
    type V = AssetUpdateView;

    open spec fn view(&self) -> AssetUpdateView {
        match self {
            AssetUpdate::Certify(a) => AssetUpdateView::Certify(a@),
            AssetUpdate::Redirect { url_path, location } => AssetUpdateView::Redirect {
                url_path: url_path@,
                location: location@,
            },
        }
    }
}

/// Optional install/upgrade argument.
#[derive(Clone, Debug)]
pub struct InitArg {
    /// Extra callback URLs to add to the ICRC-167 auth-callback allow-list, on
    /// top of this canister's own gateway origins. Used to declare a custom
    /// domain the canister is also served under.
    pub auth_callbacks: Vec<String>,
}

/// The JSON asset at `path` with `content`.
pub open spec fn json_asset(path: Seq<char>, content: Seq<char>) -> JsonAssetView {
    JsonAssetView { url_path: path, content: encode_utf8(content) }
}

/// The callback page of this canister under a gateway `domain`.
pub open spec fn gateway_callback(canister: Seq<u8>, domain: Seq<char>) -> Seq<char> {
    "https://"@ + principal_text(canister) + "."@ + domain + "/callback"@
}

/// The auth-callback allow-list: this canister's own gateway origins, then the
/// extra ones.
pub open spec fn spec_auth_callbacks(canister: Seq<u8>, extra: Seq<Seq<char>>) -> Seq<Seq<char>> {
    seq![
        gateway_callback(canister, "icp0.io"@),
        gateway_callback(canister, "ic0.app"@),
        gateway_callback(canister, "icp.net"@),
    ] + extra
}

/// The key under which the allow-list document lists the callbacks.
pub const CALLBACKS_KEY: &'static str = "callbacks";

/// The lower-case hexadecimal digit of `n` (below 16).
pub open spec fn hex_digit(n: int) -> char {
    seq!['0', '1', '2', '3', '4', '5', '6', '7', '8', '9', 'a', 'b', 'c', 'd', 'e', 'f'][n]
}

/// How `serde_json` writes `c` inside a JSON string: a quote and a
/// backslash behind a backslash; backspace, tab, line feed, form feed and
/// carriage return as backslash and `b`, `t`, `n`, `f`, `r`; the other control
/// characters below U+0020 as backslash, `u00` and two lower-case hexadecimal
/// digits; every other character as it is.
pub open spec fn json_escaped_char(c: char) -> Seq<char> {
    if c == '"' {
        seq!['\\', '"']
    } else if c == '\\' {
        seq!['\\', '\\']
    } else if c == '\u{8}' {
        seq!['\\', 'b']
    } else if c == '\t' {
        seq!['\\', 't']
    } else if c == '\n' {
        seq!['\\', 'n']
    } else if c == '\u{c}' {
        seq!['\\', 'f']
    } else if c == '\r' {
        seq!['\\', 'r']
    } else if (c as int) < 0x20 {
        seq!['\\', 'u', '0', '0', hex_digit((c as int) / 16), hex_digit((c as int) % 16)]
    } else {
        seq![c]
    }
}

/// The characters of `s`, each written as inside a JSON string.
pub open spec fn json_escaped(s: Seq<char>) -> Seq<char>
    decreases s.len(),
{
    if s.len() == 0 {
        Seq::empty()
    } else {
        json_escaped_char(s[0]) + json_escaped(s.drop_first())
    }
}

/// The JSON string literal of `s`.
pub open spec fn json_string(s: Seq<char>) -> Seq<char> {
    seq!['"'] + json_escaped(s) + seq!['"']
}

/// The JSON string literals of `items`, separated by commas.
pub open spec fn json_string_list(items: Seq<Seq<char>>) -> Seq<char>
    decreases items.len(),
{
    if items.len() == 0 {
        Seq::empty()
    } else if items.len() == 1 {
        json_string(items[0])
    } else {
        json_string_list(items.drop_last()) + seq![','] + json_string(items.last())
    }
}

/// The compact JSON text of the object whose only member is the array of
/// strings `items` under `key`.
pub open spec fn json_object_with_strings(key: Seq<char>, items: Seq<Seq<char>>) -> Seq<char> {
    seq!['{'] + json_string(key) + seq![':', '['] + json_string_list(items) + seq![']', '}']
}

/// The auth-callback allow-list document of `callbacks`.
pub open spec fn spec_auth_callbacks_document(callbacks: Seq<Seq<char>>) -> Seq<char> {
    json_object_with_strings(CALLBACKS_KEY@, callbacks)
}

/// The script tag with this canister's id attached.
pub open spec fn tagged_script(canister: Seq<u8>) -> Seq<char> {
    "<script data-canister-id=\""@ + principal_text(canister)
        + "\" type=\"module\" crossorigin src=\"/index.js\"></script>"@
}

/// Calls `serde_json`: builds the object with the array of `items` under
/// `key` and writes it with `Value::to_string` (compact, no whitespace);
/// trusted to write it as `serde_json`'s escaping table and compact formatter
/// do ([`json_object_with_strings`]).
#[verifier::external_body]
fn json_object_of_strings(key: &str, items: &Vec<String>) -> (json: String)
    ensures
        json@ == json_object_with_strings(key@, items.deep_view()),
{
    let mut object = serde_json::Map::new();
    object.insert(key.to_owned(), serde_json::Value::from(items.clone()));
    serde_json::Value::Object(object).to_string()
}

/// The JSON asset at `path` with `content`.
fn make_json_asset(path: &str, content: &str) -> (a: JsonAsset)
    ensures
        a@ == json_asset(path@, content@),
{
    JsonAsset { url_path: path.to_owned(), content: content.as_bytes_vec() }
}

/// What setting `/.well-known/ii-alternative-origins` asks of the asset
/// store: certify `alternative_origins` (served as JSON) in the certified and
/// uncertified modes (the uncertified one is served without its certificate), a redirect
/// in the redirect mode.
pub fn alternative_origins_update(alternative_origins: &str, mode: &AlternativeOriginsMode) -> (u: AssetUpdate)
    ensures
        u@ == match mode {
            AlternativeOriginsMode::Redirect { location } => AssetUpdateView::Redirect {
                url_path: ALTERNATIVE_ORIGINS_PATH@,
                location: location@,
            },
            _ => AssetUpdateView::Certify(json_asset(ALTERNATIVE_ORIGINS_PATH@, alternative_origins@)),
        },
{
    match mode {
        AlternativeOriginsMode::Redirect { location } => AssetUpdate::Redirect {
            url_path: ALTERNATIVE_ORIGINS_PATH.to_owned(),
            location: location.clone(),
        },
        _ => AssetUpdate::Certify(make_json_asset(ALTERNATIVE_ORIGINS_PATH, alternative_origins)),
    }
}

/// What setting `/.well-known/ii-app-metadata` asks of the asset store:
/// certify `app_metadata` (served as JSON, taken as an opaque string so that
/// tests can serve malformed documents), or a redirect.
pub fn app_metadata_update(app_metadata: &str, mode: &AppMetadataMode) -> (u: AssetUpdate)
    ensures
        u@ == match mode {
            AppMetadataMode::Redirect { location } => AssetUpdateView::Redirect {
                url_path: APP_METADATA_PATH@,
                location: location@,
            },
            AppMetadataMode::CertifiedContent => AssetUpdateView::Certify(
                json_asset(APP_METADATA_PATH@, app_metadata@),
            ),
        },
{
    match mode {
        AppMetadataMode::Redirect { location } => AssetUpdate::Redirect {
            url_path: APP_METADATA_PATH.to_owned(),
            location: location.clone(),
        },
        AppMetadataMode::CertifiedContent => AssetUpdate::Certify(make_json_asset(APP_METADATA_PATH, app_metadata)),
    }
}

/// The extra auth callbacks an install argument declares (none without one).
pub fn extra_auth_callbacks(arg: Option<InitArg>) -> (extra: Vec<String>)
    ensures
        extra@ == match arg {
            Some(a) => a.auth_callbacks@,
            None => Seq::<String>::empty(),
        },
{
    match arg {
        Some(a) => a.auth_callbacks,
        None => Vec::new(),
    }
}

/// The callback page of the canister `text` under `domain`.
fn gateway_callback_of(text: &str, domain: &str) -> (url: String)
    ensures
        url@ == "https://"@ + text@ + "."@ + domain@ + "/callback"@,
{
    let mut url = "https://".to_owned();
    url.append(text);
    url.append(".");
    url.append(domain);
    url.append("/callback");
    url
}

/// The auth-callback allow-list: this canister's callback page under each of
/// its gateway origins, then the extra callbacks.
pub fn auth_callbacks(canister: &PrincipalId, extra: Vec<String>) -> (callbacks: Vec<String>)
    ensures
        callbacks.deep_view() == spec_auth_callbacks(canister@, extra.deep_view()),
{
    let text = canister.text();
    let mut callbacks: Vec<String> = Vec::new();
    callbacks.push(gateway_callback_of(text.as_str(), "icp0.io"));
    callbacks.push(gateway_callback_of(text.as_str(), "ic0.app"));
    callbacks.push(gateway_callback_of(text.as_str(), "icp.net"));
    let ghost head = callbacks.deep_view();
    let mut rest = extra;
    let ghost tail = rest.deep_view();
    callbacks.append(&mut rest);
    assert(callbacks.deep_view() =~= head + tail);
    assert(head =~= seq![
        gateway_callback(canister@, "icp0.io"@),
        gateway_callback(canister@, "ic0.app"@),
        gateway_callback(canister@, "icp.net"@),
    ]);
    callbacks
}

/// The auth-callback allow-list asset, with the callbacks written as
/// properly escaped JSON string literals (the extra ones come from the install
/// argument).
pub fn auth_callbacks_asset(canister: &PrincipalId, extra: Vec<String>) -> (a: JsonAsset)
    ensures
        a@ == json_asset(
            AUTH_CALLBACKS_PATH@,
            spec_auth_callbacks_document(spec_auth_callbacks(canister@, extra.deep_view())),
        ),
{
    let callbacks = auth_callbacks(canister, extra);
    let doc = json_object_of_strings(CALLBACKS_KEY, &callbacks);
    make_json_asset(AUTH_CALLBACKS_PATH, doc.as_str())
}

/// An HTML page with the canister's id attached to the front end's script
/// tag, so the front end knows which canister serves it.
pub fn fixup_html(html: &str, canister: &PrincipalId) -> (page: String)
    ensures
        page@ == replaced(html@, INDEX_SCRIPT_TAG@, tagged_script(canister@)),
{
    let mut tag = "<script data-canister-id=\"".to_owned();
    let text = canister.text();
    tag.append(text.as_str());
    tag.append("\" type=\"module\" crossorigin src=\"/index.js\"></script>");
    proof {
        reveal_strlit("<script type=\"module\" crossorigin src=\"/index.js\"></script>");
    }
    replace_all(html, INDEX_SCRIPT_TAG, tag.as_str())
}

/// The `.well-known` documents the canister serves from install on, in this
/// order: the alternative origins, the evil alternative origins, the evil app
/// metadata, the auth-callback allow-list, and the notification sender
/// allowlist `senders_json`.
pub fn init_assets(
    alternative_origins: &str,
    canister: &PrincipalId,
    extra_auth_callbacks: Vec<String>,
    senders_json: &str,
) -> (assets: Vec<JsonAsset>)
    ensures
        assets@.map_values(|a: JsonAsset| a@) == seq![
            json_asset(ALTERNATIVE_ORIGINS_PATH@, alternative_origins@),
            json_asset(EVIL_ALTERNATIVE_ORIGINS_PATH@, EVIL_ALTERNATIVE_ORIGINS@),
            json_asset(EVIL_APP_METADATA_PATH@, EVIL_APP_METADATA@),
            json_asset(
                AUTH_CALLBACKS_PATH@,
                spec_auth_callbacks_document(spec_auth_callbacks(canister@, extra_auth_callbacks.deep_view())),
            ),
            json_asset(NOTIFICATION_SENDERS_PATH@, senders_json@),
        ],
{
    let mut assets: Vec<JsonAsset> = Vec::new();
    assets.push(make_json_asset(ALTERNATIVE_ORIGINS_PATH, alternative_origins));
    assets.push(make_json_asset(EVIL_ALTERNATIVE_ORIGINS_PATH, EVIL_ALTERNATIVE_ORIGINS));
    assets.push(make_json_asset(EVIL_APP_METADATA_PATH, EVIL_APP_METADATA));
    assets.push(auth_callbacks_asset(canister, extra_auth_callbacks));
    assets.push(make_json_asset(NOTIFICATION_SENDERS_PATH, senders_json));
    assert(assets@.map_values(|a: JsonAsset| a@) =~= seq![
        json_asset(ALTERNATIVE_ORIGINS_PATH@, alternative_origins@),
        json_asset(EVIL_ALTERNATIVE_ORIGINS_PATH@, EVIL_ALTERNATIVE_ORIGINS@),
        json_asset(EVIL_APP_METADATA_PATH@, EVIL_APP_METADATA@),
        json_asset(
            AUTH_CALLBACKS_PATH@,
            spec_auth_callbacks_document(spec_auth_callbacks(canister@, extra_auth_callbacks.deep_view())),
        ),
        json_asset(NOTIFICATION_SENDERS_PATH@, senders_json@),
    ]);
    assets
}

} // verus!
