//! The HTTP side of the canister: which path a request names, and what is
//! answered for it once the certified asset store has been consulted.
use vstd::prelude::*;
use vstd::utf8::encode_utf8;

verus! {

/// The alternative-origins document that II reads.
pub const ALTERNATIVE_ORIGINS_PATH: &'static str = "/.well-known/ii-alternative-origins";

/// The name of the header that carries the certificate of a response.
pub const IC_CERTIFICATE: &'static str = "IC-Certificate";

pub type HeaderField = (String, String);

#[derive(Clone, Debug)]
pub struct HttpRequest {
    pub method: String,
    pub url: String,
    pub headers: Vec<HeaderField>,
    pub body: Vec<u8>,
    pub certificate_version: Option<u16>,
}

#[derive(Clone, Debug)]
pub struct HttpResponse {
    pub status_code: u16,
    pub headers: Vec<HeaderField>,
    pub body: Vec<u8>,
}

/// What the certified asset store answers for a path: the status, the
/// certification headers, and the content.
pub struct CertifiedAsset {
    pub status_code: u16,
    pub headers: Vec<HeaderField>,
    pub content: Vec<u8>,
}

/// The available behaviours of `/.well-known/ii-alternative-origins`:
/// * `CertifiedContent`: valid certification on the payload. This mode is
///   required to successfully use one of the listed alternative origins.
/// * `UncertifiedContent`: no `IC-Certificate` header will be sent back with
///   the response. This mode can be used to validate that II rejects
///   uncertified assets when validating alternative origins.
/// * `Redirect`: the response status code is 303, with a `Location` header
///   with the value provided. This mode can be used to validate that II
///   rejects redirects when validating alternative origins.
#[derive(Clone, Debug)]
pub enum AlternativeOriginsMode {
    CertifiedContent,
    UncertifiedContent,
    Redirect { location: String },
}

/// The available behaviours of `/.well-known/ii-app-metadata`:
/// * `CertifiedContent`: valid certification on the payload, i.e. the
///   document is served as written.
/// * `Redirect`: the response is a 303 with a `Location` header with the value
///   provided. This mode can be used to validate that II does not follow
///   redirects when reading app metadata.
#[derive(Clone, Debug)]
pub enum AppMetadataMode {
    CertifiedContent,
    Redirect { location: String },
}

pub open spec fn header_view(h: HeaderField) -> (Seq<char>, Seq<char>) {
    (h.0@, h.1@)
}

pub open spec fn headers_view(hs: Seq<HeaderField>) -> Seq<(Seq<char>, Seq<char>)> {
    hs.map_values(|h: HeaderField| header_view(h))
}

pub struct ResponseView {
    pub status_code: u16,
    pub headers: Seq<(Seq<char>, Seq<char>)>,
    pub body: Seq<u8>,
}

impl View for HttpResponse {
    type V = ResponseView;

    open spec fn view(&self) -> ResponseView {
        ResponseView { status_code: self.status_code, headers: headers_view(self.headers@), body: self.body@ }
    }
}

impl View for CertifiedAsset {
    type V = ResponseView;

    open spec fn view(&self) -> ResponseView {
        ResponseView { status_code: self.status_code, headers: headers_view(self.headers@), body: self.content@ }
    }
}

/// The headers that every response carries.
pub open spec fn spec_static_headers() -> Seq<(Seq<char>, Seq<char>)> {
    seq![
        ("Access-Control-Allow-Origin"@, "*"@),
        ("Referrer-Policy"@, "strict-origin-when-cross-origin"@),
    ]
}

/// `k` is where the path of `url` ends: at its first `?`, or at its end.
pub open spec fn path_end(url: Seq<char>, k: int) -> bool {
    &&& 0 <= k <= url.len()
    &&& forall|j: int| 0 <= j < k ==> url[j] != '?'
    &&& (k == url.len() || url[k] == '?')
}

/// The path that `url` names: everything before its first `?`.
pub open spec fn path_of(url: Seq<char>) -> Seq<char> {
    url.take(choose|k: int| path_end(url, k))
}

/// The response to a path the asset store holds: its own headers followed by
/// the static ones.
pub open spec fn spec_certified_response(asset: ResponseView) -> ResponseView {
    ResponseView { headers: asset.headers + spec_static_headers(), ..asset }
}

/// The response to a path the asset store does not hold.
pub open spec fn spec_not_found_response(path: Seq<char>) -> ResponseView {
    ResponseView {
        status_code: 404,
        headers: spec_static_headers(),
        body: encode_utf8("Asset "@ + path + " not found."@),
    }
}

/// Holds of every header but the `IC-Certificate` ones.
pub open spec fn not_certificate() -> spec_fn((Seq<char>, Seq<char>)) -> bool {
    |h: (Seq<char>, Seq<char>)| h.0 != IC_CERTIFICATE@
}

/// The headers without the `IC-Certificate` ones, the others in order.
pub open spec fn without_certificate(hs: Seq<(Seq<char>, Seq<char>)>) -> Seq<(Seq<char>, Seq<char>)> {
    hs.filter(not_certificate())
}

/// The alternative-origins response as served in `mode`: in the uncertified
/// mode without any `IC-Certificate` header.
pub open spec fn alternative_origins_served(r: ResponseView, mode: AlternativeOriginsMode) -> ResponseView {
    match mode {
        AlternativeOriginsMode::UncertifiedContent => ResponseView { headers: without_certificate(r.headers), ..r },
        _ => r,
    }
}

/// The response to a request for `url`, given what the asset store holds for
/// its path.
pub open spec fn spec_http_response(url: Seq<char>, mode: AlternativeOriginsMode, asset: Option<ResponseView>) -> ResponseView {
    let path = path_of(url);
    match asset {
        Some(a) => if path == ALTERNATIVE_ORIGINS_PATH@ {
            alternative_origins_served(spec_certified_response(a), mode)
        } else {
            spec_certified_response(a)
        },
        None => spec_not_found_response(path),
    }
}

pub open spec fn asset_view(a: Option<CertifiedAsset>) -> Option<ResponseView> {
    match a {
        Some(a) => Some(a@),
        None => None,
    }
}

pub(crate) proof fn lemma_path_end_unique(url: Seq<char>, k: int, l: int)
    requires
        path_end(url, k),
        path_end(url, l),
    ensures
        k == l,
{
    if k < l {
        assert(url[k] != '?');
    } else if l < k {
        assert(url[l] != '?');
    }
}

/// The headers that every response carries.
pub fn static_headers() -> (hs: Vec<HeaderField>)
    ensures
        headers_view(hs@) == spec_static_headers(),
{
    let mut hs: Vec<HeaderField> = Vec::new();
    hs.push(("Access-Control-Allow-Origin".to_owned(), "*".to_owned()));
    hs.push(("Referrer-Policy".to_owned(), "strict-origin-when-cross-origin".to_owned()));
    assert(headers_view(hs@) =~= spec_static_headers());
    hs
}

/// The path that `url` names: everything before its first `?`.
pub fn request_path(url: &str) -> (path: String)
    ensures
        path@ == path_of(url@),
{
    let n = url.unicode_len();
    let mut k: usize = 0;
    while k < n
        invariant
            k <= n,
            n == url@.len(),
            forall|j: int| 0 <= j < k ==> url@[j] != '?',
        ensures
            k <= n,
            n == url@.len(),
            forall|j: int| 0 <= j < k ==> url@[j] != '?',
            k == n || url@[k as int] == '?',
        decreases n - k,
    {
        if url.get_char(k) == '?' {
            break;
        }
        k = k + 1;
    }
    proof {
        assert(path_end(url@, k as int));
        let c = choose|c: int| path_end(url@, c);
        lemma_path_end_unique(url@, k as int, c);
    }
    url.substring_char(0, k).to_owned()
}

/// The response to a path the asset store does not hold: a 404 saying so.
pub fn not_found_response(path: &str) -> (r: HttpResponse)
    ensures
        r@ == spec_not_found_response(path@),
{
    let mut text = "Asset ".to_owned();
    text.append(path);
    text.append(" not found.");
    let body = text.as_str().as_bytes_vec();
    HttpResponse { status_code: 404, headers: static_headers(), body }
}

/// The response to a path the asset store holds, if it holds it.
pub fn certified_response(asset: Option<CertifiedAsset>) -> (r: Option<HttpResponse>)
    ensures
        match asset_view(asset) {
            Some(a) => r matches Some(resp) && resp@ == spec_certified_response(a),
            None => r is None,
        },
{
    match asset {
        Some(a) => {
            let mut headers = a.headers;
            let mut extra = static_headers();
            let ghost before = headers@;
            headers.append(&mut extra);
            assert(headers_view(headers@) =~= headers_view(before) + spec_static_headers());
            Some(HttpResponse { status_code: a.status_code, headers, body: a.content })
        },
        None => None,
    }
}

/// The headers without the `IC-Certificate` ones; the others stay, in order.
fn drop_certificates(headers: &Vec<HeaderField>) -> (out: Vec<HeaderField>)
    ensures
        headers_view(out@) == without_certificate(headers_view(headers@)),
{
    let ghost hv = headers_view(headers@);
    let name = IC_CERTIFICATE.to_owned();
    let mut out: Vec<HeaderField> = Vec::new();
    let mut i: usize = 0;
    while i < headers.len()
        invariant
            name@ == IC_CERTIFICATE@,
            i <= headers@.len(),
            hv == headers_view(headers@),
            headers_view(out@) == hv.take(i as int).filter(not_certificate()),
        decreases headers@.len() - i,
    {
        proof {
            assert(hv.take(i + 1) == hv.take(i as int).push(hv[i as int]));
            hv.take(i as int).lemma_filter_push(hv[i as int], not_certificate());
        }
        let ghost before = headers_view(out@);
        let h = &headers[i];
        if h.0 != name {
            out.push((h.0.clone(), h.1.clone()));
            assert(headers_view(out@) =~= before.push(hv[i as int]));
        }
        i = i + 1;
    }
    assert(hv.take(hv.len() as int) == hv);
    out
}

/// Answers a request, given the mode of the alternative-origins asset and what
/// the certified asset store holds for the request's path (see
/// [`request_path`]). The alternative-origins document is always held, so the
/// store must have answered for it.
pub fn http_request(req: &HttpRequest, mode: &AlternativeOriginsMode, asset: Option<CertifiedAsset>) -> (r: HttpResponse)
    requires
        path_of(req.url@) == ALTERNATIVE_ORIGINS_PATH@ ==> asset is Some,
    ensures
        r@ == spec_http_response(req.url@, *mode, asset_view(asset)),
{
    let path = request_path(req.url.as_str());
    let alternative = ALTERNATIVE_ORIGINS_PATH.to_owned();
    match certified_response(asset) {
        Some(resp) => {
            if path == alternative {
                match mode {
                    AlternativeOriginsMode::UncertifiedContent => {
                        let headers = drop_certificates(&resp.headers);
                        HttpResponse { status_code: resp.status_code, headers, body: resp.body }
                    },
                    _ => resp,
                }
            } else {
                resp
            }
        },
        None => not_found_response(path.as_str()),
    }
}

} // verus!
