//! What every answer of the HTTP side promises, proved over the models that
//! the contracts of [`crate::http`] and [`crate::assets`] use.
use vstd::prelude::*;

use crate::assets::{tagged_script, INDEX_SCRIPT_TAG};
use crate::http::{
    lemma_path_end_unique, not_certificate, path_end, path_of, spec_certified_response,
    spec_http_response, spec_static_headers, AlternativeOriginsMode, ResponseView,
    without_certificate, ALTERNATIVE_ORIGINS_PATH, IC_CERTIFICATE,
};
use crate::text::replaced;

verus! {

proof fn lemma_path_end_exists(url: Seq<char>)
    ensures
        exists|k: int| path_end(url, k),
    decreases url.len(),
{
    if url.len() == 0 {
        assert(path_end(url, 0));
    } else {
        let rest = url.drop_last();
        lemma_path_end_exists(rest);
        let k = choose|k: int| path_end(rest, k);
        assert forall|j: int| 0 <= j < k implies url[j] != '?' by {
            assert(url[j] == rest[j]);
        }
        if k < rest.len() {
            assert(url[k] == rest[k]);
        }
        if k < rest.len() {
            assert(path_end(url, k));
        } else if url[rest.len() as int] == '?' {
            assert(path_end(url, rest.len() as int));
        } else {
            assert(path_end(url, url.len() as int));
        }
    }
}

/// The query string plays no part: a request for `url?query` is answered as
/// one for `url`.
pub proof fn lemma_query_is_ignored(
    url: Seq<char>,
    query: Seq<char>,
    mode: AlternativeOriginsMode,
    asset: Option<ResponseView>,
)
    ensures
        spec_http_response(url + seq!['?'] + query, mode, asset) == spec_http_response(url, mode, asset),
{
    let longer = url + seq!['?'] + query;
    lemma_path_end_exists(url);
    let k = choose|k: int| path_end(url, k);
    assert(path_end(longer, k)) by {
        assert forall|j: int| 0 <= j < k implies longer[j] != '?' by {
            assert(longer[j] == url[j]);
        }
        if k < url.len() {
            assert(longer[k] == url[k]);
        } else {
            assert(longer[k] == '?');
        }
    }
    let l = choose|l: int| path_end(longer, l);
    lemma_path_end_unique(longer, k, l);
    assert(path_of(longer) =~= path_of(url));
}

/// Every answer ends with the static headers (CORS open to every origin and
/// the referrer policy), whatever the path, the mode and the asset store say.
pub proof fn lemma_static_headers_always_sent(url: Seq<char>, mode: AlternativeOriginsMode, asset: Option<ResponseView>)
    ensures
        ({
            let h = spec_http_response(url, mode, asset).headers;
            h.len() >= 2 && h.subrange(h.len() - 2, h.len() as int) == spec_static_headers()
        }),
{
    let r = spec_http_response(url, mode, asset);
    let h = r.headers;
    let s = spec_static_headers();
    match asset {
        Some(a) => {
            let c = spec_certified_response(a);
            assert(c.headers.subrange(c.headers.len() - 2, c.headers.len() as int) =~= s);
            if path_of(url) == ALTERNATIVE_ORIGINS_PATH@ {
                match mode {
                    AlternativeOriginsMode::UncertifiedContent => {
                        reveal_strlit("IC-Certificate");
                        reveal_strlit("Access-Control-Allow-Origin");
                        reveal_strlit("Referrer-Policy");
                        assert(s[0].0 != IC_CERTIFICATE@) by {
                            assert(s[0].0[0] != IC_CERTIFICATE@[0]);
                        }
                        assert(s[1].0 != IC_CERTIFICATE@) by {
                            assert(s[1].0[0] != IC_CERTIFICATE@[0]);
                        }
                        let front = a.headers;
                        assert(c.headers =~= front.push(s[0]).push(s[1]));
                        front.lemma_filter_push(s[0], not_certificate());
                        front.push(s[0]).lemma_filter_push(s[1], not_certificate());
                        assert(h == without_certificate(front).push(s[0]).push(s[1]));
                        assert(h.subrange(h.len() - 2, h.len() as int) =~= s);
                    },
                    _ => {},
                }
            }
        },
        None => {
            assert(h.subrange(h.len() - 2, h.len() as int) =~= s);
        },
    }
}

/// In the uncertified mode the alternative-origins answer carries no
/// `IC-Certificate` header; its status, its body and every other header of the
/// certified answer stay, in order. In the other two modes it is the certified
/// answer, untouched.
pub proof fn lemma_uncertified_answer_has_no_certificate(url: Seq<char>, asset: ResponseView, location: String)
    requires
        path_of(url) == ALTERNATIVE_ORIGINS_PATH@,
    ensures
        spec_http_response(url, AlternativeOriginsMode::CertifiedContent, Some(asset)) == spec_certified_response(asset),
        spec_http_response(url, AlternativeOriginsMode::Redirect { location }, Some(asset)) == spec_certified_response(asset),
        ({
            let spoiled = spec_http_response(url, AlternativeOriginsMode::UncertifiedContent, Some(asset));
            let good = spec_certified_response(asset);
            &&& spoiled.status_code == good.status_code
            &&& spoiled.body == good.body
            &&& spoiled.headers == good.headers.filter(|h: (Seq<char>, Seq<char>)| h.0 != IC_CERTIFICATE@)
            &&& forall|i: int| 0 <= i < spoiled.headers.len() ==> (#[trigger] spoiled.headers[i]).0 != IC_CERTIFICATE@
            &&& forall|i: int|
                0 <= i < good.headers.len() && (#[trigger] good.headers[i]).0 != IC_CERTIFICATE@ ==> spoiled.headers.contains(
                    good.headers[i],
                )
        }),
{
    broadcast use vstd::seq_lib::group_filter_ensures;

    let good = spec_certified_response(asset);
    let spoiled = spec_http_response(url, AlternativeOriginsMode::UncertifiedContent, Some(asset));
    assert(not_certificate() == (|h: (Seq<char>, Seq<char>)| h.0 != IC_CERTIFICATE@));
    assert forall|i: int| 0 <= i < spoiled.headers.len() implies (#[trigger] spoiled.headers[i]).0 != IC_CERTIFICATE@ by {
        good.headers.lemma_filter_pred(not_certificate(), i);
    }
    assert forall|i: int|
        0 <= i < good.headers.len() && (#[trigger] good.headers[i]).0 != IC_CERTIFICATE@ implies spoiled.headers.contains(
            good.headers[i],
        ) by {
        good.headers.lemma_filter_contains(not_certificate(), i);
    }
}

/// A page without the front end's script tag is served as it is.
pub proof fn lemma_untagged_page_is_unchanged(html: Seq<char>, canister: Seq<u8>)
    requires
        forall|i: int|
            0 <= i <= html.len() - INDEX_SCRIPT_TAG@.len() ==> #[trigger] html.subrange(i, i + INDEX_SCRIPT_TAG@.len())
                != INDEX_SCRIPT_TAG@,
    ensures
        replaced(html, INDEX_SCRIPT_TAG@, tagged_script(canister)) == html,
    decreases html.len(),
{
    let tag = INDEX_SCRIPT_TAG@;
    let to = tagged_script(canister);
    if tag.len() == 0 || html.len() < tag.len() {
    } else {
        assert(html.take(tag.len() as int) == html.subrange(0, tag.len() as int));
        assert(html.subrange(0int, 0int + tag.len()) != tag);
        assert(html.take(tag.len() as int) != tag);
        let rest = html.skip(1);
        assert forall|i: int| 0 <= i <= rest.len() - tag.len() implies #[trigger] rest.subrange(i, i + tag.len()) != tag by {
            assert(rest.subrange(i, i + tag.len()) =~= html.subrange(i + 1, i + 1 + tag.len()));
        }
        lemma_untagged_page_is_unchanged(rest, canister);
        assert(seq![html[0]] + rest =~= html);
        assert(replaced(html, tag, to) == seq![html[0]] + replaced(rest, tag, to));
    }
}

/// The path of a request is exactly the part of its URL before the first
/// `?`: a prefix of the URL without any `?`, which is the whole URL or is
/// followed in it by a `?`. So a URL without `?` is its own path (nothing is
/// cut, a trailing `/` included), and adding a query to it gives the same path.
pub proof fn lemma_path_is_the_url_before_the_query(url: Seq<char>, query: Seq<char>)
    ensures
        path_of(url).len() <= url.len(),
        forall|i: int| 0 <= i < path_of(url).len() ==> #[trigger] path_of(url)[i] == url[i] && url[i] != '?',
        path_of(url).len() == url.len() || url[path_of(url).len() as int] == '?',
        (forall|i: int| 0 <= i < url.len() ==> #[trigger] url[i] != '?') ==> path_of(url) == url
            && path_of(url + seq!['?'] + query) == url,
{
    lemma_path_end_exists(url);
    let k = choose|k: int| path_end(url, k);
    assert(path_of(url).len() == k);
    if forall|i: int| 0 <= i < url.len() ==> #[trigger] url[i] != '?' {
        if k < url.len() {
            assert(url[k] != '?');
        }
        assert(path_of(url) =~= url);
        let longer = url + seq!['?'] + query;
        assert(path_end(longer, url.len() as int)) by {
            assert forall|j: int| 0 <= j < url.len() implies longer[j] != '?' by {
                assert(longer[j] == url[j]);
            }
            assert(longer[url.len() as int] == '?');
        }
        let l = choose|l: int| path_end(longer, l);
        lemma_path_end_unique(longer, url.len() as int, l);
        assert(path_of(longer) =~= url);
    }
}

} // verus!
