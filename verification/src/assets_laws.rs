//! What the `.well-known` documents and the served pages promise, proved over
//! the models that the contracts of [`crate::assets`] use.
use vstd::prelude::*;

use crate::assets::{spec_auth_callbacks, tagged_script, INDEX_SCRIPT_TAG};
use crate::principal::principal_text;
use crate::text::replaced;

verus! {

/// The allow-list is the canister's three gateway callbacks followed by every
/// extra callback, in order; each gateway callback names the canister: its
/// text follows `https://`.
pub proof fn lemma_callbacks_cover_gateways_then_extras(canister: Seq<u8>, extra: Seq<Seq<char>>)
    ensures
        spec_auth_callbacks(canister, extra).len() == 3 + extra.len(),
        spec_auth_callbacks(canister, extra).skip(3) == extra,
        forall|k: int|
            0 <= k < 3 ==> (#[trigger] spec_auth_callbacks(canister, extra)[k]).subrange(
                8,
                8int + principal_text(canister).len(),
            ) == principal_text(canister) && spec_auth_callbacks(canister, extra)[k].take(8) == "https://"@,
{
    reveal_strlit("https://");
    let all = spec_auth_callbacks(canister, extra);
    assert(all.skip(3) =~= extra);
    let t = principal_text(canister);
    assert forall|k: int| 0 <= k < 3 implies (#[trigger] all[k]).subrange(8, 8int + t.len()) == t && all[k].take(8)
        == "https://"@ by {
        assert(all[k].subrange(8, 8int + t.len()) =~= t);
        assert(all[k].take(8) =~= "https://"@);
    }
}

/// The attached id is the serving canister's: its text stands in the tag
/// right after `<script data-canister-id="`, so canisters with different
/// texts get different tags.
pub proof fn lemma_tag_names_the_canister(canister: Seq<u8>, other: Seq<u8>)
    ensures
        tagged_script(canister).take(26) == "<script data-canister-id=\""@,
        tagged_script(canister).subrange(26, 26int + principal_text(canister).len()) == principal_text(canister),
        principal_text(canister) != principal_text(other) ==> tagged_script(canister) != tagged_script(other),
{
    reveal_strlit("<script data-canister-id=\"");
    reveal_strlit("\" type=\"module\" crossorigin src=\"/index.js\"></script>");
    let t = principal_text(canister);
    let u = principal_text(other);
    let a = tagged_script(canister);
    let b = tagged_script(other);
    let tail = "\" type=\"module\" crossorigin src=\"/index.js\"></script>"@;
    assert(a.take(26) =~= "<script data-canister-id=\""@);
    assert(a.subrange(26, 26int + t.len()) =~= t);
    assert(b.subrange(26, 26int + u.len()) =~= u);
    if t != u && a == b {
        assert(a.len() == 26 + t.len() + tail.len());
        assert(b.len() == 26 + u.len() + tail.len());
        assert(t.len() == u.len());
        assert(t =~= u);
    }
}

/// The front end's page that is just the script tag is served as the tag
/// naming the canister.
pub proof fn lemma_the_tag_is_replaced(canister: Seq<u8>)
    ensures
        replaced(INDEX_SCRIPT_TAG@, INDEX_SCRIPT_TAG@, tagged_script(canister)) == tagged_script(canister),
{
    reveal_strlit("<script type=\"module\" crossorigin src=\"/index.js\"></script>");
    let tag = INDEX_SCRIPT_TAG@;
    let to = tagged_script(canister);
    assert(tag.take(tag.len() as int) =~= tag);
    assert(tag.skip(tag.len() as int) =~= Seq::<char>::empty());
    assert(replaced(tag.skip(tag.len() as int), tag, to) == Seq::<char>::empty());
    assert(to + Seq::<char>::empty() =~= to);
}

} // verus!
