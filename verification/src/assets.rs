//! The static assets: which embedded file a request names, and the content
//! type it is served with.
use crate::text::starts_with;
use vstd::prelude::*;

verus! {

/// The prefix under which the assets are served.
pub open spec fn static_prefix() -> Seq<char> {
    seq!['/', 's', 't', 'a', 't', 'i', 'c', '/']
}

/// `path` with every leading `/static/` removed, as
/// `str::trim_start_matches` removes it.
pub open spec fn strip_static(path: Seq<char>) -> Seq<char>
    decreases path.len(),
{
    if path.len() >= 8 && path.take(8) == static_prefix() {
        strip_static(path.skip(8))
    } else {
        path
    }
}

/// The name of the embedded file that a request path names: the path with
/// every leading `/static/` removed.
pub fn asset_key(path: &str) -> (r: String)
    ensures
        r@ == strip_static(path@),
{
    proof {
        reveal_strlit("/static/");
        assert("/static/"@ =~= static_prefix());
    }
    let n = path.unicode_len();
    let mut i: usize = 0;
    assert(path@.subrange(0, n as int) =~= path@);
    loop
        invariant
            i <= n,
            n == path@.len(),
            "/static/"@ == static_prefix(),
            strip_static(path@) == strip_static(path@.subrange(i as int, n as int)),
        decreases n - i,
    {
        let rest = path.substring_char(i, n);
        if starts_with(rest, "/static/") {
            proof {
                assert(rest@.skip(8) =~= path@.subrange(i + 8, n as int));
            }
            i = i + 8;
        } else {
            return String::from_str(rest);
        }
    }
}

/// The content type that `mime_guess` gives for a path: the first type it
/// knows for the path's extension, or `application/octet-stream`. It
/// depends on the path alone.
pub uninterp spec fn mime_of_path(path: Seq<char>) -> Seq<char>;

/// Calls `mime_guess::from_path(path).first_or_octet_stream()` and writes
/// the type as text. The contract claims that the text is a function of the
/// path alone (named `mime_of_path`); the extension table is not restated.
#[verifier::external_body]
fn content_type_for(path: &str) -> (r: String)
    ensures
        r@ == mime_of_path(path@),
{
    mime_guess::from_path(path).first_or_octet_stream().as_ref().to_string()
}

/// What a request for a static asset is served from: the embedded file's
/// name and its content type.
#[derive(Debug)]
pub struct AssetLookup {
    pub key: String,
    pub content_type: String,
}

/// The embedded file that a request path names, with the content type
/// guessed from that name.
pub fn asset_lookup(path: &str) -> (r: AssetLookup)
    ensures
        r.key@ == strip_static(path@),
        r.content_type@ == mime_of_path(strip_static(path@)),
{
    let key = asset_key(path);
    let content_type = content_type_for(key.as_str());
    AssetLookup { key, content_type }
}

} // verus!
