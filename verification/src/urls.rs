use crate::errors::ClientError;
use crate::segments::path_segments;
use crate::segments::segments_of;
use crate::segments::string_bytes;
use crate::segments::string_views;
use vstd::prelude::*;
use vstd::string::*;
use vstd::utf8::*;

verus! {

/// True when `base` parses as an absolute URL whose path can take further
/// segments. Names the success of `url::Url::parse` together with
/// `url::Url::path_segments_mut`, which depends on the base text alone.
pub uninterp spec fn base_joinable(base: Seq<char>) -> bool;

/// The path segments that the parsed `base` already carries (a base whose
/// path ends in a separator carries a trailing empty segment). Names that
/// part of `url::Url::parse`'s result, which depends on the base text
/// alone.
pub uninterp spec fn base_path(base: Seq<char>) -> Seq<Seq<char>>;

/// The serialization of the parsed `base` with its path segments replaced
/// by `path` (each segment percent-encoded as the URL syntax demands).
/// Names the text that `url::Url` serializes to after
/// `url::PathSegmentsMut::extend`, which depends on these two arguments
/// alone.
pub uninterp spec fn url_text(base: Seq<char>, path: Seq<Seq<char>>) -> Seq<char>;

/// The segments that an action path contributes to the request URL: its
/// non-empty stretches between `'/'` separators, in order.
pub open spec fn action_segments(action: Seq<char>) -> Seq<Seq<char>> {
    segments_of(encode_utf8(action)).map_values(|b: Seq<u8>| decode_utf8(b))
}

/// What a sequence of new segments adds to a URL path. `"."` and `".."`
/// are relative-path marks that the URL syntax resolves away when a
/// segment is appended, so they add nothing; every other segment stands
/// as given.
pub open spec fn appended_path(segs: Seq<Seq<char>>) -> Seq<Seq<char>> {
    segs.filter(|s: Seq<char>| s != "."@ && s != ".."@)
}

/// Relies on `url::Url::parse`, `url::Url::path_segments_mut` and
/// `url::PathSegmentsMut::extend`: parses the base URL, appends the given
/// segments to its path (`"."` and `".."` resolve away, and each appended
/// segment is percent-encoded), and serializes the result. Returns `None`
/// exactly when the base does not parse or cannot take path segments.
#[verifier::external_body]
fn join_url(base: &str, segments: &Vec<String>) -> (r: Option<String>)
    ensures
        r is Some <==> base_joinable(base@),
        r matches Some(u) ==> u@ == url_text(
            base@,
            base_path(base@) + appended_path(string_views(segments@)),
        ),
{
    let mut url = match url::Url::parse(base) {
        Ok(u) => u,
        Err(_) => return None,
    };
    match url.path_segments_mut() {
        Ok(mut path) => {
            path.extend(segments.iter());
        },
        Err(()) => return None,
    }
    Some(url.into())
}

/// Combines the given base URL with the relative action path of an endpoint
/// to create a fully qualified URL: the URL's path is the base's own path
/// followed by each non-empty segment of the action, in order. Leading,
/// trailing and doubled separators in the action contribute nothing. Fails
/// exactly when the base is not a usable absolute URL, carrying the
/// offending base text.
pub fn build_url(base: &str, action: &str) -> (r: Result<String, ClientError>)
    ensures
        r is Ok <==> base_joinable(base@),
        r matches Ok(u) ==> u@ == url_text(
            base@,
            base_path(base@) + appended_path(action_segments(action@)),
        ),
        r matches Err(e) ==> (e matches ClientError::UrlParseError { url } && url@ == base@),
{
    let segs = path_segments(action);
    proof {
        assert forall|k: int| 0 <= k < segs@.len() implies #[trigger] string_views(segs@)[k]
            == action_segments(action@)[k] by {
            assert(string_bytes(segs@)[k] == encode_utf8(segs@[k]@));
            assert(segments_of(encode_utf8(action@))[k] == encode_utf8(segs@[k]@));
            encode_utf8_decode_utf8(segs@[k]@);
            assert(action_segments(action@)[k] == decode_utf8(segments_of(encode_utf8(action@))[k]));
        }
        assert(string_views(segs@) =~~= action_segments(action@));
    }
    match join_url(base, &segs) {
        Some(u) => Ok(u),
        None => Err(ClientError::UrlParseError { url: base.to_owned() }),
    }
}

/// When no segment is a relative-path mark, every segment is appended: the
/// path gains exactly the given segments, in order.
pub proof fn lemma_appended_path_plain(segs: Seq<Seq<char>>)
    requires
        forall|k: int| 0 <= k < segs.len() ==> #[trigger] segs[k] != "."@ && segs[k] != ".."@,
    ensures
        appended_path(segs) == segs,
    decreases segs.len(),
{
    reveal(Seq::filter);
    if segs.len() == 0 {
        assert(appended_path(segs) =~~= segs);
    } else {
        let front = segs.drop_last();
        assert forall|k: int| 0 <= k < front.len() implies #[trigger] front[k] != "."@ && front[k]
            != ".."@ by {
            assert(front[k] == segs[k]);
        }
        lemma_appended_path_plain(front);
        assert(segs.last() != "."@ && segs.last() != ".."@);
        assert(appended_path(segs) == appended_path(front).push(segs.last()));
        assert(front.push(segs.last()) =~~= segs);
    }
}

/// A separator character encodes to exactly the separator byte in front of
/// the rest of the text.
proof fn lemma_encode_leading_separator(p: Seq<char>)
    ensures
        encode_utf8(seq!['/'] + p) == seq![crate::segments::SEPARATOR] + encode_utf8(p),
{
    let c = seq!['/'] + p;
    assert(c[0] == '/');
    assert(('/' as u32) == 0x2f);
    assert(0x2fu32 & 0x7f == 0x2f) by (bit_vector);
    assert(encode_scalar('/' as u32) =~= seq![crate::segments::SEPARATOR]);
    assert(c.drop_first() =~= p);
    assert(encode_utf8(c) =~= seq![crate::segments::SEPARATOR] + encode_utf8(p));
}

/// A separator character at the end encodes to exactly the separator byte
/// after the rest of the text.
proof fn lemma_encode_trailing_separator(p: Seq<char>)
    ensures
        encode_utf8(p + seq!['/']) == encode_utf8(p) + seq![crate::segments::SEPARATOR],
    decreases p.len(),
{
    if p.len() == 0 {
        assert(p + seq!['/'] =~= seq!['/'] + p);
        lemma_encode_leading_separator(p);
        assert(encode_utf8(p) =~= Seq::<u8>::empty());
        assert(seq![crate::segments::SEPARATOR] + encode_utf8(p) =~= encode_utf8(p) + seq![
            crate::segments::SEPARATOR,
        ]);
    } else {
        let c = p + seq!['/'];
        assert(c[0] == p[0]);
        assert(c.drop_first() =~= p.drop_first() + seq!['/']);
        lemma_encode_trailing_separator(p.drop_first());
        assert(encode_utf8(c) == encode_scalar(c[0] as u32) + (encode_utf8(p.drop_first())
            + seq![crate::segments::SEPARATOR]));
        assert(encode_scalar(p[0] as u32) + (encode_utf8(p.drop_first()) + seq![
            crate::segments::SEPARATOR,
        ]) =~= (encode_scalar(p[0] as u32) + encode_utf8(p.drop_first())) + seq![
            crate::segments::SEPARATOR,
        ]);
    }
}

/// A leading separator in the action contributes nothing to the URL: the
/// segments of `'/'` followed by an action are the segments of the action
/// itself.
pub proof fn lemma_action_segments_leading_separator(action: Seq<char>)
    ensures
        action_segments(seq!['/'] + action) == action_segments(action),
{
    lemma_encode_leading_separator(action);
    crate::segments::lemma_segments_leading_separator(encode_utf8(action));
}

/// A trailing separator in the action contributes nothing to the URL: the
/// segments of an action followed by `'/'` are the segments of the action
/// itself.
pub proof fn lemma_action_segments_trailing_separator(action: Seq<char>)
    ensures
        action_segments(action + seq!['/']) == action_segments(action),
{
    lemma_encode_trailing_separator(action);
    crate::segments::lemma_segments_trailing_separator(encode_utf8(action));
}

} // verus!
