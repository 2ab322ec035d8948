//! Classification of a user's play query and construction of the addresses
//! the resolver is asked for: a bare search phrase, a playlist address whose
//! identifier must be extracted, or a direct address.

use vstd::prelude::*;
use vstd::string::StrSliceExecFns;
use vstd::string::StringExecFns;

verus! {

/// Whether `p` is a prefix of `s`.
pub open spec fn spec_starts_with(s: Seq<char>, p: Seq<char>) -> bool {
    s.len() >= p.len() && s.subrange(0, p.len() as int) == p
}

/// How a play query is resolved: a text search, a playlist whose items are
/// looked up one by one, or a single direct address.
#[derive(Clone, Copy, PartialEq, Eq, Structural, Debug)]
pub enum QueryKind {
    Search,
    PlaylistUrl,
    DirectUrl,
}

/// The classification rule: anything that does not start with `http` is a
/// search phrase; among addresses, those starting with the playlist prefix
/// are playlists; the rest are direct addresses.
pub open spec fn spec_classify(q: Seq<char>) -> QueryKind {
    if !spec_starts_with(q, "http"@) {
        QueryKind::Search
    } else if spec_starts_with(q, "https://www.youtube.com/playlist?list="@) {
        QueryKind::PlaylistUrl
    } else {
        QueryKind::DirectUrl
    }
}

/// Whether `s` starts with `prefix`, character by character.
pub fn str_starts_with(s: &str, prefix: &str) -> (r: bool)
    ensures
        r == spec_starts_with(s@, prefix@),
{
    let n = prefix.unicode_len();
    let m = s.unicode_len();
    if m < n {
        return false;
    }
    let mut i: usize = 0;
    while i < n
        invariant
            i <= n,
            n == prefix@.len(),
            m == s@.len(),
            n <= m,
            forall|k: int| 0 <= k < i ==> s@[k] == prefix@[k],
        decreases n - i,
    {
        if s.get_char(i) != prefix.get_char(i) {
            proof {
                assert(s@.subrange(0, n as int)[i as int] == s@[i as int]);
            }
            return false;
        }
        i += 1;
    }
    proof {
        assert(s@.subrange(0, n as int) =~= prefix@);
    }
    true
}

/// Classifies a play query.
pub fn classify_query(q: &str) -> (r: QueryKind)
    ensures
        r == spec_classify(q@),
{
    if !str_starts_with(q, "http") {
        QueryKind::Search
    } else if str_starts_with(q, "https://www.youtube.com/playlist?list=") {
        QueryKind::PlaylistUrl
    } else {
        QueryKind::DirectUrl
    }
}

/// The playlist identifier of a playlist address: what follows the playlist
/// prefix.
pub fn playlist_id(q: &str) -> (r: &str)
    requires
        spec_classify(q@) is PlaylistUrl,
    ensures
        r@ == q@.skip("https://www.youtube.com/playlist?list="@.len() as int),
{
    let n = "https://www.youtube.com/playlist?list=".unicode_len();
    let m = q.unicode_len();
    let r = q.substring_char(n, m);
    proof {
        assert(r@ =~= q@.skip("https://www.youtube.com/playlist?list="@.len() as int));
    }
    r
}

/// The listing address asked of the lookup service for one playlist: the
/// service endpoint, the playlist identifier, and the caller's key.
pub fn playlist_api_url(playlist_id: &str, api_key: &str) -> (u: String)
    ensures
        u@ == "https://www.googleapis.com/youtube/v3/playlistItems?part=snippet&maxResults=100&playlistId="@
            + playlist_id@ + "&key="@ + api_key@,
{
    let mut u = String::from_str(
        "https://www.googleapis.com/youtube/v3/playlistItems?part=snippet&maxResults=100&playlistId=",
    );
    u.append(playlist_id);
    u.append("&key=");
    u.append(api_key);
    proof {
        assert(u@ =~= "https://www.googleapis.com/youtube/v3/playlistItems?part=snippet&maxResults=100&playlistId="@
            + playlist_id@ + "&key="@ + api_key@);
    }
    u
}

/// The watch address of one video identifier.
pub fn watch_url(video_id: &str) -> (u: String)
    ensures
        u@ == "https://www.youtube.com/watch?v="@ + video_id@,
{
    let mut u = String::from_str("https://www.youtube.com/watch?v=");
    u.append(video_id);
    u
}

} // verus!
