// Tests for query classification, address construction, and the playlist
// listing types.

use voicecore::playlist::watch_urls;
use voicecore::resolve::classify_query;
use voicecore::resolve::playlist_api_url;
use voicecore::resolve::playlist_id;
use voicecore::resolve::str_starts_with;
use voicecore::resolve::watch_url;
use voicecore::resolve::QueryKind;
use voicecore::Item;
use voicecore::Playlist;
use voicecore::RessourceId;
use voicecore::Snippet;

#[test]
fn starts_with_matches_prefixes() {
    assert!(str_starts_with("https://example.org", "http"));
    assert!(str_starts_with("abc", ""));
    assert!(str_starts_with("abc", "abc"));
    assert!(!str_starts_with("ab", "abc"));
    assert!(!str_starts_with("abd", "abc"));
    assert!(!str_starts_with("", "x"));
}

#[test]
fn plain_words_are_searches() {
    assert_eq!(classify_query("never gonna give you up"), QueryKind::Search);
    assert_eq!(classify_query(""), QueryKind::Search);
    // only an http prefix makes an address
    assert_eq!(classify_query("www.youtube.com/watch?v=a"), QueryKind::Search);
}

#[test]
fn plain_addresses_are_direct() {
    assert_eq!(
        classify_query("https://www.youtube.com/watch?v=dQw4w9WgXcQ"),
        QueryKind::DirectUrl
    );
    assert_eq!(classify_query("http://example.org/a.ogg"), QueryKind::DirectUrl);
}

#[test]
fn playlist_addresses_are_recognised() {
    let q = "https://www.youtube.com/playlist?list=PL123abc";
    assert_eq!(classify_query(q), QueryKind::PlaylistUrl);
    assert_eq!(playlist_id(q), "PL123abc");
}

#[test]
fn api_url_is_assembled_exactly() {
    let u = playlist_api_url("PL123abc", "KEY");
    assert_eq!(
        u,
        "https://www.googleapis.com/youtube/v3/playlistItems?part=snippet&maxResults=100&playlistId=PL123abc&key=KEY"
    );
}

#[test]
fn watch_url_prefixes_video_id() {
    assert_eq!(watch_url("dQw4w9WgXcQ"), "https://www.youtube.com/watch?v=dQw4w9WgXcQ");
    assert_eq!(watch_url(""), "https://www.youtube.com/watch?v=");
}

#[test]
fn playlist_items_become_watch_urls_in_order() {
    let p = Playlist {
        items: vec![
            Item {
                snippet: Snippet {
                    resourceId: RessourceId { videoId: String::from("one") },
                },
            },
            Item {
                snippet: Snippet {
                    resourceId: RessourceId { videoId: String::from("two") },
                },
            },
        ],
    };
    let urls = watch_urls(&p);
    assert_eq!(
        urls,
        vec![
            String::from("https://www.youtube.com/watch?v=one"),
            String::from("https://www.youtube.com/watch?v=two"),
        ]
    );
}

#[test]
fn playlist_defaults_are_empty() {
    let p = Playlist::default();
    assert!(p.items.is_empty());
    assert!(watch_urls(&p).is_empty());
    let i = Item::default();
    assert_eq!(i.snippet.resourceId.videoId, "");
    let s = Snippet::default();
    assert_eq!(s.resourceId.videoId, "");
    let r = RessourceId::default();
    assert_eq!(r.videoId, "");
}
