//! The shape of a playlist listing as the lookup service reports it: a list
//! of items, each carrying the identifier of one video.  The unverified
//! driver parses the service's reply into these types; turning the items
//! into playable watch addresses is verified here.

use vstd::prelude::*;
use crate::resolve::watch_url;

verus! {

/// A playlist listing: the items it contains.
#[derive(Clone, Debug)]
pub struct Playlist {
    pub items: Vec<Item>,
}

/// One entry of a playlist listing.
#[derive(Clone, Debug)]
pub struct Item {
    pub snippet: Snippet,
}

/// The part of a playlist entry that names the video it stands for.
#[derive(Clone, Debug)]
pub struct Snippet {
    #[allow(non_snake_case)]
    pub resourceId: RessourceId,
}

/// The identifier of one video.
#[derive(Clone, Debug)]
pub struct RessourceId {
    #[allow(non_snake_case)]
    pub videoId: String,
}

impl Default for Playlist {
    /// An empty listing.
    fn default() -> (d: Playlist)
        ensures
            d.items@.len() == 0,
    {
        Playlist { items: Vec::new() }
    }
}

impl Default for Item {
    /// An entry naming the empty video identifier.
    fn default() -> (d: Item)
        ensures
            d.snippet.resourceId.videoId@.len() == 0,
    {
        Item { snippet: Snippet { resourceId: RessourceId { videoId: String::new() } } }
    }
}

impl Default for Snippet {
    /// A snippet naming the empty video identifier.
    fn default() -> (d: Snippet)
        ensures
            d.resourceId.videoId@.len() == 0,
    {
        Snippet { resourceId: RessourceId { videoId: String::new() } }
    }
}

impl Default for RessourceId {
    /// The empty video identifier.
    fn default() -> (d: RessourceId)
        ensures
            d.videoId@.len() == 0,
    {
        RessourceId { videoId: String::new() }
    }
}

/// The watch address of every item of a playlist listing, in order.
pub fn watch_urls(p: &Playlist) -> (urls: Vec<String>)
    ensures
        urls@.len() == p.items@.len(),
        forall|i: int|
            0 <= i < urls@.len() ==> #[trigger] urls@[i]@ == "https://www.youtube.com/watch?v="@
                + p.items@[i].snippet.resourceId.videoId@,
{
    let mut urls: Vec<String> = Vec::new();
    let mut k: usize = 0;
    while k < p.items.len()
        invariant
            k <= p.items@.len(),
            urls@.len() == k,
            forall|i: int|
                0 <= i < k ==> #[trigger] urls@[i]@ == "https://www.youtube.com/watch?v="@
                    + p.items@[i].snippet.resourceId.videoId@,
        decreases p.items@.len() - k,
    {
        let item: &Item = &p.items[k];
        urls.push(watch_url(item.snippet.resourceId.videoId.as_str()));
        k += 1;
    }
    urls
}

} // verus!
