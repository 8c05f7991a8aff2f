//! The bot's shared values: its reactions and images, the channels to its panel, and
//! the start-up choices on its configuration.
use crate::commands::pick_random;
use crate::message_log::{bounded_channel, channel_capacity, channel_entries, same_channel, Entry};
use crate::text::{after_last, ends_with, last_piece, owned, str_eq, strings_view};
use tokio::sync::mpsc::{Receiver, Sender};
use vstd::prelude::*;

verus! {

/// A custom emoji to react with.
#[derive(Clone, Debug)]
pub struct Reaction {
    pub animated: bool,
    pub id: u64,
    pub name: String,
}

/// The votes put under each suggestion.
#[derive(Clone, Debug)]
pub struct Reactions {
    pub upvote: Reaction,
    pub downvote: Reaction,
}

/// The id of the upvote emoji.
pub const UPVOTE_ID: u64 = 1120764904656351324;

/// The id of the downvote emoji.
pub const DOWNVOTE_ID: u64 = 1120764921555206336;

impl Default for Reactions {
    fn default() -> (r: Reactions)
        ensures
            !r.upvote.animated && r.upvote.id == UPVOTE_ID && r.upvote.name@ == "upvote"@,
            !r.downvote.animated && r.downvote.id == DOWNVOTE_ID && r.downvote.name@ == "downvote"@,
    {
        Reactions {
            upvote: Reaction { animated: false, id: UPVOTE_ID, name: owned("upvote") },
            downvote: Reaction { animated: false, id: DOWNVOTE_ID, name: owned("downvote") },
        }
    }
}

/// The imgur albums the bot's images of johnny come from.
pub const JOHNNY_GALLERY_IDS: [&'static str; 2] = ["oPluI3u", "Ca2YQ2O"];

/// A random image of johnny from those loaded.
pub fn johnny_image(images: &Vec<String>) -> (s: String)
    requires
        images@.len() > 0,
    ensures
        exists|i: int| 0 <= i < images@.len() && s@ == images@[i]@,
{
    match pick_random(images) {
        Some(x) => owned(x.as_str()),
        None => owned(images[0].as_str()),
    }
}

/// Whether a link is to a PNG or JPEG image.
pub open spec fn is_image_link(l: Seq<char>) -> bool {
    (l.len() >= 4 && l.subrange(l.len() - 4, l.len() as int) == ".png"@)
        || (l.len() >= 4 && l.subrange(l.len() - 4, l.len() as int) == ".jpg"@)
}

/// The image links of an album, in order.
pub open spec fn image_links_spec(links: Seq<Seq<char>>) -> Seq<Seq<char>>
    decreases links.len(),
{
    if links.len() == 0 {
        Seq::empty()
    } else if is_image_link(links.last()) {
        image_links_spec(links.drop_last()).push(links.last())
    } else {
        image_links_spec(links.drop_last())
    }
}

/// The links of an album that end in ".png" or ".jpg".
pub fn image_links(links: &Vec<String>) -> (v: Vec<String>)
    ensures
        strings_view(v@) == image_links_spec(strings_view(links@)),
{
    let mut v: Vec<String> = Vec::new();
    let mut i: usize = 0;
    while i < links.len()
        invariant
            i <= links@.len(),
            strings_view(v@) == image_links_spec(strings_view(links@).subrange(0, i as int)),
        decreases links.len() - i,
    {
        let l = links[i].as_str();
        let ghost before = v@;
        assert(strings_view(links@).subrange(0, i + 1).last() == l@);
        proof {
            reveal_strlit(".png");
            reveal_strlit(".jpg");
        }
        let keep = ends_with(l, ".png") || ends_with(l, ".jpg");
        assert(keep == is_image_link(l@));
        if keep {
            v.push(owned(l));
            assert(strings_view(v@) =~= strings_view(before).push(l@));
        }
        i = i + 1;
        assert(strings_view(links@).subrange(0, i as int).drop_last() =~= strings_view(links@).subrange(0, i - 1));
        assert(strings_view(v@) =~= image_links_spec(strings_view(links@).subrange(0, i as int)));
    }
    assert(strings_view(links@).subrange(0, links@.len() as int) =~= strings_view(links@));
    v
}

/// The file of a SQLite connection url that must exist before connecting: what
/// follows the last "://", unless that is ":memory:".
pub open spec fn sqlite_file_spec(url: Seq<char>) -> Option<Seq<char>> {
    let path = after_last(url, "://"@);
    if path == ":memory:"@ {
        None
    } else {
        Some(path)
    }
}

/// The file of a SQLite connection url that must exist before connecting.
pub fn sqlite_file(url: &str) -> (r: Option<String>)
    ensures
        match r {
            Some(p) => sqlite_file_spec(url@) == Some(p@),
            None => sqlite_file_spec(url@) is None,
        },
{
    proof {
        reveal_strlit("://");
    }
    let path = last_piece(url, "://");
    if str_eq(path.as_str(), ":memory:") {
        None
    } else {
        Some(path)
    }
}

/// The sending halves of the bot's channels.
pub struct BotSenders {
    pub log: Sender<Entry>,
}

/// The receiving halves of the bot's channels.
pub struct BotRecievers {
    pub log: Receiver<Entry>,
}

/// The bot's state.
pub struct Bot {
    pub senders: BotSenders,
}

/// How many log entries the channel to the panel holds.
pub const LOG_CAPACITY: usize = 32;

impl Bot {
    /// The state, and the receiving halves of its channels: the bot's log sender and
    /// the returned log receiver are the two ends of one new channel, which buffers up
    /// to `LOG_CAPACITY` entries and starts empty.
    pub fn new() -> (r: (Bot, BotRecievers))
        ensures
            same_channel(r.0.senders.log, r.1.log),
            channel_capacity(r.0.senders.log) == LOG_CAPACITY,
            channel_entries(r.1.log) == Seq::<Entry>::empty(),
    {
        let (log_tx, log_rx) = bounded_channel(LOG_CAPACITY);
        (Bot { senders: BotSenders { log: log_tx } }, BotRecievers { log: log_rx })
    }
}

} // verus!
