use tokio::sync::broadcast::Sender;
use vstd::prelude::*;
use vstd::utf8::encode_utf8;

use crate::bus::{clone_sender, send_packet};
use crate::codec::{encode_string, packet_views, string_packet};
use crate::data_type::DataType;
use crate::lifecycle::{is_running_value, Lifecycle, RunToken};

verus! {

/// Milliseconds between two media samples.
pub const MEDIA_INTERVAL_MS: u64 = 1000;

/// Milliseconds to wait after each media packet.
pub const MEDIA_PACKET_GAP_MS: u64 = 50;

/// Artist shown when nothing is playing.
pub const NO_ARTIST: &'static str = "No Artist";

/// Title shown when nothing is playing.
pub const NO_TITLE: &'static str = "No Title";

/// What one query of the media collaborator gave.
pub enum MediaSample {
    /// Empty output or `null`, trailing white space aside: nothing is playing.
    NothingPlaying,
    /// A track is playing.
    Playing { artist: String, title: String },
    /// The query failed or its output did not parse.
    Unavailable,
}

/// Whether a byte is ASCII white space (space, tab, line feed, carriage return).
pub open spec fn is_space(b: u8) -> bool {
    b == 0x20 || b == 0x09 || b == 0x0a || b == 0x0d
}

/// `s` without its trailing white space.
pub open spec fn trim_end(s: Seq<u8>) -> Seq<u8>
    decreases s.len(),
{
    if s.len() > 0 && is_space(s.last()) {
        trim_end(s.drop_last())
    } else {
        s
    }
}

/// Whether the collaborator's raw output means that nothing is playing: once
/// trailing white space is removed it is empty or the JSON `null`.
pub open spec fn spec_nothing_playing(output: Seq<u8>) -> bool {
    let t = trim_end(output);
    t.len() == 0 || t == seq![0x6eu8, 0x75u8, 0x6cu8, 0x6cu8]
}

/// Tells whether the collaborator's raw output means that nothing is playing.
pub fn is_nothing_playing(output: &[u8]) -> (r: bool)
    ensures
        r == spec_nothing_playing(output@),
{
    let mut n: usize = output.len();
    assert(output@.take(n as int) =~= output@);
    while n > 0 && (output[n - 1] == 0x20 || output[n - 1] == 0x09 || output[n - 1] == 0x0a
        || output[n - 1] == 0x0d)
        invariant
            n <= output@.len(),
            trim_end(output@.take(n as int)) == trim_end(output@),
        decreases n,
    {
        assert(output@.take(n as int).drop_last() =~= output@.take(n - 1));
        n = n - 1;
    }
    let ghost t = output@.take(n as int);
    assert(n > 0 ==> t.last() == output@[n - 1]);
    assert(trim_end(t) == t);
    if n == 0 {
        return true;
    }
    let expected: [u8; 4] = [0x6e, 0x75, 0x6c, 0x6c];
    if n != 4 {
        assert(t.len() != 4);
        return false;
    }
    let mut i: usize = 0;
    while i < 4
        invariant
            n == 4,
            n <= output@.len(),
            t == output@.take(n as int),
            trim_end(output@) == t,
            expected@ == seq![0x6eu8, 0x75u8, 0x6cu8, 0x6cu8],
            forall|j: int| 0 <= j < i ==> t[j] == expected@[j],
            i <= 4,
        decreases 4 - i,
    {
        if output[i] != expected[i] {
            assert(t[i as int] == output@[i as int]);
            assert(t != seq![0x6eu8, 0x75u8, 0x6cu8, 0x6cu8]) by {
                if t == seq![0x6eu8, 0x75u8, 0x6cu8, 0x6cu8] {
                    assert(t[i as int] == expected@[i as int]);
                }
            }
            return false;
        }
        i = i + 1;
    }
    assert(t =~= seq![0x6eu8, 0x75u8, 0x6cu8, 0x6cu8]);
    true
}

/// The artist and title that a sample stands for, given the last ones
/// published: the sentinels when nothing plays, the last ones when the query
/// failed.
pub open spec fn sample_values(sample: MediaSample, artist: Seq<char>, title: Seq<char>) -> (
    Seq<char>,
    Seq<char>,
) {
    match sample {
        MediaSample::NothingPlaying => (NO_ARTIST@, NO_TITLE@),
        MediaSample::Playing { artist: a, title: t } => (a@, t@),
        MediaSample::Unavailable => (artist, title),
    }
}

/// The packets for a change from `(artist, title)` to `(a, t)`: the artist
/// packet if the artist changed, then the title packet if the title changed.
pub open spec fn media_packets(artist: Seq<char>, title: Seq<char>, a: Seq<char>, t: Seq<char>) -> Seq<
    Seq<u8>,
> {
    let first = if a != artist {
        seq![string_packet(DataType::MediaArtist, encode_utf8(a))]
    } else {
        Seq::empty()
    };
    let second = if t != title {
        seq![string_packet(DataType::MediaTitle, encode_utf8(t))]
    } else {
        Seq::empty()
    };
    first + second
}

/// A sample that repeats the values last published publishes nothing; one
/// that changes both publishes the artist packet and then the title packet.
pub proof fn lemma_media_changes(artist: Seq<char>, title: Seq<char>, a: Seq<char>, t: Seq<char>)
    ensures
        media_packets(artist, title, artist, title).len() == 0,
        a != artist && t != title ==> media_packets(artist, title, a, t) == seq![
            string_packet(DataType::MediaArtist, encode_utf8(a)),
            string_packet(DataType::MediaTitle, encode_utf8(t)),
        ],
        a != artist && t == title ==> media_packets(artist, title, a, t) == seq![
            string_packet(DataType::MediaArtist, encode_utf8(a)),
        ],
        a == artist && t != title ==> media_packets(artist, title, a, t) == seq![
            string_packet(DataType::MediaTitle, encode_utf8(t)),
        ],
{
    assert(media_packets(artist, title, artist, title) =~= Seq::empty());
    if a != artist && t != title {
        assert(media_packets(artist, title, a, t) =~= seq![
            string_packet(DataType::MediaArtist, encode_utf8(a)),
            string_packet(DataType::MediaTitle, encode_utf8(t)),
        ]);
    }
    if a != artist && t == title {
        assert(media_packets(artist, title, a, t) =~= seq![
            string_packet(DataType::MediaArtist, encode_utf8(a)),
        ]);
    }
    if a == artist && t != title {
        assert(media_packets(artist, title, a, t) =~= seq![
            string_packet(DataType::MediaTitle, encode_utf8(t)),
        ]);
    }
}

/// The packets published over successive cycles that yield the artist and
/// title pairs `values`, starting from the last published `(artist, title)`;
/// each cycle publishes `media_packets` from the pair the cycle before left.
pub open spec fn media_run(artist: Seq<char>, title: Seq<char>, values: Seq<(Seq<char>, Seq<char>)>) -> Seq<
    Seq<u8>,
>
    decreases values.len(),
{
    if values.len() == 0 {
        Seq::empty()
    } else {
        let (a, t) = values[0];
        media_packets(artist, title, a, t) + media_run(a, t, values.drop_first())
    }
}

/// Cycles that all yield the same pair `(a, t)` publish only in the first
/// cycle, and only what changed there; a pair that is already the published
/// one is never published again however many cycles repeat it.
pub proof fn lemma_media_run_steady(
    artist: Seq<char>,
    title: Seq<char>,
    a: Seq<char>,
    t: Seq<char>,
    values: Seq<(Seq<char>, Seq<char>)>,
)
    requires
        forall|i: int| 0 <= i < values.len() ==> #[trigger] values[i] == (a, t),
    ensures
        values.len() > 0 ==> media_run(artist, title, values) == media_packets(artist, title, a, t),
        media_run(a, t, values).len() == 0,
    decreases values.len(),
{
    lemma_media_changes(a, t, a, t);
    if values.len() > 0 {
        let rest = values.drop_first();
        assert forall|i: int| 0 <= i < rest.len() implies #[trigger] rest[i] == (a, t) by {
            assert(rest[i] == values[i + 1]);
        }
        lemma_media_run_steady(a, t, a, t, rest);
        assert(media_run(a, t, rest).len() == 0);
        assert(media_packets(artist, title, a, t) + media_run(a, t, rest) =~= media_packets(
            artist,
            title,
            a,
            t,
        ));
        assert(media_packets(a, t, a, t) + media_run(a, t, rest) =~= Seq::<Seq<u8>>::empty());
    }
}

/// Publishes the artist and title of the media playing on the host, each
/// only when it changed.
pub struct MediaProvider {
    data_sender: Sender<Vec<u8>>,
    lifecycle: Lifecycle,
}

/// The worker of one activation of a [`MediaProvider`]; it holds the last
/// artist and title it published.
pub struct MediaWorker {
    sender: Sender<Vec<u8>>,
    token: RunToken,
    artist: String,
    title: String,
}

impl MediaProvider {
    /// The handle on the bus this component is bound to.
    pub closed spec fn sender(&self) -> Sender<Vec<u8>> {
        self.data_sender
    }

    /// A stopped provider publishing on `data_sender`.
    pub fn new(data_sender: Sender<Vec<u8>>) -> (r: MediaProvider)
        ensures
            r.sender() == data_sender,
    {
        MediaProvider { data_sender, lifecycle: Lifecycle::new() }
    }

    /// Begins an activation; returns the worker to run, or `None` when the
    /// provider is already running. The worker starts with empty strings as
    /// the last values published.
    pub fn start(&self) -> (r: Option<MediaWorker>)
        ensures
            r matches Some(w) ==> w.artist().len() == 0 && w.title().len() == 0 && is_running_value(
                w.activation(),
            ),
    {
        match self.lifecycle.start() {
            Some(token) => Some(
                MediaWorker {
                    sender: clone_sender(&self.data_sender),
                    token,
                    artist: String::new(),
                    title: String::new(),
                },
            ),
            None => None,
        }
    }

    /// Ends the current activation; its worker stops at its next poll.
    pub fn stop(&self) {
        self.lifecycle.stop();
    }

    /// Whether an activation is current.
    pub fn is_running(&self) -> bool {
        self.lifecycle.is_running()
    }
}

impl MediaWorker {
    /// The last artist published.
    pub closed spec fn artist(&self) -> Seq<char> {
        self.artist@
    }

    /// The last title published.
    pub closed spec fn title(&self) -> Seq<char> {
        self.title@
    }

    /// The activation this worker belongs to.
    pub closed spec fn activation(&self) -> u64 {
        self.token.activation()
    }

    /// Whether the activation of this worker is still the current one; once
    /// it is `false` the worker publishes nothing more.
    pub fn is_current(&self) -> bool {
        self.token.is_current()
    }

    /// Takes one sample: returns the packets to publish, in order, and
    /// remembers the values they carry. A failed query publishes nothing and
    /// keeps the last values.
    pub fn observe(&mut self, sample: MediaSample) -> (r: Vec<Vec<u8>>)
        ensures
            ({
                let (a, t) = sample_values(sample, old(self).artist(), old(self).title());
                &&& packet_views(r@) == media_packets(old(self).artist(), old(self).title(), a, t)
                &&& final(self).artist() == a
                &&& final(self).title() == t
            }),
    {
        let ghost values = sample_values(sample, self.artist@, self.title@);
        let (artist, title) = match sample {
            MediaSample::NothingPlaying => (NO_ARTIST.to_string(), NO_TITLE.to_string()),
            MediaSample::Playing { artist, title } => (artist, title),
            MediaSample::Unavailable => (self.artist.clone(), self.title.clone()),
        };
        assert(artist@ == values.0 && title@ == values.1);
        let mut r: Vec<Vec<u8>> = Vec::new();
        if !(artist == self.artist) {
            r.push(encode_string(DataType::MediaArtist, artist.as_str()));
        }
        if !(title == self.title) {
            r.push(encode_string(DataType::MediaTitle, title.as_str()));
        }
        assert(packet_views(r@) =~= media_packets(self.artist@, self.title@, artist@, title@));
        self.artist = artist;
        self.title = title;
        r
    }

    /// Publishes one packet on the bus; returns whether a subscriber took it.
    pub fn publish(&self, packet: Vec<u8>) -> bool {
        send_packet(&self.sender, packet)
    }
}

} // verus!
