use chrono::{DateTime, Datelike, Local};
use std::time::SystemTime;
use tokio::sync::broadcast::Sender;
use vstd::prelude::*;

use crate::bus::{clone_sender, send_packet};
use crate::codec::{date_packet, encode_date};
use crate::lifecycle::{is_running_value, Lifecycle, RunToken};

verus! {

/// Milliseconds between two date samples.
pub const DATE_INTERVAL_MS: u64 = 100;

/// Relies on chrono's `From<SystemTime>` for `DateTime<Local>`, which also
/// accepts a clock set before the epoch, read through `Datelike::day` and
/// `Datelike::month`: today's day of the month (1 to 31) and month (1 to 12)
/// on the host clock.
#[verifier::external_body]
fn get_date() -> (r: (u8, u8))
    ensures
        1 <= r.0 <= 31,
        1 <= r.1 <= 12,
{
    let now = DateTime::<Local>::from(SystemTime::now());
    (now.day() as u8, now.month() as u8)
}

/// The packets that a worker whose last published date is `last` publishes
/// for the successive `samples`: one for each sample that differs from the
/// one before it (the first compared with `last`).
pub open spec fn date_run(last: (u8, u8), samples: Seq<(u8, u8)>) -> Seq<Seq<u8>>
    decreases samples.len(),
{
    if samples.len() == 0 {
        Seq::empty()
    } else {
        let d = samples[0];
        let rest = date_run(d, samples.drop_first());
        if d != last {
            seq![date_packet(d.0, d.1)] + rest
        } else {
            rest
        }
    }
}

/// The last date published after `samples`, starting from `last`.
pub open spec fn date_after(last: (u8, u8), samples: Seq<(u8, u8)>) -> (u8, u8) {
    if samples.len() == 0 {
        last
    } else {
        samples.last()
    }
}

/// The packets that one call hands out: none, or the one it holds.
pub open spec fn published(r: Option<Vec<u8>>) -> Seq<Seq<u8>> {
    match r {
        Some(p) => seq![p@],
        None => Seq::empty(),
    }
}

/// Observing `s1` and then `s2` publishes what `s1` publishes followed by what
/// `s2` publishes from the date that `s1` left, so successive calls of
/// `DateWorker::observe` publish exactly `date_run` of all their samples.
pub proof fn lemma_date_run_split(last: (u8, u8), s1: Seq<(u8, u8)>, s2: Seq<(u8, u8)>)
    ensures
        date_run(last, s1 + s2) == date_run(last, s1) + date_run(date_after(last, s1), s2),
    decreases s1.len(),
{
    if s1.len() == 0 {
        assert(s1 + s2 =~= s2);
        assert(date_run(last, s1) =~= Seq::<Seq<u8>>::empty());
        assert(date_run(last, s1) + date_run(last, s2) =~= date_run(last, s2));
    } else {
        let d = s1[0];
        assert((s1 + s2).drop_first() =~= s1.drop_first() + s2);
        lemma_date_run_split(d, s1.drop_first(), s2);
        assert(date_after(d, s1.drop_first()) == date_after(last, s1));
        let a = date_run(d, s1.drop_first());
        let b = date_run(date_after(last, s1), s2);
        if d != last {
            assert(seq![date_packet(d.0, d.1)] + (a + b) =~= (seq![date_packet(d.0, d.1)] + a) + b);
        }
    }
}

/// A worker never publishes the same date twice in a row: its first packet
/// differs from the last date it published, and each packet differs from the
/// one before it. A repeated sample is suppressed.
pub proof fn lemma_date_run_no_repeat(last: (u8, u8), samples: Seq<(u8, u8)>)
    ensures
        date_run(last, samples).len() > 0 ==> date_run(last, samples)[0] != date_packet(last.0, last.1),
        forall|i: int|
            0 <= i < date_run(last, samples).len() - 1 ==> #[trigger] date_run(last, samples)[i]
                != date_run(last, samples)[i + 1],
        date_run(last, samples).len() <= samples.len(),
    decreases samples.len(),
{
    if samples.len() > 0 {
        let d = samples[0];
        let rest = date_run(d, samples.drop_first());
        lemma_date_run_no_repeat(d, samples.drop_first());
        if d != last {
            let run = seq![date_packet(d.0, d.1)] + rest;
            assert(run[0] == date_packet(d.0, d.1));
            if run[0] == date_packet(last.0, last.1) {
                assert(date_packet(d.0, d.1)[1] == d.0);
                assert(date_packet(d.0, d.1)[2] == d.1);
                assert(date_packet(last.0, last.1)[1] == last.0);
                assert(date_packet(last.0, last.1)[2] == last.1);
            }
            assert forall|i: int| 0 <= i < run.len() - 1 implies #[trigger] run[i] != run[i + 1] by {
                if i > 0 {
                    assert(run[i] == rest[i - 1]);
                    assert(run[i + 1] == rest[i]);
                } else {
                    assert(run[1] == rest[0]);
                }
            }
        }
    }
}

/// Publishes the host's date as `[Date, day, month]` whenever it changes.
pub struct DateProvider {
    host_to_device_sender: Sender<Vec<u8>>,
    lifecycle: Lifecycle,
}

/// The worker of one activation of a [`DateProvider`]; it holds the last
/// date it published.
pub struct DateWorker {
    sender: Sender<Vec<u8>>,
    token: RunToken,
    synced: (u8, u8),
}

impl DateProvider {
    /// The handle on the bus this component is bound to.
    pub closed spec fn sender(&self) -> Sender<Vec<u8>> {
        self.host_to_device_sender
    }

    /// A stopped provider publishing on `host_to_device_sender`.
    pub fn new(host_to_device_sender: Sender<Vec<u8>>) -> (r: DateProvider)
        ensures
            r.sender() == host_to_device_sender,
    {
        DateProvider { host_to_device_sender, lifecycle: Lifecycle::new() }
    }

    /// Begins an activation; returns the worker to run, or `None` when the
    /// provider is already running. The worker starts with no date published.
    pub fn start(&self) -> (r: Option<DateWorker>)
        ensures
            r matches Some(w) ==> w.synced() == (0u8, 0u8) && is_running_value(w.activation()),
    {
        match self.lifecycle.start() {
            Some(token) => Some(
                DateWorker {
                    sender: clone_sender(&self.host_to_device_sender),
                    token,
                    synced: (0, 0),
                },
            ),
            None => None,
        }
    }

    /// Ends the current activation; its worker stops at its next poll.
    pub fn stop(&self) {
        self.lifecycle.stop();
    }

    /// Whether an activation is current.
    pub fn is_running(&self) -> bool {
        self.lifecycle.is_running()
    }
}

impl DateWorker {
    /// The last date published, `(0, 0)` before the first.
    pub closed spec fn synced(&self) -> (u8, u8) {
        self.synced
    }

    /// The activation this worker belongs to.
    pub closed spec fn activation(&self) -> u64 {
        self.token.activation()
    }

    /// Takes a sampled `(day, month)`: the packet to publish when it differs
    /// from the last one published, else `None`.
    pub fn observe(&mut self, date: (u8, u8)) -> (r: Option<Vec<u8>>)
        ensures
            date != old(self).synced() ==> (r matches Some(p) && p@ == date_packet(date.0, date.1)),
            date == old(self).synced() ==> r is None,
            final(self).synced() == date,
            published(r) == date_run(old(self).synced(), seq![date]),
    {
        let ghost last = self.synced;
        assert(seq![date].drop_first() =~= Seq::<(u8, u8)>::empty());
        assert(seq![date][0] == date);
        assert(date_run(date, Seq::<(u8, u8)>::empty()) =~= Seq::<Seq<u8>>::empty());
        assert(date_run(last, seq![date]) == if date != last {
            seq![date_packet(date.0, date.1)] + date_run(date, Seq::<(u8, u8)>::empty())
        } else {
            date_run(date, Seq::<(u8, u8)>::empty())
        });
        if date.0 != self.synced.0 || date.1 != self.synced.1 {
            self.synced = date;
            let p = encode_date(date.0, date.1);
            assert(published(Some(p)) =~= date_run(last, seq![date]));
            Some(p)
        } else {
            assert(published(None) =~= date_run(last, seq![date]));
            None
        }
    }

    /// Takes a sampled `(day, month)` and publishes it when it changed;
    /// returns whether a packet went out.
    pub fn deliver(&mut self, date: (u8, u8)) -> (published: bool)
        ensures
            published == (date != old(self).synced()),
            final(self).synced() == date,
    {
        match self.observe(date) {
            Some(packet) => {
                send_packet(&self.sender, packet);
                true
            },
            None => false,
        }
    }

    /// One iteration of the worker: `false` once its activation has been
    /// stopped (nothing is sampled or published then); otherwise samples the
    /// clock and publishes the date if it changed.
    pub fn poll(&mut self) -> (running: bool)
        ensures
            !running ==> final(self).synced() == old(self).synced(),
            running ==> 1 <= final(self).synced().0 <= 31 && 1 <= final(self).synced().1 <= 12,
    {
        if !self.token.is_current() {
            return false;
        }
        let date = get_date();
        self.deliver(date);
        true
    }
}

} // verus!
