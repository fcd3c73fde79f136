//! The watch loop's poll state and decisions.
//!
//! A [`Monitor`] owns the last clipboard text already acted on and the
//! validation policy chosen at startup. Each poll hands [`Monitor::observe`]
//! the outcome of one clipboard read; it decides whether that reading is a
//! new, valid URL and, if so, records it and asks for a launch. A failed
//! read is substituted by the empty string, so a transient failure is never
//! treated as a change.
//!
//! The startup probe for external binaries and the shape of a launch command
//! are decided here as well; the probing and spawning themselves are
//! capabilities of the surrounding program.

use crate::policy::{accepts, is_playable, Policy};
use vstd::prelude::*;

verus! {

/// Milliseconds the loop idles between clipboard reads.
pub const WAIT_MILLIS: u64 = 250;

/// The text a poll acts on, given what the clipboard read returned: a failed
/// read is substituted by the empty string.
pub open spec fn effective_text(reading: Option<Seq<char>>) -> Seq<char> {
    match reading {
        Option::Some(t) => t,
        Option::None => Seq::<char>::empty(),
    }
}

/// Whether a poll that read `text` submits a launch, given the last accepted
/// value `last`: the text must be non-empty, differ from `last`, and pass the
/// validation policy. Anything else idles and leaves `last` unchanged.
pub open spec fn should_launch(p: Policy, last: Seq<char>, text: Seq<char>) -> bool {
    text.len() > 0 && text != last && accepts(p, text)
}

/// The watch loop's poll state: the policy chosen at startup, and the most
/// recent clipboard text already acted on (empty until the first launch).
pub struct Monitor {
    /// The validation policy; fixed for the monitor's lifetime.
    pub policy: Policy,
    /// The last accepted clipboard text. Not a history: a single value.
    pub last_seen: String,
}

impl Monitor {
    /// A fresh monitor: nothing accepted yet.
    pub fn new(policy: Policy) -> (m: Monitor)
        ensures
            m.policy == policy,
            m.last_seen@ == Seq::<char>::empty(),
    {
        Monitor { policy, last_seen: String::new() }
    }

    /// One poll cycle's decision. `reading` is what the clipboard read
    /// returned (`None` on a failed read). Returns the URL to launch, or
    /// `None` to idle. The last-seen value is updated exactly on a launch,
    /// before the launch is submitted.
    pub fn observe(&mut self, reading: Option<String>) -> (launch: Option<String>)
        ensures
            final(self).policy == old(self).policy,
            should_launch(
                old(self).policy,
                old(self).last_seen@,
                effective_text(reading.deep_view()),
            ) ==> {
                &&& launch matches Option::Some(u) && u@ == effective_text(reading.deep_view())
                &&& final(self).last_seen@ == effective_text(reading.deep_view())
            },
            !should_launch(
                old(self).policy,
                old(self).last_seen@,
                effective_text(reading.deep_view()),
            ) ==> {
                &&& launch is None
                &&& final(self).last_seen@ == old(self).last_seen@
            },
    {
        let text: String = match reading {
            Option::Some(t) => t,
            Option::None => String::new(),
        };
        if text.as_str().is_empty() {
            return Option::None;
        }
        if text == self.last_seen {
            return Option::None;
        }
        if !is_playable(self.policy, text.as_str()) {
            return Option::None;
        }
        self.last_seen = text.clone();
        Option::Some(text)
    }

    /// Runs one poll per reading, in order, and returns the launched URLs in
    /// submission order: the watch loop's observable behaviour over any
    /// finite stretch of clipboard reads.
    pub fn observe_all(&mut self, readings: &Vec<Option<String>>) -> (launched: Vec<String>)
        ensures
            final(self).policy == old(self).policy,
            launched.deep_view() == launches_of(
                old(self).policy,
                old(self).last_seen@,
                readings.deep_view(),
            ),
            final(self).last_seen@ == last_after(
                old(self).policy,
                old(self).last_seen@,
                readings.deep_view(),
            ),
    {
        let ghost p = old(self).policy;
        let ghost l0 = old(self).last_seen@;
        let ghost all = readings.deep_view();
        let n = readings.len();
        let mut launched: Vec<String> = Vec::new();
        let mut i: usize = 0;
        proof {
            assert(all.skip(0) =~= all);
            assert(launched.deep_view() =~= Seq::<Seq<char>>::empty());
            assert(launched.deep_view() + launches_of(p, l0, all) =~= launches_of(p, l0, all));
        }
        while i < n
            invariant
                n == readings@.len(),
                all == readings.deep_view(),
                i <= n,
                self.policy == p,
                launches_of(p, l0, all) == launched.deep_view() + launches_of(
                    p,
                    self.last_seen@,
                    all.skip(i as int),
                ),
                last_after(p, l0, all) == last_after(p, self.last_seen@, all.skip(i as int)),
            decreases n - i,
        {
            let reading: Option<String> = match &readings[i] {
                Option::Some(t) => Option::Some(t.clone()),
                Option::None => Option::None,
            };
            proof {
                assert(reading.deep_view() == all[i as int]);
                assert(all.skip(i as int)[0] == all[i as int]);
                assert(all.skip(i as int).skip(1) =~= all.skip(i as int + 1));
            }
            let ghost lv = launched.deep_view();
            let ghost l2 = launches_of(p, self.last_seen@, all.skip(i as int + 1));
            let u = self.observe(reading);
            if let Option::Some(url) = u {
                let ghost uv = url@;
                launched.push(url);
                proof {
                    assert(launched.deep_view() =~= lv.push(uv));
                    assert(lv.push(uv) + l2 =~= lv + (seq![uv] + l2));
                }
            }
            i += 1;
        }
        proof {
            assert(all.skip(n as int) =~= Seq::<Option<Seq<char>>>::empty());
            assert(launched.deep_view() + Seq::<Seq<char>>::empty() =~= launched.deep_view());
        }
        launched
    }
}

/// The launches a run of polls submits: the fold of the poll decision over
/// `readings`, starting from the last accepted value `last`. Each launch
/// records the accepted text, which becomes the value later polls are
/// compared against.
pub open spec fn launches_of(
    p: Policy,
    last: Seq<char>,
    readings: Seq<Option<Seq<char>>>,
) -> Seq<Seq<char>>
    decreases readings.len(),
{
    if readings.len() == 0 {
        Seq::empty()
    } else {
        let text = effective_text(readings[0]);
        if should_launch(p, last, text) {
            seq![text] + launches_of(p, text, readings.skip(1))
        } else {
            launches_of(p, last, readings.skip(1))
        }
    }
}

/// The last accepted value after a run of polls over `readings`, starting
/// from `last`: each launch replaces it, everything else leaves it alone.
pub open spec fn last_after(
    p: Policy,
    last: Seq<char>,
    readings: Seq<Option<Seq<char>>>,
) -> Seq<char>
    decreases readings.len(),
{
    if readings.len() == 0 {
        last
    } else {
        let text = effective_text(readings[0]);
        if should_launch(p, last, text) {
            last_after(p, text, readings.skip(1))
        } else {
            last_after(p, last, readings.skip(1))
        }
    }
}

/// Idempotent no-op: a run of polls that keep reading exactly the last
/// accepted value submits no launch, however long it is.
pub proof fn idempotent_no_op(p: Policy, last: Seq<char>, readings: Seq<Option<Seq<char>>>)
    requires
        forall|i: int| 0 <= i < readings.len() ==> readings[i] == Option::Some(last),
    ensures
        launches_of(p, last, readings).len() == 0,
    decreases readings.len(),
{
    if readings.len() > 0 {
        assert(readings[0] == Option::Some(last));
        let rest = readings.skip(1);
        assert forall|i: int| 0 <= i < rest.len() implies rest[i] == Option::Some(last) by {
            assert(rest[i] == readings[i + 1]);
        }
        idempotent_no_op(p, last, rest);
    }
}

/// Result of the startup probe for the player and its helper binaries.
#[derive(Clone, Copy, PartialEq, Eq, Structural, Debug)]
pub enum Preflight {
    /// Every required binary was found; the loop may start.
    /// `ffmpeg_warning` asks the operator to be warned that the optional
    /// helper is absent.
    Ready { ffmpeg_warning: bool },
    /// A required binary is absent; the watcher must refuse to start and
    /// exit with a non-zero status.
    MissingRequired { mpv_missing: bool, yt_dlp_missing: bool },
}

/// Decides, from the outcome of probing the host's search path, whether the
/// watcher may start: the player and the remote-playback helper are
/// required, the transcoder is optional and only worth a warning.
pub fn preflight(mpv_found: bool, yt_dlp_found: bool, ffmpeg_found: bool) -> (r: Preflight)
    ensures
        mpv_found && yt_dlp_found ==> r == (Preflight::Ready { ffmpeg_warning: !ffmpeg_found }),
        !(mpv_found && yt_dlp_found) ==> r == (Preflight::MissingRequired {
            mpv_missing: !mpv_found,
            yt_dlp_missing: !yt_dlp_found,
        }),
{
    if mpv_found && yt_dlp_found {
        Preflight::Ready { ffmpeg_warning: !ffmpeg_found }
    } else {
        Preflight::MissingRequired { mpv_missing: !mpv_found, yt_dlp_missing: !yt_dlp_found }
    }
}

/// An ephemeral launch command: the player, started detached with the mute
/// flag followed by the URL; its handle is discarded (fire-and-forget).
pub struct LaunchRequest {
    /// The accepted URL to hand to the player.
    pub url: String,
}

impl LaunchRequest {
    /// Builds the launch command for an accepted URL.
    pub fn new(url: String) -> (r: LaunchRequest)
        ensures
            r.url@ == url@,
    {
        LaunchRequest { url }
    }

    /// The player's program name on the search path.
    pub fn program(&self) -> (p: String)
        ensures
            p@ == "mpv"@,
    {
        "mpv".to_owned()
    }

    /// The player's argument vector: the mute flag, then the URL, in that
    /// order and nothing else.
    pub fn args(&self) -> (a: Vec<String>)
        ensures
            a@.len() == 2,
            a@[0]@ == "--mute"@,
            a@[1]@ == self.url@,
    {
        let mut a: Vec<String> = Vec::new();
        a.push("--mute".to_owned());
        a.push(self.url.clone());
        a
    }
}

} // verus!
