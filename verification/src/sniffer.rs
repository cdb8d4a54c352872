//! The capture-session state machine: a running flag and the session
//! deduplication set, driven by the events of the capture loop.
//!
//! The device itself lives outside the library. The loop that owns it feeds
//! each pulled frame to `handle_frame` and reports whether the device could
//! be opened to `start`; stopping is cooperative — `stop` flips the flag and
//! the loop observes it at its next poll boundary.
use vstd::prelude::*;

use crate::addr::IpAddress;
use crate::addr::is_globally_routable;
use crate::addr::is_public_ip;
use crate::decoder::extract_dest_ip;
use crate::decoder::spec_frame_dest;
use crate::dedup::SessionDedup;

verus! {

/// Why a capture session could not be started.
#[derive(Clone, Copy, PartialEq, Eq, Structural, Debug)]
pub enum SnifferError {
    /// A session is already active; the second start is rejected with no
    /// state change.
    AlreadyRunning,
    /// The capture device could not be opened or its filter not applied;
    /// the state stays idle.
    DeviceUnavailable,
}

/// The abstract state of a sniffer: whether capture is active, and which
/// addresses the session has seen.
pub struct SnifferView {
    pub running: bool,
    pub seen: Set<IpAddress>,
}

/// Owns the session state of one capture: the running flag and the
/// deduplication set shared with the capture loop.
pub struct Sniffer {
    running: bool,
    seen: SessionDedup,
}

impl View for Sniffer {
    type V = SnifferView;

    closed spec fn view(&self) -> SnifferView {
        SnifferView { running: self.running, seen: self.seen@ }
    }
}

/// What a start request does: rejected while running, rejected without a
/// usable device, and otherwise the flag becomes true with the session set
/// kept.
pub open spec fn start_transition(
    pre: SnifferView,
    device_ok: bool,
    post: SnifferView,
    r: Result<(), SnifferError>,
) -> bool {
    if pre.running {
        r == Err::<(), SnifferError>(SnifferError::AlreadyRunning) && post == pre
    } else if !device_ok {
        r == Err::<(), SnifferError>(SnifferError::DeviceUnavailable) && post == pre
    } else {
        r == Ok::<(), SnifferError>(()) && post.running && post.seen == pre.seen
    }
}

/// What a stop does: the flag becomes false; the session set is kept.
pub open spec fn stop_transition(pre: SnifferView, post: SnifferView) -> bool {
    !post.running && post.seen == pre.seen
}

/// What one pulled frame does to the session: a decodable, globally
/// routable destination joins the seen set and is returned exactly when it
/// is newly seen; everything else leaves the session untouched and returns
/// nothing. The running flag is never affected.
pub open spec fn frame_transition(
    pre: SnifferView,
    data: Seq<u8>,
    post: SnifferView,
    r: Option<IpAddress>,
) -> bool {
    &&& post.running == pre.running
    &&& match spec_frame_dest(data) {
        Some(a) => {
            if is_globally_routable(a) {
                &&& post.seen == pre.seen.insert(a)
                &&& r == (if pre.seen.contains(a) {
                    None::<IpAddress>
                } else {
                    Some(a)
                })
            } else {
                post.seen == pre.seen && r is None
            }
        },
        None => post.seen == pre.seen && r is None,
    }
}

impl Sniffer {
    /// An idle sniffer with an empty session set.
    pub fn new() -> (s: Self)
        ensures
            !s@.running,
            s@.seen == Set::<IpAddress>::empty(),
    {
        Sniffer { running: false, seen: SessionDedup::new() }
    }

    /// Requests the start of a capture session. `device_ok` reports whether
    /// the caller could open the capture device and apply its IP filter; a
    /// start while a session is active is rejected before any device is
    /// touched.
    pub fn start(&mut self, device_ok: bool) -> (r: Result<(), SnifferError>)
        ensures
            start_transition(old(self)@, device_ok, final(self)@, r),
    {
        if self.running {
            return Err(SnifferError::AlreadyRunning);
        }
        if !device_ok {
            return Err(SnifferError::DeviceUnavailable);
        }
        self.running = true;
        Ok(())
    }

    /// Requests the end of the session: flips the flag and returns at once;
    /// the capture loop observes the flag at its next poll boundary.
    pub fn stop(&mut self)
        ensures
            stop_transition(old(self)@, final(self)@),
    {
        self.running = false;
    }

    /// Non-blocking read of the running flag.
    pub fn is_running(&self) -> (r: bool)
        ensures
            r == self@.running,
    {
        self.running
    }

    /// Clears the session deduplication set; safe in any run state.
    pub fn reset_seen(&mut self)
        ensures
            final(self)@.running == old(self)@.running,
            final(self)@.seen == Set::<IpAddress>::empty(),
    {
        self.seen.reset();
    }

    /// Processes one pulled frame: decodes the destination address, keeps
    /// only globally routable ones, and returns the address exactly when the
    /// session sees it for the first time — the newly-seen event the caller
    /// hands to the enrichment pipeline.
    pub fn handle_frame(&mut self, data: &[u8]) -> (r: Option<IpAddress>)
        ensures
            frame_transition(old(self)@, data@, final(self)@, r),
    {
        match extract_dest_ip(data) {
            Some(ip) => {
                if is_public_ip(&ip) {
                    if self.seen.observe(&ip) {
                        Some(ip)
                    } else {
                        None
                    }
                } else {
                    None
                }
            },
            None => None,
        }
    }
}

/// Starting twice without an intervening stop succeeds the first time and
/// yields AlreadyRunning the second time, with the first session's state —
/// its running flag included — left untouched by the rejected call.
pub proof fn lemma_second_start_rejected(
    s0: SnifferView,
    s1: SnifferView,
    r1: Result<(), SnifferError>,
    ok2: bool,
    s2: SnifferView,
    r2: Result<(), SnifferError>,
)
    requires
        !s0.running,
        start_transition(s0, true, s1, r1),
        start_transition(s1, ok2, s2, r2),
    ensures
        r1 == Ok::<(), SnifferError>(()),
        s1.running,
        r2 == Err::<(), SnifferError>(SnifferError::AlreadyRunning),
        s2 == s1,
{
}

/// After a stop, the running flag reads false: any isRunning query, and the
/// capture loop's own check at its next poll boundary, observe an inactive
/// session.
pub proof fn lemma_stop_observed(s0: SnifferView, s1: SnifferView)
    requires
        stop_transition(s0, s1),
    ensures
        !s1.running,
{
}

} // verus!
