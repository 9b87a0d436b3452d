//! The decode/flush loop's acceptance state machine.
//!
//! One extraction reads packets from the container, hands those of the
//! selected stream to the decoder, and examines each decoded frame: a
//! frame is accepted when its presentation timestamp is undefined or at
//! least the target timestamp. When the packets run out without a match,
//! the decoder is drained — told that no more packets will arrive — and
//! its buffered frames are examined the same way. If draining also yields
//! no match, the extraction fails with `FrameNotFound`. No retries: one
//! read pass and one drain pass.
//!
//! [`DecodeLoop`] holds the decision state of that loop. A host program
//! performs the reads, sends and receives against the media backend and
//! reports each decoded frame here; the machine records, in ghost state,
//! every frame it was offered, so that what it accepts is pinned: the
//! first offered frame that matches, and nothing else.

use vstd::prelude::*;
use crate::error::{VideoError, VideoErrorCode};

verus! {

/// A frame is acceptable when its presentation timestamp is undefined or
/// at least the target timestamp.
pub open spec fn accepts(pts: Option<i64>, target_ts: i64) -> bool {
    match pts {
        None => true,
        Some(p) => p >= target_ts,
    }
}

/// No frame of `offered` is acceptable for `target_ts`.
pub open spec fn none_accepted(offered: Seq<Option<i64>>, target_ts: i64) -> bool {
    forall|i: int| 0 <= i < offered.len() ==> !accepts(#[trigger] offered[i], target_ts)
}

/// The acceptance predicate of the loop's match check.
pub fn frame_matches(pts: Option<i64>, target_ts: i64) -> (r: bool)
    ensures
        r == accepts(pts, target_ts),
{
    match pts {
        None => true,
        Some(p) => p >= target_ts,
    }
}

/// Where one extraction's loop stands.
#[derive(Clone, Copy, Debug, PartialEq, Eq, Structural)]
pub enum LoopPhase {
    /// Packets are still being read from the container.
    Reading,
    /// The packets ran out; the decoder is being drained.
    Draining,
    /// A frame was accepted; the loop terminated successfully.
    Accepted,
    /// Draining also yielded no acceptable frame.
    Exhausted,
}

/// The decision state of one extraction's decode/flush loop.
pub struct DecodeLoop {
    /// The index of the selected video stream; packets of other streams
    /// are discarded without being sent to the decoder.
    pub stream_index: usize,
    /// The target timestamp frames are matched against.
    pub target_ts: i64,
    /// Where the loop stands.
    pub phase: LoopPhase,
    /// The presentation timestamps of every frame offered so far, in order.
    pub offered: Ghost<Seq<Option<i64>>>,
}

impl DecodeLoop {
    /// The machine accepts the first acceptable frame it is offered and
    /// then stops: while it still runs, or when it has given up, nothing
    /// offered so far was acceptable; once it has accepted, the last
    /// offered frame is acceptable and no earlier one was.
    pub open spec fn wf(self) -> bool {
        match self.phase {
            LoopPhase::Reading => none_accepted(self.offered@, self.target_ts),
            LoopPhase::Draining => none_accepted(self.offered@, self.target_ts),
            LoopPhase::Exhausted => none_accepted(self.offered@, self.target_ts),
            LoopPhase::Accepted => self.offered@.len() > 0 && accepts(
                self.offered@.last(),
                self.target_ts,
            ) && none_accepted(self.offered@.drop_last(), self.target_ts),
        }
    }

    /// A fresh loop for one extraction, reading packets for the selected
    /// stream and matching frames against the target timestamp.
    pub fn new(stream_index: usize, target_ts: i64) -> (s: DecodeLoop)
        ensures
            s.wf(),
            s.phase is Reading,
            s.stream_index == stream_index,
            s.target_ts == target_ts,
            s.offered@.len() == 0,
    {
        DecodeLoop {
            stream_index,
            target_ts,
            phase: LoopPhase::Reading,
            offered: Ghost(Seq::empty()),
        }
    }

    /// Whether a packet of the given stream is sent to the decoder;
    /// packets of every other stream are discarded.
    pub fn wants_packet(&self, packet_stream_index: usize) -> (r: bool)
        ensures
            r == (packet_stream_index == self.stream_index),
    {
        packet_stream_index == self.stream_index
    }

    /// The match check on one decoded frame: accepts it exactly when its
    /// presentation timestamp is undefined or at least the target. On
    /// acceptance the loop terminates successfully; otherwise it stays in
    /// its phase and the frame is discarded.
    pub fn offer_frame(&mut self, pts: Option<i64>) -> (accepted: bool)
        requires
            old(self).wf(),
            old(self).phase is Reading || old(self).phase is Draining,
        ensures
            accepted == accepts(pts, old(self).target_ts),
            final(self).stream_index == old(self).stream_index,
            final(self).target_ts == old(self).target_ts,
            final(self).offered@ == old(self).offered@.push(pts),
            accepted ==> final(self).phase is Accepted,
            !accepted ==> final(self).phase == old(self).phase,
            final(self).wf(),
    {
        let accepted = frame_matches(pts, self.target_ts);
        proof {
            assert(self.offered@.push(pts).drop_last() =~= self.offered@);
        }
        self.offered = Ghost(self.offered@.push(pts));
        if accepted {
            self.phase = LoopPhase::Accepted;
        }
        accepted
    }

    /// The transition taken when the container has no more packets: the
    /// loop moves from reading to draining, where the decoder is sent
    /// end-of-stream and its buffered frames are examined.
    pub fn begin_drain(&mut self)
        requires
            old(self).wf(),
            old(self).phase is Reading,
        ensures
            final(self).phase is Draining,
            final(self).stream_index == old(self).stream_index,
            final(self).target_ts == old(self).target_ts,
            final(self).offered@ == old(self).offered@,
            final(self).wf(),
    {
        self.phase = LoopPhase::Draining;
    }

    /// The transition taken when draining also yields no more frames: the
    /// loop gives up.
    pub fn mark_exhausted(&mut self)
        requires
            old(self).wf(),
            old(self).phase is Draining,
        ensures
            final(self).phase is Exhausted,
            final(self).stream_index == old(self).stream_index,
            final(self).target_ts == old(self).target_ts,
            final(self).offered@ == old(self).offered@,
            final(self).wf(),
    {
        self.phase = LoopPhase::Exhausted;
    }

    /// The terminal error of a loop that examined every in-stream and
    /// drained frame without a match.
    pub fn not_found_error(&self) -> (e: VideoError)
        requires
            self.phase is Exhausted,
        ensures
            e.code == VideoErrorCode::FrameNotFound,
    {
        VideoError::new(VideoErrorCode::FrameNotFound, None)
    }
}

/// At the start of the stream — a target timestamp of zero, or any
/// nonpositive one — every decodable frame is acceptable: one with an
/// undefined presentation timestamp, and one whose timestamp is at least
/// zero. The first decodable frame the loop is offered is the one
/// returned.
pub proof fn lemma_start_of_stream_accepts_decodable(pts: Option<i64>, target_ts: i64)
    requires
        target_ts <= 0,
        pts matches Some(p) ==> p >= 0,
    ensures
        accepts(pts, target_ts),
{
}

/// What an accepted loop accepted is exactly the first acceptable frame
/// it was offered: the last one, with every earlier offer rejected.
pub proof fn lemma_accepted_frame_is_first_match(lp: DecodeLoop)
    requires
        lp.wf(),
        lp.phase is Accepted,
    ensures
        lp.offered@.len() > 0,
        accepts(lp.offered@.last(), lp.target_ts),
        forall|i: int| 0 <= i < lp.offered@.len() - 1 ==> !accepts(
            #[trigger] lp.offered@[i],
            lp.target_ts,
        ),
{
    assert forall|i: int| 0 <= i < lp.offered@.len() - 1 implies !accepts(
        #[trigger] lp.offered@[i],
        lp.target_ts,
    ) by {
        assert(lp.offered@.drop_last()[i] == lp.offered@[i]);
    }
}

/// A target timestamp beyond the stream's duration never yields a wrong
/// frame: when every frame of the stream carries a defined presentation
/// timestamp no later than the stream's last, and the target lies beyond
/// it, the loop cannot have accepted — its only terminal phase is
/// `Exhausted`, which surfaces as `FrameNotFound`.
pub proof fn lemma_beyond_duration_never_accepts(lp: DecodeLoop, last_pts: i64)
    requires
        lp.wf(),
        lp.target_ts > last_pts,
        forall|i: int| 0 <= i < lp.offered@.len() ==> ((#[trigger] lp.offered@[i]) matches Some(p)
            && p <= last_pts),
    ensures
        !(lp.phase is Accepted),
{
    if lp.phase is Accepted {
        assert(lp.offered@[lp.offered@.len() - 1] matches Some(p) && p <= last_pts);
    }
}

} // verus!
