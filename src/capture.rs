//! Recording flag and volume reading of the capture device, and the buffer
//! that cuts the device's sample stream into whole frames.

use vstd::prelude::*;
use crate::audio::MAX_VOLUME;

verus! {

/// Why a capture could not start.
#[derive(Clone, Copy, PartialEq, Eq, Debug)]
pub enum CaptureError {
    /// A capture is already running.
    AlreadyRecording,
}

/// State of audio capture shared by the capture thread and its readers: the
/// recording flag and the latest volume level.
pub struct AudioCapture {
    recording: bool,
    volume: u32,
}

impl AudioCapture {
    #[verifier::type_invariant]
    spec fn volume_in_range(&self) -> bool {
        self.volume <= MAX_VOLUME
    }

    /// Whether a capture is running.
    pub closed spec fn recording_spec(&self) -> bool {
        self.recording
    }

    /// The latest volume level.
    pub closed spec fn volume_spec(&self) -> u32 {
        self.volume
    }

    /// Idle capture with a silent reading.
    pub fn new() -> (r: Self)
        ensures
            !r.recording_spec(),
            r.volume_spec() == 0,
    {
        AudioCapture { recording: false, volume: 0 }
    }

    /// Whether a capture is running.
    pub fn is_recording(&self) -> (r: bool)
        ensures
            r == self.recording_spec(),
    {
        self.recording
    }

    /// The latest volume level, 0 to 100.
    pub fn get_volume(&self) -> (r: u32)
        ensures
            r == self.volume_spec(),
            r <= MAX_VOLUME,
    {
        proof {
            use_type_invariant(self);
        }
        self.volume
    }

    /// Marks a capture as running; fails, changing nothing, if one already is.
    pub fn start(&mut self) -> (r: Result<(), CaptureError>)
        ensures
            old(self).recording_spec() ==> r == Err::<(), CaptureError>(CaptureError::AlreadyRecording)
                && *final(self) == *old(self),
            !old(self).recording_spec() ==> r is Ok && final(self).recording_spec()
                && final(self).volume_spec() == old(self).volume_spec(),
    {
        proof {
            use_type_invariant(&*self);
        }
        if self.recording {
            return Err(CaptureError::AlreadyRecording);
        }
        self.recording = true;
        Ok(())
    }

    /// Clears the recording flag; the capture thread exits when it sees it.
    pub fn stop(&mut self)
        ensures
            !final(self).recording_spec(),
            final(self).volume_spec() == old(self).volume_spec(),
    {
        proof {
            use_type_invariant(&*self);
        }
        self.recording = false;
    }

    /// Overwrites the volume reading with the level of the latest frame.
    pub fn set_volume(&mut self, level: u32)
        requires
            level <= MAX_VOLUME,
        ensures
            final(self).volume_spec() == level,
            final(self).recording_spec() == old(self).recording_spec(),
    {
        self.volume = level;
    }
}

/// The `i`-th frame of `n` samples cut from the stream `all`.
pub open spec fn frame_at(all: Seq<i16>, n: int, i: int) -> Seq<i16> {
    all.subrange(i * n, i * n + n)
}

/// Buffer between the device callback and the frame pipeline: samples go in
/// in any amounts, whole frames of a fixed length come out in order.
pub struct FrameAccumulator {
    frame_len: usize,
    pending: Vec<i16>,
}

impl FrameAccumulator {
    /// Frames are non-empty and less than one frame waits in the buffer.
    pub closed spec fn wf(&self) -> bool {
        self.frame_len > 0 && self.pending@.len() < self.frame_len
    }

    /// Length of the frames handed out.
    pub closed spec fn frame_len_spec(&self) -> nat {
        self.frame_len as nat
    }

    /// Samples received and not yet handed out in a frame.
    pub closed spec fn pending_spec(&self) -> Seq<i16> {
        self.pending@
    }

    /// An empty buffer for frames of `frame_len` samples.
    pub fn new(frame_len: usize) -> (r: Self)
        requires
            frame_len > 0,
        ensures
            r.wf(),
            r.frame_len_spec() == frame_len,
            r.pending_spec().len() < r.frame_len_spec(),
            r.pending_spec() == Seq::<i16>::empty(),
    {
        FrameAccumulator { frame_len, pending: Vec::new() }
    }

    /// Appends `data` and hands out every whole frame now available, oldest
    /// first; the remainder waits for the next call.
    pub fn push_samples(&mut self, data: &[i16]) -> (frames: Vec<Vec<i16>>)
        requires
            old(self).wf(),
            old(self).pending_spec().len() + data@.len() <= usize::MAX,
        ensures
            final(self).wf(),
            final(self).frame_len_spec() == old(self).frame_len_spec(),
            final(self).frame_len_spec() > 0,
            final(self).pending_spec().len() < final(self).frame_len_spec(),
            ({
                let all = old(self).pending_spec() + data@;
                let n = old(self).frame_len_spec() as int;
                &&& frames@.len() == all.len() as int / n
                &&& forall|i: int|
                    0 <= i < frames@.len() ==> #[trigger] frames@[i]@ == frame_at(all, n, i)
                &&& final(self).pending_spec() == all.skip(frames@.len() * n)
            }),
    {
        let ghost all = self.pending@ + data@;
        let n = self.frame_len;
        let mut buf: Vec<i16> = Vec::new();
        let mut i: usize = 0;
        while i < self.pending.len()
            invariant
                i <= self.pending@.len(),
                buf@ == self.pending@.take(i as int),
            decreases self.pending@.len() - i,
        {
            buf.push(self.pending[i]);
            i += 1;
            assert(buf@ =~= self.pending@.take(i as int));
        }
        let mut j: usize = 0;
        while j < data.len()
            invariant
                i == self.pending@.len(),
                j <= data@.len(),
                buf@ == self.pending@ + data@.take(j as int),
            decreases data@.len() - j,
        {
            buf.push(data[j]);
            j += 1;
            assert(buf@ =~= self.pending@ + data@.take(j as int));
        }
        assert(buf@ =~= all);
        let mut frames: Vec<Vec<i16>> = Vec::new();
        let ghost mut start: int = 0;
        assert(frames@.len() * n == 0);
        while buf.len() >= n
            invariant
                n > 0,
                start == frames@.len() * n,
                start <= all.len(),
                buf@ == all.skip(start),
                forall|k: int|
                    0 <= k < frames@.len() ==> #[trigger] frames@[k]@ == frame_at(all, n as int, k),
            decreases buf@.len(),
        {
            let rest = buf.split_off(n);
            proof {
                assert(buf@ =~= all.subrange(start, start + n));
                assert(frame_at(all, n as int, frames@.len() as int) == all.subrange(start, start + n));
                assert((frames@.len() + 1) * n == frames@.len() * n + n) by (nonlinear_arith);
                assert(rest@ =~= all.skip(start + n));
            }
            frames.push(buf);
            buf = rest;
            proof {
                start = start + n;
            }
        }
        self.pending = buf;
        proof {
            let k = frames@.len() as int;
            assert(k == all.len() as int / (n as int)) by (nonlinear_arith)
                requires
                    n > 0,
                    k * n <= all.len(),
                    all.len() - k * n < n,
            ;
        }
        frames
    }
}

/// Frames do not depend on how the device split its samples into
/// callbacks: two successive pushes hand out, in order, exactly the frames
/// that one push of all the samples would, and keep the same remainder.
pub proof fn law_frames_keep_order(pending: Seq<i16>, d1: Seq<i16>, d2: Seq<i16>, n: int)
    requires
        n > 0,
        pending.len() < n,
    ensures
        ({
            let total = pending + d1 + d2;
            let all1 = pending + d1;
            let k1 = all1.len() as int / n;
            let all2 = all1.skip(k1 * n) + d2;
            let k2 = all2.len() as int / n;
            &&& k1 + k2 == total.len() as int / n
            &&& forall|i: int| 0 <= i < k1 ==> #[trigger] frame_at(all1, n, i) == frame_at(total, n, i)
            &&& forall|j: int| 0 <= j < k2 ==> #[trigger] frame_at(all2, n, j) == frame_at(total, n, k1 + j)
            &&& all2.skip(k2 * n) == total.skip((k1 + k2) * n)
        }),
{
    let total = pending + d1 + d2;
    let all1 = pending + d1;
    let k1 = all1.len() as int / n;
    let all2 = all1.skip(k1 * n) + d2;
    let k2 = all2.len() as int / n;
    assert(0 <= k1 * n <= all1.len()) by (nonlinear_arith)
        requires
            k1 == all1.len() as int / n,
            n > 0,
    ;
    assert(all2 =~= total.skip(k1 * n));
    assert(k1 + k2 == total.len() as int / n) by (nonlinear_arith)
        requires
            k1 == all1.len() as int / n,
            k2 == (total.len() - k1 * n) / n,
            0 <= k1 * n <= all1.len() <= total.len(),
            n > 0,
    ;
    assert forall|i: int| 0 <= i < k1 implies #[trigger] frame_at(all1, n, i) == frame_at(total, n, i) by {
        assert(0 <= i * n && i * n + n <= k1 * n) by (nonlinear_arith)
            requires
                0 <= i < k1,
                n > 0,
        ;
        assert(frame_at(all1, n, i) =~= frame_at(total, n, i));
    }
    assert forall|j: int| 0 <= j < k2 implies #[trigger] frame_at(all2, n, j) == frame_at(total, n, k1 + j) by {
        assert((k1 + j) * n == k1 * n + j * n) by (nonlinear_arith);
        assert(0 <= j * n && j * n + n <= k2 * n) by (nonlinear_arith)
            requires
                0 <= j < k2,
                n > 0,
        ;
        assert(k2 * n <= all2.len()) by (nonlinear_arith)
            requires
                k2 == all2.len() as int / n,
                n > 0,
        ;
        assert(frame_at(all2, n, j) =~= frame_at(total, n, k1 + j));
    }
    assert((k1 + k2) * n == k1 * n + k2 * n) by (nonlinear_arith);
    assert(k2 * n <= all2.len()) by (nonlinear_arith)
        requires
            k2 == all2.len() as int / n,
            n > 0,
    ;
    assert(all2.skip(k2 * n) =~= total.skip((k1 + k2) * n));
}

} // verus!
