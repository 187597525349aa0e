//! Raw sample streams and the fixed-size frames cut from them.

use vstd::prelude::*;
use crate::sample::ZERO;

verus! {

/// A finite pull-based stream of raw samples. Its view is what has not been
/// pulled yet.
pub struct SampleSource {
    samples: Vec<u32>,
    cursor: usize,
}

impl View for SampleSource {
    type V = Seq<u32>;

    closed spec fn view(&self) -> Seq<u32> {
        self.samples@.skip(self.cursor as int)
    }
}

impl SampleSource {
    #[verifier::type_invariant]
    spec fn in_bounds(self) -> bool {
        self.cursor <= self.samples@.len()
    }

    /// How many samples have been pulled so far.
    pub closed spec fn spec_consumed(&self) -> usize {
        self.cursor
    }

    pub fn new(samples: Vec<u32>) -> (source: SampleSource)
        ensures
            source@ == samples@,
            source.consumed() == 0,
            samples@.len() <= usize::MAX,
    {
        let _total = samples.len();
        SampleSource { samples, cursor: 0 }
    }

    /// Pulls the next sample, or reports that the stream is over.
    pub fn next(&mut self) -> (sample: Option<u32>)
        ensures
            old(self)@.len() == 0 ==> sample is None && *final(self) == *old(self),
            old(self)@.len() > 0 ==> sample == Some(old(self)@[0]) && final(self)@ == old(self)@.skip(
                1,
            ) && final(self).consumed() == old(self).consumed() + 1,
    {
        proof {
            use_type_invariant(&*self);
        }
        if self.cursor < self.samples.len() {
            let sample = self.samples[self.cursor];
            self.cursor = self.cursor + 1;
            assert(final(self)@ == old(self)@.skip(1));
            Some(sample)
        } else {
            None
        }
    }

    /// How many samples are left to pull.
    pub fn remaining(&self) -> (n: usize)
        ensures
            n == self@.len(),
    {
        proof {
            use_type_invariant(self);
        }
        self.samples.len() - self.cursor
    }

    /// How many samples have been pulled so far.
    #[verifier::when_used_as_spec(spec_consumed)]
    pub fn consumed(&self) -> (n: usize)
        ensures
            n == self.consumed(),
    {
        self.cursor
    }
}

/// Interleaved position of sample `index` of channel `channel`.
pub open spec fn slot(index: int, channel: int, channels: int) -> int {
    index * channels + channel
}

/// What a frame holds after `samples` were dealt out over it round-robin, one
/// sample to each channel in turn: the cells that `samples` reaches take its
/// values, the others keep what `before` held.
pub open spec fn dealt(before: Seq<Seq<u32>>, samples: Seq<u32>) -> Seq<Seq<u32>> {
    Seq::new(
        before.len(),
        |c: int|
            Seq::new(
                before[c].len(),
                |i: int|
                    if slot(i, c, before.len() as int) < samples.len() {
                        samples[slot(i, c, before.len() as int)]
                    } else {
                        before[c][i]
                    },
            ),
    )
}

/// Two cells of a frame never share an interleaved position.
pub proof fn lemma_slot_unique(i1: int, c1: int, i2: int, c2: int, channels: int)
    requires
        0 <= c1 < channels,
        0 <= c2 < channels,
        slot(i1, c1, channels) == slot(i2, c2, channels),
    ensures
        i1 == i2,
        c1 == c2,
{
    assert(i1 == i2) by (nonlinear_arith)
        requires
            0 <= c1 < channels,
            0 <= c2 < channels,
            i1 * channels + c1 == i2 * channels + c2,
    {
        if i1 < i2 {
            assert((i2 - i1) * channels >= channels);
        } else if i2 < i1 {
            assert((i1 - i2) * channels >= channels);
        }
    }
}

/// Interleaved positions grow with the index, and stay under the frame's
/// total.
pub proof fn lemma_slot_bounds(i: int, c: int, frame_size: int, channels: int)
    requires
        0 <= i < frame_size,
        0 <= c < channels,
    ensures
        0 <= slot(i, c, channels) < frame_size * channels,
        slot(i, c, channels) < slot(i + 1, 0, channels),
{
    assert(0 <= i * channels + c < frame_size * channels) by (nonlinear_arith)
        requires
            0 <= i < frame_size,
            0 <= c < channels,
    {
        assert((i + 1) * channels <= frame_size * channels);
    }
    assert(i * channels + c < (i + 1) * channels + 0) by (nonlinear_arith)
        requires
            0 <= c < channels,
    ;
}

/// One block of samples per channel, all of one length: the unit on which the
/// effects work.
pub struct FrameBuffer {
    current_frame: Vec<Vec<u32>>,
    frame_size: usize,
    sample_rate: u32,
}

impl View for FrameBuffer {
    type V = Seq<Seq<u32>>;

    closed spec fn view(&self) -> Seq<Seq<u32>> {
        Seq::new(self.current_frame@.len(), |c: int| self.current_frame@[c]@)
    }
}

/// Whether `planes` is a frame of `frame_size` samples per channel: at least
/// one channel, at least one sample, every channel of that length.
pub open spec fn is_frame(planes: Seq<Seq<u32>>, frame_size: nat) -> bool {
    &&& planes.len() >= 1
    &&& frame_size >= 1
    &&& forall|c: int| 0 <= c < planes.len() ==> (#[trigger] planes[c]).len() == frame_size
}

/// The channels of a frame handed over as nested vectors.
pub open spec fn planes(data: Vec<Vec<u32>>) -> Seq<Seq<u32>> {
    Seq::new(data@.len(), |c: int| data@[c]@)
}

impl FrameBuffer {
    /// At least one channel and one sample, and every channel of the one
    /// length.
    pub open spec fn wf(self) -> bool {
        is_frame(self@, self.frame_size() as nat)
    }

    pub closed spec fn spec_frame_size(&self) -> usize {
        self.frame_size
    }

    pub open spec fn spec_channels(&self) -> nat {
        self@.len()
    }

    pub closed spec fn spec_sample_rate(&self) -> u32 {
        self.sample_rate
    }

    /// A silent frame: every sample is zero.
    pub fn new(frame_size: usize, channels: u16, sample_rate: u32) -> (frame: FrameBuffer)
        requires
            frame_size >= 1,
            channels >= 1,
        ensures
            frame.wf(),
            frame.frame_size() == frame_size,
            frame.spec_channels() == channels,
            frame.sample_rate() == sample_rate,
            forall|c: int, i: int|
                0 <= c < channels && 0 <= i < frame_size ==> (#[trigger] frame@[c][i]) == ZERO,
    {
        let mut data: Vec<Vec<u32>> = Vec::new();
        let mut c: u16 = 0;
        while c < channels
            invariant
                c <= channels,
                data@.len() == c,
                forall|k: int|
                    0 <= k < c ==> (#[trigger] data@[k])@ == Seq::new(
                        frame_size as nat,
                        |i: int| ZERO,
                    ),
            decreases channels - c,
        {
            let mut plane: Vec<u32> = Vec::new();
            let mut i: usize = 0;
            while i < frame_size
                invariant
                    i <= frame_size,
                    plane@ == Seq::new(i as nat, |j: int| ZERO),
                decreases frame_size - i,
            {
                plane.push(ZERO);
                i = i + 1;
            }
            data.push(plane);
            c = c + 1;
        }
        FrameBuffer { current_frame: data, frame_size, sample_rate }
    }

    /// Takes over channels that were filled elsewhere, if they form a frame:
    /// at least one channel, at least one sample, all channels of one length.
    pub fn from_channels(data: Vec<Vec<u32>>, sample_rate: u32) -> (frame: Option<FrameBuffer>)
        ensures
            frame is Some <==> planes(data).len() >= 1 && is_frame(
                planes(data),
                planes(data)[0].len(),
            ),
            frame matches Some(f) ==> f@ == planes(data) && f.sample_rate() == sample_rate
                && f.frame_size() == planes(data)[0].len() && f.wf(),
    {
        if data.len() == 0 {
            return None;
        }
        let frame_size = data[0].len();
        if frame_size == 0 {
            return None;
        }
        let mut c: usize = 1;
        while c < data.len()
            invariant
                1 <= c <= data@.len(),
                frame_size == data@[0]@.len(),
                forall|k: int| 0 <= k < c ==> (#[trigger] data@[k])@.len() == frame_size,
            decreases data@.len() - c,
        {
            if data[c].len() != frame_size {
                assert(planes(data)[c as int].len() != planes(data)[0].len());
                return None;
            }
            c = c + 1;
        }
        assert(planes(data)[0].len() == frame_size);
        Some(FrameBuffer { current_frame: data, frame_size, sample_rate })
    }

    /// Samples per channel.
    #[verifier::when_used_as_spec(spec_frame_size)]
    pub fn frame_size(&self) -> (n: usize)
        ensures
            n == self.frame_size(),
    {
        self.frame_size
    }

    /// Number of channels.
    pub fn channels(&self) -> (n: usize)
        ensures
            n == self.spec_channels(),
    {
        self.current_frame.len()
    }

    /// Samples per second.
    #[verifier::when_used_as_spec(spec_sample_rate)]
    pub fn sample_rate(&self) -> (rate: u32)
        ensures
            rate == self.sample_rate(),
    {
        self.sample_rate
    }

    /// Reads one channel back.
    pub fn channel(&self, index: usize) -> (plane: &Vec<u32>)
        requires
            index < self.spec_channels(),
        ensures
            plane@ == self@[index as int],
    {
        &self.current_frame[index]
    }

    /// Gives the channels up.
    pub fn into_channels(self) -> (data: Vec<Vec<u32>>)
        ensures
            planes(data) == self@,
    {
        self.current_frame
    }

    /// Pulls one frame's worth of samples from `source`, dealing them out to
    /// the channels in turn. Returns whether the frame was filled; if the
    /// source ran dry first, the samples it still had are in place, the rest
    /// of the frame is as it was, and the source is empty.
    pub fn fill_from(&mut self, source: &mut SampleSource) -> (filled: bool)
        requires
            old(self).wf(),
        ensures
            final(self).wf(),
            final(self).frame_size() == old(self).frame_size(),
            final(self).spec_channels() == old(self).spec_channels(),
            final(self).sample_rate() == old(self).sample_rate(),
            filled <==> old(source)@.len() >= old(self).frame_size() * old(self).spec_channels(),
            final(self)@ == dealt(old(self)@, old(source)@),
            filled ==> final(source)@ == old(source)@.skip(
                old(self).frame_size() * old(self).spec_channels(),
            ) && final(source).consumed() == old(source).consumed() + old(self).frame_size() * old(
                self,
            ).spec_channels(),
            !filled ==> final(source)@.len() == 0 && final(source).consumed() == old(
                source,
            ).consumed() + old(source)@.len(),
    {
        let frame_size = self.frame_size;
        let channels = self.current_frame.len();
        let mut index: usize = 0;
        let mut channel: usize = 0;
        let ghost before = self@;
        let ghost stream = source@;
        let ghost start = source.consumed();
        proof {
            assert(self@ =~~= dealt(before, stream.take(0)));
        }
        loop
            invariant
                frame_size == self.frame_size == old(self).frame_size,
                self.sample_rate == old(self).sample_rate,
                before == old(self)@,
                stream == old(source)@,
                start == old(source).consumed(),
                is_frame(before, frame_size as nat),
                channels == before.len(),
                self@.len() == channels,
                is_frame(self@, frame_size as nat),
                index < frame_size,
                channel < channels,
                slot(index as int, channel as int, channels as int) <= stream.len(),
                source@ == stream.skip(slot(index as int, channel as int, channels as int)),
                source.consumed() == start + slot(index as int, channel as int, channels as int),
                self@ == dealt(
                    before,
                    stream.take(slot(index as int, channel as int, channels as int)),
                ),
            decreases source@.len(),
        {
            let ghost taken = slot(index as int, channel as int, channels as int);
            proof {
                lemma_slot_bounds(index as int, channel as int, frame_size as int, channels as int);
            }
            match source.next() {
                None => {
                    proof {
                        assert(stream.take(taken) =~= stream);
                    }
                    return false;
                },
                Some(sample) => {
                    let ghost held = self@;
                    assert(held[channel as int].len() == frame_size);
                    self.current_frame[channel][index] = sample;
                    proof {
                        assert(sample == stream[taken]);
                        assert(self@.len() == channels);
                        assert forall|c: int| 0 <= c < channels implies (#[trigger] self@[c]).len()
                            == frame_size by {
                            assert(held[c].len() == frame_size);
                        }
                        assert forall|c: int, i: int|
                            0 <= c < channels && 0 <= i < frame_size implies (#[trigger] self@[c][i])
                            == dealt(before, stream.take(taken + 1))[c][i] by {
                            assert(held[c].len() == frame_size);
                            if c == channel && i == index {
                            } else {
                                assert(self@[c][i] == held[c][i]);
                                if slot(i, c, channels as int) == taken {
                                    lemma_slot_unique(
                                        i,
                                        c,
                                        index as int,
                                        channel as int,
                                        channels as int,
                                    );
                                }
                            }
                        }
                        assert(self@ =~~= dealt(before, stream.take(taken + 1)));
                        assert(source@ == stream.skip(taken + 1));
                    }
                    if channel + 1 >= channels {
                        if index + 1 >= frame_size {
                            proof {
                                assert(taken + 1 == frame_size * channels) by (nonlinear_arith)
                                    requires
                                        taken == index * channels + channel,
                                        channel + 1 == channels,
                                        index + 1 == frame_size,
                                ;
                                assert forall|c: int, i: int|
                                    0 <= c < channels && 0 <= i < frame_size implies (
                                #[trigger] dealt(before, stream.take(taken + 1))[c][i]) == dealt(
                                    before,
                                    stream,
                                )[c][i] by {
                                    lemma_slot_bounds(i, c, frame_size as int, channels as int);
                                }
                                assert(dealt(before, stream.take(taken + 1)) =~~= dealt(
                                    before,
                                    stream,
                                ));
                            }
                            return true;
                        }
                        proof {
                            assert(slot(index + 1, 0, channels as int) == taken + 1)
                                by (nonlinear_arith)
                                requires
                                    taken == index * channels + channel,
                                    channel + 1 == channels,
                                    slot(index + 1, 0, channels as int) == (index + 1) * channels
                                        + 0,
                            ;
                        }
                        channel = 0;
                        index = index + 1;
                    } else {
                        channel = channel + 1;
                    }
                },
            }
        }
    }
}

} // verus!
