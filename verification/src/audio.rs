//! The frames of sound that go to the sound device.
//!
//! The synthesizer, which belongs to the host, turns the pulses of a frame
//! into samples, one run of samples for each side. Here the runs are laid
//! out as the device wants them: sample by sample, one value for each of its
//! channels.
use vstd::prelude::*;
use crate::state::EmulatorState;

verus! {

/// Which lines of the computer are heard.
#[derive(Debug, Clone, Copy, PartialEq, Eq, Structural)]
pub enum AudioMix {
    /// The speaker, and with it the tape: what goes out to the recorder and
    /// what comes in from it.
    SpeakerAndTape,
    /// The speaker alone.
    SpeakerOnly,
}

impl EmulatorState {
    /// Which lines of the computer are heard.
    pub open spec fn spec_audio_mix(self) -> AudioMix {
        if self.audible_tape {
            AudioMix::SpeakerAndTape
        } else {
            AudioMix::SpeakerOnly
        }
    }

    /// Which lines of the computer are rendered into the frame's sound: the
    /// tape is heard only where that was asked for.
    pub fn render_audio(&self) -> (mix: AudioMix)
        ensures
            mix == self.spec_audio_mix(),
    {
        if self.audible_tape {
            AudioMix::SpeakerAndTape
        } else {
            AudioMix::SpeakerOnly
        }
    }
}

/// How many samples of `left` and `right` come in pairs.
pub open spec fn spec_paired(left: int, right: int) -> int {
    if left <= right {
        left
    } else {
        right
    }
}

/// The value at `index` of a frame for `channels` channels made from the
/// samples `left` and `right`.
///
/// The first channel gets the left sample and the second the right one.
/// Every channel beyond these is silent, and so is the place of a sample of
/// `left` that `right` has no partner for.
pub open spec fn spec_frame_value<T>(
    channels: int,
    left: Seq<T>,
    right: Seq<T>,
    silence: T,
    index: int,
) -> T {
    let sample = index / channels;
    let channel = index % channels;
    if sample < spec_paired(left.len() as int, right.len() as int) && channel == 0 {
        left[sample]
    } else if sample < spec_paired(left.len() as int, right.len() as int) && channel == 1 {
        right[sample]
    } else {
        silence
    }
}

/// The frame for `channels` channels made from the samples `left` and
/// `right`: for each sample of `left`, one value for each channel.
pub open spec fn spec_audio_frame<T>(channels: int, left: Seq<T>, right: Seq<T>, silence: T) -> Seq<
    T,
> {
    Seq::new(
        (left.len() * channels) as nat,
        |index: int| spec_frame_value(channels, left, right, silence, index),
    )
}

/// The frame for `channels` channels in which every channel gets the one
/// sample there is.
pub open spec fn spec_mono_audio_frame<T>(channels: int, samples: Seq<T>) -> Seq<T> {
    Seq::new((samples.len() * channels) as nat, |index: int| samples[index / channels])
}

/// Lays the frame made from the samples `left` and `right` out in `outbuf`
/// for a device with `output_channels` channels.
///
/// Whatever `outbuf` held is dropped. The frame has one value for each
/// channel of each sample of `left`: each pair of samples goes to the first
/// two channels of its place, or the left one to the only channel, and all
/// other values are `silence`.
pub fn produce_audio_frame<T: Copy>(
    output_channels: usize,
    outbuf: &mut Vec<T>,
    left: &Vec<T>,
    right: &Vec<T>,
    silence: T,
)
    requires
        output_channels > 0,
        left.len() * output_channels <= usize::MAX,
    ensures
        final(outbuf)@ == spec_audio_frame(output_channels as int, left@, right@, silence),
        final(outbuf)@.len() == left.len() * output_channels,
{
    let paired: usize = if left.len() <= right.len() {
        left.len()
    } else {
        right.len()
    };
    let ghost channels = output_channels as int;
    let ghost frame = spec_audio_frame(channels, left@, right@, silence);
    outbuf.truncate(0);
    proof {
        assert(left.len() * channels >= 0) by (nonlinear_arith)
            requires
                left.len() >= 0,
                channels > 0,
        ;
    }
    let mut sample: usize = 0;
    while sample < left.len()
        invariant
            output_channels > 0,
            channels == output_channels,
            paired == spec_paired(left.len() as int, right.len() as int),
            sample <= left.len(),
            left.len() * output_channels <= usize::MAX,
            frame == spec_audio_frame(channels, left@, right@, silence),
            frame.len() == left.len() * channels,
            outbuf@.len() == sample * channels,
            outbuf@.len() <= frame.len(),
            forall|i: int| 0 <= i < outbuf@.len() ==> outbuf@[i] == frame[i],
        decreases left.len() - sample,
    {
        proof {
            lemma_frame_place(sample as int, channels, left.len() as int);
        }
        let mut channel: usize = 0;
        while channel < output_channels
            invariant
                output_channels > 0,
                channels == output_channels,
                paired == spec_paired(left.len() as int, right.len() as int),
                sample < left.len(),
                channel <= output_channels,
                frame == spec_audio_frame(channels, left@, right@, silence),
                frame.len() == left.len() * channels,
                0 <= sample * channels,
                sample * channels + channels == (sample + 1) * channels,
                (sample + 1) * channels <= frame.len(),
                outbuf@.len() == sample * channels + channel,
                forall|i: int| 0 <= i < outbuf@.len() ==> outbuf@[i] == frame[i],
            decreases output_channels - channel,
        {
            proof {
                lemma_place_of(sample * channels + channel, sample as int, channels);
            }
            let value: T = if sample < paired && channel == 0 {
                left[sample]
            } else if sample < paired && channel == 1 {
                right[sample]
            } else {
                silence
            };
            outbuf.push(value);
            channel = channel + 1;
        }
        sample = sample + 1;
    }
    assert(outbuf@ =~= frame);
}

/// Lays the frame made from the one run of `samples` out in `outbuf` for a
/// device with `output_channels` channels: every channel gets the sample.
pub fn produce_mono_audio_frame<T: Copy>(
    output_channels: usize,
    outbuf: &mut Vec<T>,
    samples: &Vec<T>,
)
    requires
        output_channels > 0,
        samples.len() * output_channels <= usize::MAX,
    ensures
        final(outbuf)@ == spec_mono_audio_frame(output_channels as int, samples@),
{
    let ghost channels = output_channels as int;
    let ghost frame = spec_mono_audio_frame(channels, samples@);
    outbuf.truncate(0);
    proof {
        assert(samples.len() * channels >= 0) by (nonlinear_arith)
            requires
                samples.len() >= 0,
                channels > 0,
        ;
    }
    let mut sample: usize = 0;
    while sample < samples.len()
        invariant
            output_channels > 0,
            channels == output_channels,
            sample <= samples.len(),
            samples.len() * output_channels <= usize::MAX,
            frame == spec_mono_audio_frame(channels, samples@),
            frame.len() == samples.len() * channels,
            outbuf@.len() == sample * channels,
            outbuf@.len() <= frame.len(),
            forall|i: int| 0 <= i < outbuf@.len() ==> outbuf@[i] == frame[i],
        decreases samples.len() - sample,
    {
        proof {
            lemma_frame_place(sample as int, channels, samples.len() as int);
        }
        let mut channel: usize = 0;
        while channel < output_channels
            invariant
                output_channels > 0,
                channels == output_channels,
                sample < samples.len(),
                channel <= output_channels,
                frame == spec_mono_audio_frame(channels, samples@),
                frame.len() == samples.len() * channels,
                0 <= sample * channels,
                sample * channels + channels == (sample + 1) * channels,
                (sample + 1) * channels <= frame.len(),
                outbuf@.len() == sample * channels + channel,
                forall|i: int| 0 <= i < outbuf@.len() ==> outbuf@[i] == frame[i],
            decreases output_channels - channel,
        {
            proof {
                lemma_place_of(sample * channels + channel, sample as int, channels);
            }
            outbuf.push(samples[sample]);
            channel = channel + 1;
        }
        sample = sample + 1;
    }
    assert(outbuf@ =~= frame);
}

/// The values of one sample follow those of the samples before it and stay
/// within the frame.
proof fn lemma_frame_place(sample: int, channels: int, samples: int)
    requires
        0 <= sample < samples,
        channels > 0,
    ensures
        0 <= sample * channels,
        sample * channels + channels == (sample + 1) * channels,
        (sample + 1) * channels <= samples * channels,
{
    assert(0 <= sample * channels) by (nonlinear_arith)
        requires
            0 <= sample,
            channels > 0,
    ;
    assert(sample * channels + channels == (sample + 1) * channels) by (nonlinear_arith);
    assert((sample + 1) * channels <= samples * channels) by (nonlinear_arith)
        requires
            sample + 1 <= samples,
            channels > 0,
    ;
}

/// A place among the values of a sample belongs to that sample, at the
/// channel it is the place of.
proof fn lemma_place_of(index: int, sample: int, channels: int)
    requires
        channels > 0,
        sample >= 0,
        sample * channels <= index < (sample + 1) * channels,
    ensures
        index / channels == sample,
        index % channels == index - sample * channels,
{
    assert(index / channels == sample && index % channels == index - sample * channels)
        by (nonlinear_arith)
        requires
            channels > 0,
            sample >= 0,
            sample * channels <= index < (sample + 1) * channels,
    ;
}

/// A frame holds one value for each channel of each sample of `left`,
/// whatever the buffer held before and whatever the samples are.
pub proof fn lemma_frame_length<T>(channels: int, left: Seq<T>, right: Seq<T>, silence: T)
    requires
        channels > 0,
    ensures
        spec_audio_frame(channels, left, right, silence).len() == left.len() * channels,
{
    assert(left.len() * channels >= 0) by (nonlinear_arith)
        requires
            left.len() >= 0,
            channels > 0,
    ;
}

/// A frame made from silence alone is silent throughout, on any number of
/// channels: a frame in which nothing sounded decodes to silence of the
/// frame's full length.
pub proof fn lemma_silence_stays_silent<T>(channels: int, left: Seq<T>, right: Seq<T>, silence: T)
    requires
        channels > 0,
        forall|i: int| 0 <= i < left.len() ==> left[i] == silence,
        forall|i: int| 0 <= i < right.len() ==> right[i] == silence,
    ensures
        spec_audio_frame(channels, left, right, silence).len() == left.len() * channels,
        forall|i: int|
            0 <= i < left.len() * channels ==> #[trigger] spec_audio_frame(
                channels,
                left,
                right,
                silence,
            )[i] == silence,
{
    lemma_frame_length(channels, left, right, silence);
    assert forall|i: int| 0 <= i < left.len() * channels implies #[trigger] spec_audio_frame(
        channels,
        left,
        right,
        silence,
    )[i] == silence by {
        assert(0 <= i / channels) by (nonlinear_arith)
            requires
                0 <= i,
                channels > 0,
        ;
    }
}

/// In a frame the left sample is at the first channel of its place and, on a
/// device with more than one channel, the right sample at the second; every
/// channel beyond the second is silent.
pub proof fn lemma_samples_in_place<T>(
    channels: int,
    left: Seq<T>,
    right: Seq<T>,
    silence: T,
    sample: int,
    channel: int,
)
    requires
        channels > 0,
        0 <= sample < left.len(),
        sample < right.len(),
        0 <= channel < channels,
    ensures
        spec_audio_frame(channels, left, right, silence)[sample * channels + channel] == (
        if channel == 0 {
            left[sample]
        } else if channel == 1 {
            right[sample]
        } else {
            silence
        }),
{
    lemma_frame_place(sample, channels, left.len() as int);
    lemma_place_of(sample * channels + channel, sample, channels);
}

} // verus!
