//! The streaming analyzer for 16 bit little endian audio data.
//!
//! Audio arrives in chunks of any size, its samples interleaved by channel.
//! The analyzer deals the samples out to one window per channel. When every
//! window is full it takes no more until the cycle is completed: the
//! transform is run on the windows, the levels that it gives per channel are
//! combined into one spectrum, and the windows are filled anew.

use crate::fftw::multichannel::MultiChannelFft;
use crate::fftw::plan::valid_fft_size;
use vstd::prelude::*;

verus! {

/// The state of an analyzer, as the contracts see it.
#[verifier::ext_equal]
pub struct AudioFftView {
    /// The size of a window, in samples.
    pub fft_size: nat,
    /// The number of audio channels.
    pub channel_count: nat,
    /// How many samples were taken in since the last cycle was completed.
    pub input_cursor: nat,
    /// The window of each channel.
    pub windows: Seq<Seq<i16>>,
    /// The combined spectrum, one level for each frequency bin.
    pub output: Seq<i32>,
}

impl AudioFftView {
    /// The number of samples that fills every window.
    pub open spec fn required_input(self) -> nat {
        self.channel_count * self.fft_size
    }

    /// The shape of the state: the cursor is within the windows, there is a
    /// window of `fft_size` samples for each channel, and the spectrum has
    /// half as many bins as a window has samples.
    pub open spec fn wf(self) -> bool {
        &&& self.input_cursor <= self.required_input()
        &&& self.windows.len() == self.channel_count
        &&& forall|c: int|
            0 <= c < self.channel_count ==> (#[trigger] self.windows[c]).len() == self.fft_size
        &&& self.output.len() == self.fft_size / 2
    }

    /// Every window is full.
    pub open spec fn is_ready(self) -> bool {
        self.input_cursor == self.required_input()
    }

    /// How many of `offered` samples are taken in: all of them, or as many
    /// as the windows still have room for.
    pub open spec fn consumed(self, offered: nat) -> nat {
        if self.input_cursor + offered <= self.required_input() {
            offered
        } else {
            (self.required_input() - self.input_cursor) as nat
        }
    }

    /// The state after a chunk of samples was offered. The sample at place
    /// `g` of the stream, counted from the start of the cycle, belongs to
    /// channel `g % channel_count` and is sample `g / channel_count` of its
    /// window.
    pub open spec fn fed(self, input: Seq<i16>) -> AudioFftView {
        let taken = self.consumed(input.len());
        AudioFftView {
            input_cursor: self.input_cursor + taken,
            windows: Seq::new(
                self.channel_count,
                |c: int|
                    Seq::new(
                        self.fft_size,
                        |i: int|
                            {
                                let g = i * self.channel_count + c;
                                if self.input_cursor <= g < self.input_cursor + taken {
                                    input[g - self.input_cursor]
                                } else {
                                    self.windows[c][i]
                                }
                            },
                    ),
            ),
            ..self
        }
    }

    /// How many samples the window of a channel holds.
    pub open spec fn fill_cursor(self, channel: int) -> int {
        (self.input_cursor as int) / (self.channel_count as int) + if (self.input_cursor as int) % (
        self.channel_count as int) > channel {
            1int
        } else {
            0int
        }
    }

    /// The state after a cycle was completed: where every window was full,
    /// they are filled anew from the start. Else nothing changes.
    pub open spec fn executed(self) -> AudioFftView {
        if self.is_ready() {
            AudioFftView { input_cursor: 0, ..self }
        } else {
            self
        }
    }
}

/// One sample from its two bytes, the low byte first.
pub open spec fn s16le(lo: u8, hi: u8) -> i16 {
    if hi >= 128 {
        (lo + 256 * hi - 65536) as i16
    } else {
        (lo + 256 * hi) as i16
    }
}

/// The samples that a run of bytes holds. A last byte without a partner is
/// no sample.
pub open spec fn s16le_samples(bytes: Seq<u8>) -> Seq<i16> {
    Seq::new(bytes.len() / 2, |k: int| s16le(bytes[2 * k], bytes[2 * k + 1]))
}

/// A level as it enters the spectrum: silence has no level in decibels and
/// counts as zero.
pub open spec fn level_of(level: Option<i32>) -> i32 {
    match level {
        Some(l) => l,
        None => 0,
    }
}

/// The greatest level of a bin over the first `upto` channels.
pub open spec fn held(channels: Seq<Seq<Option<i32>>>, bin: int, upto: nat) -> int
    decreases upto,
{
    if upto <= 1 {
        level_of(channels[0][bin]) as int
    } else if level_of(channels[upto - 1][bin]) > held(channels, bin, (upto - 1) as nat) {
        level_of(channels[upto - 1][bin]) as int
    } else {
        held(channels, bin, (upto - 1) as nat)
    }
}

/// There is a run of `bins` levels for each of `count` channels.
pub open spec fn shape_ok(channels: Seq<Seq<Option<i32>>>, count: nat, bins: nat) -> bool {
    &&& channels.len() == count
    &&& forall|c: int| 0 <= c < count ==> (#[trigger] channels[c]).len() == bins
}

/// The spectrum that the levels of the channels combine to: for each bin the
/// greatest level of any channel. Without a channel the spectrum stays.
pub open spec fn combined(output: Seq<i32>, channels: Seq<Seq<Option<i32>>>) -> Seq<i32> {
    if channels.len() == 0 {
        output
    } else {
        Seq::new(output.len(), |b: int| held(channels, b, channels.len()) as i32)
    }
}

/// What a list of runs of levels holds.
pub open spec fn levels_of(channels: Seq<Vec<Option<i32>>>) -> Seq<Seq<Option<i32>>> {
    Seq::new(channels.len(), |c: int| channels[c]@)
}

/// The place `cursor` of the stream is sample `cursor / channels` of channel
/// `cursor % channels`, and of no other.
pub proof fn lemma_cell_of_cursor(cursor: int, channels: int, i: int, c: int)
    requires
        channels > 0,
        0 <= c < channels,
        0 <= cursor,
    ensures
        (i * channels + c == cursor) <==> (i == cursor / channels && c == cursor % channels),
{
    vstd::arithmetic::div_mod::lemma_fundamental_div_mod(cursor, channels);
    if i * channels + c == cursor {
        vstd::arithmetic::div_mod::lemma_fundamental_div_mod_converse(cursor, channels, i, c);
    }
    assert(channels * (cursor / channels) == (cursor / channels) * channels) by (nonlinear_arith);
}

/// A place before the end of the windows lies inside a window.
pub proof fn lemma_cursor_in_window(cursor: int, channels: int, size: int)
    requires
        0 <= cursor < channels * size,
        channels > 0,
    ensures
        0 <= cursor / channels < size,
        0 <= cursor % channels < channels,
{
    assert(0 <= cursor / channels < size) by (nonlinear_arith)
        requires
            0 <= cursor < channels * size,
            channels > 0,
    ;
}

/// Feeding a chunk and then another is the same as feeding both at once:
/// the same state comes out, and the same number of samples is taken in.
pub proof fn lemma_feed_concat(v: AudioFftView, a: Seq<i16>, b: Seq<i16>)
    requires
        v.wf(),
    ensures
        v.fed(a).wf(),
        v.fed(a).fed(b) == v.fed(a + b),
        v.consumed(a.len()) + v.fed(a).consumed(b.len()) == v.consumed((a + b).len()),
{
    let one = v.fed(a);
    let two = one.fed(b);
    let both = v.fed(a + b);
    assert(two.windows =~~= both.windows);
    assert(two =~= both);
}

/// An analyzer whose windows are full takes nothing in.
pub proof fn lemma_feed_when_ready(v: AudioFftView, input: Seq<i16>)
    requires
        v.wf(),
        v.is_ready(),
    ensures
        v.fed(input) == v,
        v.consumed(input.len()) == 0,
{
    assert(v.fed(input).windows =~~= v.windows);
    assert(v.fed(input) =~= v);
}

/// Feeding nothing changes nothing.
pub proof fn lemma_feed_nothing(v: AudioFftView)
    requires
        v.wf(),
    ensures
        v.fed(Seq::<i16>::empty()) == v,
        v.consumed(0) == 0,
{
    assert(v.fed(Seq::<i16>::empty()).windows =~~= v.windows);
    assert(v.fed(Seq::<i16>::empty()) =~= v);
}

/// The state after each chunk of a list was fed in turn.
pub open spec fn fed_all(v: AudioFftView, chunks: Seq<Seq<i16>>) -> AudioFftView
    decreases chunks.len(),
{
    if chunks.len() == 0 {
        v
    } else {
        fed_all(v, chunks.drop_last()).fed(chunks.last())
    }
}

/// How many samples were taken in, in all, when each chunk of a list was fed
/// in turn.
pub open spec fn consumed_all(v: AudioFftView, chunks: Seq<Seq<i16>>) -> nat
    decreases chunks.len(),
{
    if chunks.len() == 0 {
        0
    } else {
        consumed_all(v, chunks.drop_last()) + fed_all(v, chunks.drop_last()).consumed(
            chunks.last().len(),
        )
    }
}

/// The chunks of a list, one after the other.
pub open spec fn joined(chunks: Seq<Seq<i16>>) -> Seq<i16>
    decreases chunks.len(),
{
    if chunks.len() == 0 {
        Seq::<i16>::empty()
    } else {
        joined(chunks.drop_last()) + chunks.last()
    }
}

/// Feeding is independent of how the samples are cut into chunks: chunks of
/// any sizes, fed in turn, leave the state that feeding all their samples in
/// one call leaves, and the counts of the calls add up to the count of that
/// one call. No call takes more than it was offered, and once the chunks
/// hold at least what the windows have room for, the counts add up to
/// exactly that room.
pub proof fn lemma_feed_chunks(v: AudioFftView, chunks: Seq<Seq<i16>>)
    requires
        v.wf(),
    ensures
        fed_all(v, chunks).wf(),
        fed_all(v, chunks) == v.fed(joined(chunks)),
        consumed_all(v, chunks) == v.consumed(joined(chunks).len()),
        consumed_all(v, chunks) <= joined(chunks).len(),
        v.input_cursor + joined(chunks).len() >= v.required_input() ==> consumed_all(v, chunks)
            == v.required_input() - v.input_cursor && fed_all(v, chunks).is_ready(),
    decreases chunks.len(),
{
    if chunks.len() == 0 {
        lemma_feed_nothing(v);
    } else {
        lemma_feed_chunks(v, chunks.drop_last());
        lemma_feed_concat(v, joined(chunks.drop_last()), chunks.last());
    }
}

/// Every window is full exactly when the window of each channel holds
/// `fft_size` samples, and no window ever holds more.
pub proof fn lemma_ready_fill_cursors(v: AudioFftView)
    requires
        v.wf(),
        v.channel_count > 0,
    ensures
        forall|c: int| 0 <= c < v.channel_count ==> 0 <= #[trigger] v.fill_cursor(c) <= v.fft_size,
        v.is_ready() <==> (forall|c: int|
            0 <= c < v.channel_count ==> #[trigger] v.fill_cursor(c) == v.fft_size),
        v.input_cursor == 0 ==> (forall|c: int|
            0 <= c < v.channel_count ==> #[trigger] v.fill_cursor(c) == 0),
{
    let cursor = v.input_cursor as int;
    let channels = v.channel_count as int;
    let size = v.fft_size as int;
    vstd::arithmetic::div_mod::lemma_fundamental_div_mod(cursor, channels);
    assert(0 <= cursor / channels <= size && (cursor / channels == size ==> cursor % channels == 0)
        && (cursor == channels * size ==> cursor / channels == size)) by (nonlinear_arith)
        requires
            0 <= cursor <= channels * size,
            channels > 0,
            cursor == channels * (cursor / channels) + cursor % channels,
            0 <= cursor % channels < channels,
    ;
    if forall|c: int| 0 <= c < v.channel_count ==> #[trigger] v.fill_cursor(c) == v.fft_size {
        assert(v.fill_cursor(channels - 1) == size);
        assert(cursor / channels == size);
        assert(channels * size == cursor) by (nonlinear_arith)
            requires
                cursor == channels * (cursor / channels) + cursor % channels,
                cursor / channels == size,
                cursor % channels == 0,
        ;
    }
}

/// In the combined spectrum a bin has the greatest level that it has in any
/// channel: no channel is above it, and one channel reaches it.
pub proof fn lemma_max_hold(channels: Seq<Seq<Option<i32>>>, bin: int, upto: nat)
    requires
        1 <= upto,
    ensures
        forall|c: int| 0 <= c < upto ==> level_of(#[trigger] channels[c][bin]) <= held(channels, bin, upto),
        exists|c: int| 0 <= c < upto && level_of(#[trigger] channels[c][bin]) == held(channels, bin, upto),
    decreases upto,
{
    if upto <= 1 {
        assert(level_of(channels[0][bin]) == held(channels, bin, upto));
    } else {
        lemma_max_hold(channels, bin, (upto - 1) as nat);
        if level_of(channels[upto - 1][bin]) > held(channels, bin, (upto - 1) as nat) {
            assert(level_of(channels[upto - 1][bin]) == held(channels, bin, upto));
        } else {
            let c = choose|c: int|
                0 <= c < upto - 1 && level_of(#[trigger] channels[c][bin]) == held(
                    channels,
                    bin,
                    (upto - 1) as nat,
                );
            assert(level_of(channels[c][bin]) == held(channels, bin, upto));
        }
    }
}

/// Audio analyzer for 16 bit little endian audio data.
pub struct AudioFft {
    /// The windows of the channels.
    multichan_fft: MultiChannelFft,
    /// How much data has been taken in. Input is 16 bit integers,
    /// interleaved by channel, so the greatest value of the cursor is
    /// `channel_count * fft_size`.
    input_cursor: usize,
    /// The number of samples needed to fill every window.
    required_input: usize,
    /// The size of a window.
    fft_size: usize,
    /// The number of audio channels, 2 for stereo audio.
    channel_count: usize,
    /// Holds the spectrum of the combined channels.
    output: Vec<i32>,
}

impl View for AudioFft {
    type V = AudioFftView;

    closed spec fn view(&self) -> AudioFftView {
        AudioFftView {
            fft_size: self.fft_size as nat,
            channel_count: self.channel_count as nat,
            input_cursor: self.input_cursor as nat,
            windows: self.multichan_fft.windows(),
            output: self.output@,
        }
    }
}

impl AudioFft {
    /// The parts of the analyzer agree with each other, and its state has
    /// the shape that `AudioFftView::wf` describes.
    pub closed spec fn wf(&self) -> bool {
        &&& self.multichan_fft.wf()
        &&& self.multichan_fft.spec_size() == self.fft_size
        &&& self.multichan_fft.spec_channel_count() == self.channel_count
        &&& self.required_input == self.channel_count * self.fft_size
        &&& self@.wf()
    }

    /// A well-formed analyzer has a well-formed state.
    pub proof fn lemma_wf_view(&self)
        requires
            self.wf(),
        ensures
            self@.wf(),
    {
    }

    /// Create a new analyzer for windows of `fft_size` samples on each of
    /// `channel_count` channels. Every window starts empty, all its samples
    /// zero, and so does the spectrum.
    pub fn new(fft_size: usize, channel_count: usize) -> (fft: AudioFft)
        requires
            valid_fft_size(fft_size as int),
            fft_size * channel_count <= usize::MAX,
        ensures
            fft.wf(),
            fft@ == (AudioFftView {
                fft_size: fft_size as nat,
                channel_count: channel_count as nat,
                input_cursor: 0,
                windows: Seq::new(
                    channel_count as nat,
                    |c: int| Seq::new(fft_size as nat, |i: int| 0i16),
                ),
                output: Seq::new((fft_size / 2) as nat, |b: int| 0i32),
            }),
    {
        let bins: usize = fft_size / 2;
        let mut out_vec: Vec<i32> = Vec::with_capacity(bins);
        let mut b: usize = 0;
        while b < bins
            invariant
                b <= bins,
                out_vec@.len() == b,
                forall|k: int| 0 <= k < b ==> out_vec@[k] == 0i32,
            decreases bins - b,
        {
            out_vec.push(0);
            b = b + 1;
        }
        assert(channel_count * fft_size == fft_size * channel_count) by (nonlinear_arith);
        let multichan_fft = MultiChannelFft::new(fft_size, channel_count);
        proof {
            multichan_fft.lemma_wf_windows();
        }
        let fft = AudioFft {
            multichan_fft,
            input_cursor: 0,
            required_input: channel_count * fft_size,
            fft_size,
            channel_count,
            output: out_vec,
        };
        assert(fft@.output =~= Seq::new((fft_size / 2) as nat, |b: int| 0i32));
        fft
    }

    /// The size of a window, in samples.
    pub fn get_fft_size(&self) -> (n: usize)
        ensures
            n == self@.fft_size,
    {
        self.fft_size
    }

    /// The number of audio channels.
    pub fn get_channel_count(&self) -> (n: usize)
        ensures
            n == self@.channel_count,
    {
        self.channel_count
    }

    /// How many samples were taken in since the last cycle was completed.
    pub fn get_input_cursor(&self) -> (n: usize)
        ensures
            n == self@.input_cursor,
    {
        self.input_cursor
    }

    /// Whether every window is full, so that the transform can be run.
    pub fn is_ready(&self) -> (ready: bool)
        requires
            self.wf(),
        ensures
            ready == self@.is_ready(),
    {
        self.input_cursor == self.required_input
    }

    /// How many samples the window of a channel holds.
    pub fn fill_cursor(&self, channel: usize) -> (n: usize)
        requires
            self.wf(),
            channel < self@.channel_count,
        ensures
            n == self@.fill_cursor(channel as int),
            n <= self@.fft_size,
    {
        proof {
            lemma_ready_fill_cursors(self@);
            assert(self@.fill_cursor(channel as int) <= self@.fft_size);
        }
        let whole: usize = self.input_cursor / self.channel_count;
        if self.input_cursor % self.channel_count > channel {
            whole + 1
        } else {
            whole
        }
    }

    /// Borrow the window of a channel.
    pub fn get_channel(&self, index: usize) -> (r: Option<&Vec<i16>>)
        requires
            self.wf(),
        ensures
            match r {
                Some(w) => index < self@.channel_count && w@ == self@.windows[index as int],
                None => index >= self@.channel_count,
            },
    {
        self.multichan_fft.get_channel(index)
    }

    /// Takes in one sample.
    fn store(&mut self, value: i16)
        requires
            old(self).wf(),
            !old(self)@.is_ready(),
        ensures
            final(self).wf(),
            final(self)@ == old(self)@.fed(seq![value]),
            final(self).input_cursor == old(self).input_cursor + 1,
    {
        proof {
            self.multichan_fft.lemma_wf_windows();
            assert(self.channel_count > 0) by (nonlinear_arith)
                requires
                    0 <= self.input_cursor < self.channel_count * self.fft_size,
            ;
            lemma_cursor_in_window(
                self.input_cursor as int,
                self.channel_count as int,
                self.fft_size as int,
            );
        }
        // The channel number and index the current value is for
        let channel_num: usize = self.input_cursor % self.channel_count;
        let channel_index: usize = self.input_cursor / self.channel_count;
        self.multichan_fft.set_sample(channel_num, channel_index, value);
        self.input_cursor = self.input_cursor + 1;
        proof {
            let before = old(self)@;
            let after = before.fed(seq![value]);
            assert forall|c: int, i: int|
                0 <= c < before.channel_count && 0 <= i < before.fft_size implies (
            #[trigger] self@.windows[c][i]) == after.windows[c][i] by {
                lemma_cell_of_cursor(
                    before.input_cursor as int,
                    before.channel_count as int,
                    i,
                    c,
                );
            }
            assert(self@.windows =~~= after.windows);
            assert(self@ =~= after);
        }
    }

    /// Allows a client to feed data in chunks. The audio server gives audio
    /// data in chunks of whatever size is at hand.
    ///
    /// Takes samples from the start of `input` until the input ends or every
    /// window is full, and returns how many it took. Where the number is
    /// less than the length of the input, the analyzer is ready.
    pub fn feed_data(&mut self, input: &[i16]) -> (bytes_read: usize)
        requires
            old(self).wf(),
        ensures
            final(self).wf(),
            final(self)@ == old(self)@.fed(input@),
            bytes_read == old(self)@.consumed(input@.len()),
            bytes_read <= input@.len(),
            bytes_read < input@.len() ==> final(self)@.is_ready(),
    {
        let mut bytes_read: usize = 0;
        proof {
            lemma_feed_nothing(self@);
            assert(input@.subrange(0, 0) =~= Seq::<i16>::empty());
        }
        while bytes_read < input.len() && self.input_cursor != self.required_input
            invariant
                old(self).wf(),
                self.wf(),
                bytes_read <= input@.len(),
                self@ == old(self)@.fed(input@.subrange(0, bytes_read as int)),
                self.input_cursor == old(self).input_cursor + bytes_read,
            decreases input@.len() - bytes_read,
        {
            let value: i16 = input[bytes_read];
            self.store(value);
            proof {
                lemma_feed_concat(
                    old(self)@,
                    input@.subrange(0, bytes_read as int),
                    seq![value],
                );
                assert(input@.subrange(0, bytes_read as int) + seq![value] =~= input@.subrange(
                    0,
                    bytes_read + 1,
                ));
            }
            bytes_read = bytes_read + 1;
        }
        proof {
            let head = input@.subrange(0, bytes_read as int);
            let tail = input@.subrange(bytes_read as int, input@.len() as int);
            assert(head + tail =~= input@);
            lemma_feed_concat(old(self)@, head, tail);
            if bytes_read < input@.len() {
                lemma_feed_when_ready(self@, tail);
            } else {
                lemma_feed_nothing(self@);
                assert(tail =~= Seq::<i16>::empty());
            }
        }
        bytes_read
    }

    /// Feeds the samples that a run of bytes holds, each sample two bytes
    /// with the low byte first, and returns how many bytes were taken: two
    /// for each sample. A last byte without a partner is never taken.
    pub fn feed_u8_data(&mut self, input: &[u8]) -> (bytes_read: usize)
        requires
            old(self).wf(),
        ensures
            final(self).wf(),
            final(self)@ == old(self)@.fed(s16le_samples(input@)),
            bytes_read == 2 * old(self)@.consumed(s16le_samples(input@).len()),
            bytes_read <= input@.len(),
            bytes_read + 1 < input@.len() ==> final(self)@.is_ready(),
    {
        let count: usize = input.len() / 2;
        let ghost samples = s16le_samples(input@);
        let mut taken: usize = 0;
        proof {
            lemma_feed_nothing(self@);
            assert(samples.subrange(0, 0) =~= Seq::<i16>::empty());
        }
        while taken < count && self.input_cursor != self.required_input
            invariant
                old(self).wf(),
                self.wf(),
                count == input@.len() / 2,
                input@.len() <= usize::MAX,
                samples == s16le_samples(input@),
                taken <= count,
                self@ == old(self)@.fed(samples.subrange(0, taken as int)),
                self.input_cursor == old(self).input_cursor + taken,
            decreases count - taken,
        {
            let value: i16 = sample_of(input[2 * taken], input[2 * taken + 1]);
            self.store(value);
            proof {
                lemma_feed_concat(old(self)@, samples.subrange(0, taken as int), seq![value]);
                assert(samples.subrange(0, taken as int) + seq![value] =~= samples.subrange(
                    0,
                    taken + 1,
                ));
            }
            taken = taken + 1;
        }
        proof {
            let head = samples.subrange(0, taken as int);
            let tail = samples.subrange(taken as int, samples.len() as int);
            assert(head + tail =~= samples);
            lemma_feed_concat(old(self)@, head, tail);
            if taken < count {
                lemma_feed_when_ready(self@, tail);
            } else {
                lemma_feed_nothing(self@);
                assert(tail =~= Seq::<i16>::empty());
            }
        }
        2 * taken
    }

    /// Completes a cycle. Where every window is full, the windows are
    /// filled anew from the start, and the result is true. Where one still
    /// has room, nothing changes and the result is false: there is nothing
    /// yet to run the transform on.
    ///
    /// The transform itself is run by the caller, on the windows as they are
    /// before this call.
    pub fn execute(&mut self) -> (done: bool)
        requires
            old(self).wf(),
        ensures
            final(self).wf(),
            done == old(self)@.is_ready(),
            final(self)@ == old(self)@.executed(),
    {
        if self.input_cursor == self.required_input {
            self.input_cursor = 0;
            assert(self@ =~= old(self)@.executed());
            true
        } else {
            false
        }
    }

    /// Computes the combined output of all channels into the spectrum of the
    /// analyzer.
    ///
    /// `channels` holds, for each channel, the level of each frequency bin,
    /// `None` for a bin that is silent. Silence counts as level zero. The
    /// first channel overwrites the spectrum and each further channel only
    /// raises it, so that a bin ends with the greatest level that it has in
    /// any channel.
    ///
    /// The result says whether `channels` has the shape of this analyzer:
    /// one run of levels for each channel, of one level for each bin. Where
    /// it has not, nothing changes.
    pub fn compute_output(&mut self, channels: &Vec<Vec<Option<i32>>>) -> (ok: bool)
        requires
            old(self).wf(),
        ensures
            final(self).wf(),
            ok == shape_ok(
                levels_of(channels@),
                old(self)@.channel_count,
                old(self)@.output.len(),
            ),
            ok ==> final(self)@ == (AudioFftView {
                output: combined(old(self)@.output, levels_of(channels@)),
                ..old(self)@
            }),
            !ok ==> final(self)@ == old(self)@,
    {
        let bins: usize = self.output.len();
        let ghost levels = levels_of(channels@);
        if channels.len() != self.channel_count {
            return false;
        }
        let mut c: usize = 0;
        while c < channels.len()
            invariant
                self.wf(),
                self@ == old(self)@,
                c <= channels@.len(),
                channels@.len() == old(self)@.channel_count,
                bins == old(self)@.output.len(),
                levels == levels_of(channels@),
                forall|k: int| 0 <= k < c ==> (#[trigger] levels[k]).len() == bins,
            decreases channels.len() - c,
        {
            if channels[c].len() != bins {
                assert(levels[c as int].len() != bins);
                return false;
            }
            c = c + 1;
        }
        assert(shape_ok(levels, self@.channel_count, self@.output.len()));
        let mut first: bool = true;
        let mut done: usize = 0;
        while done < channels.len()
            invariant
                old(self).wf(),
                self.wf(),
                done <= channels@.len(),
                first == (done == 0),
                levels == levels_of(channels@),
                shape_ok(levels, old(self)@.channel_count, bins as nat),
                bins == old(self)@.output.len(),
                self.output@.len() == bins,
                self@ == (AudioFftView { output: self.output@, ..old(self)@ }),
                done == 0 ==> self.output@ == old(self)@.output,
                done > 0 ==> forall|b: int|
                    0 <= b < bins ==> #[trigger] self.output@[b] == held(levels, b, done as nat),
            decreases channels.len() - done,
        {
            let channel: &Vec<Option<i32>> = &channels[done];
            assert(channel@ == levels[done as int]);
            let mut index: usize = 0;
            while index < bins
                invariant
                    old(self).wf(),
                    self.wf(),
                    done < channels@.len(),
                    first == (done == 0),
                    index <= bins,
                    levels == levels_of(channels@),
                    channel@ == levels[done as int],
                    channel@.len() == bins,
                    bins == old(self)@.output.len(),
                    self.output@.len() == bins,
                    self@ == (AudioFftView { output: self.output@, ..old(self)@ }),
                    forall|b: int|
                        0 <= b < index ==> #[trigger] self.output@[b] == held(
                            levels,
                            b,
                            (done + 1) as nat,
                        ),
                    done == 0 ==> forall|b: int|
                        index <= b < bins ==> #[trigger] self.output@[b] == old(self)@.output[b],
                    done > 0 ==> forall|b: int|
                        index <= b < bins ==> #[trigger] self.output@[b] == held(
                            levels,
                            b,
                            done as nat,
                        ),
                decreases bins - index,
            {
                let power: i32 = match channel[index] {
                    Some(level) => level,
                    None => 0,
                };
                // If it's bigger than the biggest value for this bin for
                // this execution, then replace the current value
                if first || power > self.output[index] {
                    self.output[index] = power;
                }
                index = index + 1;
            }
            first = false;
            done = done + 1;
        }
        proof {
            let want = combined(old(self)@.output, levels);
            if channels@.len() > 0 {
                assert forall|b: int| 0 <= b < bins implies self.output@[b] == want[b] by {
                    lemma_max_hold(levels, b, channels@.len());
                }
            }
            assert(self.output@ =~= want);
        }
        true
    }

    /// Borrow the combined spectrum.
    pub fn get_output(&self) -> (output: &Vec<i32>)
        ensures
            output@ == self@.output,
    {
        &self.output
    }
}

/// One sample from its two bytes, the low byte first.
pub fn sample_of(lo: u8, hi: u8) -> (sample: i16)
    ensures
        sample == s16le(lo, hi),
{
    let raw: u16 = ((hi as u16) << 8) | (lo as u16);
    assert(raw == lo + 256 * hi) by (bit_vector)
        requires
            raw == ((hi as u16) << 8) | (lo as u16),
    ;
    if raw >= 32768 {
        ((raw - 32768) as i16) + i16::MIN
    } else {
        raw as i16
    }
}

} // verus!
