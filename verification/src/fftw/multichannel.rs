//! The input windows of the transform engine, one per audio channel.

use vstd::prelude::*;

verus! {

/// The input side of a transform for multiple channels of data: one window
/// of `size` samples for each channel. A sample is kept as it came in. The
/// taper is applied by whoever runs the transform.
pub struct MultiChannelFft {
    /// The size of the transforms to be run.
    size: usize,
    /// The number of channels.
    channel_count: usize,
    /// The window of each channel.
    channel_inputs: Vec<Vec<i16>>,
}

/// What a list of windows holds.
pub open spec fn windows_of(inputs: Seq<Vec<i16>>) -> Seq<Seq<i16>> {
    Seq::new(inputs.len(), |c: int| inputs[c]@)
}

impl MultiChannelFft {
    /// The windows, by channel.
    pub closed spec fn windows(&self) -> Seq<Seq<i16>> {
        windows_of(self.channel_inputs@)
    }

    /// The size of each window.
    pub closed spec fn spec_size(&self) -> nat {
        self.size as nat
    }

    /// The number of channels.
    pub closed spec fn spec_channel_count(&self) -> nat {
        self.channel_count as nat
    }

    /// There is one window for each channel, and each has `size` samples.
    pub closed spec fn wf(&self) -> bool {
        &&& self.channel_inputs@.len() == self.channel_count
        &&& forall|c: int|
            0 <= c < self.channel_inputs@.len() ==> (#[trigger] self.channel_inputs@[c])@.len()
                == self.size
    }

    /// What `wf` says, over the windows.
    pub proof fn lemma_wf_windows(&self)
        requires
            self.wf(),
        ensures
            self.windows().len() == self.spec_channel_count(),
            forall|c: int|
                0 <= c < self.spec_channel_count() ==> (#[trigger] self.windows()[c]).len()
                    == self.spec_size(),
    {
    }

    /// Create the windows of `channel_count` channels, all samples zero.
    pub fn new(size: usize, channel_count: usize) -> (m: MultiChannelFft)
        ensures
            m.wf(),
            m.spec_size() == size,
            m.spec_channel_count() == channel_count,
            m.windows() == Seq::new(channel_count as nat, |c: int| Seq::new(size as nat, |i: int| 0i16)),
    {
        let mut channel_inputs: Vec<Vec<i16>> = Vec::with_capacity(channel_count);
        let mut c: usize = 0;
        while c < channel_count
            invariant
                c <= channel_count,
                channel_inputs@.len() == c,
                forall|k: int|
                    0 <= k < c ==> (#[trigger] channel_inputs@[k])@ == Seq::new(
                        size as nat,
                        |i: int| 0i16,
                    ),
            decreases channel_count - c,
        {
            let mut window: Vec<i16> = Vec::with_capacity(size);
            let mut i: usize = 0;
            while i < size
                invariant
                    i <= size,
                    window@.len() == i,
                    forall|k: int| 0 <= k < i ==> window@[k] == 0i16,
                decreases size - i,
            {
                window.push(0);
                i = i + 1;
            }
            assert(window@ =~= Seq::new(size as nat, |i: int| 0i16));
            channel_inputs.push(window);
            c = c + 1;
        }
        let m = MultiChannelFft { size, channel_count, channel_inputs };
        assert(m.windows() =~~= Seq::new(
            channel_count as nat,
            |c: int| Seq::new(size as nat, |i: int| 0i16),
        ));
        m
    }

    /// The size of the transforms to be run.
    pub fn get_size(&self) -> (n: usize)
        ensures
            n == self.spec_size(),
    {
        self.size
    }

    /// The number of channels.
    pub fn get_channel_count(&self) -> (n: usize)
        ensures
            n == self.spec_channel_count(),
    {
        self.channel_count
    }

    /// Return a borrowed reference to the window of a channel.
    pub fn get_channel(&self, index: usize) -> (r: Option<&Vec<i16>>)
        requires
            self.wf(),
        ensures
            match r {
                Some(w) => index < self.spec_channel_count() && w@ == self.windows()[index as int],
                None => index >= self.spec_channel_count(),
            },
    {
        if index < self.channel_inputs.len() {
            Some(&self.channel_inputs[index])
        } else {
            None
        }
    }

    /// Puts one sample into the window of a channel.
    pub fn set_sample(&mut self, channel: usize, index: usize, value: i16)
        requires
            old(self).wf(),
            channel < old(self).spec_channel_count(),
            index < old(self).spec_size(),
        ensures
            final(self).wf(),
            final(self).spec_size() == old(self).spec_size(),
            final(self).spec_channel_count() == old(self).spec_channel_count(),
            final(self).windows() == old(self).windows().update(
                channel as int,
                old(self).windows()[channel as int].update(index as int, value),
            ),
    {
        self.channel_inputs[channel][index] = value;
        assert(self.windows() =~~= old(self).windows().update(
            channel as int,
            old(self).windows()[channel as int].update(index as int, value),
        ));
    }
}

} // verus!
