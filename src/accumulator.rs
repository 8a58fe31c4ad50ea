use vstd::prelude::*;

verus! {

/// Per-channel backlog of decoded samples waiting to be cut into blocks of a
/// fixed size. All channels always hold the same number of samples.
pub struct SampleAccumulator<T> {
    backlog: Vec<Vec<T>>,
}

/// `n` copies of `pad`.
pub open spec fn padding<T>(pad: T, n: nat) -> Seq<T> {
    Seq::new(n, |i: int| pad)
}

impl<T: Copy> SampleAccumulator<T> {
    /// The backlog, channel by channel, oldest sample first.
    pub closed spec fn view(&self) -> Seq<Seq<T>> {
        self.backlog@.map_values(|v: Vec<T>| v@)
    }

    /// At least one channel, and every channel as long as the first.
    pub open spec fn wf(&self) -> bool {
        &&& self@.len() >= 1
        &&& forall|c: int| 0 <= c < self@.len() ==> #[trigger] self@[c].len() == self@[0].len()
    }

    /// Samples waiting in each channel.
    pub open spec fn pending_spec(&self) -> nat {
        self@[0].len()
    }

    /// An empty backlog of `channels` channels.
    pub fn new(channels: usize) -> (r: Self)
        requires
            channels >= 1,
        ensures
            r.wf(),
            r@.len() == channels,
            forall|c: int| 0 <= c < channels ==> #[trigger] r@[c].len() == 0,
    {
        let mut backlog: Vec<Vec<T>> = Vec::new();
        let mut i: usize = 0;
        while i < channels
            invariant
                i <= channels,
                backlog@.len() == i,
                forall|c: int| 0 <= c < i ==> #[trigger] backlog@[c]@.len() == 0,
            decreases channels - i,
        {
            backlog.push(Vec::new());
            i = i + 1;
        }
        let r = SampleAccumulator { backlog };
        assert(r@.len() == channels);
        r
    }

    /// Number of channels.
    pub fn channel_count(&self) -> (r: usize)
        ensures
            r == self@.len(),
    {
        self.backlog.len()
    }

    /// Samples waiting in each channel.
    pub fn pending(&self) -> (r: usize)
        requires
            self.wf(),
        ensures
            r == self.pending_spec(),
    {
        self.backlog[0].len()
    }

    /// Appends one decoded packet, given channel by channel, behind what is
    /// already waiting.
    pub fn append_packet(&mut self, packet: &Vec<Vec<T>>)
        requires
            old(self).wf(),
            packet@.len() == old(self)@.len(),
            forall|c: int| 0 <= c < packet@.len() ==> #[trigger] packet@[c]@.len() == packet@[0]@.len(),
            old(self).pending_spec() + packet@[0]@.len() <= usize::MAX,
        ensures
            final(self).wf(),
            final(self)@.len() == old(self)@.len(),
            forall|c: int| 0 <= c < old(self)@.len() ==> #[trigger] final(self)@[c] == old(self)@[c] + packet@[c]@,
    {
        let channels = self.backlog.len();
        let ghost start = self@;
        let mut ch: usize = 0;
        while ch < channels
            invariant
                channels == self.backlog@.len(),
                channels == packet@.len(),
                start.len() == channels,
                ch <= channels,
                forall|c: int| 0 <= c < channels ==> #[trigger] packet@[c]@.len() == packet@[0]@.len(),
                forall|c: int| 0 <= c < channels ==> #[trigger] start[c].len() == start[0].len(),
                start[0].len() + packet@[0]@.len() <= usize::MAX,
                forall|c: int| 0 <= c < ch ==> #[trigger] self.backlog@[c]@ == start[c] + packet@[c]@,
                forall|c: int| ch <= c < channels ==> #[trigger] self.backlog@[c]@ == start[c],
            decreases channels - ch,
        {
            let src = &packet[ch];
            let mut lane: Vec<T> = Vec::new();
            std::mem::swap(&mut lane, &mut self.backlog[ch]);
            let ghost lane0 = lane@;
            let mut i: usize = 0;
            while i < src.len()
                invariant
                    i <= src@.len(),
                    lane0.len() + src@.len() <= usize::MAX,
                    lane@ == lane0 + src@.subrange(0, i as int),
                decreases src@.len() - i,
            {
                lane.push(src[i]);
                proof {
                    assert(src@.subrange(0, i + 1) == src@.subrange(0, i as int).push(src@[i as int]));
                }
                i = i + 1;
            }
            proof {
                assert(src@.subrange(0, src@.len() as int) == src@);
            }
            self.backlog.set(ch, lane);
            ch = ch + 1;
        }
        proof {
            assert forall|c: int| 0 <= c < channels implies #[trigger] self@[c] == start[c] + packet@[c]@ by {
            }
            assert forall|c: int| 0 <= c < channels implies #[trigger] self@[c].len() == self@[0].len() by {
                assert(self@[c] == start[c] + packet@[c]@);
                assert(self@[0] == start[0] + packet@[0]@);
            }
        }
    }

    /// Whether a full block of `block` samples waits in every channel.
    pub fn has_block(&self, block: usize) -> (r: bool)
        requires
            self.wf(),
        ensures
            r == (self.pending_spec() >= block),
    {
        self.backlog[0].len() >= block
    }

    /// Removes the oldest `block` samples of every channel and returns them.
    pub fn drain_block(&mut self, block: usize) -> (r: Vec<Vec<T>>)
        requires
            old(self).wf(),
            old(self).pending_spec() >= block,
        ensures
            final(self).wf(),
            final(self)@.len() == old(self)@.len(),
            r@.len() == old(self)@.len(),
            forall|c: int| 0 <= c < old(self)@.len() ==> {
                &&& #[trigger] r@[c]@ == old(self)@[c].subrange(0, block as int)
                &&& final(self)@[c] == old(self)@[c].subrange(block as int, old(self)@[c].len() as int)
            },
    {
        let channels = self.backlog.len();
        let ghost start = self@;
        let mut out: Vec<Vec<T>> = Vec::with_capacity(channels);
        let mut ch: usize = 0;
        while ch < channels
            invariant
                channels == self.backlog@.len(),
                start.len() == channels,
                ch <= channels,
                out@.len() == ch,
                block <= start[0].len(),
                forall|c: int| 0 <= c < channels ==> #[trigger] start[c].len() == start[0].len(),
                forall|c: int| 0 <= c < ch ==> #[trigger] out@[c]@ == start[c].subrange(0, block as int),
                forall|c: int|
                    0 <= c < ch ==> #[trigger] self.backlog@[c]@ == start[c].subrange(
                        block as int,
                        start[c].len() as int,
                    ),
                forall|c: int| ch <= c < channels ==> #[trigger] self.backlog@[c]@ == start[c],
            decreases channels - ch,
        {
            let mut lane: Vec<T> = Vec::new();
            std::mem::swap(&mut lane, &mut self.backlog[ch]);
            let rest = lane.split_off(block);
            self.backlog.set(ch, rest);
            out.push(lane);
            ch = ch + 1;
        }
        proof {
            assert forall|c: int| 0 <= c < channels implies #[trigger] self@[c].len() == self@[0].len() by {
                assert(self@[c] == self.backlog@[c]@);
                assert(self@[0] == self.backlog@[0]@);
            }
            assert forall|c: int|
                0 <= c < channels implies #[trigger] self@[c] == start[c].subrange(
                block as int,
                start[c].len() as int,
            ) by {
                assert(self@[c] == self.backlog@[c]@);
            }
        }
        out
    }

    /// At the end of the stream: when samples are left, pads every channel
    /// with `pad` up to `block` samples and returns that last block, leaving
    /// the backlog empty; with nothing left, returns `None`.
    pub fn drain_final(&mut self, block: usize, pad: T) -> (r: Option<Vec<Vec<T>>>)
        requires
            old(self).wf(),
            old(self).pending_spec() <= block,
        ensures
            final(self).wf(),
            final(self)@.len() == old(self)@.len(),
            forall|c: int| 0 <= c < old(self)@.len() ==> #[trigger] final(self)@[c].len() == 0,
            old(self).pending_spec() == 0 ==> r is None,
            old(self).pending_spec() > 0 ==> (r matches Some(b) && b@.len() == old(self)@.len()
                && forall|c: int| 0 <= c < old(self)@.len() ==> #[trigger] b@[c]@
                    == old(self)@[c] + padding(pad, (block - old(self)@[c].len()) as nat)),
    {
        if self.backlog[0].len() == 0 {
            return None;
        }
        let channels = self.backlog.len();
        let ghost start = self@;
        let mut out: Vec<Vec<T>> = Vec::with_capacity(channels);
        let mut ch: usize = 0;
        while ch < channels
            invariant
                channels == self.backlog@.len(),
                start.len() == channels,
                ch <= channels,
                out@.len() == ch,
                start[0].len() <= block,
                forall|c: int| 0 <= c < channels ==> #[trigger] start[c].len() == start[0].len(),
                forall|c: int|
                    0 <= c < ch ==> #[trigger] out@[c]@ == start[c] + padding(
                        pad,
                        (block - start[c].len()) as nat,
                    ),
                forall|c: int| 0 <= c < ch ==> #[trigger] self.backlog@[c]@.len() == 0,
                forall|c: int| ch <= c < channels ==> #[trigger] self.backlog@[c]@ == start[c],
            decreases channels - ch,
        {
            let mut lane: Vec<T> = Vec::new();
            std::mem::swap(&mut lane, &mut self.backlog[ch]);
            let ghost lane0 = lane@;
            while lane.len() < block
                invariant
                    lane0.len() <= block,
                    lane0.len() <= lane@.len() <= block,
                    lane@ == lane0 + padding(pad, (lane@.len() - lane0.len()) as nat),
                decreases block - lane@.len(),
            {
                let ghost before = lane@;
                lane.push(pad);
                proof {
                    assert(lane@ =~= lane0 + padding(pad, (lane@.len() - lane0.len()) as nat));
                }
            }
            out.push(lane);
            ch = ch + 1;
        }
        proof {
            assert forall|c: int| 0 <= c < channels implies #[trigger] self@[c].len() == 0 by {
                assert(self@[c] == self.backlog@[c]@);
            }
        }
        Some(out)
    }
}

} // verus!
