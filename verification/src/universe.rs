//! The DMX universe: a fixed buffer of 512 channel values.
//!
//! Index `i` of the buffer carries DMX channel `i + 1`. A write covers a
//! consecutive range of channels and either lands completely or — when it
//! would run past the end of the universe — is rejected without touching
//! any channel.

use vstd::prelude::*;

verus! {

/// Number of channels in one DMX512 universe, and the size in bytes of one
/// transmitted frame.
pub const UNIVERSE_CHANNELS: usize = 512;

/// A rejected write: the range starting at `offset` with `len` bytes does
/// not fit into the 512 channels.
#[derive(Clone, Copy, Debug, PartialEq, Eq, Structural)]
pub struct BoundsError {
    /// First channel index the write was aimed at.
    pub offset: usize,
    /// Number of bytes the write carried.
    pub len: usize,
}

/// The buffer a write produces: `values` laid over `buf` starting at
/// `offset`, everything else as before.
pub open spec fn spec_set(buf: Seq<u8>, offset: int, values: Seq<u8>) -> Seq<u8> {
    Seq::new(
        buf.len(),
        |i: int|
            if offset <= i < offset + values.len() {
                values[i - offset]
            } else {
                buf[i]
            },
    )
}

/// The buffer a multi-channel write produces: each `(channel, value)` pair
/// applied in order, so that where two pairs aim at the same channel the
/// later one wins.
pub open spec fn spec_set_channels(buf: Seq<u8>, writes: Seq<(u8, u8)>) -> Seq<u8>
    decreases writes.len(),
{
    if writes.len() == 0 {
        buf
    } else {
        spec_set_channels(buf, writes.drop_last()).update(
            writes.last().0 as int,
            writes.last().1,
        )
    }
}

/// Whether some pair of `writes` aims at channel `c`.
pub open spec fn writes_channel(writes: Seq<(u8, u8)>, c: int) -> bool {
    exists|j: int| 0 <= j < writes.len() && (#[trigger] writes[j]).0 == c
}

/// The in-memory universe buffer. Not shared by itself; see
/// [`crate::shared::SharedUniverse`] for the lock that writers and the
/// transmission loop go through.
pub struct Universe {
    channels: Vec<u8>,
}

impl View for Universe {
    type V = Seq<u8>;

    closed spec fn view(&self) -> Seq<u8> {
        self.channels@
    }
}

impl Universe {
    /// A universe is well-formed when it holds exactly one byte per channel.
    pub closed spec fn wf(&self) -> bool {
        self.channels@.len() == UNIVERSE_CHANNELS
    }

    /// A fresh universe: every channel at zero.
    pub fn new() -> (u: Universe)
        ensures
            u.wf(),
            u@.len() == UNIVERSE_CHANNELS,
            forall|i: int| 0 <= i < UNIVERSE_CHANNELS ==> u@[i] == 0,
    {
        let mut channels: Vec<u8> = Vec::new();
        let mut i: usize = 0;
        while i < UNIVERSE_CHANNELS
            invariant
                i <= UNIVERSE_CHANNELS,
                channels@.len() == i,
                forall|j: int| 0 <= j < i ==> channels@[j] == 0,
            decreases UNIVERSE_CHANNELS - i,
        {
            channels.push(0);
            i = i + 1;
        }
        Universe { channels }
    }

    /// Write `values` into the consecutive channels starting at `offset`.
    ///
    /// Succeeds exactly when the whole range fits into the universe; a
    /// range that would run out of bounds is rejected with a
    /// [`BoundsError`] and no channel is changed.
    pub fn set(&mut self, offset: usize, values: &Vec<u8>) -> (r: Result<(), BoundsError>)
        requires
            old(self).wf(),
        ensures
            final(self).wf(),
            r is Ok <==> offset + values@.len() <= UNIVERSE_CHANNELS,
            r is Ok ==> final(self)@ == spec_set(old(self)@, offset as int, values@),
            r is Err ==> final(self)@ == old(self)@,
            r matches Err(e) ==> e == (BoundsError { offset, len: values.len() }),
    {
        if offset > UNIVERSE_CHANNELS || values.len() > UNIVERSE_CHANNELS - offset {
            return Err(BoundsError { offset, len: values.len() });
        }
        let mut i: usize = 0;
        while i < values.len()
            invariant
                self.channels@.len() == UNIVERSE_CHANNELS,
                i <= values@.len(),
                offset + values@.len() <= UNIVERSE_CHANNELS,
                forall|j: int|
                    0 <= j < UNIVERSE_CHANNELS ==> self.channels@[j] == (if offset <= j
                        < offset + i {
                        values@[j - offset]
                    } else {
                        old(self).channels@[j]
                    }),
            decreases values@.len() - i,
        {
            self.channels[offset + i] = values[i];
            i = i + 1;
        }
        proof {
            assert(self@ =~= spec_set(old(self)@, offset as int, values@));
        }
        Ok(())
    }

    /// Write each `(channel, value)` pair of `writes` into the universe,
    /// the channel byte being the zero-based buffer index.
    ///
    /// This is the write a multi-channel logical property issues: its
    /// channels need not be consecutive. A channel index is a byte, so it
    /// is always within the 512 channels and the write cannot fail. Where
    /// two pairs aim at the same channel, the later one wins.
    pub fn set_channels(&mut self, writes: &Vec<(u8, u8)>)
        requires
            old(self).wf(),
        ensures
            final(self).wf(),
            final(self)@ == spec_set_channels(old(self)@, writes@),
    {
        let mut i: usize = 0;
        while i < writes.len()
            invariant
                self.channels@.len() == UNIVERSE_CHANNELS,
                i <= writes@.len(),
                self.channels@ == spec_set_channels(old(self).channels@, writes@.take(i as int)),
            decreases writes@.len() - i,
        {
            let (channel, value) = writes[i];
            self.channels[channel as usize] = value;
            proof {
                assert(writes@.take(i + 1).drop_last() =~= writes@.take(i as int));
                assert(writes@.take(i + 1).last() == writes@[i as int]);
            }
            i = i + 1;
        }
        proof {
            assert(writes@.take(writes@.len() as int) =~= writes@);
        }
    }

    /// Read the value of one channel by its zero-based buffer index.
    pub fn get(&self, index: usize) -> (value: u8)
        requires
            self.wf(),
            index < UNIVERSE_CHANNELS,
        ensures
            value == self@[index as int],
    {
        self.channels[index]
    }

    /// Copy the whole universe out as one frame of exactly 512 bytes.
    pub fn snapshot(&self) -> (frame: Vec<u8>)
        requires
            self.wf(),
        ensures
            frame@ == self@,
            frame@.len() == UNIVERSE_CHANNELS,
    {
        let mut frame: Vec<u8> = Vec::new();
        let mut i: usize = 0;
        while i < UNIVERSE_CHANNELS
            invariant
                self.wf(),
                i <= UNIVERSE_CHANNELS,
                frame@.len() == i,
                forall|j: int| 0 <= j < i ==> frame@[j] == self@[j],
            decreases UNIVERSE_CHANNELS - i,
        {
            frame.push(self.channels[i]);
            i = i + 1;
        }
        proof {
            assert(frame@ =~= self@);
        }
        frame
    }
}

/// A completed write changes exactly the channels it was aimed at: inside
/// the written window the buffer holds the written values, outside it every
/// channel keeps its previous value.
pub proof fn lemma_set_window_exact(buf: Seq<u8>, offset: int, values: Seq<u8>)
    requires
        buf.len() == UNIVERSE_CHANNELS,
        0 <= offset,
        offset + values.len() <= UNIVERSE_CHANNELS,
    ensures
        spec_set(buf, offset, values).len() == UNIVERSE_CHANNELS,
        forall|i: int|
            offset <= i < offset + values.len() ==> #[trigger] spec_set(buf, offset, values)[i]
                == values[i - offset],
        forall|i: int|
            0 <= i < UNIVERSE_CHANNELS && !(offset <= i < offset + values.len())
                ==> #[trigger] spec_set(buf, offset, values)[i] == buf[i],
{
}

/// A reader that samples the buffer under the same lock as the writers can
/// only observe the state before or after a whole write. In either state
/// the written window is all old values or all new values — never a
/// mixture.
pub proof fn lemma_snapshot_never_torn(
    before: Seq<u8>,
    offset: int,
    values: Seq<u8>,
    observed: Seq<u8>,
)
    requires
        before.len() == UNIVERSE_CHANNELS,
        0 <= offset,
        offset + values.len() <= UNIVERSE_CHANNELS,
        observed == before || observed == spec_set(before, offset, values),
    ensures
        (forall|i: int| offset <= i < offset + values.len() ==> #[trigger] observed[i] == before[i])
            || (forall|i: int|
            offset <= i < offset + values.len() ==> #[trigger] observed[i] == values[i - offset]),
{
}

/// A multi-channel write keeps the universe at its 512 channels.
pub proof fn lemma_set_channels_len(buf: Seq<u8>, writes: Seq<(u8, u8)>)
    requires
        buf.len() == UNIVERSE_CHANNELS,
    ensures
        spec_set_channels(buf, writes).len() == UNIVERSE_CHANNELS,
    decreases writes.len(),
{
    if writes.len() > 0 {
        lemma_set_channels_len(buf, writes.drop_last());
    }
}

/// A multi-channel write leaves every channel alone that none of its pairs
/// aims at.
pub proof fn lemma_set_channels_untouched(buf: Seq<u8>, writes: Seq<(u8, u8)>, c: int)
    requires
        buf.len() == UNIVERSE_CHANNELS,
        0 <= c < UNIVERSE_CHANNELS,
        !writes_channel(writes, c),
    ensures
        spec_set_channels(buf, writes)[c] == buf[c],
    decreases writes.len(),
{
    if writes.len() > 0 {
        lemma_set_channels_len(buf, writes.drop_last());
        assert(!writes_channel(writes.drop_last(), c)) by {
            if writes_channel(writes.drop_last(), c) {
                let j = choose|j: int|
                    0 <= j < writes.drop_last().len() && (#[trigger] writes.drop_last()[j]).0 == c;
                assert(writes[j] == writes.drop_last()[j]);
            }
        }
        lemma_set_channels_untouched(buf, writes.drop_last(), c);
        assert((writes[writes.len() - 1]).0 != c);
    }
}

/// Within one multi-channel write the later pair wins: a pair whose channel
/// no later pair of the same write aims at puts exactly its value there.
pub proof fn lemma_set_channels_last_wins(buf: Seq<u8>, writes: Seq<(u8, u8)>, j: int)
    requires
        buf.len() == UNIVERSE_CHANNELS,
        0 <= j < writes.len(),
        forall|k: int| j < k < writes.len() ==> (#[trigger] writes[k]).0 != writes[j].0,
    ensures
        spec_set_channels(buf, writes)[writes[j].0 as int] == writes[j].1,
    decreases writes.len(),
{
    lemma_set_channels_len(buf, writes.drop_last());
    if j == writes.len() - 1 {
    } else {
        assert forall|k: int|
            j < k < writes.drop_last().len() implies (#[trigger] writes.drop_last()[k]).0
            != writes.drop_last()[j].0 by {
            assert(writes.drop_last()[k] == writes[k]);
        }
        lemma_set_channels_last_wins(buf, writes.drop_last(), j);
        assert((writes[writes.len() - 1]).0 != writes[j].0);
        assert(writes.drop_last()[j] == writes[j]);
    }
}

/// A reader that samples the buffer under the same lock as the writers
/// never sees a multi-channel write half-applied: in what it observes,
/// every channel holds its value from before the write, or every channel
/// holds its value from after it.
pub proof fn lemma_channels_never_torn(
    before: Seq<u8>,
    writes: Seq<(u8, u8)>,
    observed: Seq<u8>,
)
    requires
        before.len() == UNIVERSE_CHANNELS,
        observed == before || observed == spec_set_channels(before, writes),
    ensures
        (forall|i: int| 0 <= i < UNIVERSE_CHANNELS ==> #[trigger] observed[i] == before[i]) || (
        forall|i: int|
            0 <= i < UNIVERSE_CHANNELS ==> #[trigger] observed[i] == spec_set_channels(
                before,
                writes,
            )[i]),
{
}

/// Round trip from a one-indexed DMX channel: writing value `v` for channel
/// `c` updates buffer index `c - 1`, where a read returns exactly `v`.
pub proof fn lemma_channel_round_trip(buf: Seq<u8>, channel: int, v: u8)
    requires
        buf.len() == UNIVERSE_CHANNELS,
        1 <= channel <= UNIVERSE_CHANNELS,
    ensures
        spec_set(buf, channel - 1, seq![v])[channel - 1] == v,
{
}

} // verus!
