//! Quantization of captured samples to 16-bit linear PCM.
//!
//! Every block that the capture backend delivers is brought to 16 bits before
//! it reaches the waveform writer, whatever the device's native encoding is.
//! In every encoding the lowest native sample becomes the lowest 16-bit level
//! and the highest native sample the highest, and the order of levels is kept.

use vstd::prelude::*;

verus! {

/// The lowest level that 16-bit PCM can hold.
pub open spec fn pcm_min() -> int {
    -32768
}

/// The highest level that 16-bit PCM can hold.
pub open spec fn pcm_max() -> int {
    32767
}

/// The 16-bit level of an 8-bit sample. The 256 levels of the sample are
/// spread evenly over the whole 16-bit range, 257 apart, so that the lowest
/// sample becomes the lowest level and the highest sample the highest.
pub open spec fn pcm_of_i8(s: i8) -> int {
    257 * (s as int) + 128
}

/// The 16-bit level of a 16-bit sample: the sample itself.
pub open spec fn pcm_of_i16(s: i16) -> int {
    s as int
}

/// The 16-bit level of a 32-bit sample: its upper sixteen bits, that is the
/// sample divided by 65536 and rounded towards minus infinity.
pub open spec fn pcm_of_i32(s: i32) -> int {
    s as int / 65536
}

/// A block of samples in one of the integer encodings a device may report.
#[derive(Clone, Copy, Debug, PartialEq, Eq)]
pub enum InputBlock<'a> {
    I8(&'a [i8]),
    I16(&'a [i16]),
    I32(&'a [i32]),
}

impl<'a> InputBlock<'a> {
    /// How many samples the block holds.
    pub open spec fn spec_len(self) -> nat {
        match self {
            InputBlock::I8(data) => data@.len(),
            InputBlock::I16(data) => data@.len(),
            InputBlock::I32(data) => data@.len(),
        }
    }

    /// The 16-bit levels of the block's samples, in order.
    pub open spec fn pcm(self) -> Seq<int> {
        match self {
            InputBlock::I8(data) => Seq::new(data@.len(), |i: int| pcm_of_i8(data@[i])),
            InputBlock::I16(data) => Seq::new(data@.len(), |i: int| pcm_of_i16(data@[i])),
            InputBlock::I32(data) => Seq::new(data@.len(), |i: int| pcm_of_i32(data@[i])),
        }
    }
}

/// The levels held by a run of 16-bit samples.
pub open spec fn levels(samples: Seq<i16>) -> Seq<int> {
    Seq::new(samples.len(), |i: int| samples[i] as int)
}

/// Quantizes one 8-bit sample.
pub fn convert_i8(s: i8) -> (r: i16)
    ensures
        r as int == pcm_of_i8(s),
{
    let wide: i32 = 257 * (s as i32) + 128;
    wide as i16
}

/// Quantizes one 16-bit sample.
pub fn convert_i16(s: i16) -> (r: i16)
    ensures
        r as int == pcm_of_i16(s),
{
    s
}

/// Quantizes one 32-bit sample.
pub fn convert_i32(s: i32) -> (r: i16)
    ensures
        r as int == pcm_of_i32(s),
{
    if s >= 0 {
        (s / 65536) as i16
    } else {
        let below: i32 = -(s + 1);
        (-(below / 65536) - 1) as i16
    }
}

/// Quantizes a whole block, sample by sample and in order.
pub fn convert_block(input: InputBlock) -> (out: Vec<i16>)
    ensures
        out@.len() == input.spec_len(),
        levels(out@) == input.pcm(),
{
    let mut out: Vec<i16> = Vec::new();
    match input {
        InputBlock::I8(data) => {
            let mut i: usize = 0;
            while i < data.len()
                invariant
                    i <= data@.len(),
                    out@.len() == i,
                    forall|j: int| 0 <= j < i ==> out@[j] as int == pcm_of_i8(#[trigger] data@[j]),
                decreases data@.len() - i,
            {
                out.push(convert_i8(data[i]));
                i += 1;
            }
        },
        InputBlock::I16(data) => {
            let mut i: usize = 0;
            while i < data.len()
                invariant
                    i <= data@.len(),
                    out@.len() == i,
                    forall|j: int| 0 <= j < i ==> out@[j] as int == pcm_of_i16(#[trigger] data@[j]),
                decreases data@.len() - i,
            {
                out.push(convert_i16(data[i]));
                i += 1;
            }
        },
        InputBlock::I32(data) => {
            let mut i: usize = 0;
            while i < data.len()
                invariant
                    i <= data@.len(),
                    out@.len() == i,
                    forall|j: int| 0 <= j < i ==> out@[j] as int == pcm_of_i32(#[trigger] data@[j]),
                decreases data@.len() - i,
            {
                out.push(convert_i32(data[i]));
                i += 1;
            }
        },
    }
    assert(levels(out@) =~= input.pcm());
    out
}

/// Whether the real-time callback got hold of the waveform writer.
#[derive(Clone, Copy, Debug, PartialEq, Eq, Structural)]
pub enum WriterSlot {
    /// Somebody else holds the writer right now.
    Busy,
    /// The slot could be taken, and no writer is in it.
    Empty,
    /// The slot could be taken, and it holds a writer.
    Open,
}

/// What the callback does with one block.
#[derive(Debug, PartialEq, Eq)]
pub struct BlockOutcome {
    /// The samples to hand to the writer, or `None` where the block is dropped.
    pub samples: Option<Vec<i16>>,
    /// The sample counter after this block.
    pub samples_counter: u64,
}

/// The sample counter after `len` more samples; like the atomic it mirrors, it
/// starts over at zero when it runs past the largest `u64`.
pub open spec fn counter_after(counter: u64, len: nat) -> int {
    (counter as int + len as int) % 0x1_0000_0000_0000_0000
}

/// The callback's step for one block of input.
///
/// The block is quantized and counted only where the writer slot is open.
/// Where the writer is busy or gone the block is dropped and the counter
/// stays: the callback never waits.
pub fn write_input_data(input: InputBlock, slot: WriterSlot, samples_counter: u64) -> (out:
    BlockOutcome)
    ensures
        slot == WriterSlot::Open ==> out.samples.is_some() && out.samples.unwrap()@.len()
            == input.spec_len() && levels(out.samples.unwrap()@) == input.pcm()
            && out.samples_counter as int == counter_after(samples_counter, input.spec_len()),
        slot != WriterSlot::Open ==> out.samples.is_none() && out.samples_counter
            == samples_counter,
{
    match slot {
        WriterSlot::Open => {
            let len: usize = match input {
                InputBlock::I8(data) => data.len(),
                InputBlock::I16(data) => data.len(),
                InputBlock::I32(data) => data.len(),
            };
            let samples = convert_block(input);
            let counted: u64 = samples_counter.wrapping_add(len as u64);
            BlockOutcome { samples: Some(samples), samples_counter: counted }
        },
        _ => BlockOutcome { samples: None, samples_counter },
    }
}

/// Quantization never leaves the 16-bit range and keeps the order of levels.
/// Two different 8-bit or 16-bit samples never share a level.
pub proof fn lemma_conversion_bounded_and_monotone(
    a8: i8,
    b8: i8,
    a16: i16,
    b16: i16,
    a32: i32,
    b32: i32,
)
    ensures
        pcm_min() <= pcm_of_i8(a8) <= pcm_max(),
        pcm_min() <= pcm_of_i16(a16) <= pcm_max(),
        pcm_min() <= pcm_of_i32(a32) <= pcm_max(),
        a8 < b8 ==> pcm_of_i8(a8) < pcm_of_i8(b8),
        a16 < b16 ==> pcm_of_i16(a16) < pcm_of_i16(b16),
        a32 <= b32 ==> pcm_of_i32(a32) <= pcm_of_i32(b32),
{
}

/// In every integer encoding the lowest native sample becomes the lowest PCM
/// level and the highest native sample the highest PCM level.
pub proof fn lemma_conversion_extremes()
    ensures
        pcm_of_i8(i8::MIN) == pcm_min(),
        pcm_of_i16(i16::MIN) == pcm_min(),
        pcm_of_i32(i32::MIN) == pcm_min(),
        pcm_of_i8(i8::MAX) == pcm_max(),
        pcm_of_i16(i16::MAX) == pcm_max(),
        pcm_of_i32(i32::MAX) == pcm_max(),
{
}

/// The sample counter grows by the length of every block that is written,
/// as long as it has room to.
pub proof fn lemma_counter_grows(counter: u64, len: nat)
    requires
        counter + len <= u64::MAX,
    ensures
        counter_after(counter, len) == counter + len,
        counter_after(counter, len) >= counter,
{
}

} // verus!
