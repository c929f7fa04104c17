//! The wire protocol: a frame as a sequence of clock and data line operations.
//!
//! Both lines idle high. A transmission pulls the data line low, then clocks
//! out every byte, most significant bit first. One pulse is: clock low, data
//! to the bit's level, clock high. Each byte is followed by a trailer pulse
//! with the data line high. After the last byte the clock is toggled once
//! more and the data line is released high. The chip never answers.

use crate::frame::Msg;
use vstd::prelude::*;

verus! {

/// One operation on one of the two output lines: drive it high (`true`) or
/// low (`false`).
#[derive(Clone, Copy, Debug, PartialEq, Eq, Structural)]
pub enum LineOp {
    /// Drive the data line to the given level.
    Data(bool),
    /// Drive the clock line to the given level.
    Clock(bool),
}

/// Bit `index` of `byte`, bit 0 being the least significant.
pub open spec fn bit_of(byte: u8, index: u8) -> bool {
    (byte >> index) & 1 == 1
}

/// Bit `index` of `byte` as a number, 0 or 1.
pub open spec fn bit_value(byte: u8, index: u8) -> int {
    if bit_of(byte, index) {
        1
    } else {
        0
    }
}

/// One clock pulse with the data line at `level`.
pub open spec fn pulse(level: bool) -> Seq<LineOp> {
    seq![LineOp::Clock(false), LineOp::Data(level), LineOp::Clock(true)]
}

/// The pulses of the `n` most significant bits of `byte`, most significant
/// first.
pub open spec fn bit_pulses(byte: u8, n: nat) -> Seq<LineOp>
    decreases n,
{
    if n == 0 {
        Seq::empty()
    } else {
        bit_pulses(byte, (n - 1) as nat) + pulse(bit_of(byte, (8 - n) as u8))
    }
}

/// One byte on the wire: its eight bit pulses, then the trailer pulse.
pub open spec fn byte_signal(byte: u8) -> Seq<LineOp> {
    bit_pulses(byte, 8) + pulse(true)
}

/// A run of bytes on the wire, in order.
pub open spec fn bytes_signal(bytes: Seq<u8>) -> Seq<LineOp>
    decreases bytes.len(),
{
    if bytes.len() == 0 {
        Seq::empty()
    } else {
        bytes_signal(bytes.drop_last()) + byte_signal(bytes.last())
    }
}

/// The start condition: the data line goes low.
pub open spec fn start_signal() -> Seq<LineOp> {
    seq![LineOp::Data(false)]
}

/// The stop condition: one more clock toggle, then the data line goes high.
pub open spec fn stop_signal() -> Seq<LineOp> {
    seq![LineOp::Clock(false), LineOp::Clock(true), LineOp::Data(true)]
}

/// A whole transmission: start condition, the frame's bytes, stop condition.
pub open spec fn frame_signal(frame: Seq<u8>) -> Seq<LineOp> {
    start_signal() + bytes_signal(frame) + stop_signal()
}

/// The operations that put both lines in the idle state.
pub open spec fn idle_signal() -> Seq<LineOp> {
    seq![LineOp::Data(true), LineOp::Clock(true)]
}

/// The levels of the two lines, `true` for high.
pub struct LineLevels {
    /// Level of the data line.
    pub data: bool,
    /// Level of the clock line.
    pub clock: bool,
}

impl LineLevels {
    /// Both lines high: the state between transmissions.
    pub open spec fn idle() -> LineLevels {
        LineLevels { data: true, clock: true }
    }

    /// The levels once `op` has been performed.
    pub open spec fn after(self, op: LineOp) -> LineLevels {
        match op {
            LineOp::Data(level) => LineLevels { data: level, clock: self.clock },
            LineOp::Clock(level) => LineLevels { data: self.data, clock: level },
        }
    }

    /// The levels once all of `ops` have been performed, in order.
    pub open spec fn after_all(self, ops: Seq<LineOp>) -> LineLevels
        decreases ops.len(),
    {
        if ops.len() == 0 {
            self
        } else {
            self.after_all(ops.drop_last()).after(ops.last())
        }
    }
}

/// The line operations that put both lines in the idle state: data high, then
/// clock high.
#[must_use]
pub fn idle() -> (ops: Vec<LineOp>)
    ensures
        ops@ == idle_signal(),
{
    let mut ops: Vec<LineOp> = Vec::new();
    ops.push(LineOp::Data(true));
    ops.push(LineOp::Clock(true));
    ops
}

/// The line operations that transmit a frame, in the order in which they are
/// to be performed.
#[must_use]
pub fn write_msg(msg: &Msg) -> (ops: Vec<LineOp>)
    ensures
        ops@ == frame_signal(msg@),
        ops@.len() == 328,
{
    let mut ops: Vec<LineOp> = Vec::new();
    ops.push(LineOp::Data(false));
    let mut n: usize = 0;
    while n < 12
        invariant
            n <= 12,
            ops@ == start_signal() + bytes_signal(msg@.take(n as int)),
        decreases 12 - n,
    {
        let byte = msg.0[n];
        let ghost sent = ops@;
        let mut i: u8 = 8;
        while i > 0
            invariant
                i <= 8,
                ops@ == sent + bit_pulses(byte, (8 - i) as nat),
            decreases i,
        {
            i -= 1;
            let bit = ((byte >> i) & 1) == 1;
            ops.push(LineOp::Clock(false));
            ops.push(LineOp::Data(bit));
            ops.push(LineOp::Clock(true));
        }
        ops.push(LineOp::Clock(false));
        ops.push(LineOp::Data(true));
        ops.push(LineOp::Clock(true));
        assert(msg@.take(n + 1).drop_last() == msg@.take(n as int));
        n += 1;
    }
    assert(msg@.take(12) == msg@);
    proof {
        lemma_bytes_signal_len(msg@);
    }
    ops.push(LineOp::Clock(false));
    ops.push(LineOp::Clock(true));
    ops.push(LineOp::Data(true));
    ops
}

/// The eight levels that a byte's pulses carry, read as a binary number with
/// the first pulse as the most significant digit, give the byte back.
pub proof fn lemma_bits_msb_first(byte: u8)
    ensures
        byte == 128 * bit_value(byte, 7) + 64 * bit_value(byte, 6) + 32 * bit_value(byte, 5) + 16
            * bit_value(byte, 4) + 8 * bit_value(byte, 3) + 4 * bit_value(byte, 2) + 2 * bit_value(
            byte,
            1,
        ) + bit_value(byte, 0),
{
    let b7: u8 = (byte >> 7u8) & 1;
    let b6: u8 = (byte >> 6u8) & 1;
    let b5: u8 = (byte >> 5u8) & 1;
    let b4: u8 = (byte >> 4u8) & 1;
    let b3: u8 = (byte >> 3u8) & 1;
    let b2: u8 = (byte >> 2u8) & 1;
    let b1: u8 = (byte >> 1u8) & 1;
    let b0: u8 = (byte >> 0u8) & 1;
    assert(b7 <= 1 && b6 <= 1 && b5 <= 1 && b4 <= 1 && b3 <= 1 && b2 <= 1 && b1 <= 1 && b0 <= 1
        && byte == 128 * b7 + 64 * b6 + 32 * b5 + 16 * b4 + 8 * b3 + 4 * b2 + 2 * b1 + b0)
        by (bit_vector)
        requires
            b7 == (byte >> 7u8) & 1,
            b6 == (byte >> 6u8) & 1,
            b5 == (byte >> 5u8) & 1,
            b4 == (byte >> 4u8) & 1,
            b3 == (byte >> 3u8) & 1,
            b2 == (byte >> 2u8) & 1,
            b1 == (byte >> 1u8) & 1,
            b0 == (byte >> 0u8) & 1,
    ;
}

/// A byte takes twenty-seven operations: eight bit pulses and one trailer
/// pulse. Pulse `k` carries bit `7 - k`, so the most significant bit goes
/// first and the least significant last; the ninth pulse is the trailer.
pub proof fn lemma_byte_signal_shape(byte: u8, k: int)
    requires
        0 <= k < 8,
    ensures
        byte_signal(byte).len() == 27,
        byte_signal(byte).subrange(3 * k, 3 * k + 3) == pulse(bit_of(byte, (7 - k) as u8)),
        byte_signal(byte).subrange(24, 27) == pulse(true),
{
    lemma_bit_pulses_len(byte, 8);
    lemma_bit_pulses_at(byte, 8, k);
}

/// A transmission of `n` bytes takes `27 * n + 4` operations. It opens with
/// the start condition and closes with the stop condition.
pub proof fn lemma_frame_signal_framing(frame: Seq<u8>)
    ensures
        frame_signal(frame).len() == 27 * frame.len() + 4,
        frame_signal(frame).subrange(0, 1) == start_signal(),
        frame_signal(frame).subrange(27 * frame.len() as int + 1, 27 * frame.len() as int + 4)
            == stop_signal(),
{
    lemma_bytes_signal_len(frame);
}

/// In a transmission, byte `b` of the frame takes the twenty-seven operations
/// from `1 + 27 * b` on, so every byte is clocked, in order, and nothing else
/// lies between start and stop. Of these, pulse `k` carries bit `7 - k` of the
/// byte, and the ninth pulse is the trailer.
pub proof fn lemma_frame_signal_byte(frame: Seq<u8>, b: int, k: int)
    requires
        0 <= b < frame.len(),
        0 <= k < 8,
    ensures
        frame_signal(frame).subrange(1 + 27 * b, 28 + 27 * b) == byte_signal(frame[b]),
        frame_signal(frame).subrange(1 + 27 * b + 3 * k, 4 + 27 * b + 3 * k) == pulse(
            bit_of(frame[b], (7 - k) as u8),
        ),
        frame_signal(frame).subrange(25 + 27 * b, 28 + 27 * b) == pulse(true),
{
    lemma_bytes_signal_len(frame);
    lemma_bytes_signal_at(frame, b);
    lemma_byte_signal_shape(frame[b], k);
}

/// Whatever the lines were before, the idle operations leave both high.
pub proof fn lemma_idle_signal_ends_idle(before: LineLevels)
    ensures
        before.after_all(idle_signal()) == LineLevels::idle(),
{
    reveal_with_fuel(LineLevels::after_all, 3);
}

/// Whatever the lines were before, the data line is low when the first pulse
/// of a transmission begins, and both lines are high when the transmission is
/// over: it ends in the idle state in which the next one starts.
pub proof fn lemma_frame_signal_ends_idle(frame: Seq<u8>, before: LineLevels)
    ensures
        !before.after_all(frame_signal(frame).subrange(0, 1)).data,
        before.after_all(frame_signal(frame)) == LineLevels::idle(),
{
    reveal_with_fuel(LineLevels::after_all, 4);
}

/// Between the start and the stop condition the data line changes only while
/// the clock line is low: whenever operation `i` drives the data line, the
/// clock has been driven low just before.
pub proof fn lemma_data_changes_while_clock_low(frame: Seq<u8>, before: LineLevels, i: int)
    requires
        1 <= i <= 27 * frame.len(),
        frame_signal(frame)[i] is Data,
    ensures
        !before.after_all(frame_signal(frame).take(i)).clock,
{
    lemma_bytes_signal_len(frame);
    lemma_bytes_signal_phase(frame, i - 1);
    if i >= 2 {
        lemma_bytes_signal_phase(frame, i - 2);
    }
}

proof fn lemma_bit_pulses_len(byte: u8, n: nat)
    ensures
        bit_pulses(byte, n).len() == 3 * n,
    decreases n,
{
    if n > 0 {
        lemma_bit_pulses_len(byte, (n - 1) as nat);
    }
}

proof fn lemma_bit_pulses_at(byte: u8, n: nat, k: int)
    requires
        0 <= k < n <= 8,
    ensures
        bit_pulses(byte, n).subrange(3 * k, 3 * k + 3) == pulse(bit_of(byte, (7 - k) as u8)),
    decreases n,
{
    lemma_bit_pulses_len(byte, (n - 1) as nat);
    if k < n - 1 {
        lemma_bit_pulses_at(byte, (n - 1) as nat, k);
    }
}

proof fn lemma_bytes_signal_len(bytes: Seq<u8>)
    ensures
        bytes_signal(bytes).len() == 27 * bytes.len(),
    decreases bytes.len(),
{
    if bytes.len() > 0 {
        lemma_bytes_signal_len(bytes.drop_last());
        lemma_bit_pulses_len(bytes.last(), 8);
    }
}

proof fn lemma_bytes_signal_at(bytes: Seq<u8>, b: int)
    requires
        0 <= b < bytes.len(),
    ensures
        bytes_signal(bytes).subrange(27 * b, 27 * b + 27) == byte_signal(bytes[b]),
    decreases bytes.len(),
{
    lemma_bytes_signal_len(bytes.drop_last());
    lemma_bit_pulses_len(bytes.last(), 8);
    if b < bytes.len() - 1 {
        lemma_bytes_signal_at(bytes.drop_last(), b);
    }
}

proof fn lemma_bit_pulses_phase(byte: u8, n: nat, j: int)
    requires
        0 <= j < 3 * n,
    ensures
        j % 3 == 0 ==> bit_pulses(byte, n)[j] == LineOp::Clock(false),
        j % 3 == 1 ==> bit_pulses(byte, n)[j] is Data,
        j % 3 == 2 ==> bit_pulses(byte, n)[j] == LineOp::Clock(true),
    decreases n,
{
    lemma_bit_pulses_len(byte, (n - 1) as nat);
    if j < 3 * (n - 1) {
        lemma_bit_pulses_phase(byte, (n - 1) as nat, j);
    }
}

proof fn lemma_bytes_signal_phase(bytes: Seq<u8>, j: int)
    requires
        0 <= j < 27 * bytes.len(),
    ensures
        j % 3 == 0 ==> bytes_signal(bytes)[j] == LineOp::Clock(false),
        j % 3 == 1 ==> bytes_signal(bytes)[j] is Data,
        j % 3 == 2 ==> bytes_signal(bytes)[j] == LineOp::Clock(true),
    decreases bytes.len(),
{
    lemma_bytes_signal_len(bytes.drop_last());
    lemma_bit_pulses_len(bytes.last(), 8);
    let head = 27 * (bytes.len() - 1);
    if j < head {
        lemma_bytes_signal_phase(bytes.drop_last(), j);
    } else if j - head < 24 {
        lemma_bit_pulses_phase(bytes.last(), 8, j - head);
    }
}

} // verus!
