//! The driver: the two current levels it keeps, and the line operations it
//! asks for.
//!
//! The driver decides; the caller acts. Every operation that would toggle a
//! line returns the line operations instead, and the caller performs them in
//! order on its data and clock outputs. A failure of an output is for the
//! caller to drop: the protocol has no feedback path, and what the driver
//! asks for never depends on one.

use crate::frame::{frame_of, lemma_standby_frame, Msg};
use crate::signal::{
    bit_of, byte_signal, frame_signal, idle, idle_signal, lemma_frame_signal_byte,
    lemma_frame_signal_ends_idle, lemma_frame_signal_framing, pulse, start_signal, stop_signal,
    write_msg, LineLevels, LineOp,
};
use vstd::prelude::*;

verus! {

/// Current level of the RGB group after [`Sm2335Egh::init`]: 30 mA.
pub const DEFAULT_RGB_POWER_LEVEL: u8 = 0x2;

/// Current level of the CW group after [`Sm2335Egh::init`]: 25 mA.
pub const DEFAULT_CW_POWER_LEVEL: u8 = 0x4;

/// Driver state for one SM2335EGH: the current levels of its two output
/// groups, each kept in four bits.
pub struct Sm2335Egh {
    rgb_power_level: u8,
    cw_power_level: u8,
}

impl Sm2335Egh {
    #[verifier::type_invariant]
    spec fn levels_fit_nibbles(self) -> bool {
        self.rgb_power_level < 16 && self.cw_power_level < 16
    }

    /// The current level of the RGB group.
    pub closed spec fn spec_rgb_power_level(&self) -> u8 {
        self.rgb_power_level
    }

    /// The current level of the CW group.
    pub closed spec fn spec_cw_power_level(&self) -> u8 {
        self.cw_power_level
    }

    /// The line operations that [`Sm2335Egh::write`] asks for in this state.
    pub open spec fn write_signal(&self, channel_values: Seq<u16>) -> Seq<LineOp> {
        frame_signal(frame_of(channel_values, self.rgb_power_level(), self.cw_power_level()))
    }

    /// A driver with the default current levels, and the line operations that
    /// put both lines in the idle state. The caller performs them before
    /// anything else.
    #[must_use]
    pub fn init() -> (r: (Self, Vec<LineOp>))
        ensures
            r.0.rgb_power_level() == DEFAULT_RGB_POWER_LEVEL,
            r.0.cw_power_level() == DEFAULT_CW_POWER_LEVEL,
            r.1@ == idle_signal(),
    {
        let driver = Sm2335Egh {
            rgb_power_level: DEFAULT_RGB_POWER_LEVEL,
            cw_power_level: DEFAULT_CW_POWER_LEVEL,
        };
        (driver, idle())
    }

    /// Sets the current levels of the two groups. Only the low four bits of
    /// each argument count. The levels take effect with the next write.
    ///
    /// | Level | RGB group | CW group |                     |
    /// |-------|-----------|----------|---------------------|
    /// | 0x0   |     10 mA |     5 mA |                     |
    /// | 0x1   |     20 mA |    10 mA |                     |
    /// | 0x2   |     30 mA |    15 mA | default, RGB group  |
    /// | 0x3   |     40 mA |    20 mA |                     |
    /// | 0x4   |     50 mA |    25 mA | default, CW group   |
    /// | 0x5   |     60 mA |    30 mA |                     |
    /// | 0x6   |     70 mA |    35 mA |                     |
    /// | 0x7   |     80 mA |    40 mA |                     |
    /// | 0x8   |     90 mA |    45 mA |                     |
    /// | 0x9   |    100 mA |    50 mA |                     |
    /// | 0xA   |    110 mA |    55 mA |                     |
    /// | 0xB   |    120 mA |    60 mA |                     |
    /// | 0xC   |    130 mA |    65 mA |                     |
    /// | 0xD   |    140 mA |    70 mA |                     |
    /// | 0xE   |    150 mA |    75 mA |                     |
    /// | 0xF   |    160 mA |    80 mA |                     |
    pub fn set_power_levels(&mut self, rgb_level: u8, cw_level: u8)
        ensures
            final(self).rgb_power_level() == rgb_level & 0xF,
            final(self).cw_power_level() == cw_level & 0xF,
            final(self).rgb_power_level() == rgb_level % 16,
            final(self).cw_power_level() == cw_level % 16,
    {
        proof {
            use_type_invariant(&*self);
        }
        assert(rgb_level & 0xF == rgb_level % 16) by (bit_vector);
        assert(cw_level & 0xF == cw_level % 16) by (bit_vector);
        self.rgb_power_level = rgb_level & 0xF;
        self.cw_power_level = cw_level & 0xF;
    }

    /// The current level of the RGB group.
    #[verifier::when_used_as_spec(spec_rgb_power_level)]
    pub fn rgb_power_level(&self) -> (level: u8)
        ensures
            level == self.rgb_power_level(),
            level < 16,
    {
        proof {
            use_type_invariant(self);
        }
        self.rgb_power_level
    }

    /// The current level of the CW group.
    #[verifier::when_used_as_spec(spec_cw_power_level)]
    pub fn cw_power_level(&self) -> (level: u8)
        ensures
            level == self.cw_power_level(),
            level < 16,
    {
        proof {
            use_type_invariant(self);
        }
        self.cw_power_level
    }

    /// The line operations that write the values of all five channels to the
    /// chip. Each value is a 10-bit integer; a larger one is sent as 1023.
    ///
    /// The chip has four modes: standby, with all outputs disabled; three
    /// channels, with outputs 1 to 3 enabled; two channels, with outputs 4 and
    /// 5 enabled; and five channels. The mode is entered with the write and
    /// follows from which of the values are zero.
    #[must_use]
    pub fn write(&self, channel_values: &[u16; 5]) -> (ops: Vec<LineOp>)
        ensures
            ops@ == self.write_signal(channel_values@),
            ops@.len() == 328,
    {
        let msg = Msg::encode(channel_values, self.rgb_power_level, self.cw_power_level);
        write_msg(&msg)
    }

    /// The shape of every write. It takes 328 line operations and clocks
    /// exactly twelve bytes between the start and the stop condition: the
    /// bytes of the frame, in order, each as eight bit pulses, most
    /// significant bit first, and one trailer pulse. The data line is low when
    /// the first pulse begins, and both lines are high when the write is over.
    ///
    /// `b` is any byte of the frame, `k` any of its bit pulses, and `before`
    /// any levels of the two lines before the write.
    pub proof fn lemma_write_signal_shape(
        self,
        channel_values: Seq<u16>,
        b: int,
        k: int,
        before: LineLevels,
    )
        requires
            channel_values.len() == 5,
            0 <= b < 12,
            0 <= k < 8,
        ensures
            ({
                let frame = frame_of(
                    channel_values,
                    self.rgb_power_level(),
                    self.cw_power_level(),
                );
                let ops = self.write_signal(channel_values);
                &&& frame.len() == 12
                &&& ops.len() == 1 + 12 * 27 + 3
                &&& ops.subrange(0, 1) == start_signal()
                &&& ops.subrange(1 + 27 * b, 28 + 27 * b) == byte_signal(frame[b])
                &&& ops.subrange(1 + 27 * b + 3 * k, 4 + 27 * b + 3 * k) == pulse(
                    bit_of(frame[b], (7 - k) as u8),
                )
                &&& ops.subrange(25 + 27 * b, 28 + 27 * b) == pulse(true)
                &&& ops.subrange(325, 328) == stop_signal()
                &&& !before.after_all(ops.subrange(0, 1)).data
                &&& before.after_all(ops) == LineLevels::idle()
            }),
    {
        let frame = frame_of(channel_values, self.rgb_power_level(), self.cw_power_level());
        lemma_frame_signal_framing(frame);
        lemma_frame_signal_byte(frame, b, k);
        lemma_frame_signal_ends_idle(frame, before);
    }

    /// Writing zero to every channel asks for the same frame and the same line
    /// operations each time, in whatever state the driver is: a second such
    /// write repeats the first, even with other current levels set in between.
    pub proof fn lemma_standby_write_repeats(self, later: Sm2335Egh, channel_values: Seq<u16>)
        requires
            channel_values.len() == 5,
            forall|j: int| 0 <= j < 5 ==> channel_values[j] == 0,
        ensures
            frame_of(channel_values, self.rgb_power_level(), self.cw_power_level()) == frame_of(
                channel_values,
                later.rgb_power_level(),
                later.cw_power_level(),
            ),
            self.write_signal(channel_values) == later.write_signal(channel_values),
    {
        lemma_standby_frame(channel_values, self.rgb_power_level(), self.cw_power_level());
        lemma_standby_frame(channel_values, later.rgb_power_level(), later.cw_power_level());
    }
}

} // verus!
