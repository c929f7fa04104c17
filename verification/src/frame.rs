//! The command frame: address byte, current levels and channel values.
//!
//! A frame is twelve bytes. Byte 0 is the address byte `0bDD0MMNNN`: `DD` is
//! the fixed chip identification `11`, the next bit is reserved and zero, `MM`
//! is the operating mode and `NNN` the first output to write, which is always
//! `000` here. Byte 1 carries the two current levels, the RGB group's in the
//! high nibble and the CW group's in the low nibble. Bytes 2 to 11 carry the
//! five channel values, each as a big-endian 16-bit quantity.

use vstd::arithmetic::power2::{lemma2_to64, pow2};
use vstd::prelude::*;

verus! {

/// Resolution of a channel value in bits.
pub const BIT_DEPTH: u8 = 10;

/// Largest channel value the chip can represent, `2^BIT_DEPTH - 1`.
pub const CHANNEL_MAX: u16 = 1023;

/// Address byte that puts the chip in standby.
pub const ADDR_STANDBY: u8 = 0b11_0_00_000;

/// Address byte that starts a write with outputs 1 to 3 enabled.
pub const ADDR_START_3CH: u8 = 0b11_0_01_000;

/// Address byte that starts a write with outputs 4 and 5 enabled.
pub const ADDR_START_2CH: u8 = 0b11_0_10_000;

/// Address byte that starts a write with all five outputs enabled.
pub const ADDR_START_5CH: u8 = 0b11_0_11_000;

/// The operating mode of the chip, which decides the outputs it drives.
#[derive(Clone, Copy, Debug, PartialEq, Eq, Structural)]
pub enum Mode {
    /// All outputs disabled.
    Standby,
    /// Outputs 1 to 3 enabled: typically the colour channels.
    ThreeChannel,
    /// Outputs 4 and 5 enabled: typically the cool and warm white channels.
    TwoChannel,
    /// All five outputs enabled.
    FiveChannel,
}

/// Whether any of the first three channels is nonzero.
pub open spec fn rgb_active(values: Seq<u16>) -> bool {
    values[0] != 0 || values[1] != 0 || values[2] != 0
}

/// Whether any of the last two channels is nonzero.
pub open spec fn cw_active(values: Seq<u16>) -> bool {
    values[3] != 0 || values[4] != 0
}

/// The mode that five channel values select. The rules are ranked: the first
/// that matches wins.
pub open spec fn mode_of(values: Seq<u16>) -> Mode {
    if !rgb_active(values) && !cw_active(values) {
        Mode::Standby
    } else if !cw_active(values) {
        Mode::ThreeChannel
    } else if !rgb_active(values) {
        Mode::TwoChannel
    } else {
        Mode::FiveChannel
    }
}

impl Mode {
    /// The address byte that enters this mode, starting at the first output.
    pub open spec fn address_byte(self) -> u8 {
        match self {
            Mode::Standby => ADDR_STANDBY,
            Mode::ThreeChannel => ADDR_START_3CH,
            Mode::TwoChannel => ADDR_START_2CH,
            Mode::FiveChannel => ADDR_START_5CH,
        }
    }

    /// Whether the RGB group's current level is sent in this mode.
    pub open spec fn drives_rgb(self) -> bool {
        self == Mode::ThreeChannel || self == Mode::FiveChannel
    }

    /// Whether the CW group's current level is sent in this mode.
    pub open spec fn drives_cw(self) -> bool {
        self == Mode::TwoChannel || self == Mode::FiveChannel
    }

    /// Selects the mode from which channels are nonzero.
    pub fn of(values: &[u16; 5]) -> (mode: Mode)
        ensures
            mode == mode_of(values@),
    {
        let rgb = values[0] != 0 || values[1] != 0 || values[2] != 0;
        let cw = values[3] != 0 || values[4] != 0;
        if !rgb && !cw {
            Mode::Standby
        } else if !cw {
            Mode::ThreeChannel
        } else if !rgb {
            Mode::TwoChannel
        } else {
            Mode::FiveChannel
        }
    }

    /// The address byte that enters this mode.
    pub fn address(self) -> (addr: u8)
        ensures
            addr == self.address_byte(),
    {
        match self {
            Mode::Standby => ADDR_STANDBY,
            Mode::ThreeChannel => ADDR_START_3CH,
            Mode::TwoChannel => ADDR_START_2CH,
            Mode::FiveChannel => ADDR_START_5CH,
        }
    }
}

/// A channel value as the chip receives it: values above the representable
/// range are sent as the largest representable value.
pub open spec fn clamp_channel(value: u16) -> u16 {
    if value > CHANNEL_MAX {
        CHANNEL_MAX
    } else {
        value
    }
}

/// Five channel values as the chip receives them, each clamped.
pub open spec fn clamped(values: Seq<u16>) -> Seq<u16> {
    values.map_values(|value: u16| clamp_channel(value))
}

/// Big-endian packing: each value as two bytes, high byte first, in order.
/// Value `i` lies at bytes `2 * i` and `2 * i + 1`.
pub open spec fn big_endian(values: Seq<u16>) -> Seq<u8> {
    Seq::new(
        2 * values.len(),
        |k: int|
            if k % 2 == 0 {
                (values[k / 2] / 256) as u8
            } else {
                (values[k / 2] % 256) as u8
            },
    )
}

/// The channel values as they lie in a frame: each clamped, then packed
/// big-endian.
pub open spec fn channel_bytes(values: Seq<u16>) -> Seq<u8> {
    big_endian(clamped(values))
}

/// `byte` with its high nibble replaced by the low four bits of `level`.
pub open spec fn with_high_nibble(byte: u8, level: u8) -> u8 {
    (16 * (level % 16) + byte % 16) as u8
}

/// `byte` with its low nibble replaced by the low four bits of `level`.
pub open spec fn with_low_nibble(byte: u8, level: u8) -> u8 {
    (16 * (byte / 16) + level % 16) as u8
}

/// The current-level byte of a frame: each group's level in its nibble where
/// the mode drives that group, zero where it does not.
pub open spec fn power_byte(mode: Mode, rgb_level: u8, cw_level: u8) -> u8 {
    let high: u8 = if mode.drives_rgb() { rgb_level % 16 } else { 0 };
    let low: u8 = if mode.drives_cw() { cw_level % 16 } else { 0 };
    (16 * high + low) as u8
}

/// The command frame for five channel values and the two current levels.
pub open spec fn frame_of(values: Seq<u16>, rgb_level: u8, cw_level: u8) -> Seq<u8> {
    let mode = mode_of(values);
    seq![mode.address_byte(), power_byte(mode, rgb_level, cw_level)] + channel_bytes(values)
}

/// A command frame under construction or ready to send.
#[derive(Clone, Copy, Debug, PartialEq, Eq)]
pub struct Msg(pub [u8; 12]);

impl View for Msg {
    type V = Seq<u8>;

    open spec fn view(&self) -> Seq<u8> {
        self.0@
    }
}

impl Msg {
    /// A frame of twelve zero bytes.
    pub fn zeroed() -> (msg: Msg)
        ensures
            msg@ == Seq::new(12, |i: int| 0u8),
    {
        Msg([0; 12])
    }

    /// Sets the address byte.
    pub fn set_addr(&mut self, addr: u8)
        ensures
            final(self)@ == old(self)@.update(0, addr),
    {
        self.0[0] = addr;
    }

    /// Writes the low four bits of `lvl` to the RGB group's nibble and leaves
    /// the CW group's nibble as it is.
    pub fn set_rgb_power_level(&mut self, lvl: u8)
        ensures
            final(self)@ == old(self)@.update(1, with_high_nibble(old(self)@[1], lvl)),
    {
        let byte = self.0[1];
        assert(((lvl << 4) | (byte & 0x0F)) == (16 * (lvl % 16) + byte % 16) as u8) by (bit_vector);
        self.0[1] = (lvl << 4) | (byte & 0x0F);
    }

    /// Writes the low four bits of `lvl` to the CW group's nibble and leaves
    /// the RGB group's nibble as it is.
    pub fn set_cw_power_level(&mut self, lvl: u8)
        ensures
            final(self)@ == old(self)@.update(1, with_low_nibble(old(self)@[1], lvl)),
    {
        let byte = self.0[1];
        assert(((byte & 0xF0) | (lvl & 0xF)) == (16 * (byte / 16) + lvl % 16) as u8) by (bit_vector);
        self.0[1] = (byte & 0xF0) | (lvl & 0xF);
    }

    /// Writes the five channel values to bytes 2 to 11, each clamped to the
    /// representable range and stored high byte first. The first two bytes
    /// stay as they are.
    pub fn set_channel_values(&mut self, vals: &[u16; 5])
        ensures
            final(self)@ == old(self)@.take(2) + channel_bytes(vals@),
    {
        let mut i: usize = 0;
        while i < 5
            invariant
                i <= 5,
                self@.take(2) == old(self)@.take(2),
                forall|k: int| 0 <= k < 2 * i ==> self@[2 + k] == channel_bytes(vals@)[k],
            decreases 5 - i,
        {
            let val = if vals[i] > CHANNEL_MAX {
                CHANNEL_MAX
            } else {
                vals[i]
            };
            assert((val >> 8) == val / 256 && (val & 0xFF) == val % 256) by (bit_vector);
            self.0[2 + 2 * i] = (val >> 8) as u8;
            self.0[3 + 2 * i] = (val & 0xFF) as u8;
            i += 1;
        }
    }

    /// Builds the command frame for five channel values and the two current
    /// levels. The mode, and with it the address byte and which of the two
    /// levels are sent, follows from which channels are nonzero.
    pub fn encode(channel_values: &[u16; 5], rgb_power_level: u8, cw_power_level: u8) -> (msg: Msg)
        ensures
            msg@ == frame_of(channel_values@, rgb_power_level, cw_power_level),
    {
        let mode = Mode::of(channel_values);
        let mut msg = Msg::zeroed();
        msg.set_channel_values(channel_values);
        msg.set_addr(mode.address());
        match mode {
            Mode::Standby => {},
            Mode::ThreeChannel => {
                msg.set_rgb_power_level(rgb_power_level);
            },
            Mode::TwoChannel => {
                msg.set_cw_power_level(cw_power_level);
            },
            Mode::FiveChannel => {
                msg.set_rgb_power_level(rgb_power_level);
                msg.set_cw_power_level(cw_power_level);
            },
        }
        msg
    }
}

/// The largest channel value is the full scale of `BIT_DEPTH` bits.
pub proof fn lemma_channel_max_is_full_scale()
    ensures
        CHANNEL_MAX + 1 == pow2(BIT_DEPTH as nat),
{
    lemma2_to64();
}

/// A frame is twelve bytes long.
pub proof fn lemma_frame_len(values: Seq<u16>, rgb_level: u8, cw_level: u8)
    requires
        values.len() == 5,
    ensures
        frame_of(values, rgb_level, cw_level).len() == 12,
{
}

/// Channel values inside the representable range lie in bytes 2 to 11 exactly
/// as given, big-endian and in order, whatever the mode and the current
/// levels: channel `i` is read back from bytes `2 + 2 * i` and `3 + 2 * i`.
pub proof fn lemma_channels_packed_big_endian(
    values: Seq<u16>,
    rgb_level: u8,
    cw_level: u8,
    i: int,
)
    requires
        values.len() == 5,
        forall|j: int| 0 <= j < 5 ==> values[j] <= CHANNEL_MAX,
        0 <= i < 5,
    ensures
        frame_of(values, rgb_level, cw_level).subrange(2, 12) == big_endian(values),
        256 * frame_of(values, rgb_level, cw_level)[2 + 2 * i] + frame_of(
            values,
            rgb_level,
            cw_level,
        )[3 + 2 * i] == values[i],
{
}

/// With every channel at zero the frame is the standby frame: the standby
/// address, no current level, no channel value. It does not depend on the
/// current levels.
pub proof fn lemma_standby_frame(values: Seq<u16>, rgb_level: u8, cw_level: u8)
    requires
        values.len() == 5,
        forall|j: int| 0 <= j < 5 ==> values[j] == 0,
    ensures
        frame_of(values, rgb_level, cw_level)[0] == 0b11_0_00_000u8,
        frame_of(values, rgb_level, cw_level)[1] == 0,
        frame_of(values, rgb_level, cw_level) == seq![
            0b11_0_00_000u8,
            0u8,
            0u8,
            0u8,
            0u8,
            0u8,
            0u8,
            0u8,
            0u8,
            0u8,
            0u8,
            0u8,
        ],
{
}

/// With the last two channels at zero and one of the first three not, the
/// frame selects the three-channel mode: its address, the RGB group's level in
/// the high nibble of the current-level byte, and a low nibble of zero.
pub proof fn lemma_three_channel_frame(values: Seq<u16>, rgb_level: u8, cw_level: u8)
    requires
        values.len() == 5,
        values[3] == 0 && values[4] == 0,
        values[0] != 0 || values[1] != 0 || values[2] != 0,
    ensures
        frame_of(values, rgb_level, cw_level)[0] == 0b11_0_01_000u8,
        frame_of(values, rgb_level, cw_level)[1] / 16 == rgb_level % 16,
        frame_of(values, rgb_level, cw_level)[1] % 16 == 0,
        rgb_level < 16 ==> frame_of(values, rgb_level, cw_level)[1] / 16 == rgb_level,
{
}

/// With the first three channels at zero and one of the last two not, the
/// frame selects the two-channel mode: its address, the CW group's level in
/// the low nibble of the current-level byte, and a high nibble of zero.
pub proof fn lemma_two_channel_frame(values: Seq<u16>, rgb_level: u8, cw_level: u8)
    requires
        values.len() == 5,
        values[0] == 0 && values[1] == 0 && values[2] == 0,
        values[3] != 0 || values[4] != 0,
    ensures
        frame_of(values, rgb_level, cw_level)[0] == 0b11_0_10_000u8,
        frame_of(values, rgb_level, cw_level)[1] / 16 == 0,
        frame_of(values, rgb_level, cw_level)[1] % 16 == cw_level % 16,
        cw_level < 16 ==> frame_of(values, rgb_level, cw_level)[1] % 16 == cw_level,
{
}

/// With a nonzero channel in each group the frame selects the five-channel
/// mode: its address, and both levels in their nibbles.
pub proof fn lemma_five_channel_frame(values: Seq<u16>, rgb_level: u8, cw_level: u8)
    requires
        values.len() == 5,
        values[0] != 0 || values[1] != 0 || values[2] != 0,
        values[3] != 0 || values[4] != 0,
    ensures
        frame_of(values, rgb_level, cw_level)[0] == 0b11_0_11_000u8,
        frame_of(values, rgb_level, cw_level)[1] / 16 == rgb_level % 16,
        frame_of(values, rgb_level, cw_level)[1] % 16 == cw_level % 16,
        rgb_level < 16 ==> frame_of(values, rgb_level, cw_level)[1] / 16 == rgb_level,
        cw_level < 16 ==> frame_of(values, rgb_level, cw_level)[1] % 16 == cw_level,
{
}

/// Clamping: every value above the representable range clamps to the largest
/// representable value, and two inputs that clamp to the same values give the
/// same frame. So 1024, 2000 and 65535 all encode as 1023 does.
pub proof fn lemma_clamped_inputs_encode_alike(
    a: Seq<u16>,
    b: Seq<u16>,
    rgb_level: u8,
    cw_level: u8,
)
    requires
        a.len() == 5,
        b.len() == 5,
        forall|j: int| 0 <= j < 5 ==> clamp_channel(a[j]) == clamp_channel(b[j]),
    ensures
        forall|value: u16| value > CHANNEL_MAX ==> #[trigger] clamp_channel(value) == CHANNEL_MAX,
        frame_of(a, rgb_level, cw_level) == frame_of(b, rgb_level, cw_level),
{
}

} // verus!
