//! What the APU's master registers promise across calls.

use vstd::prelude::*;
use crate::bits::{bit_spec, test_spec};
use super::APUView;
use super::ch1::Channel1;
use super::ch2::Channel2;
use super::ch4::Channel4;

verus! {

/// With the APU on, NR50 reads back exactly as written.
pub proof fn law_nr50_roundtrip(a: APUView, value: u8)
    requires
        a.enable,
    ensures
        a.written(0xFF24, value).read_spec(0xFF24) == value,
{
    reveal(APUView::written);
    assert(bit_spec(test_spec(value, 7), 7) | bit_spec(test_spec(value, 3), 3) | (((value >> 4u8)
        & 7) << 4u8) | (value & 7) == value) by (bit_vector);
}

/// With the APU on, NR51 reads back exactly as written.
pub proof fn law_nr51_roundtrip(a: APUView, value: u8)
    requires
        a.enable,
    ensures
        a.written(0xFF25, value).read_spec(0xFF25) == value,
{
    reveal(APUView::written);
    assert(bit_spec(test_spec(value, 7), 7) | bit_spec(test_spec(value, 6), 6) | bit_spec(
        test_spec(value, 5),
        5,
    ) | bit_spec(test_spec(value, 4), 4) | bit_spec(test_spec(value, 3), 3) | bit_spec(
        test_spec(value, 2),
        2,
    ) | bit_spec(test_spec(value, 1), 1) | bit_spec(test_spec(value, 0), 0) == value)
        by (bit_vector);
}

/// With the APU off, writes to the channel and master registers other than NR52 change
/// nothing.
pub proof fn law_powered_off_ignores_writes(a: APUView, address: u16, value: u8)
    requires
        !a.enable,
        address != 0xFF26,
    ensures
        a.written(address, value) == a,
{
    reveal(APUView::written);
}

/// Writing NR52 with bit 7 clear powers the APU off and clears every channel and master
/// register.
pub proof fn law_power_off_clears(a: APUView, value: u8)
    requires
        !test_spec(value, 7),
    ensures
        a.written(0xFF26, value) == (APUView {
            ch1: a.ch1.cleared(),
            ch2: a.ch2.cleared(),
            ch3: a.ch3.cleared(),
            ch4: a.ch4.cleared(),
            ..a.cleared()
        }),
        !a.written(0xFF26, value).enable,
{
    reveal(APUView::written);
}

/// Reading a channel 1 register after writing it (with the APU on) gives back the written
/// bits that the register keeps, with the unreadable bits set; NR13 always reads 0xFF.
pub proof fn law_channel1_read_after_write(c: Channel1, address: u16, value: u8, frame_seq_step: u8)
    ensures
        ({
            let w = c.written(address, value, frame_seq_step, true);
            &&& address == 0xFF10 ==> w.read_spec(0xFF10) == value | 0x80
            &&& address == 0xFF11 ==> w.read_spec(0xFF11) == (value & 0xC0) | 0x3F
            &&& address == 0xFF12 ==> w.read_spec(0xFF12) == value
            &&& address == 0xFF14 ==> w.read_spec(0xFF14) == (value & 0x40) | 0xBF
        }),
        c.read_spec(0xFF13) == 0xFF,
{
    reveal(Channel1::written);
    assert({
        &&& (((value >> 4u8) & 7) << 4u8) | bit_spec(test_spec(value, 3), 3) | (value & 7) | 0x80
            == value | 0x80
        &&& (((value >> 6u8) & 3) << 6u8) | 0x3F == (value & 0xC0) | 0x3F
        &&& (((value >> 4u8) & 0xF) << 4u8) | bit_spec(test_spec(value, 3), 3) | (value & 7)
            == value
        &&& bit_spec(test_spec(value, 6), 6) | 0xBF == (value & 0x40) | 0xBF
    }) by (bit_vector);
}

/// Channel 1's volume envelope: the NRx2 write sets the envelope direction from bit 3. When the envelope
/// period is non-zero and the envelope timer runs out (it is 0 or 1 before the clock), an
/// increasing envelope raises the volume by one up to 15 and a decreasing one lowers it by
/// one down to 0; otherwise the volume stays.
pub proof fn law_channel1_envelope(c: Channel1, value: u8, frame_seq_step: u8)
    ensures
        c.written(0xFF12, value, frame_seq_step, true).volume_envl_direction == test_spec(value, 3),
        ({
            let v = c.volume_stepped().volume;
            let clocked = c.volume_envl_period > 0 && c.volume_envl_timer <= 1;
            &&& clocked && c.volume_envl_direction && c.volume < 15 ==> v == c.volume + 1
            &&& clocked && c.volume_envl_direction && c.volume >= 15 ==> v == c.volume
            &&& clocked && !c.volume_envl_direction && c.volume > 0 ==> v == c.volume - 1
            &&& clocked && !c.volume_envl_direction && c.volume == 0 ==> v == 0
            &&& !clocked ==> v == c.volume
        }),
{
    reveal(Channel1::written);
}

/// Channel 2's volume envelope: the NRx2 write sets the envelope direction from bit 3. When the envelope
/// period is non-zero and the envelope timer runs out (it is 0 or 1 before the clock), an
/// increasing envelope raises the volume by one up to 15 and a decreasing one lowers it by
/// one down to 0; otherwise the volume stays.
pub proof fn law_channel2_envelope(c: Channel2, value: u8, frame_seq_step: u8)
    ensures
        c.written(0xFF17, value, frame_seq_step, true).volume_envl_direction == test_spec(value, 3),
        ({
            let v = c.volume_stepped().volume;
            let clocked = c.volume_envl_period > 0 && c.volume_envl_timer <= 1;
            &&& clocked && c.volume_envl_direction && c.volume < 15 ==> v == c.volume + 1
            &&& clocked && c.volume_envl_direction && c.volume >= 15 ==> v == c.volume
            &&& clocked && !c.volume_envl_direction && c.volume > 0 ==> v == c.volume - 1
            &&& clocked && !c.volume_envl_direction && c.volume == 0 ==> v == 0
            &&& !clocked ==> v == c.volume
        }),
{
    reveal(Channel2::written);
}

/// Channel 4's volume envelope: the NRx2 write sets the envelope direction from bit 3. When the envelope
/// period is non-zero and the envelope timer runs out (it is 0 or 1 before the clock), an
/// increasing envelope raises the volume by one up to 15 and a decreasing one lowers it by
/// one down to 0; otherwise the volume stays.
pub proof fn law_channel4_envelope(c: Channel4, value: u8, frame_seq_step: u8)
    ensures
        c.written(0xFF21, value, frame_seq_step, true).volume_envl_direction == test_spec(value, 3),
        ({
            let v = c.volume_stepped().volume;
            let clocked = c.volume_envl_period > 0 && c.volume_envl_timer <= 1;
            &&& clocked && c.volume_envl_direction && c.volume < 15 ==> v == c.volume + 1
            &&& clocked && c.volume_envl_direction && c.volume >= 15 ==> v == c.volume
            &&& clocked && !c.volume_envl_direction && c.volume > 0 ==> v == c.volume - 1
            &&& clocked && !c.volume_envl_direction && c.volume == 0 ==> v == 0
            &&& !clocked ==> v == c.volume
        }),
{
    reveal(Channel4::written);
}

} // verus!
