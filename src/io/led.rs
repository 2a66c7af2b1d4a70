use crate::enums::button::pads::PadKey;
use crate::enums::led_light::color::LedColor;
use crate::enums::led_light::mode::LedMode;
use vstd::prelude::*;

verus! {

/// The highest LED index the device addresses; the indices above the 40
/// pads light other controls.
pub const LAST_LED_INDEX: u8 = 86;

/// The three bytes that set LED `index` to `mode` and `color`.
pub open spec fn led_command_spec(mode: LedMode, index: u8, color: LedColor) -> Seq<u8> {
    seq![mode.code_spec(), index, color.code_spec()]
}

/// The SysEx message that must reach the device before it honours LED
/// commands.
pub open spec fn initialization_spec() -> Seq<u8> {
    seq![0xF0u8, 0x47, 0x7F, 0x29, 0x60, 0x00, 0x04, 0x42, 0x08, 0x02, 0x01, 0xF7]
}

/// The command that sets LED `index` to `mode` and `color`.
pub fn build_led_command(mode: LedMode, index: u8, color: LedColor) -> (r: [u8; 3])
    ensures
        r@ == led_command_spec(mode, index, color),
{
    let r = [mode.encode(), index, color.encode()];
    assert(r@ =~= led_command_spec(mode, index, color));
    r
}

/// The command that sets the LED under a pad to `mode` and `color`.
pub fn build_pad_led_command(mode: LedMode, pad: PadKey, color: LedColor) -> (r: [u8; 3])
    requires
        pad.wf(),
    ensures
        r@ == led_command_spec(mode, pad.index_spec() as u8, color),
{
    build_led_command(mode, pad.encode(), color)
}

/// The device initialisation message: SysEx start, Akai's manufacturer id,
/// the all-devices id, the product id, the initialise message type, the
/// application and content versions, the mode bytes and SysEx end.
pub fn build_initialization_sequence() -> (r: Vec<u8>)
    ensures
        r@ == initialization_spec(),
{
    let r: Vec<u8> = vec![0xF0, 0x47, 0x7F, 0x29, 0x60, 0x00, 0x04, 0x42, 0x08, 0x02, 0x01, 0xF7];
    assert(r@ =~= initialization_spec());
    r
}

/// One command per LED index from 0 to 86, in that order, each with the
/// given mode and colour.
pub fn all_pads_commands(mode: LedMode, color: LedColor) -> (r: Vec<[u8; 3]>)
    ensures
        r.len() == LAST_LED_INDEX + 1,
        forall|i: int| 0 <= i < r.len() ==> #[trigger] r[i]@ == led_command_spec(mode, i as u8, color),
{
    let mut r: Vec<[u8; 3]> = Vec::new();
    let mut i: u8 = 0;
    while i <= LAST_LED_INDEX
        invariant
            i <= LAST_LED_INDEX + 1,
            r.len() == i,
            forall|j: int| 0 <= j < r.len() ==> #[trigger] r[j]@ == led_command_spec(mode, j as u8, color),
        decreases LAST_LED_INDEX + 1 - i,
    {
        r.push(build_led_command(mode, i, color));
        i = i + 1;
    }
    r
}

} // verus!
