use mag_i2c::regs::{CFG_REG_A_M, WHO_AM_I_M};
use mag_i2c::trace::render_trace;

#[test]
fn renders_who_am_i_answer() {
    assert_eq!(render_trace(0x48, 0x48), "0x48 - 0b01001000");
}

#[test]
fn renders_register_address_and_value() {
    assert_eq!(render_trace(WHO_AM_I_M, 0x40), "0x4F - 0b01000000");
    assert_eq!(render_trace(CFG_REG_A_M, 0x00), "0x60 - 0b00000000");
}

#[test]
fn renders_extreme_bytes() {
    assert_eq!(render_trace(0x00, 0xFF), "0x00 - 0b11111111");
    assert_eq!(render_trace(0xFF, 0x00), "0xFF - 0b00000000");
    assert_eq!(render_trace(0xA5, 0x5A), "0xA5 - 0b01011010");
}
