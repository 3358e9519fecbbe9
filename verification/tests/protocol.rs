use mag_i2c::bus::{BusError, I2cBus};
use mag_i2c::driver::Driver;
use mag_i2c::regs::{CFG_REG_A_M, MAGNETOMETER, OUTX_L_REG_M, WHO_AM_I_M, WHO_AM_I_VALUE};

fn device() -> (I2cBus, Driver) {
    (I2cBus::new(MAGNETOMETER, 8), Driver::new(MAGNETOMETER))
}

#[test]
fn read_register_idempotent() {
    let (mut bus, driver) = device();
    bus.set_register(WHO_AM_I_M, WHO_AM_I_VALUE);
    let first = driver.read_register(&mut bus, WHO_AM_I_M);
    let second = driver.read_register(&mut bus, WHO_AM_I_M);
    assert_eq!(first, Ok(WHO_AM_I_VALUE));
    assert_eq!(first, second);
}

#[test]
fn who_am_i_probe() {
    let (mut bus, driver) = device();
    bus.set_register(WHO_AM_I_M, WHO_AM_I_VALUE);
    assert_eq!(driver.who_am_i(&mut bus), Ok(0x48));
}

#[test]
fn burst_reads_consecutive_registers() {
    let (mut bus, driver) = device();
    let raw = [0x01, 0x00, 0x03, 0x00, 0x02, 0x00];
    for (i, b) in raw.iter().enumerate() {
        bus.set_register(OUTX_L_REG_M + i as u8, *b);
    }
    let burst = driver.read_burst(&mut bus, OUTX_L_REG_M, 6).unwrap();
    assert_eq!(burst, vec![0x01, 0x00, 0x03, 0x00, 0x02, 0x00]);
}

#[test]
fn sample_read_reorders_axes() {
    let (mut bus, driver) = device();
    let raw = [0x01, 0x00, 0x03, 0x00, 0x02, 0x00];
    for (i, b) in raw.iter().enumerate() {
        bus.set_register(OUTX_L_REG_M + i as u8, *b);
    }
    let sample = driver.read_sample(&mut bus).unwrap();
    assert_eq!(sample.x, 1);
    assert_eq!(sample.y, 2);
    assert_eq!(sample.z, 3);
}

#[test]
fn config_write_echoes_probe_byte() {
    let (mut bus, driver) = device();
    // A slave whose registers are all zero echoes 0x00 on the
    // restart-read after the configuration write.
    assert_eq!(driver.write_register(&mut bus, CFG_REG_A_M, 0x00), Ok(0x00));
    assert_eq!(driver.set_mode_continuous(&mut bus), Ok(0x00));
}

#[test]
fn write_register_updates_device_state() {
    let (mut bus, driver) = device();
    driver.write_register(&mut bus, CFG_REG_A_M, 0x8C).unwrap();
    assert_eq!(driver.read_register(&mut bus, CFG_REG_A_M), Ok(0x8C));
}

#[test]
fn post_write_probe_byte_is_device_state() {
    let (mut bus, driver) = device();
    // The probe byte is not an echo of the written value: the slave's
    // pointer has moved past the written register when the
    // restart-read taps it.
    bus.set_register(CFG_REG_A_M + 1, 0xAB);
    assert_eq!(driver.write_register(&mut bus, CFG_REG_A_M, 0x07), Ok(0xAB));
}

#[test]
fn stalled_transmit_flag_times_out() {
    let (mut bus, driver) = device();
    bus.stall_tx = true;
    // The call must terminate with a stall error, not hang.
    assert_eq!(
        driver.write_register(&mut bus, CFG_REG_A_M, 0x00),
        Err(BusError::BusStall)
    );
    assert_eq!(driver.read_register(&mut bus, WHO_AM_I_M), Err(BusError::BusStall));
}

#[test]
fn stalled_transfer_complete_flag_times_out() {
    let (mut bus, driver) = device();
    bus.stall_tc = true;
    assert_eq!(driver.read_register(&mut bus, WHO_AM_I_M), Err(BusError::BusStall));
}

#[test]
fn stalled_receive_flag_times_out() {
    let (mut bus, driver) = device();
    bus.stall_rx = true;
    assert_eq!(driver.read_burst(&mut bus, OUTX_L_REG_M, 6), Err(BusError::BusStall));
}

#[test]
fn absent_slave_stalls() {
    let mut bus = I2cBus::new(MAGNETOMETER, 8);
    let driver = Driver::new(MAGNETOMETER + 1);
    assert_eq!(driver.read_register(&mut bus, WHO_AM_I_M), Err(BusError::BusStall));
}

#[test]
fn oversized_burst_is_malformed() {
    let (mut bus, driver) = device();
    assert_eq!(
        driver.read_burst(&mut bus, OUTX_L_REG_M, 256),
        Err(BusError::MalformedBurst)
    );
}

#[test]
fn empty_burst_returns_empty_buffer() {
    let (mut bus, driver) = device();
    assert_eq!(driver.read_burst(&mut bus, OUTX_L_REG_M, 0), Ok(vec![]));
}

#[test]
fn burst_wraps_past_top_of_register_file() {
    let (mut bus, driver) = device();
    bus.set_register(0xFF, 0x11);
    bus.set_register(0x00, 0x22);
    assert_eq!(driver.read_burst(&mut bus, 0xFF, 2), Ok(vec![0x11, 0x22]));
}

#[test]
fn driver_recovers_after_stall() {
    let (mut bus, driver) = device();
    bus.set_register(WHO_AM_I_M, WHO_AM_I_VALUE);
    bus.stall_rx = true;
    assert_eq!(driver.read_register(&mut bus, WHO_AM_I_M), Err(BusError::BusStall));
    // The fault clears; the whole transaction is retried from idle.
    bus.stall_rx = false;
    assert_eq!(driver.read_register(&mut bus, WHO_AM_I_M), Ok(WHO_AM_I_VALUE));
}

#[test]
fn update_pin_walks_round_robin() {
    assert_eq!(mag_i2c::update_pin(0, 8), 1);
    assert_eq!(mag_i2c::update_pin(6, 8), 7);
    assert_eq!(mag_i2c::update_pin(7, 8), 0);
    assert_eq!(mag_i2c::update_pin(0, 1), 0);
}
