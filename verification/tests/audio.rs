use stm32f411ve_disco::audio::regs;
use stm32f411ve_disco::audio::{OutputDevice, Volume, CS43L22, CS43L22_ADDR};
use stm32f411ve_disco::bus::{Bus, Request};

const DAC: Bus = Bus::I2c { address: 0x4A };

fn dac_write(command: u8, value: u8) -> Request {
    Request::Write { bus: DAC, command, value }
}

#[test]
fn dac_bus_address() {
    assert_eq!(CS43L22_ADDR, 0x4A);
}

#[test]
fn dac_register_map() {
    assert_eq!(regs::ID, 0x01);
    assert_eq!(regs::POWER_CTL1, 0x02);
    assert_eq!(regs::POWER_CTL2, 0x04);
    assert_eq!(regs::CLOCKING_CTL, 0x05);
    assert_eq!(regs::INTERFACE_CTL1, 0x06);
    assert_eq!(regs::ANALOG_ZC_SR, 0x0A);
    assert_eq!(regs::BEEP_FREQ_ON_TIME, 0x1C);
    assert_eq!(regs::BEEP_VOL_OFF_TIME, 0x1D);
    assert_eq!(regs::BEEP_TONE_CFG, 0x1E);
    assert_eq!(regs::MASTER_VOL_A, 0x20);
    assert_eq!(regs::MASTER_VOL_B, 0x21);
    assert_eq!(regs::CHARGE_PUMP_FREQ, 0x34);
}

#[test]
fn volume_is_cut_to_one_hundred() {
    assert_eq!(Volume::new(0), Volume(0));
    assert_eq!(Volume::new(75), Volume(75));
    assert_eq!(Volume::new(100), Volume(100));
    assert_eq!(Volume::new(101), Volume(100));
    assert_eq!(Volume::new(255), Volume(100));
}

#[test]
fn volume_to_dac_value() {
    assert_eq!(Volume::new(0).to_dac_value(), 0);
    assert_eq!(Volume::new(1).to_dac_value(), 2);
    assert_eq!(Volume::new(50).to_dac_value(), 127);
    assert_eq!(Volume::new(70).to_dac_value(), 178);
    assert_eq!(Volume::new(99).to_dac_value(), 252);
    assert_eq!(Volume::new(100).to_dac_value(), 255);
    assert_eq!(Volume(200).to_dac_value(), 254);
    assert_eq!(Volume(255).to_dac_value(), 138);
    for level in 0..=255u8 {
        assert_eq!(Volume(level).to_dac_value(), ((level as u16 * 255) / 100) as u8);
    }
}

#[test]
fn output_device_power_control() {
    assert_eq!(OutputDevice::Auto.power_control(), 0x00);
    assert_eq!(OutputDevice::Speaker.power_control(), 0xFA);
    assert_eq!(OutputDevice::Headphone.power_control(), 0xAF);
    assert_eq!(OutputDevice::Both.power_control(), 0xAA);
}

#[test]
fn dac_starts_at_default_settings() {
    let dac = CS43L22::new();
    assert_eq!(dac.output(), OutputDevice::Auto);
    assert_eq!(dac.volume(), Volume(70));
}

#[test]
fn dac_init_sequence() {
    let dac = CS43L22::new();
    assert_eq!(
        dac.init(),
        vec![
            Request::Read { bus: DAC, command: 0x01, len: 1 },
            dac_write(0x02, 0x01),
            dac_write(0x05, 0x80),
            dac_write(0x06, 0x04),
            dac_write(0x20, 178),
            dac_write(0x21, 178),
            dac_write(0x0A, 0x00),
        ]
    );
}

#[test]
fn dac_power() {
    let mut dac = CS43L22::new();
    assert_eq!(dac.power_on(), vec![dac_write(0x02, 0x9E), Request::Delay { millis: 100 }]);
    assert_eq!(dac.power_off(), vec![dac_write(0x02, 0x01)]);
}

#[test]
fn dac_set_output() {
    let mut dac = CS43L22::new();
    assert_eq!(dac.set_output(OutputDevice::Headphone), vec![dac_write(0x04, 0xAF)]);
    assert_eq!(dac.output(), OutputDevice::Headphone);
    assert_eq!(dac.set_output(OutputDevice::Speaker), vec![dac_write(0x04, 0xFA)]);
    assert_eq!(dac.set_output(OutputDevice::Both), vec![dac_write(0x04, 0xAA)]);
    assert_eq!(dac.set_output(OutputDevice::Auto), vec![dac_write(0x04, 0x00)]);
    assert_eq!(dac.output(), OutputDevice::Auto);
    assert_eq!(dac.volume(), Volume(70));
}

#[test]
fn dac_volume_mute_and_unmute() {
    let mut dac = CS43L22::new();
    assert_eq!(
        dac.set_volume(Volume::new(80)),
        vec![dac_write(0x20, 204), dac_write(0x21, 204)]
    );
    assert_eq!(dac.volume(), Volume(80));
    assert_eq!(dac.mute(), vec![dac_write(0x20, 0), dac_write(0x21, 0)]);
    assert_eq!(dac.volume(), Volume(80));
    assert_eq!(dac.unmute(), vec![dac_write(0x20, 204), dac_write(0x21, 204)]);
    assert_eq!(dac.init()[4], dac_write(0x20, 204));
}

#[test]
fn dac_beep() {
    let mut dac = CS43L22::new();
    assert_eq!(
        dac.beep(0x70, 500),
        vec![
            dac_write(0x1C, 0x70),
            dac_write(0x1D, 0x06),
            dac_write(0x1E, 0xC0),
            Request::Delay { millis: 500 },
            dac_write(0x1E, 0x00),
        ]
    );
    assert_eq!(dac.beep(0, u16::MAX)[3], Request::Delay { millis: 65_535 });
}
