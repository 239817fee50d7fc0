use stm32f411ve_disco::bus::{Bus, BusFault, DriverError, Reply, Request, Step};
use stm32f411ve_disco::gyro::regs;
use stm32f411ve_disco::gyro::{identity_recognized, AngularRate, DataRate, FullScale};
use stm32f411ve_disco::gyro::{GyroCommand, GyroOutcome, Power, L3GD20};

/// A stand-in for the device on the SPI bus: a register file that answers
/// reads, takes writes, and keeps a record of all that was asked of it.
struct Device {
    registers: [u8; 128],
    seen: Vec<Request>,
}

impl Device {
    fn new() -> Device {
        let mut registers = [0u8; 128];
        registers[regs::WHO_AM_I as usize] = 0xD4;
        Device { registers, seen: Vec::new() }
    }

    fn answer(&mut self, request: Request) -> Reply {
        self.seen.push(request);
        match request {
            Request::Read { bus, command, len } => {
                assert_eq!(bus, Bus::Spi);
                assert_eq!(command & 0x80, 0x80);
                let start = (command & 0x7F) as usize;
                Ok((0..len).map(|offset| self.registers[(start + offset) % 128]).collect())
            }
            Request::Write { bus, command, value } => {
                assert_eq!(bus, Bus::Spi);
                assert_eq!(command & 0x80, 0x00);
                self.registers[command as usize] = value;
                Ok(vec![])
            }
            Request::Delay { .. } => Ok(vec![]),
        }
    }

    fn run(&mut self, gyro: &mut L3GD20, first: Step<GyroOutcome>) -> Result<GyroOutcome, DriverError> {
        let mut step = first;
        loop {
            match step {
                Step::Perform(request) => {
                    assert_eq!(gyro.pending(), Some(request));
                    let reply = self.answer(request);
                    step = gyro.resume(reply);
                }
                Step::Done(outcome) => {
                    assert!(gyro.is_idle());
                    return Ok(outcome);
                }
                Step::Failed(error) => return Err(error),
            }
        }
    }
}

fn started() -> (L3GD20, Device) {
    let mut device = Device::new();
    let mut gyro = L3GD20::new();
    let first = gyro.init();
    device.run(&mut gyro, first).unwrap();
    device.seen.clear();
    (gyro, device)
}

#[test]
fn gyro_full_scale_table() {
    assert_eq!(FullScale::Dps250.bits(), 0x00);
    assert_eq!(FullScale::Dps500.bits(), 0x10);
    assert_eq!(FullScale::Dps2000.bits(), 0x20);
    assert_eq!(FullScale::Dps250.sensitivity(), 8_750);
    assert_eq!(FullScale::Dps500.sensitivity(), 17_500);
    assert_eq!(FullScale::Dps2000.sensitivity(), 70_000);
}

#[test]
fn gyro_data_rate_table() {
    let table = [
        (DataRate::Hz95, 0x00),
        (DataRate::Hz95_25, 0x10),
        (DataRate::Hz190, 0x40),
        (DataRate::Hz190_25, 0x50),
        (DataRate::Hz190_50, 0x60),
        (DataRate::Hz190_70, 0x70),
        (DataRate::Hz380, 0x80),
        (DataRate::Hz380_25, 0x90),
        (DataRate::Hz380_50, 0xA0),
        (DataRate::Hz380_100, 0xB0),
        (DataRate::Hz760, 0xC0),
        (DataRate::Hz760_35, 0xD0),
        (DataRate::Hz760_50, 0xE0),
        (DataRate::Hz760_100, 0xF0),
    ];
    for (rate, bits) in table {
        assert_eq!(rate.bits(), bits);
    }
}

#[test]
fn gyro_register_map() {
    assert_eq!(regs::WHO_AM_I, 0x0F);
    assert_eq!(regs::CTRL_REG1, 0x20);
    assert_eq!(regs::CTRL_REG2, 0x21);
    assert_eq!(regs::CTRL_REG3, 0x22);
    assert_eq!(regs::CTRL_REG4, 0x23);
    assert_eq!(regs::CTRL_REG5, 0x24);
    assert_eq!(regs::REFERENCE, 0x25);
    assert_eq!(regs::OUT_TEMP, 0x26);
    assert_eq!(regs::STATUS_REG, 0x27);
    assert_eq!(regs::OUT_X_L, 0x28);
    assert_eq!(regs::OUT_X_H, 0x29);
    assert_eq!(regs::OUT_Y_L, 0x2A);
    assert_eq!(regs::OUT_Y_H, 0x2B);
    assert_eq!(regs::OUT_Z_L, 0x2C);
    assert_eq!(regs::OUT_Z_H, 0x2D);
}

#[test]
fn gyro_starts_powered_down_and_idle() {
    let gyro = L3GD20::new();
    assert_eq!(gyro.power(), Power::Down);
    assert_eq!(gyro.scale(), FullScale::Dps250);
    assert_eq!(gyro.data_rate(), DataRate::Hz95);
    assert!(!gyro.sample_waiting());
    assert!(gyro.is_idle());
    assert_eq!(gyro.pending(), None);
}

#[test]
fn gyro_init_sequence() {
    let mut device = Device::new();
    let mut gyro = L3GD20::new();
    let first = gyro.init();
    assert_eq!(first, Step::Perform(Request::Delay { millis: 10 }));
    let outcome = device.run(&mut gyro, first);
    assert_eq!(outcome, Ok(GyroOutcome::Initialized { identity: 0xD4, recognized: true }));
    assert_eq!(
        device.seen,
        vec![
            Request::Delay { millis: 10 },
            Request::Read { bus: Bus::Spi, command: 0x8F, len: 1 },
            Request::Write { bus: Bus::Spi, command: 0x20, value: 0x0F },
            Request::Write { bus: Bus::Spi, command: 0x21, value: 0x00 },
            Request::Write { bus: Bus::Spi, command: 0x22, value: 0x00 },
            Request::Write { bus: Bus::Spi, command: 0x23, value: 0x00 },
            Request::Write { bus: Bus::Spi, command: 0x24, value: 0x00 },
            Request::Delay { millis: 250 },
        ]
    );
    assert_eq!(gyro.power(), Power::Normal);
    assert_eq!(gyro.scale(), FullScale::Dps250);
    assert_eq!(gyro.data_rate(), DataRate::Hz95);
    assert!(gyro.is_idle());
}

#[test]
fn gyro_unknown_identity_is_reported_and_stops_nothing() {
    let mut device = Device::new();
    device.registers[regs::WHO_AM_I as usize] = 0x3C;
    let mut gyro = L3GD20::new();
    let first = gyro.init();
    let outcome = device.run(&mut gyro, first);
    assert_eq!(outcome, Ok(GyroOutcome::Initialized { identity: 0x3C, recognized: false }));
    assert_eq!(gyro.power(), Power::Normal);
    assert_eq!(device.registers[regs::CTRL_REG1 as usize], 0x0F);
}

#[test]
fn gyro_identities() {
    assert!(identity_recognized(0xD4));
    assert!(identity_recognized(0xD7));
    assert!(!identity_recognized(0xD5));
    assert!(!identity_recognized(0x00));
    assert!(!identity_recognized(0xFF));
}

#[test]
fn gyro_set_scale_changes_the_range_bits_only() {
    let (mut gyro, mut device) = started();
    device.registers[regs::CTRL_REG4 as usize] = 0xCF;
    let before = device.registers;
    let first = gyro.set_scale(FullScale::Dps2000);
    assert_eq!(first, Step::Perform(Request::Read { bus: Bus::Spi, command: 0xA3, len: 1 }));
    assert_eq!(gyro.scale(), FullScale::Dps250);
    assert_eq!(device.run(&mut gyro, first), Ok(GyroOutcome::Configured));
    assert_eq!(
        device.seen,
        vec![
            Request::Read { bus: Bus::Spi, command: 0xA3, len: 1 },
            Request::Write { bus: Bus::Spi, command: 0x23, value: 0xEF },
        ]
    );
    assert_eq!(gyro.scale(), FullScale::Dps2000);
    for register in 0..128 {
        if register == regs::CTRL_REG4 as usize {
            assert_eq!(device.registers[register], 0xEF);
        } else {
            assert_eq!(device.registers[register], before[register]);
        }
    }
}

#[test]
fn gyro_set_scale_from_every_register_value() {
    for current in 0..=255u8 {
        for scale in [FullScale::Dps250, FullScale::Dps500, FullScale::Dps2000] {
            let (mut gyro, mut device) = started();
            device.registers[regs::CTRL_REG4 as usize] = current;
            let first = gyro.set_scale(scale);
            assert_eq!(device.run(&mut gyro, first), Ok(GyroOutcome::Configured));
            let written = device.registers[regs::CTRL_REG4 as usize];
            assert_eq!(written & 0x30, scale.bits());
            assert_eq!(written & 0xCF, current & 0xCF);
            assert_eq!(gyro.scale(), scale);
        }
    }
}

#[test]
fn gyro_set_data_rate_keeps_the_lower_half() {
    let (mut gyro, mut device) = started();
    assert_eq!(device.registers[regs::CTRL_REG1 as usize], 0x0F);
    let first = gyro.set_data_rate(DataRate::Hz380_50);
    assert_eq!(device.run(&mut gyro, first), Ok(GyroOutcome::Configured));
    assert_eq!(
        device.seen,
        vec![
            Request::Read { bus: Bus::Spi, command: 0xA0, len: 1 },
            Request::Write { bus: Bus::Spi, command: 0x20, value: 0xAF },
        ]
    );
    assert_eq!(gyro.data_rate(), DataRate::Hz380_50);
    assert_eq!(gyro.scale(), FullScale::Dps250);
    let first = gyro.set_data_rate(DataRate::Hz95);
    assert_eq!(device.run(&mut gyro, first), Ok(GyroOutcome::Configured));
    assert_eq!(device.registers[regs::CTRL_REG1 as usize], 0x0F);
    assert_eq!(gyro.data_rate(), DataRate::Hz95);
}

#[test]
fn gyro_data_ready_is_false_until_the_bit_is_set() {
    let (mut gyro, mut device) = started();
    for status in [0x00u8, 0x07, 0xF7, 0x80] {
        device.registers[regs::STATUS_REG as usize] = status;
        let first = gyro.data_ready();
        assert_eq!(first, Step::Perform(Request::Read { bus: Bus::Spi, command: 0xA7, len: 1 }));
        assert_eq!(device.run(&mut gyro, first), Ok(GyroOutcome::DataReady(false)));
        assert!(!gyro.sample_waiting());
    }
    for status in [0x08u8, 0x0F, 0xFF] {
        device.registers[regs::STATUS_REG as usize] = status;
        let first = gyro.data_ready();
        assert_eq!(device.run(&mut gyro, first), Ok(GyroOutcome::DataReady(true)));
        assert!(gyro.sample_waiting());
    }
}

#[test]
fn gyro_no_sample_is_read_before_data_is_ready() {
    let (mut gyro, mut device) = started();
    assert_eq!(gyro.read_angular_rate(), Step::Failed(DriverError::NotReady));
    assert!(gyro.is_idle());
    device.registers[regs::STATUS_REG as usize] = 0x00;
    let first = gyro.data_ready();
    assert_eq!(device.run(&mut gyro, first), Ok(GyroOutcome::DataReady(false)));
    assert_eq!(gyro.read_angular_rate(), Step::Failed(DriverError::NotReady));
    device.registers[regs::STATUS_REG as usize] = 0x08;
    let first = gyro.data_ready();
    assert_eq!(device.run(&mut gyro, first), Ok(GyroOutcome::DataReady(true)));
    device.seen.clear();
    let first = gyro.read_angular_rate();
    assert_eq!(first, Step::Perform(Request::Read { bus: Bus::Spi, command: 0xA8, len: 6 }));
    assert!(device.run(&mut gyro, first).is_ok());
    assert_eq!(device.seen, vec![Request::Read { bus: Bus::Spi, command: 0xA8, len: 6 }]);
    assert_eq!(gyro.read_angular_rate(), Step::Failed(DriverError::NotReady));
    assert_eq!(device.seen.len(), 1);
}

fn sample(gyro: &mut L3GD20, device: &mut Device, bytes: [u8; 6]) -> AngularRate {
    device.registers[regs::STATUS_REG as usize] = 0x08;
    for (offset, byte) in bytes.iter().enumerate() {
        device.registers[regs::OUT_X_L as usize + offset] = *byte;
    }
    let first = gyro.data_ready();
    assert_eq!(device.run(gyro, first), Ok(GyroOutcome::DataReady(true)));
    let first = gyro.read_angular_rate();
    match device.run(gyro, first) {
        Ok(GyroOutcome::AngularRate(rate)) => rate,
        other => panic!("no sample: {:?}", other),
    }
}

#[test]
fn gyro_sample_is_converted_at_the_scale_in_force() {
    let (mut gyro, mut device) = started();
    let bytes = [0x01, 0x00, 0xFF, 0xFF, 0x00, 0x80];
    assert_eq!(
        sample(&mut gyro, &mut device, bytes),
        AngularRate { x: 8_750, y: -8_750, z: -286_720_000 }
    );
    let first = gyro.set_scale(FullScale::Dps500);
    assert_eq!(device.run(&mut gyro, first), Ok(GyroOutcome::Configured));
    assert_eq!(
        sample(&mut gyro, &mut device, bytes),
        AngularRate { x: 17_500, y: -17_500, z: -573_440_000 }
    );
    let first = gyro.set_scale(FullScale::Dps2000);
    assert_eq!(device.run(&mut gyro, first), Ok(GyroOutcome::Configured));
    assert_eq!(
        sample(&mut gyro, &mut device, bytes),
        AngularRate { x: 70_000, y: -70_000, z: -2_293_760_000 }
    );
}

#[test]
fn gyro_conversion_of_register_bytes() {
    let data = [0xE8, 0x03, 0x18, 0xFC, 0xFF, 0x7F];
    assert_eq!(
        AngularRate::from_registers(&data, FullScale::Dps250),
        AngularRate { x: 8_750_000, y: -8_750_000, z: 286_711_250 }
    );
    assert_eq!(
        AngularRate::from_registers(&data, FullScale::Dps2000),
        AngularRate { x: 70_000_000, y: -70_000_000, z: 2_293_690_000 }
    );
    assert_eq!(AngularRate::from_registers(&[0; 6], FullScale::Dps500), AngularRate::default());
}

#[test]
fn gyro_temperature_is_a_signed_byte() {
    let (mut gyro, mut device) = started();
    for (byte, degrees) in [(0x00u8, 0i8), (0x19, 25), (0x7F, 127), (0x80, -128), (0xFF, -1)] {
        device.registers[regs::OUT_TEMP as usize] = byte;
        device.seen.clear();
        let first = gyro.read_temperature();
        assert_eq!(device.run(&mut gyro, first), Ok(GyroOutcome::Temperature(degrees)));
        assert_eq!(device.seen, vec![Request::Read { bus: Bus::Spi, command: 0xA6, len: 1 }]);
    }
}

#[test]
fn gyro_bus_fault_on_read_surfaces() {
    let (mut gyro, _) = started();
    for fault in [BusFault::NoAcknowledge, BusFault::Timeout, BusFault::Framing] {
        assert!(matches!(gyro.set_scale(FullScale::Dps2000), Step::Perform(_)));
        assert_eq!(gyro.resume(Err(fault)), Step::Failed(DriverError::Bus(fault)));
        assert!(gyro.is_idle());
        assert_eq!(gyro.scale(), FullScale::Dps250);
        assert!(matches!(gyro.data_ready(), Step::Perform(_)));
        assert_eq!(gyro.resume(Err(fault)), Step::Failed(DriverError::Bus(fault)));
        assert!(!gyro.sample_waiting());
        assert!(matches!(gyro.read_temperature(), Step::Perform(_)));
        assert_eq!(gyro.resume(Err(fault)), Step::Failed(DriverError::Bus(fault)));
        assert!(gyro.is_idle());
    }
}

#[test]
fn gyro_bus_fault_on_write_leaves_the_setting() {
    let (mut gyro, _) = started();
    assert!(matches!(gyro.set_scale(FullScale::Dps500), Step::Perform(_)));
    assert_eq!(
        gyro.resume(Ok(vec![0x00])),
        Step::Perform(Request::Write { bus: Bus::Spi, command: 0x23, value: 0x10 })
    );
    assert_eq!(
        gyro.resume(Err(BusFault::NoAcknowledge)),
        Step::Failed(DriverError::Bus(BusFault::NoAcknowledge))
    );
    assert_eq!(gyro.scale(), FullScale::Dps250);
    assert!(gyro.is_idle());
}

#[test]
fn gyro_bus_fault_on_sample_read_surfaces() {
    let (mut gyro, mut device) = started();
    device.registers[regs::STATUS_REG as usize] = 0x08;
    let first = gyro.data_ready();
    assert_eq!(device.run(&mut gyro, first), Ok(GyroOutcome::DataReady(true)));
    assert!(matches!(gyro.read_angular_rate(), Step::Perform(_)));
    assert_eq!(
        gyro.resume(Err(BusFault::Timeout)),
        Step::Failed(DriverError::Bus(BusFault::Timeout))
    );
    assert_eq!(gyro.read_angular_rate(), Step::Failed(DriverError::NotReady));
}

#[test]
fn gyro_bus_fault_during_init_surfaces() {
    let mut gyro = L3GD20::new();
    assert_eq!(gyro.init(), Step::Perform(Request::Delay { millis: 10 }));
    assert!(matches!(gyro.resume(Ok(vec![])), Step::Perform(Request::Read { .. })));
    assert_eq!(
        gyro.resume(Err(BusFault::NoAcknowledge)),
        Step::Failed(DriverError::Bus(BusFault::NoAcknowledge))
    );
    assert_eq!(gyro.power(), Power::Down);
    assert!(gyro.is_idle());
}

#[test]
fn gyro_partial_reply_is_a_framing_fault() {
    let (mut gyro, mut device) = started();
    assert!(matches!(gyro.read_temperature(), Step::Perform(_)));
    assert_eq!(gyro.resume(Ok(vec![])), Step::Failed(DriverError::Bus(BusFault::Framing)));
    assert!(matches!(gyro.read_temperature(), Step::Perform(_)));
    assert_eq!(
        gyro.resume(Ok(vec![1, 2])),
        Step::Failed(DriverError::Bus(BusFault::Framing))
    );
    device.registers[regs::STATUS_REG as usize] = 0x08;
    let first = gyro.data_ready();
    assert_eq!(device.run(&mut gyro, first), Ok(GyroOutcome::DataReady(true)));
    assert!(matches!(gyro.read_angular_rate(), Step::Perform(_)));
    assert_eq!(
        gyro.resume(Ok(vec![1, 2, 3, 4, 5])),
        Step::Failed(DriverError::Bus(BusFault::Framing))
    );
}

#[test]
fn gyro_delay_cannot_fail() {
    let mut gyro = L3GD20::new();
    assert_eq!(gyro.init(), Step::Perform(Request::Delay { millis: 10 }));
    assert_eq!(
        gyro.resume(Err(BusFault::Timeout)),
        Step::Perform(Request::Read { bus: Bus::Spi, command: 0x8F, len: 1 })
    );
}

#[test]
fn gyro_one_operation_at_a_time() {
    let (mut gyro, _) = started();
    let first = gyro.set_scale(FullScale::Dps500);
    assert!(matches!(first, Step::Perform(_)));
    let pending = gyro.pending();
    assert_eq!(gyro.set_data_rate(DataRate::Hz760), Step::Failed(DriverError::Busy));
    assert_eq!(gyro.data_ready(), Step::Failed(DriverError::Busy));
    assert_eq!(gyro.read_angular_rate(), Step::Failed(DriverError::Busy));
    assert_eq!(gyro.read_temperature(), Step::Failed(DriverError::Busy));
    assert_eq!(gyro.init(), Step::Failed(DriverError::Busy));
    assert_eq!(gyro.start(GyroCommand::DataReady), Step::Failed(DriverError::Busy));
    assert_eq!(gyro.pending(), pending);
    assert!(!gyro.is_idle());
}

#[test]
fn gyro_reply_without_request_is_refused() {
    let mut gyro = L3GD20::new();
    assert_eq!(gyro.resume(Ok(vec![0x08])), Step::Failed(DriverError::Unexpected));
    assert_eq!(gyro.resume(Err(BusFault::Timeout)), Step::Failed(DriverError::Unexpected));
    assert!(gyro.is_idle());
    assert!(!gyro.sample_waiting());
}

#[test]
fn gyro_start_is_the_named_operation() {
    let mut by_name = L3GD20::new();
    let mut by_command = L3GD20::new();
    assert_eq!(by_name.init(), by_command.start(GyroCommand::Init));
    assert_eq!(by_name.pending(), by_command.pending());
    let (mut by_name, _) = started();
    let (mut by_command, _) = started();
    assert_eq!(
        by_name.set_scale(FullScale::Dps500),
        by_command.start(GyroCommand::SetScale(FullScale::Dps500))
    );
    assert_eq!(by_name.resume(Ok(vec![0x80])), by_command.resume(Ok(vec![0x80])));
}
