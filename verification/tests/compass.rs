use stm32f411ve_disco::bus::{Bus, BusFault, DriverError, Reply, Request, Step};
use stm32f411ve_disco::compass::{accel_regs, mag_regs};
use stm32f411ve_disco::compass::{AccelDataRate, AccelScale, MagDataRate, MagGain};
use stm32f411ve_disco::compass::{Acceleration, MagneticField, ACCEL_ADDR, MAG_ADDR};
use stm32f411ve_disco::compass::{CompassCommand, CompassOutcome, LSM303DLHC};

const ACCEL: Bus = Bus::I2c { address: 0x19 };
const MAG: Bus = Bus::I2c { address: 0x1E };

/// A stand-in for the package on the I2C bus: one register file for each
/// of its two devices, and a record of all that was asked of them.
struct Package {
    accel: [u8; 128],
    mag: [u8; 128],
    seen: Vec<Request>,
}

impl Package {
    fn new() -> Package {
        let mut package = Package { accel: [0; 128], mag: [0; 128], seen: Vec::new() };
        package.accel[accel_regs::CTRL_REG1_A as usize] = 0x07;
        package.mag[mag_regs::CRA_REG_M as usize] = 0x10;
        package.mag[mag_regs::CRB_REG_M as usize] = 0x20;
        package.mag[mag_regs::MR_REG_M as usize] = 0x03;
        package
    }

    fn answer(&mut self, request: Request) -> Reply {
        self.seen.push(request);
        match request {
            Request::Read { bus, command, len } => {
                let start = (command & 0x7F) as usize;
                let registers = if bus == ACCEL {
                    assert!(len == 1 || command & 0x80 == 0x80);
                    &self.accel
                } else {
                    assert_eq!(bus, MAG);
                    &self.mag
                };
                Ok((0..len).map(|offset| registers[(start + offset) % 128]).collect())
            }
            Request::Write { bus, command, value } => {
                if bus == ACCEL {
                    self.accel[command as usize] = value;
                } else {
                    assert_eq!(bus, MAG);
                    self.mag[command as usize] = value;
                }
                Ok(vec![])
            }
            Request::Delay { .. } => Ok(vec![]),
        }
    }

    fn run(
        &mut self,
        compass: &mut LSM303DLHC,
        first: Step<CompassOutcome>,
    ) -> Result<CompassOutcome, DriverError> {
        let mut step = first;
        loop {
            match step {
                Step::Perform(request) => {
                    assert_eq!(compass.pending(), Some(request));
                    let reply = self.answer(request);
                    step = compass.resume(reply);
                }
                Step::Done(outcome) => {
                    assert!(compass.is_idle());
                    return Ok(outcome);
                }
                Step::Failed(error) => return Err(error),
            }
        }
    }
}

fn compass_started() -> (LSM303DLHC, Package) {
    let mut package = Package::new();
    let mut compass = LSM303DLHC::new();
    let first = compass.init();
    package.run(&mut compass, first).unwrap();
    package.seen.clear();
    (compass, package)
}

#[test]
fn compass_bus_addresses() {
    assert_eq!(ACCEL_ADDR, 0x19);
    assert_eq!(MAG_ADDR, 0x1E);
}

#[test]
fn accel_scale_table() {
    assert_eq!(AccelScale::G2.bits(), 0x00);
    assert_eq!(AccelScale::G4.bits(), 0x10);
    assert_eq!(AccelScale::G8.bits(), 0x20);
    assert_eq!(AccelScale::G16.bits(), 0x30);
    assert_eq!(AccelScale::G2.sensitivity(), 1);
    assert_eq!(AccelScale::G4.sensitivity(), 2);
    assert_eq!(AccelScale::G8.sensitivity(), 4);
    assert_eq!(AccelScale::G16.sensitivity(), 12);
}

#[test]
fn mag_gain_table() {
    let table = [
        (MagGain::Gauss1_3, 0x20, 1100, 980),
        (MagGain::Gauss1_9, 0x40, 855, 760),
        (MagGain::Gauss2_5, 0x60, 670, 600),
        (MagGain::Gauss4_0, 0x80, 450, 400),
        (MagGain::Gauss4_7, 0xA0, 400, 355),
        (MagGain::Gauss5_6, 0xC0, 330, 295),
        (MagGain::Gauss8_1, 0xE0, 230, 205),
    ];
    for (gain, bits, xy, z) in table {
        assert_eq!(gain.bits(), bits);
        assert_eq!(gain.sensitivity_xy(), xy);
        assert_eq!(gain.sensitivity_z(), z);
    }
}

#[test]
fn compass_data_rate_tables() {
    let accel = [
        (AccelDataRate::PowerDown, 0x00),
        (AccelDataRate::Hz1, 0x10),
        (AccelDataRate::Hz10, 0x20),
        (AccelDataRate::Hz25, 0x30),
        (AccelDataRate::Hz50, 0x40),
        (AccelDataRate::Hz100, 0x50),
        (AccelDataRate::Hz200, 0x60),
        (AccelDataRate::Hz400, 0x70),
        (AccelDataRate::Hz1620LP, 0x80),
        (AccelDataRate::Hz1344, 0x90),
    ];
    for (rate, bits) in accel {
        assert_eq!(rate.bits(), bits);
    }
    let mag = [
        (MagDataRate::Hz0_75, 0x00),
        (MagDataRate::Hz1_5, 0x04),
        (MagDataRate::Hz3, 0x08),
        (MagDataRate::Hz7_5, 0x0C),
        (MagDataRate::Hz15, 0x10),
        (MagDataRate::Hz30, 0x14),
        (MagDataRate::Hz75, 0x18),
        (MagDataRate::Hz220, 0x1C),
    ];
    for (rate, bits) in mag {
        assert_eq!(rate.bits(), bits);
    }
}

#[test]
fn compass_register_maps() {
    assert_eq!(accel_regs::CTRL_REG1_A, 0x20);
    assert_eq!(accel_regs::CTRL_REG2_A, 0x21);
    assert_eq!(accel_regs::CTRL_REG3_A, 0x22);
    assert_eq!(accel_regs::CTRL_REG4_A, 0x23);
    assert_eq!(accel_regs::CTRL_REG5_A, 0x24);
    assert_eq!(accel_regs::CTRL_REG6_A, 0x25);
    assert_eq!(accel_regs::REFERENCE_A, 0x26);
    assert_eq!(accel_regs::STATUS_REG_A, 0x27);
    assert_eq!(accel_regs::OUT_X_L_A, 0x28);
    assert_eq!(accel_regs::OUT_X_H_A, 0x29);
    assert_eq!(accel_regs::OUT_Y_L_A, 0x2A);
    assert_eq!(accel_regs::OUT_Y_H_A, 0x2B);
    assert_eq!(accel_regs::OUT_Z_L_A, 0x2C);
    assert_eq!(accel_regs::OUT_Z_H_A, 0x2D);
    assert_eq!(mag_regs::CRA_REG_M, 0x00);
    assert_eq!(mag_regs::CRB_REG_M, 0x01);
    assert_eq!(mag_regs::MR_REG_M, 0x02);
    assert_eq!(mag_regs::OUT_X_H_M, 0x03);
    assert_eq!(mag_regs::OUT_X_L_M, 0x04);
    assert_eq!(mag_regs::OUT_Z_H_M, 0x05);
    assert_eq!(mag_regs::OUT_Z_L_M, 0x06);
    assert_eq!(mag_regs::OUT_Y_H_M, 0x07);
    assert_eq!(mag_regs::OUT_Y_L_M, 0x08);
    assert_eq!(mag_regs::SR_REG_M, 0x09);
    assert_eq!(mag_regs::IRA_REG_M, 0x0A);
    assert_eq!(mag_regs::IRB_REG_M, 0x0B);
    assert_eq!(mag_regs::IRC_REG_M, 0x0C);
    assert_eq!(mag_regs::TEMP_OUT_H_M, 0x31);
    assert_eq!(mag_regs::TEMP_OUT_L_M, 0x32);
}

#[test]
fn compass_starts_idle_at_power_up_settings() {
    let compass = LSM303DLHC::new();
    assert_eq!(compass.accel_scale(), AccelScale::G2);
    assert_eq!(compass.accel_data_rate(), AccelDataRate::PowerDown);
    assert_eq!(compass.mag_gain(), MagGain::Gauss1_3);
    assert_eq!(compass.mag_data_rate(), MagDataRate::Hz15);
    assert!(!compass.accel_sample_waiting());
    assert!(!compass.mag_sample_waiting());
    assert!(compass.is_idle());
    assert_eq!(compass.pending(), None);
}

#[test]
fn compass_init_sequence() {
    let mut package = Package::new();
    let mut compass = LSM303DLHC::new();
    let first = compass.init();
    assert_eq!(package.run(&mut compass, first), Ok(CompassOutcome::Initialized));
    assert_eq!(
        package.seen,
        vec![
            Request::Write { bus: ACCEL, command: 0x20, value: 0x57 },
            Request::Write { bus: ACCEL, command: 0x21, value: 0x00 },
            Request::Write { bus: ACCEL, command: 0x22, value: 0x00 },
            Request::Write { bus: ACCEL, command: 0x23, value: 0x08 },
            Request::Write { bus: ACCEL, command: 0x24, value: 0x00 },
            Request::Delay { millis: 10 },
            Request::Write { bus: MAG, command: 0x00, value: 0x90 },
            Request::Write { bus: MAG, command: 0x01, value: 0x20 },
            Request::Write { bus: MAG, command: 0x02, value: 0x00 },
            Request::Delay { millis: 10 },
        ]
    );
    assert_eq!(compass.accel_scale(), AccelScale::G2);
    assert_eq!(compass.accel_data_rate(), AccelDataRate::Hz100);
    assert_eq!(compass.mag_gain(), MagGain::Gauss1_3);
    assert_eq!(compass.mag_data_rate(), MagDataRate::Hz15);
}

#[test]
fn set_accel_scale_changes_the_range_bits_only() {
    let (mut compass, mut package) = compass_started();
    assert_eq!(package.accel[0x23], 0x08);
    let accel_before = package.accel;
    let mag_before = package.mag;
    let first = compass.set_accel_scale(AccelScale::G8);
    assert_eq!(package.run(&mut compass, first), Ok(CompassOutcome::Configured));
    assert_eq!(
        package.seen,
        vec![
            Request::Read { bus: ACCEL, command: 0x23, len: 1 },
            Request::Write { bus: ACCEL, command: 0x23, value: 0x28 },
        ]
    );
    assert_eq!(compass.accel_scale(), AccelScale::G8);
    assert_eq!(package.mag, mag_before);
    for register in 0..128 {
        if register == 0x23 {
            assert_eq!(package.accel[register], 0x28);
        } else {
            assert_eq!(package.accel[register], accel_before[register]);
        }
    }
}

#[test]
fn set_accel_scale_from_every_register_value() {
    for current in 0..=255u8 {
        for scale in [AccelScale::G2, AccelScale::G4, AccelScale::G8, AccelScale::G16] {
            let (mut compass, mut package) = compass_started();
            package.accel[0x23] = current;
            let first = compass.set_accel_scale(scale);
            assert_eq!(package.run(&mut compass, first), Ok(CompassOutcome::Configured));
            assert_eq!(package.accel[0x23] & 0x30, scale.bits());
            assert_eq!(package.accel[0x23] & 0xCF, current & 0xCF);
            assert_eq!(compass.accel_scale(), scale);
        }
    }
}

#[test]
fn set_accel_data_rate_keeps_the_lower_half() {
    let (mut compass, mut package) = compass_started();
    let first = compass.set_accel_data_rate(AccelDataRate::Hz400);
    assert_eq!(package.run(&mut compass, first), Ok(CompassOutcome::Configured));
    assert_eq!(
        package.seen,
        vec![
            Request::Read { bus: ACCEL, command: 0x20, len: 1 },
            Request::Write { bus: ACCEL, command: 0x20, value: 0x77 },
        ]
    );
    assert_eq!(compass.accel_data_rate(), AccelDataRate::Hz400);
    assert_eq!(compass.accel_scale(), AccelScale::G2);
}

#[test]
fn set_mag_gain_overwrites_the_register() {
    let (mut compass, mut package) = compass_started();
    package.mag[0x01] = 0xFF;
    let first = compass.set_mag_gain(MagGain::Gauss4_7);
    assert_eq!(
        first,
        Step::Perform(Request::Write { bus: MAG, command: 0x01, value: 0xA0 })
    );
    assert_eq!(compass.mag_gain(), MagGain::Gauss1_3);
    assert_eq!(package.run(&mut compass, first), Ok(CompassOutcome::Configured));
    assert_eq!(package.seen, vec![Request::Write { bus: MAG, command: 0x01, value: 0xA0 }]);
    assert_eq!(package.mag[0x01], 0xA0);
    assert_eq!(compass.mag_gain(), MagGain::Gauss4_7);
}

#[test]
fn set_mag_data_rate_keeps_the_temperature_sensor() {
    let (mut compass, mut package) = compass_started();
    assert_eq!(package.mag[0x00], 0x90);
    let first = compass.set_mag_data_rate(MagDataRate::Hz220);
    assert_eq!(package.run(&mut compass, first), Ok(CompassOutcome::Configured));
    assert_eq!(
        package.seen,
        vec![
            Request::Read { bus: MAG, command: 0x00, len: 1 },
            Request::Write { bus: MAG, command: 0x00, value: 0x9C },
        ]
    );
    assert_eq!(compass.mag_data_rate(), MagDataRate::Hz220);
    let first = compass.set_mag_data_rate(MagDataRate::Hz0_75);
    assert_eq!(package.run(&mut compass, first), Ok(CompassOutcome::Configured));
    assert_eq!(package.mag[0x00], 0x80);
    for current in 0..=255u8 {
        package.mag[0x00] = current;
        let first = compass.set_mag_data_rate(MagDataRate::Hz30);
        assert_eq!(package.run(&mut compass, first), Ok(CompassOutcome::Configured));
        assert_eq!(package.mag[0x00] & 0x1C, 0x14);
        assert_eq!(package.mag[0x00] & 0xE3, current & 0xE3);
    }
}

#[test]
fn accel_data_ready_is_false_until_the_bit_is_set() {
    let (mut compass, mut package) = compass_started();
    for status in [0x00u8, 0x07, 0xF7] {
        package.accel[0x27] = status;
        let first = compass.accel_data_ready();
        assert_eq!(first, Step::Perform(Request::Read { bus: ACCEL, command: 0x27, len: 1 }));
        assert_eq!(package.run(&mut compass, first), Ok(CompassOutcome::AccelDataReady(false)));
        assert!(!compass.accel_sample_waiting());
    }
    package.accel[0x27] = 0x08;
    let first = compass.accel_data_ready();
    assert_eq!(package.run(&mut compass, first), Ok(CompassOutcome::AccelDataReady(true)));
    assert!(compass.accel_sample_waiting());
    assert!(!compass.mag_sample_waiting());
}

#[test]
fn mag_data_ready_is_false_until_the_bit_is_set() {
    let (mut compass, mut package) = compass_started();
    for status in [0x00u8, 0x02, 0xFE] {
        package.mag[0x09] = status;
        let first = compass.mag_data_ready();
        assert_eq!(first, Step::Perform(Request::Read { bus: MAG, command: 0x09, len: 1 }));
        assert_eq!(package.run(&mut compass, first), Ok(CompassOutcome::MagDataReady(false)));
        assert!(!compass.mag_sample_waiting());
    }
    package.mag[0x09] = 0x01;
    let first = compass.mag_data_ready();
    assert_eq!(package.run(&mut compass, first), Ok(CompassOutcome::MagDataReady(true)));
    assert!(compass.mag_sample_waiting());
    assert!(!compass.accel_sample_waiting());
}

#[test]
fn compass_no_sample_is_read_before_data_is_ready() {
    let (mut compass, mut package) = compass_started();
    assert_eq!(compass.read_acceleration(), Step::Failed(DriverError::NotReady));
    assert_eq!(compass.read_magnetic_field(), Step::Failed(DriverError::NotReady));
    package.accel[0x27] = 0x08;
    let first = compass.accel_data_ready();
    assert_eq!(package.run(&mut compass, first), Ok(CompassOutcome::AccelDataReady(true)));
    assert_eq!(compass.read_magnetic_field(), Step::Failed(DriverError::NotReady));
    package.seen.clear();
    let first = compass.read_acceleration();
    assert_eq!(first, Step::Perform(Request::Read { bus: ACCEL, command: 0xA8, len: 6 }));
    assert!(package.run(&mut compass, first).is_ok());
    assert_eq!(package.seen, vec![Request::Read { bus: ACCEL, command: 0xA8, len: 6 }]);
    assert_eq!(compass.read_acceleration(), Step::Failed(DriverError::NotReady));
    package.mag[0x09] = 0x01;
    let first = compass.mag_data_ready();
    assert_eq!(package.run(&mut compass, first), Ok(CompassOutcome::MagDataReady(true)));
    package.seen.clear();
    let first = compass.read_magnetic_field();
    assert_eq!(first, Step::Perform(Request::Read { bus: MAG, command: 0x03, len: 6 }));
    assert!(package.run(&mut compass, first).is_ok());
    assert_eq!(compass.read_magnetic_field(), Step::Failed(DriverError::NotReady));
    assert_eq!(package.seen.len(), 1);
}

#[test]
fn acceleration_of_twelve_bit_samples() {
    let data = [0xF0, 0x00, 0x00, 0x00, 0x00, 0x00];
    assert_eq!(
        Acceleration::from_registers(&data, AccelScale::G2),
        Acceleration { x: 15, y: 0, z: 0 }
    );
    let data = [0x00, 0x40, 0xF0, 0xFF, 0x0F, 0x80];
    assert_eq!(
        Acceleration::from_registers(&data, AccelScale::G2),
        Acceleration { x: 1024, y: -1, z: -2048 }
    );
    assert_eq!(
        Acceleration::from_registers(&data, AccelScale::G4),
        Acceleration { x: 2048, y: -2, z: -4096 }
    );
    assert_eq!(
        Acceleration::from_registers(&data, AccelScale::G8),
        Acceleration { x: 4096, y: -4, z: -8192 }
    );
    assert_eq!(
        Acceleration::from_registers(&data, AccelScale::G16),
        Acceleration { x: 12288, y: -12, z: -24576 }
    );
}

#[test]
fn acceleration_is_converted_at_the_scale_in_force() {
    let (mut compass, mut package) = compass_started();
    let bytes = [0xF0u8, 0x00, 0x10, 0x00, 0xF0, 0xFF];
    for (scale, expected) in [
        (AccelScale::G2, Acceleration { x: 15, y: 1, z: -1 }),
        (AccelScale::G4, Acceleration { x: 30, y: 2, z: -2 }),
        (AccelScale::G8, Acceleration { x: 60, y: 4, z: -4 }),
        (AccelScale::G16, Acceleration { x: 180, y: 12, z: -12 }),
    ] {
        let first = compass.set_accel_scale(scale);
        assert_eq!(package.run(&mut compass, first), Ok(CompassOutcome::Configured));
        package.accel[0x27] = 0x08;
        package.accel[0x28..0x2E].copy_from_slice(&bytes);
        let first = compass.accel_data_ready();
        assert_eq!(package.run(&mut compass, first), Ok(CompassOutcome::AccelDataReady(true)));
        let first = compass.read_acceleration();
        assert_eq!(package.run(&mut compass, first), Ok(CompassOutcome::Acceleration(expected)));
    }
}

#[test]
fn magnetic_field_registers_come_in_the_order_x_z_y() {
    let data = [0x04, 0x4C, 0x00, 0x00, 0x00, 0x00];
    assert_eq!(
        MagneticField::from_registers(&data, MagGain::Gauss1_3),
        MagneticField { x: 1_000_000, y: 0, z: 0 }
    );
    let data = [0x00, 0x00, 0x03, 0xD4, 0x00, 0x00];
    assert_eq!(
        MagneticField::from_registers(&data, MagGain::Gauss1_3),
        MagneticField { x: 0, y: 0, z: 1_000_000 }
    );
    let data = [0x00, 0x00, 0x00, 0x00, 0x04, 0x4C];
    assert_eq!(
        MagneticField::from_registers(&data, MagGain::Gauss1_3),
        MagneticField { x: 0, y: 1_000_000, z: 0 }
    );
    let data = [0x00, 0x01, 0x00, 0x02, 0x00, 0x03];
    let field = MagneticField::from_registers(&data, MagGain::Gauss4_0);
    assert_eq!(field, MagneticField { x: 2_222, y: 6_666, z: 5_000 });
}

#[test]
fn magnetic_field_is_rounded_toward_zero() {
    let data = [0xFF, 0xFF, 0xFF, 0xFF, 0xFF, 0xFF];
    assert_eq!(
        MagneticField::from_registers(&data, MagGain::Gauss1_3),
        MagneticField { x: -909, y: -909, z: -1_020 }
    );
    let data = [0x00, 0x01, 0x00, 0x01, 0x00, 0x01];
    assert_eq!(
        MagneticField::from_registers(&data, MagGain::Gauss1_3),
        MagneticField { x: 909, y: 909, z: 1_020 }
    );
    let data = [0x80, 0x00, 0x80, 0x00, 0x7F, 0xFF];
    assert_eq!(
        MagneticField::from_registers(&data, MagGain::Gauss8_1),
        MagneticField { x: -142_469_565, y: 142_465_217, z: -159_843_902 }
    );
}

#[test]
fn magnetic_field_is_converted_at_the_gain_in_force() {
    let (mut compass, mut package) = compass_started();
    let bytes = [0x01u8, 0x00, 0x02, 0x00, 0xFF, 0x00];
    for (gain, expected) in [
        (MagGain::Gauss1_3, MagneticField { x: 232_727, y: -232_727, z: 522_448 }),
        (MagGain::Gauss8_1, MagneticField { x: 1_113_043, y: -1_113_043, z: 2_497_560 }),
    ] {
        let first = compass.set_mag_gain(gain);
        assert_eq!(package.run(&mut compass, first), Ok(CompassOutcome::Configured));
        package.mag[0x09] = 0x01;
        package.mag[0x03..0x09].copy_from_slice(&bytes);
        let first = compass.mag_data_ready();
        assert_eq!(package.run(&mut compass, first), Ok(CompassOutcome::MagDataReady(true)));
        let first = compass.read_magnetic_field();
        assert_eq!(package.run(&mut compass, first), Ok(CompassOutcome::MagneticField(expected)));
    }
}

#[test]
fn compass_temperature_is_twelve_bits_high_byte_first() {
    let (mut compass, mut package) = compass_started();
    for (high, low, reading) in [
        (0x00u8, 0x00u8, 0i16),
        (0x01, 0x40, 20),
        (0x0C, 0x80, 200),
        (0x7F, 0xFF, 2047),
        (0xFF, 0xF0, -1),
        (0xFF, 0x00, -16),
        (0x80, 0x00, -2048),
    ] {
        package.mag[0x31] = high;
        package.mag[0x32] = low;
        package.seen.clear();
        let first = compass.read_temperature();
        assert_eq!(package.run(&mut compass, first), Ok(CompassOutcome::Temperature(reading)));
        assert_eq!(
            package.seen,
            vec![
                Request::Read { bus: MAG, command: 0x31, len: 1 },
                Request::Read { bus: MAG, command: 0x32, len: 1 },
            ]
        );
    }
}

#[test]
fn compass_bus_fault_surfaces() {
    let (mut compass, _) = compass_started();
    for fault in [BusFault::NoAcknowledge, BusFault::Timeout, BusFault::Framing] {
        assert!(matches!(compass.set_accel_scale(AccelScale::G16), Step::Perform(_)));
        assert_eq!(compass.resume(Err(fault)), Step::Failed(DriverError::Bus(fault)));
        assert_eq!(compass.accel_scale(), AccelScale::G2);
        assert!(matches!(compass.set_mag_gain(MagGain::Gauss8_1), Step::Perform(_)));
        assert_eq!(compass.resume(Err(fault)), Step::Failed(DriverError::Bus(fault)));
        assert_eq!(compass.mag_gain(), MagGain::Gauss1_3);
        assert!(matches!(compass.mag_data_ready(), Step::Perform(_)));
        assert_eq!(compass.resume(Err(fault)), Step::Failed(DriverError::Bus(fault)));
        assert!(!compass.mag_sample_waiting());
        assert!(matches!(compass.read_temperature(), Step::Perform(_)));
        assert!(matches!(compass.resume(Ok(vec![0x01])), Step::Perform(_)));
        assert_eq!(compass.resume(Err(fault)), Step::Failed(DriverError::Bus(fault)));
        assert!(compass.is_idle());
    }
}

#[test]
fn compass_bus_fault_on_write_leaves_the_setting() {
    let (mut compass, _) = compass_started();
    assert!(matches!(compass.set_accel_data_rate(AccelDataRate::Hz1), Step::Perform(_)));
    assert_eq!(
        compass.resume(Ok(vec![0x57])),
        Step::Perform(Request::Write { bus: ACCEL, command: 0x20, value: 0x17 })
    );
    assert_eq!(
        compass.resume(Err(BusFault::Timeout)),
        Step::Failed(DriverError::Bus(BusFault::Timeout))
    );
    assert_eq!(compass.accel_data_rate(), AccelDataRate::Hz100);
}

#[test]
fn compass_bus_fault_during_init_surfaces() {
    let mut compass = LSM303DLHC::new();
    assert!(matches!(compass.init(), Step::Perform(_)));
    assert!(matches!(compass.resume(Ok(vec![])), Step::Perform(_)));
    assert_eq!(compass.accel_data_rate(), AccelDataRate::Hz100);
    assert_eq!(
        compass.resume(Err(BusFault::NoAcknowledge)),
        Step::Failed(DriverError::Bus(BusFault::NoAcknowledge))
    );
    assert!(compass.is_idle());
    assert_eq!(compass.accel_data_rate(), AccelDataRate::Hz100);
}

#[test]
fn compass_partial_reply_is_a_framing_fault() {
    let (mut compass, mut package) = compass_started();
    package.mag[0x09] = 0x01;
    let first = compass.mag_data_ready();
    assert_eq!(package.run(&mut compass, first), Ok(CompassOutcome::MagDataReady(true)));
    assert!(matches!(compass.read_magnetic_field(), Step::Perform(_)));
    assert_eq!(
        compass.resume(Ok(vec![0, 1, 2])),
        Step::Failed(DriverError::Bus(BusFault::Framing))
    );
    assert!(matches!(compass.accel_data_ready(), Step::Perform(_)));
    assert_eq!(compass.resume(Ok(vec![])), Step::Failed(DriverError::Bus(BusFault::Framing)));
    assert!(matches!(compass.set_mag_gain(MagGain::Gauss2_5), Step::Perform(_)));
    assert_eq!(compass.resume(Ok(vec![0])), Step::Failed(DriverError::Bus(BusFault::Framing)));
    assert_eq!(compass.mag_gain(), MagGain::Gauss1_3);
}

#[test]
fn compass_one_operation_at_a_time() {
    let (mut compass, _) = compass_started();
    assert!(matches!(compass.set_accel_scale(AccelScale::G4), Step::Perform(_)));
    let pending = compass.pending();
    assert_eq!(compass.set_mag_gain(MagGain::Gauss8_1), Step::Failed(DriverError::Busy));
    assert_eq!(compass.mag_data_ready(), Step::Failed(DriverError::Busy));
    assert_eq!(compass.accel_data_ready(), Step::Failed(DriverError::Busy));
    assert_eq!(compass.read_acceleration(), Step::Failed(DriverError::Busy));
    assert_eq!(compass.read_magnetic_field(), Step::Failed(DriverError::Busy));
    assert_eq!(compass.read_temperature(), Step::Failed(DriverError::Busy));
    assert_eq!(compass.set_accel_data_rate(AccelDataRate::Hz1), Step::Failed(DriverError::Busy));
    assert_eq!(compass.set_mag_data_rate(MagDataRate::Hz3), Step::Failed(DriverError::Busy));
    assert_eq!(compass.init(), Step::Failed(DriverError::Busy));
    assert_eq!(compass.start(CompassCommand::Init), Step::Failed(DriverError::Busy));
    assert_eq!(compass.pending(), pending);
}

#[test]
fn compass_reply_without_request_is_refused() {
    let mut compass = LSM303DLHC::new();
    assert_eq!(compass.resume(Ok(vec![0x01])), Step::Failed(DriverError::Unexpected));
    assert_eq!(compass.resume(Err(BusFault::Timeout)), Step::Failed(DriverError::Unexpected));
    assert!(compass.is_idle());
}
