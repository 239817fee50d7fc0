use stm32f411ve_disco::bus::{i2c_read_burst, i2c_read_register, i2c_write_register};
use stm32f411ve_disco::bus::{spi_read_burst, spi_read_register, spi_write_register};
use stm32f411ve_disco::bus::{Bus, BusFault, DriverError, Request};

#[test]
fn spi_read_sets_the_read_flag() {
    assert_eq!(
        spi_read_register(0x0F),
        Request::Read { bus: Bus::Spi, command: 0x8F, len: 1 }
    );
    assert_eq!(
        spi_read_register(0x8F),
        Request::Read { bus: Bus::Spi, command: 0x8F, len: 1 }
    );
}

#[test]
fn spi_write_clears_the_read_flag() {
    assert_eq!(
        spi_write_register(0x20, 0x0F),
        Request::Write { bus: Bus::Spi, command: 0x20, value: 0x0F }
    );
    assert_eq!(
        spi_write_register(0xA3, 0x55),
        Request::Write { bus: Bus::Spi, command: 0x23, value: 0x55 }
    );
}

#[test]
fn spi_burst_is_cut_to_six_bytes() {
    assert_eq!(
        spi_read_burst(0x28, 6),
        Request::Read { bus: Bus::Spi, command: 0xA8, len: 6 }
    );
    assert_eq!(
        spi_read_burst(0x28, 2),
        Request::Read { bus: Bus::Spi, command: 0xA8, len: 2 }
    );
    assert_eq!(
        spi_read_burst(0x28, 7),
        Request::Read { bus: Bus::Spi, command: 0xA8, len: 6 }
    );
    assert_eq!(
        spi_read_burst(0x28, usize::MAX),
        Request::Read { bus: Bus::Spi, command: 0xA8, len: 6 }
    );
}

#[test]
fn i2c_frames_carry_the_device_address() {
    assert_eq!(
        i2c_read_register(0x19, 0x27),
        Request::Read { bus: Bus::I2c { address: 0x19 }, command: 0x27, len: 1 }
    );
    assert_eq!(
        i2c_write_register(0x1E, 0x01, 0x20),
        Request::Write { bus: Bus::I2c { address: 0x1E }, command: 0x01, value: 0x20 }
    );
    assert_eq!(
        i2c_read_burst(0x1E, 0x03, 6),
        Request::Read { bus: Bus::I2c { address: 0x1E }, command: 0x03, len: 6 }
    );
    assert_eq!(
        i2c_read_burst(0x19, 0xA8, 12),
        Request::Read { bus: Bus::I2c { address: 0x19 }, command: 0xA8, len: 12 }
    );
}

#[test]
fn a_complete_reply_is_accepted_as_it_is() {
    let read = spi_read_burst(0x28, 6);
    assert_eq!(read.accept(Ok(vec![1, 2, 3, 4, 5, 6])), Ok(vec![1, 2, 3, 4, 5, 6]));
    let write = i2c_write_register(0x19, 0x20, 0x57);
    assert_eq!(write.accept(Ok(vec![])), Ok(vec![]));
}

#[test]
fn a_fault_is_passed_on() {
    let read = i2c_read_register(0x19, 0x27);
    assert_eq!(
        read.accept(Err(BusFault::NoAcknowledge)),
        Err(DriverError::Bus(BusFault::NoAcknowledge))
    );
    assert_eq!(read.accept(Err(BusFault::Timeout)), Err(DriverError::Bus(BusFault::Timeout)));
    let write = spi_write_register(0x20, 0x0F);
    assert_eq!(write.accept(Err(BusFault::Framing)), Err(DriverError::Bus(BusFault::Framing)));
}

#[test]
fn a_partial_transfer_is_never_data() {
    let read = spi_read_burst(0x28, 6);
    assert_eq!(read.accept(Ok(vec![1, 2, 3, 4, 5])), Err(DriverError::Bus(BusFault::Framing)));
    assert_eq!(read.accept(Ok(vec![])), Err(DriverError::Bus(BusFault::Framing)));
    assert_eq!(
        read.accept(Ok(vec![1, 2, 3, 4, 5, 6, 7])),
        Err(DriverError::Bus(BusFault::Framing))
    );
    let write = spi_write_register(0x20, 0x0F);
    assert_eq!(write.accept(Ok(vec![0])), Err(DriverError::Bus(BusFault::Framing)));
}

#[test]
fn a_delay_cannot_fail() {
    let delay = Request::Delay { millis: 250 };
    assert_eq!(delay.accept(Ok(vec![])), Ok(vec![]));
    assert_eq!(delay.accept(Ok(vec![9, 9])), Ok(vec![]));
    assert_eq!(delay.accept(Err(BusFault::Timeout)), Ok(vec![]));
}
