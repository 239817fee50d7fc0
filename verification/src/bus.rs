//! Register access over the two buses of the board.
//!
//! A driver never touches a bus. It says which transfer it wants as a
//! [`Request`], the caller performs the transfer on the real bus and hands
//! back what came of it as a [`Reply`]. This module fixes how a register
//! access is framed on each bus and when a reply counts as a completed
//! transfer.

use vstd::prelude::*;

verus! {

/// Flag in the address byte of an SPI frame: set for a read, clear for a
/// write.
pub const SPI_READ: u8 = 0x80;

/// The longest burst that is read in one SPI frame: three 16-bit axes.
pub const SPI_BURST_MAX: usize = 6;

/// Why a transfer did not take place.
#[derive(Debug, Clone, Copy, PartialEq, Eq, Structural)]
pub enum BusFault {
    /// The addressed device did not acknowledge.
    NoAcknowledge,
    /// The transfer did not end in time.
    Timeout,
    /// The transfer broke off or came back with the wrong number of bytes.
    Framing,
}

/// The bus that a transfer goes over.
#[derive(Debug, Clone, Copy, PartialEq, Eq, Structural)]
pub enum Bus {
    /// The SPI bus, framed by the chip-select line of the one device on it.
    Spi,
    /// The I2C bus, to the device that answers at this 7-bit address.
    I2c { address: u8 },
}

/// One thing that a driver asks its caller to do.
#[derive(Debug, Clone, Copy, PartialEq, Eq, Structural)]
pub enum Request {
    /// Send `command`, then read `len` bytes, all in one transaction. On SPI
    /// the chip select is held low over both phases and a dummy byte is
    /// clocked out for each byte read; on I2C the read follows the written
    /// byte after a repeated start.
    Read { bus: Bus, command: u8, len: usize },
    /// Send `command` and then `value` in one transaction.
    Write { bus: Bus, command: u8, value: u8 },
    /// Let at least this many milliseconds pass.
    Delay { millis: u32 },
}

/// What a driver reports when an operation cannot go on.
#[derive(Debug, Clone, Copy, PartialEq, Eq, Structural)]
pub enum DriverError {
    /// A transfer failed on the bus.
    Bus(BusFault),
    /// Axis data was asked for, but the device has not been seen to hold a
    /// new sample since the last one was read.
    NotReady,
    /// An operation was started while another one was still in flight.
    Busy,
    /// A reply was handed in while no request was outstanding.
    Unexpected,
}

/// What the caller does next: perform a transfer and hand back its reply,
/// take the finished operation's outcome, or take its error.
#[derive(Debug, PartialEq, Eq)]
pub enum Step<T> {
    Perform(Request),
    Done(T),
    Failed(DriverError),
}

/// What came of a request: the bytes that were read (none for a write or a
/// delay), or the fault that stopped the transfer.
pub type Reply = Result<Vec<u8>, BusFault>;

/// A reply as contracts speak of it: the bytes as a sequence, the error as
/// it is.
pub open spec fn reply_view<E>(reply: Result<Vec<u8>, E>) -> Result<Seq<u8>, E> {
    match reply {
        Ok(bytes) => Ok(bytes@),
        Err(error) => Err(error),
    }
}

/// A reply that brings back exactly these bytes.
pub open spec fn data(bytes: Seq<u8>) -> Result<Seq<u8>, BusFault> {
    Ok(bytes)
}

/// The reply to a write or to a delay that went through.
pub open spec fn done() -> Result<Seq<u8>, BusFault> {
    Ok(Seq::empty())
}

impl Request {
    /// The bytes that the master puts on the wire before any byte is read.
    pub open spec fn transmitted(self) -> Seq<u8> {
        match self {
            Request::Read { command, .. } => seq![command],
            Request::Write { command, value, .. } => seq![command, value],
            Request::Delay { .. } => Seq::empty(),
        }
    }

    /// The number of bytes that a completed transfer brings back.
    pub open spec fn reply_len(self) -> nat {
        match self {
            Request::Read { len, .. } => len as nat,
            Request::Write { .. } => 0,
            Request::Delay { .. } => 0,
        }
    }

    /// What a reply to this request is taken for. A delay cannot fail and
    /// brings nothing back, whatever was handed in. A transfer counts only
    /// if it ran to its end: a fault is passed on, and a reply of the wrong
    /// length is a framing fault, never data.
    pub open spec fn accepted(self, reply: Result<Seq<u8>, BusFault>) -> Result<
        Seq<u8>,
        DriverError,
    > {
        match self {
            Request::Delay { .. } => Ok(Seq::empty()),
            _ => match reply {
                Err(fault) => Err(DriverError::Bus(fault)),
                Ok(bytes) => if bytes.len() == self.reply_len() {
                    Ok(bytes)
                } else {
                    Err(DriverError::Bus(BusFault::Framing))
                },
            },
        }
    }

    /// Checks a reply against the request it answers.
    pub fn accept(&self, reply: Reply) -> (checked: Result<Vec<u8>, DriverError>)
        ensures
            reply_view(checked) == self.accepted(reply_view(reply)),
    {
        match self {
            Request::Delay { .. } => Ok(Vec::new()),
            Request::Write { .. } => match reply {
                Err(fault) => Err(DriverError::Bus(fault)),
                Ok(bytes) => if bytes.len() == 0 {
                    Ok(bytes)
                } else {
                    Err(DriverError::Bus(BusFault::Framing))
                },
            },
            Request::Read { len, .. } => match reply {
                Err(fault) => Err(DriverError::Bus(fault)),
                Ok(bytes) => if bytes.len() == *len {
                    Ok(bytes)
                } else {
                    Err(DriverError::Bus(BusFault::Framing))
                },
            },
        }
    }
}

/// The frame that reads one register of the SPI device: the address with
/// the read flag set, then one byte back.
pub open spec fn spi_read(register: u8) -> Request {
    Request::Read { bus: Bus::Spi, command: register | SPI_READ, len: 1 }
}

/// The frame that writes one register of the SPI device: the address with
/// the read flag cleared, then the value.
pub open spec fn spi_write(register: u8, value: u8) -> Request {
    Request::Write { bus: Bus::Spi, command: register & !SPI_READ, value }
}

/// The frame that reads consecutive registers of the SPI device from
/// `start` on: one address phase, then the data bytes, of which there are
/// never more than [`SPI_BURST_MAX`].
pub open spec fn spi_burst(start: u8, len: usize) -> Request {
    Request::Read {
        bus: Bus::Spi,
        command: start | SPI_READ,
        len: if len <= SPI_BURST_MAX {
            len
        } else {
            SPI_BURST_MAX
        },
    }
}

/// The transaction that reads one register of an I2C device: the register
/// address is written, one byte is read.
pub open spec fn i2c_read(address: u8, register: u8) -> Request {
    Request::Read { bus: Bus::I2c { address }, command: register, len: 1 }
}

/// The transaction that writes one register of an I2C device.
pub open spec fn i2c_write(address: u8, register: u8, value: u8) -> Request {
    Request::Write { bus: Bus::I2c { address }, command: register, value }
}

/// The transaction that reads `len` consecutive registers of an I2C device:
/// the start address is written, then all bytes are read in one go.
pub open spec fn i2c_burst(address: u8, start: u8, len: usize) -> Request {
    Request::Read { bus: Bus::I2c { address }, command: start, len }
}

/// Frames the read of one register of the SPI device.
pub fn spi_read_register(register: u8) -> (request: Request)
    ensures
        request == spi_read(register),
{
    Request::Read { bus: Bus::Spi, command: register | SPI_READ, len: 1 }
}

/// Frames the write of one register of the SPI device.
pub fn spi_write_register(register: u8, value: u8) -> (request: Request)
    ensures
        request == spi_write(register, value),
{
    Request::Write { bus: Bus::Spi, command: register & !SPI_READ, value }
}

/// Frames a burst read from the SPI device, cut to [`SPI_BURST_MAX`] bytes.
pub fn spi_read_burst(start: u8, len: usize) -> (request: Request)
    ensures
        request == spi_burst(start, len),
{
    let len: usize = if len <= SPI_BURST_MAX {
        len
    } else {
        SPI_BURST_MAX
    };
    Request::Read { bus: Bus::Spi, command: start | SPI_READ, len }
}

/// Frames the read of one register of the I2C device at `address`.
pub fn i2c_read_register(address: u8, register: u8) -> (request: Request)
    ensures
        request == i2c_read(address, register),
{
    Request::Read { bus: Bus::I2c { address }, command: register, len: 1 }
}

/// Frames the write of one register of the I2C device at `address`.
pub fn i2c_write_register(address: u8, register: u8, value: u8) -> (request: Request)
    ensures
        request == i2c_write(address, register, value),
{
    Request::Write { bus: Bus::I2c { address }, command: register, value }
}

/// Frames a burst read from the I2C device at `address`.
pub fn i2c_read_burst(address: u8, start: u8, len: usize) -> (request: Request)
    ensures
        request == i2c_burst(address, start, len),
{
    Request::Read { bus: Bus::I2c { address }, command: start, len }
}

/// On the SPI wire the most significant bit of the first byte tells a read
/// from a write, and the other seven bits are those of the register address.
pub proof fn law_spi_read_flag(register: u8, value: u8)
    ensures
        spi_read(register).transmitted()[0] & SPI_READ == SPI_READ,
        spi_write(register, value).transmitted()[0] & SPI_READ == 0,
        spi_read(register).transmitted()[0] & !SPI_READ == register & !SPI_READ,
        spi_write(register, value).transmitted()[0] & !SPI_READ == register & !SPI_READ,
        spi_write(register, value).transmitted()[1] == value,
{
    assert((register | 0x80) & 0x80 == 0x80 && (register & !0x80u8) & 0x80 == 0 && (register
        | 0x80) & !0x80u8 == register & !0x80u8 && (register & !0x80u8) & !0x80u8 == register
        & !0x80u8) by (bit_vector);
}

/// A register address below 0x80 goes out unchanged in a write frame and
/// with 0x80 added in a read frame.
pub proof fn lemma_spi_command(register: u8, value: u8, len: usize)
    requires
        register < 0x80,
    ensures
        spi_read(register) == (Request::Read {
            bus: Bus::Spi,
            command: (register + 0x80) as u8,
            len: 1,
        }),
        spi_write(register, value) == (Request::Write { bus: Bus::Spi, command: register, value }),
        len <= SPI_BURST_MAX ==> spi_burst(register, len) == (Request::Read {
            bus: Bus::Spi,
            command: (register + 0x80) as u8,
            len,
        }),
{
    assert(register & !0x80u8 == register && register | 0x80 == (register + 0x80) as u8)
        by (bit_vector)
        requires
            register < 0x80,
    ;
}

/// A reply is taken for data only if the transfer ran to its end, and then
/// the data is the reply, byte for byte. Every fault on a read or a write
/// comes out as that very fault.
pub proof fn law_complete_or_fault(request: Request, reply: Result<Seq<u8>, BusFault>)
    ensures
        request.accepted(reply) matches Ok(bytes) ==> bytes.len() == request.reply_len(),
        request.accepted(reply) matches Ok(bytes) ==> (request is Delay || reply == Ok::<
            Seq<u8>,
            BusFault,
        >(bytes)),
        !(request is Delay) ==> (reply matches Err(fault) ==> request.accepted(reply) == Err::<
            Seq<u8>,
            DriverError,
        >(DriverError::Bus(fault))),
{
}

} // verus!
