//! The parts that the board is put together from.

use crate::pins::Pin;
use vstd::prelude::*;

verus! {

/// The process slots of the board.
pub const NUM_PROCS: usize = 2;

/// The bytes of RAM that the processes share.
pub const APP_MEMORY_SIZE: usize = 16384;

/// The bytes of each of the two buffers between SPI system calls and DMA.
pub const SPI_BUFFER_SIZE: usize = 64;

/// The bytes of each of the two buffers for RF233 register operations.
pub const RF233_REGISTER_BUFFER_SIZE: usize = 2;

/// What the kernel does when a process faults.
#[derive(Clone, Copy, Debug, PartialEq, Eq)]
pub enum FaultResponse {
    Panic,
}

/// How the kernel of this board responds to a fault.
pub const FAULT_RESPONSE: FaultResponse = FaultResponse::Panic;

/// The frequency of the external oscillator.
#[derive(Clone, Copy, Debug, PartialEq, Eq)]
pub enum OscillatorFrequency {
    Frequency16MHz,
}

/// How long the external oscillator takes to start.
#[derive(Clone, Copy, Debug, PartialEq, Eq)]
pub enum OscillatorStartup {
    FastStart,
}

/// Where the system clock comes from.
#[derive(Clone, Copy, Debug, PartialEq, Eq)]
pub enum SystemClockSource {
    PllExternalOscillatorAt48MHz {
        frequency: OscillatorFrequency,
        startup_mode: OscillatorStartup,
    },
}

/// Where the 32 kHz and 1 kHz clocks come from.
#[derive(Clone, Copy, Debug, PartialEq, Eq)]
pub enum Ck32Source {
    RC32K,
}

/// Which submodules of the board are powered.
#[derive(Clone, Copy, Debug, PartialEq, Eq)]
pub struct SubmoduleConfig {
    pub rf233: bool,
    pub nrf51422: bool,
    pub sensors: bool,
    pub trng: bool,
}

/// How the level of a pin lights an LED.
#[derive(Clone, Copy, Debug, PartialEq, Eq)]
pub enum ActivationMode {
    ActiveHigh,
}

/// An input of the analog-to-digital converter.
#[derive(Clone, Copy, Debug, PartialEq, Eq)]
pub enum AdcChannel {
    Ad1,
    Ad2,
    Ad3,
    Ad4,
    Ad5,
    Ad6,
}

/// A hardware block of the chip.
#[derive(Clone, Copy, Debug, PartialEq, Eq)]
pub enum Peripheral {
    Usart3,
    Ast,
    I2c2,
    Spi,
    Adc0,
    AdcInput(AdcChannel),
    Crccu,
    Usbc,
}

/// A virtual alarm, named after the driver that it is for.
#[derive(Clone, Copy, Debug, PartialEq, Eq)]
pub enum Alarm {
    Timer,
    Isl29035,
    Si7021,
}

/// A device on the I2C bus.
#[derive(Clone, Copy, Debug, PartialEq, Eq)]
pub enum I2cDevice {
    Isl29035,
    Si7021,
    Fxos8700,
}

/// A virtual SPI master, named after the driver that it is for.
#[derive(Clone, Copy, Debug, PartialEq, Eq)]
pub enum SpiDevice {
    Syscalls,
    Rf233,
}

/// A software component that the board builds at start.
#[derive(Clone, Copy, Debug, PartialEq, Eq)]
pub enum Component {
    Console,
    ConsoleApp,
    MuxAlarm,
    Alarm(Alarm),
    Timer,
    MuxI2c,
    I2cDevice(I2cDevice),
    Isl29035,
    MuxSpi,
    SpiDevice(SpiDevice),
    SpiSyscalls,
    Si7021,
    Rf233,
    Fxos8700,
    NineDof,
    Adc,
    Gpio,
    Led,
    Button,
    Crc,
    RadioMac,
    RadioDriver,
    UsbClient,
    UsbDriver,
    Ipc,
    /// The handle by which the kernel reaches the chip.
    Chip,
}

/// What reports its events to a client.
#[derive(Clone, Copy, Debug, PartialEq, Eq)]
pub enum Source {
    Usart3,
    Ast,
    Alarm(Alarm),
    I2c2,
    I2cDevice(I2cDevice),
    Spi,
    SpiDevice(SpiDevice),
    Pin(Pin),
    Fxos8700,
    Adc0,
    RadioMacTransmit,
    RadioMacReceive,
    Rf233Transmit,
    Rf233Receive,
    Rf233Config,
    Usbc,
}

/// A memory area of the board that is lent to a component, or to the kernel, for good.
#[derive(Clone, Copy, Debug, PartialEq, Eq)]
pub enum Buffer {
    ConsoleWrite,
    Isl29035,
    SpiRead,
    SpiWrite,
    Si7021,
    Fxos8700,
    Adc1,
    Adc2,
    Adc3,
    /// The packet-sized buffer for RF233 SPI operations: read into while a packet is written out,
    /// written out while a packet is read in.
    Rf233,
    /// The buffer that the RF233 receives packets into.
    Rf233Receive,
    /// The small buffer that RF233 register operations write from.
    Rf233RegWrite,
    /// The small buffer that RF233 register operations read into.
    Rf233RegRead,
    /// The buffer between the radio system calls and the applications' buffers.
    Radio,
    /// The RAM that the processes share.
    AppMemory,
}

/// How large a memory area is.
#[derive(Clone, Copy, Debug, PartialEq, Eq)]
pub enum BufferSize {
    Bytes(usize),
    /// The size of the largest radio packet, which the kernel's radio interface fixes.
    Packet,
    /// The size that the driver which comes with the area gives it.
    OfDriver,
}

/// A memory area with its size.
#[derive(Clone, Copy, Debug, PartialEq, Eq)]
pub struct Memory {
    pub buffer: Buffer,
    pub size: BufferSize,
}

/// The size of each memory area.
pub open spec fn buffer_size(buffer: Buffer) -> BufferSize {
    match buffer {
        Buffer::AppMemory => BufferSize::Bytes(APP_MEMORY_SIZE),
        Buffer::SpiRead | Buffer::SpiWrite => BufferSize::Bytes(SPI_BUFFER_SIZE),
        Buffer::Rf233RegWrite | Buffer::Rf233RegRead => BufferSize::Bytes(
            RF233_REGISTER_BUFFER_SIZE,
        ),
        Buffer::Rf233 | Buffer::Rf233Receive | Buffer::Radio => BufferSize::Packet,
        _ => BufferSize::OfDriver,
    }
}

/// A memory area at its size.
pub open spec fn sized(buffer: Buffer) -> Memory {
    Memory { buffer, size: buffer_size(buffer) }
}

impl Buffer {
    /// The memory area with its size.
    pub fn memory(self) -> (memory: Memory)
        ensures
            memory == sized(self),
    {
        let size: BufferSize = match self {
            Buffer::ConsoleWrite
            | Buffer::Isl29035
            | Buffer::Si7021
            | Buffer::Fxos8700
            | Buffer::Adc1
            | Buffer::Adc2
            | Buffer::Adc3 => BufferSize::OfDriver,
            Buffer::SpiRead | Buffer::SpiWrite => BufferSize::Bytes(SPI_BUFFER_SIZE),
            Buffer::Rf233 | Buffer::Rf233Receive | Buffer::Radio => BufferSize::Packet,
            Buffer::Rf233RegWrite | Buffer::Rf233RegRead => BufferSize::Bytes(
                RF233_REGISTER_BUFFER_SIZE,
            ),
            Buffer::AppMemory => BufferSize::Bytes(APP_MEMORY_SIZE),
        };
        Memory { buffer: self, size }
    }
}

/// Where the images of the applications are.
#[derive(Clone, Copy, Debug, PartialEq, Eq)]
pub enum AppImages {
    /// The ROM region that begins at the linker symbol `_sapps`.
    Sapps,
}

/// The array that holds the loaded processes. The board has one.
#[derive(Clone, Copy, Debug, PartialEq, Eq)]
pub struct ProcessArray {
    pub slots: usize,
}

} // verus!
