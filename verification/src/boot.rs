//! The actions that bring the board up, from reset to the kernel's main loop.

use crate::board::Board;
use crate::laws::lemma_boot_completes;
use crate::parts::{
    sized, ActivationMode, AdcChannel, Alarm, AppImages, Buffer, Ck32Source, Component,
    FaultResponse, I2cDevice, Memory, OscillatorFrequency, OscillatorStartup, ProcessArray, Source,
    SpiDevice, SubmoduleConfig, SystemClockSource, FAULT_RESPONSE, NUM_PROCS,
};
use crate::pins::{primary_settings, set_pin_primary_functions, Pin, PinSetting, Port, PIN_SETTINGS};
use crate::platform::{board_platform, platform, Imix};
use vstd::prelude::*;

verus! {

/// One thing that the firmware does on the way up.
#[derive(Clone, Copy, Debug, PartialEq, Eq)]
pub enum BootAction {
    /// Initialize the chip.
    InitChip,
    SetupSystemClock(SystemClockSource),
    SetCk32Source(Ck32Source),
    ConfigurePin(PinSetting),
    ConfigureSubmodules(SubmoduleConfig),
    /// Make the first part report its events to the second.
    SetClient { source: Source, client: Component },
    /// Build the console on USART3.
    NewConsole { baud_rate: u32, buffer: Memory },
    InitializeConsole,
    /// Build the state that the kernel's own messages need in the console.
    NewConsoleApp,
    /// Attach the kernel's debug interface to the console.
    AssignConsoleDriver,
    /// Build the alarm multiplexer on the AST.
    NewMuxAlarm,
    /// Build a virtual alarm on the alarm multiplexer.
    NewVirtualAlarm { alarm: Alarm },
    NewTimer { alarm: Alarm },
    /// Build the I2C multiplexer on I2C2.
    NewMuxI2c,
    /// Build a device on the I2C multiplexer.
    NewI2cDevice { i2c: I2cDevice, address: u8 },
    NewIsl29035 { i2c: I2cDevice, alarm: Alarm, buffer: Memory },
    /// Build the SPI multiplexer on the SPI master.
    NewMuxSpi,
    InitSpi,
    EnableSpi,
    /// Build a virtual SPI master on the SPI multiplexer.
    NewSpiDevice { spi: SpiDevice, chip_select: u8 },
    NewSpiSyscalls { spi: SpiDevice },
    ConfigSpiBuffers { read: Memory, write: Memory },
    NewSi7021 { i2c: I2cDevice, alarm: Alarm, buffer: Memory },
    NewRf233 { spi: SpiDevice, reset: Pin, sleep: Pin, irq: Pin, irq_ctl: Pin },
    NewFxos8700 { i2c: I2cDevice, interrupt: Pin, buffer: Memory },
    /// Build the nine degrees of freedom driver on the FXOS8700.
    NewNineDof,
    /// Build the converter driver on ADC0.
    NewAdc { channels: [AdcChannel; 6], buffers: [Memory; 3] },
    NewGpio { pins: [Pin; 7] },
    NewLed { leds: [(Pin, ActivationMode); 2] },
    NewButton { buttons: [Pin; 1] },
    /// Build the CRC driver on the CRCCU.
    NewCrc,
    InitializeRf233 { buffer: Memory, reg_write: Memory, reg_read: Memory },
    /// Build the link layer on the RF233.
    NewRadioMac,
    /// Build the radio system calls on the link layer.
    NewRadioDriver,
    ConfigRadioBuffer { buffer: Memory },
    /// Make the RF233 hand received packets to a client, with a first buffer to receive into.
    SetRf233ReceiveClient { client: Component, buffer: Memory },
    /// Build the USB client on the USB controller.
    NewUsbClient,
    /// Build the USB system calls on the USB client.
    NewUsbDriver,
    NewIpc,
    /// Publish the drivers to the processes.
    AssemblePlatform(Imix<Component>),
    /// Build the handle by which the kernel reaches the chip.
    NewChip,
    ResetRf233,
    SetPan(u16),
    SetAddress(u16),
    StartRf233,
    /// Send a message to the kernel's debug interface.
    Debug { message: &'static str },
    LoadProcesses {
        images: AppImages,
        app_memory: Memory,
        processes: ProcessArray,
        fault_response: FaultResponse,
    },
    /// Enter the kernel's main loop, which does not return, with the drivers, the chip, the
    /// processes and the component for interprocess communication that it works on.
    EnterMainLoop {
        platform: Imix<Component>,
        chip: Component,
        processes: ProcessArray,
        ipc: Component,
    },
}

/// The number of actions from reset to the main loop.
pub const BOOT_ACTIONS: usize = 139;

/// A pin of port A.
pub open spec fn pa(index: u8) -> Pin {
    Pin { port: Port::A, index }
}

/// A pin of port C.
pub open spec fn pc(index: u8) -> Pin {
    Pin { port: Port::C, index }
}

fn pin_a(index: u8) -> (pin: Pin)
    ensures
        pin == pa(index),
{
    Pin { port: Port::A, index }
}

fn pin_c(index: u8) -> (pin: Pin)
    ensures
        pin == pc(index),
{
    Pin { port: Port::C, index }
}

/// The action that makes `client` the client of `source`.
pub open spec fn connect(source: Source, client: Component) -> BootAction {
    BootAction::SetClient { source, client }
}

/// Makes `client` the client of each of `pins`, in order.
pub open spec fn connect_pins(pins: Seq<Pin>, client: Component) -> Seq<BootAction> {
    pins.map_values(|pin: Pin| connect(Source::Pin(pin), client))
}

/// The pins that processes control, P2 to P8.
pub open spec fn gpio_pins() -> [Pin; 7] {
    [pc(31), pc(30), pc(29), pc(28), pc(27), pc(26), pa(20)]
}

/// The kernel LED and the user LED.
pub open spec fn led_pins() -> [(Pin, ActivationMode); 2] {
    [(pc(22), ActivationMode::ActiveHigh), (pc(10), ActivationMode::ActiveHigh)]
}

/// The user button.
pub open spec fn button_pins() -> [Pin; 1] {
    [pc(24)]
}

/// The chip itself: it, then its clocks.
pub open spec fn chip_actions() -> Seq<BootAction> {
    seq![
        BootAction::InitChip,
        BootAction::SetupSystemClock(
            SystemClockSource::PllExternalOscillatorAt48MHz {
                frequency: OscillatorFrequency::Frequency16MHz,
                startup_mode: OscillatorStartup::FastStart,
            },
        ),
        BootAction::SetCk32Source(Ck32Source::RC32K),
    ]
}

/// The pins, each set to its function.
pub open spec fn pin_actions() -> Seq<BootAction> {
    primary_settings().map_values(|s: PinSetting| BootAction::ConfigurePin(s))
}

/// Power for every submodule.
pub open spec fn power_actions() -> Seq<BootAction> {
    seq![
        BootAction::ConfigureSubmodules(
            SubmoduleConfig { rf233: true, nrf51422: true, sensors: true, trng: true },
        ),
    ]
}

/// The console, at 115200 baud, and the kernel's messages on it.
pub open spec fn console_actions() -> Seq<BootAction> {
    seq![
        BootAction::NewConsole { baud_rate: 115200, buffer: sized(Buffer::ConsoleWrite) },
        connect(Source::Usart3, Component::Console),
        BootAction::InitializeConsole,
        BootAction::NewConsoleApp,
        BootAction::AssignConsoleDriver,
    ]
}

/// The timer, on the first virtual alarm.
pub open spec fn timer_actions() -> Seq<BootAction> {
    seq![
        BootAction::NewMuxAlarm,
        connect(Source::Ast, Component::MuxAlarm),
        BootAction::NewVirtualAlarm { alarm: Alarm::Timer },
        BootAction::NewTimer { alarm: Alarm::Timer },
        connect(Source::Alarm(Alarm::Timer), Component::Timer),
    ]
}

/// The I2C bus and the light sensor on it, the ISL29035 at address 0x44.
pub open spec fn isl29035_actions() -> Seq<BootAction> {
    seq![
        BootAction::NewMuxI2c,
        connect(Source::I2c2, Component::MuxI2c),
        BootAction::NewI2cDevice { i2c: I2cDevice::Isl29035, address: 0x44 },
        BootAction::NewVirtualAlarm { alarm: Alarm::Isl29035 },
        BootAction::NewIsl29035 {
            i2c: I2cDevice::Isl29035,
            alarm: Alarm::Isl29035,
            buffer: sized(Buffer::Isl29035),
        },
        connect(Source::I2cDevice(I2cDevice::Isl29035), Component::Isl29035),
        connect(Source::Alarm(Alarm::Isl29035), Component::Isl29035),
    ]
}

/// The SPI bus and the system calls on it.
pub open spec fn spi_actions() -> Seq<BootAction> {
    seq![
        BootAction::NewMuxSpi,
        connect(Source::Spi, Component::MuxSpi),
        BootAction::InitSpi,
        BootAction::EnableSpi,
        BootAction::NewSpiDevice { spi: SpiDevice::Syscalls, chip_select: 3 },
        BootAction::NewSpiSyscalls { spi: SpiDevice::Syscalls },
        BootAction::ConfigSpiBuffers {
            read: sized(Buffer::SpiRead),
            write: sized(Buffer::SpiWrite),
        },
        connect(Source::SpiDevice(SpiDevice::Syscalls), Component::SpiSyscalls),
    ]
}

/// The temperature and humidity sensor, the SI7021 at address 0x40.
pub open spec fn si7021_actions() -> Seq<BootAction> {
    seq![
        BootAction::NewVirtualAlarm { alarm: Alarm::Si7021 },
        BootAction::NewI2cDevice { i2c: I2cDevice::Si7021, address: 0x40 },
        BootAction::NewSi7021 {
            i2c: I2cDevice::Si7021,
            alarm: Alarm::Si7021,
            buffer: sized(Buffer::Si7021),
        },
        connect(Source::I2cDevice(I2cDevice::Si7021), Component::Si7021),
        connect(Source::Alarm(Alarm::Si7021), Component::Si7021),
    ]
}

/// The RF233 on its SPI device and pins. One pin is the interrupt line and its control.
pub open spec fn rf233_actions() -> Seq<BootAction> {
    seq![
        BootAction::NewSpiDevice { spi: SpiDevice::Rf233, chip_select: 3 },
        BootAction::NewRf233 {
            spi: SpiDevice::Rf233,
            reset: pa(9),
            sleep: pa(10),
            irq: pa(8),
            irq_ctl: pa(8),
        },
        connect(Source::Pin(pa(8)), Component::Rf233),
    ]
}

/// The accelerometer, the FXOS8700CQ at address 0x1e, and the system calls on it.
pub open spec fn ninedof_actions() -> Seq<BootAction> {
    seq![
        BootAction::NewI2cDevice { i2c: I2cDevice::Fxos8700, address: 0x1e },
        BootAction::NewFxos8700 {
            i2c: I2cDevice::Fxos8700,
            interrupt: pc(13),
            buffer: sized(Buffer::Fxos8700),
        },
        connect(Source::I2cDevice(I2cDevice::Fxos8700), Component::Fxos8700),
        connect(Source::Pin(pc(13)), Component::Fxos8700),
        BootAction::NewNineDof,
        connect(Source::Fxos8700, Component::NineDof),
    ]
}

/// The converter with the inputs that the board calls AD0 to AD5.
pub open spec fn adc_actions() -> Seq<BootAction> {
    seq![
        BootAction::NewAdc {
            channels: [
                AdcChannel::Ad1,
                AdcChannel::Ad2,
                AdcChannel::Ad3,
                AdcChannel::Ad4,
                AdcChannel::Ad5,
                AdcChannel::Ad6,
            ],
            buffers: [sized(Buffer::Adc1), sized(Buffer::Adc2), sized(Buffer::Adc3)],
        },
        connect(Source::Adc0, Component::Adc),
    ]
}

/// The pins that processes control.
pub open spec fn gpio_actions() -> Seq<BootAction> {
    seq![BootAction::NewGpio { pins: gpio_pins() }] + connect_pins(gpio_pins()@, Component::Gpio)
}

/// The LEDs.
pub open spec fn led_actions() -> Seq<BootAction> {
    seq![BootAction::NewLed { leds: led_pins() }]
}

/// The button.
pub open spec fn button_actions() -> Seq<BootAction> {
    seq![BootAction::NewButton { buttons: button_pins() }] + connect_pins(
        button_pins()@,
        Component::Button,
    )
}

/// The CRC unit.
pub open spec fn crc_actions() -> Seq<BootAction> {
    seq![BootAction::NewCrc]
}

/// The radio stack: the RF233, the link layer on it, the system calls on that.
pub open spec fn radio_actions() -> Seq<BootAction> {
    seq![
        connect(Source::SpiDevice(SpiDevice::Rf233), Component::Rf233),
        BootAction::InitializeRf233 {
            buffer: sized(Buffer::Rf233),
            reg_write: sized(Buffer::Rf233RegWrite),
            reg_read: sized(Buffer::Rf233RegRead),
        },
        BootAction::NewRadioMac,
        BootAction::NewRadioDriver,
        BootAction::ConfigRadioBuffer { buffer: sized(Buffer::Radio) },
        connect(Source::RadioMacTransmit, Component::RadioDriver),
        connect(Source::RadioMacReceive, Component::RadioDriver),
        connect(Source::Rf233Transmit, Component::RadioMac),
        BootAction::SetRf233ReceiveClient {
            client: Component::RadioMac,
            buffer: sized(Buffer::Rf233Receive),
        },
        connect(Source::Rf233Config, Component::RadioMac),
    ]
}

/// The USB controller and the system calls on it.
pub open spec fn usb_actions() -> Seq<BootAction> {
    seq![
        BootAction::NewUsbClient,
        connect(Source::Usbc, Component::UsbClient),
        BootAction::NewUsbDriver,
    ]
}

/// The drivers published, the radio on the air, the end of the initialization announced, the
/// processes loaded, the kernel running.
pub open spec fn launch_actions() -> Seq<BootAction> {
    seq![
        BootAction::NewIpc,
        BootAction::AssemblePlatform(board_platform()),
        BootAction::NewChip,
        BootAction::ResetRf233,
        BootAction::SetPan(0xABCD),
        BootAction::SetAddress(0x1008),
        BootAction::StartRf233,
        BootAction::Debug { message: "Initialization complete. Entering main loop" },
        BootAction::LoadProcesses {
            images: AppImages::Sapps,
            app_memory: sized(Buffer::AppMemory),
            processes: ProcessArray { slots: NUM_PROCS },
            fault_response: FAULT_RESPONSE,
        },
        BootAction::EnterMainLoop {
            platform: board_platform(),
            chip: Component::Chip,
            processes: ProcessArray { slots: NUM_PROCS },
            ipc: Component::Ipc,
        },
    ]
}

/// What the firmware does from reset to the main loop, in order.
pub open spec fn boot_sequence() -> Seq<BootAction> {
    chip_actions() + pin_actions() + power_actions() + console_actions() + timer_actions()
        + isl29035_actions() + spi_actions() + si7021_actions() + rf233_actions()
        + ninedof_actions() + adc_actions() + gpio_actions() + led_actions() + button_actions()
        + crc_actions() + radio_actions() + usb_actions() + launch_actions()
}

/// A plan in the making: the first `len` of the actions are planned. The board has no heap and
/// little stack, so the plan is made where the caller keeps it.
struct Plan<'a> {
    actions: &'a mut [BootAction; BOOT_ACTIONS],
    len: usize,
}

impl<'a> Plan<'a> {
    spec fn wf(self) -> bool {
        self.len <= BOOT_ACTIONS
    }

    spec fn view(self) -> Seq<BootAction> {
        self.actions@.take(self.len as int)
    }

    /// Adds an action at the end.
    fn push(&mut self, action: BootAction)
        requires
            old(self).wf(),
            old(self)@.len() < BOOT_ACTIONS,
        ensures
            final(self).wf(),
            final(self)@ == old(self)@.push(action),
            *final(final(self).actions) == *final(old(self).actions),
    {
        self.actions[self.len] = action;
        self.len = self.len + 1;
        assert(self@ =~= old(self)@.push(action));
    }

    /// Adds the action that makes `client` the client of `source`.
    fn connect(&mut self, source: Source, client: Component)
        requires
            old(self).wf(),
            old(self)@.len() < BOOT_ACTIONS,
        ensures
            final(self).wf(),
            final(self)@ == old(self)@.push(connect(source, client)),
            *final(final(self).actions) == *final(old(self).actions),
    {
        self.push(BootAction::SetClient { source, client });
    }

    /// Adds the actions that make `client` the client of each of `pins`.
    fn connect_all<const N: usize>(&mut self, pins: &[Pin; N], client: Component)
        requires
            old(self).wf(),
            old(self)@.len() + N <= BOOT_ACTIONS,
        ensures
            final(self).wf(),
            final(self)@ == old(self)@ + connect_pins(pins@, client),
            *final(final(self).actions) == *final(old(self).actions),
    {
        let mut i: usize = 0;
        assert(self@ =~= old(self)@ + connect_pins(pins@, client).take(0));
        while i < N
            invariant
                i <= N,
                old(self)@.len() + N <= BOOT_ACTIONS,
                self.wf(),
                self@ == old(self)@ + connect_pins(pins@, client).take(i as int),
                *final(self.actions) == *final(old(self).actions),
            decreases N - i,
        {
            self.connect(Source::Pin(pins[i]), client);
            i = i + 1;
            assert(self@ =~= old(self)@ + connect_pins(pins@, client).take(i as int));
        }
        assert(connect_pins(pins@, client).take(i as int) =~= connect_pins(pins@, client));
    }

    fn chip(&mut self)
        requires
            old(self).wf(),
            old(self)@.len() + chip_actions().len() <= BOOT_ACTIONS,
        ensures
            final(self).wf(),
            final(self)@ == old(self)@ + chip_actions(),
            *final(final(self).actions) == *final(old(self).actions),
    {
        self.push(BootAction::InitChip);
        self.push(
            BootAction::SetupSystemClock(
                SystemClockSource::PllExternalOscillatorAt48MHz {
                    frequency: OscillatorFrequency::Frequency16MHz,
                    startup_mode: OscillatorStartup::FastStart,
                },
            ),
        );
        // Source the 32 kHz and 1 kHz clocks from the RC oscillator (SAM4L datasheet 11.6.8).
        self.push(BootAction::SetCk32Source(Ck32Source::RC32K));
        assert(self@ =~= old(self)@ + chip_actions());
    }

    fn pins(&mut self)
        requires
            old(self).wf(),
            old(self)@.len() + pin_actions().len() <= BOOT_ACTIONS,
        ensures
            final(self).wf(),
            final(self)@ == old(self)@ + pin_actions(),
            *final(final(self).actions) == *final(old(self).actions),
    {
        let settings: [PinSetting; PIN_SETTINGS] = set_pin_primary_functions();
        let mut i: usize = 0;
        assert(self@ =~= old(self)@ + pin_actions().take(0));
        while i < PIN_SETTINGS
            invariant
                i <= PIN_SETTINGS,
                settings@ == primary_settings(),
                pin_actions().len() == PIN_SETTINGS,
                old(self)@.len() + PIN_SETTINGS <= BOOT_ACTIONS,
                self.wf(),
                self@ == old(self)@ + pin_actions().take(i as int),
                *final(self.actions) == *final(old(self).actions),
            decreases PIN_SETTINGS - i,
        {
            self.push(BootAction::ConfigurePin(settings[i]));
            i = i + 1;
            assert(self@ =~= old(self)@ + pin_actions().take(i as int));
        }
        assert(pin_actions().take(i as int) =~= pin_actions());
    }

    fn power(&mut self)
        requires
            old(self).wf(),
            old(self)@.len() + power_actions().len() <= BOOT_ACTIONS,
        ensures
            final(self).wf(),
            final(self)@ == old(self)@ + power_actions(),
            *final(final(self).actions) == *final(old(self).actions),
    {
        self.push(
            BootAction::ConfigureSubmodules(
                SubmoduleConfig { rf233: true, nrf51422: true, sensors: true, trng: true },
            ),
        );
        assert(self@ =~= old(self)@ + power_actions());
    }

    fn console(&mut self)
        requires
            old(self).wf(),
            old(self)@.len() + console_actions().len() <= BOOT_ACTIONS,
        ensures
            final(self).wf(),
            final(self)@ == old(self)@ + console_actions(),
            *final(final(self).actions) == *final(old(self).actions),
    {
        self.push(
            BootAction::NewConsole { baud_rate: 115200, buffer: Buffer::ConsoleWrite.memory() },
        );
        self.connect(Source::Usart3, Component::Console);
        self.push(BootAction::InitializeConsole);
        // Attach the kernel debug interface to this console.
        self.push(BootAction::NewConsoleApp);
        self.push(BootAction::AssignConsoleDriver);
        assert(self@ =~= old(self)@ + console_actions());
    }

    fn timer(&mut self)
        requires
            old(self).wf(),
            old(self)@.len() + timer_actions().len() <= BOOT_ACTIONS,
        ensures
            final(self).wf(),
            final(self)@ == old(self)@ + timer_actions(),
            *final(final(self).actions) == *final(old(self).actions),
    {
        self.push(BootAction::NewMuxAlarm);
        self.connect(Source::Ast, Component::MuxAlarm);
        self.push(BootAction::NewVirtualAlarm { alarm: Alarm::Timer });
        self.push(BootAction::NewTimer { alarm: Alarm::Timer });
        self.connect(Source::Alarm(Alarm::Timer), Component::Timer);
        assert(self@ =~= old(self)@ + timer_actions());
    }

    fn isl29035(&mut self)
        requires
            old(self).wf(),
            old(self)@.len() + isl29035_actions().len() <= BOOT_ACTIONS,
        ensures
            final(self).wf(),
            final(self)@ == old(self)@ + isl29035_actions(),
            *final(final(self).actions) == *final(old(self).actions),
    {
        self.push(BootAction::NewMuxI2c);
        self.connect(Source::I2c2, Component::MuxI2c);
        self.push(BootAction::NewI2cDevice { i2c: I2cDevice::Isl29035, address: 0x44 });
        self.push(BootAction::NewVirtualAlarm { alarm: Alarm::Isl29035 });
        self.push(
            BootAction::NewIsl29035 {
                i2c: I2cDevice::Isl29035,
                alarm: Alarm::Isl29035,
                buffer: Buffer::Isl29035.memory(),
            },
        );
        self.connect(Source::I2cDevice(I2cDevice::Isl29035), Component::Isl29035);
        self.connect(Source::Alarm(Alarm::Isl29035), Component::Isl29035);
        assert(self@ =~= old(self)@ + isl29035_actions());
    }

    fn spi(&mut self)
        requires
            old(self).wf(),
            old(self)@.len() + spi_actions().len() <= BOOT_ACTIONS,
        ensures
            final(self).wf(),
            final(self)@ == old(self)@ + spi_actions(),
            *final(final(self).actions) == *final(old(self).actions),
    {
        // The multiplexer lets the bus have several clients.
        self.push(BootAction::NewMuxSpi);
        self.connect(Source::Spi, Component::MuxSpi);
        self.push(BootAction::InitSpi);
        self.push(BootAction::EnableSpi);
        self.push(BootAction::NewSpiDevice { spi: SpiDevice::Syscalls, chip_select: 3 });
        self.push(BootAction::NewSpiSyscalls { spi: SpiDevice::Syscalls });
        self.push(
            BootAction::ConfigSpiBuffers {
                read: Buffer::SpiRead.memory(),
                write: Buffer::SpiWrite.memory(),
            },
        );
        self.connect(Source::SpiDevice(SpiDevice::Syscalls), Component::SpiSyscalls);
        assert(self@ =~= old(self)@ + spi_actions());
    }

    fn si7021(&mut self)
        requires
            old(self).wf(),
            old(self)@.len() + si7021_actions().len() <= BOOT_ACTIONS,
        ensures
            final(self).wf(),
            final(self)@ == old(self)@ + si7021_actions(),
            *final(final(self).actions) == *final(old(self).actions),
    {
        self.push(BootAction::NewVirtualAlarm { alarm: Alarm::Si7021 });
        self.push(BootAction::NewI2cDevice { i2c: I2cDevice::Si7021, address: 0x40 });
        self.push(
            BootAction::NewSi7021 {
                i2c: I2cDevice::Si7021,
                alarm: Alarm::Si7021,
                buffer: Buffer::Si7021.memory(),
            },
        );
        self.connect(Source::I2cDevice(I2cDevice::Si7021), Component::Si7021);
        self.connect(Source::Alarm(Alarm::Si7021), Component::Si7021);
        assert(self@ =~= old(self)@ + si7021_actions());
    }

    fn rf233(&mut self)
        requires
            old(self).wf(),
            old(self)@.len() + rf233_actions().len() <= BOOT_ACTIONS,
        ensures
            final(self).wf(),
            final(self)@ == old(self)@ + rf233_actions(),
            *final(final(self).actions) == *final(old(self).actions),
    {
        self.push(BootAction::NewSpiDevice { spi: SpiDevice::Rf233, chip_select: 3 });
        self.push(
            BootAction::NewRf233 {
                spi: SpiDevice::Rf233,
                reset: pin_a(9),
                sleep: pin_a(10),
                irq: pin_a(8),
                irq_ctl: pin_a(8),
            },
        );
        self.connect(Source::Pin(pin_a(8)), Component::Rf233);
        assert(self@ =~= old(self)@ + rf233_actions());
    }

    fn ninedof(&mut self)
        requires
            old(self).wf(),
            old(self)@.len() + ninedof_actions().len() <= BOOT_ACTIONS,
        ensures
            final(self).wf(),
            final(self)@ == old(self)@ + ninedof_actions(),
            *final(final(self).actions) == *final(old(self).actions),
    {
        self.push(BootAction::NewI2cDevice { i2c: I2cDevice::Fxos8700, address: 0x1e });
        self.push(
            BootAction::NewFxos8700 {
                i2c: I2cDevice::Fxos8700,
                interrupt: pin_c(13),
                buffer: Buffer::Fxos8700.memory(),
            },
        );
        self.connect(Source::I2cDevice(I2cDevice::Fxos8700), Component::Fxos8700);
        self.connect(Source::Pin(pin_c(13)), Component::Fxos8700);
        self.push(BootAction::NewNineDof);
        self.connect(Source::Fxos8700, Component::NineDof);
        assert(self@ =~= old(self)@ + ninedof_actions());
    }

    fn adc(&mut self)
        requires
            old(self).wf(),
            old(self)@.len() + adc_actions().len() <= BOOT_ACTIONS,
        ensures
            final(self).wf(),
            final(self)@ == old(self)@ + adc_actions(),
            *final(final(self).actions) == *final(old(self).actions),
    {
        self.push(
            BootAction::NewAdc {
                channels: [
                    AdcChannel::Ad1,  // AD0
                    AdcChannel::Ad2,  // AD1
                    AdcChannel::Ad3,  // AD2
                    AdcChannel::Ad4,  // AD3
                    AdcChannel::Ad5,  // AD4
                    AdcChannel::Ad6,  // AD5
                ],
                buffers: [Buffer::Adc1.memory(), Buffer::Adc2.memory(), Buffer::Adc3.memory()],
            },
        );
        self.connect(Source::Adc0, Component::Adc);
        assert(self@ =~= old(self)@ + adc_actions());
    }

    fn gpio(&mut self)
        requires
            old(self).wf(),
            old(self)@.len() + gpio_actions().len() <= BOOT_ACTIONS,
        ensures
            final(self).wf(),
            final(self)@ == old(self)@ + gpio_actions(),
            *final(final(self).actions) == *final(old(self).actions),
    {
        let pins: [Pin; 7] = [
            pin_c(31),  // P2
            pin_c(30),  // P3
            pin_c(29),  // P4
            pin_c(28),  // P5
            pin_c(27),  // P6
            pin_c(26),  // P7
            pin_a(20),  // P8
        ];
        self.push(BootAction::NewGpio { pins });
        self.connect_all(&pins, Component::Gpio);
        assert(self@ =~= old(self)@ + gpio_actions());
    }

    fn led(&mut self)
        requires
            old(self).wf(),
            old(self)@.len() + led_actions().len() <= BOOT_ACTIONS,
        ensures
            final(self).wf(),
            final(self)@ == old(self)@ + led_actions(),
            *final(final(self).actions) == *final(old(self).actions),
    {
        self.push(
            BootAction::NewLed {
                leds: [
                    (pin_c(22), ActivationMode::ActiveHigh),
                    (pin_c(10), ActivationMode::ActiveHigh),
                ],
            },
        );
        assert(self@ =~= old(self)@ + led_actions());
    }

    fn button(&mut self)
        requires
            old(self).wf(),
            old(self)@.len() + button_actions().len() <= BOOT_ACTIONS,
        ensures
            final(self).wf(),
            final(self)@ == old(self)@ + button_actions(),
            *final(final(self).actions) == *final(old(self).actions),
    {
        let buttons: [Pin; 1] = [pin_c(24)];
        self.push(BootAction::NewButton { buttons });
        self.connect_all(&buttons, Component::Button);
        assert(self@ =~= old(self)@ + button_actions());
    }

    fn crc(&mut self)
        requires
            old(self).wf(),
            old(self)@.len() + crc_actions().len() <= BOOT_ACTIONS,
        ensures
            final(self).wf(),
            final(self)@ == old(self)@ + crc_actions(),
            *final(final(self).actions) == *final(old(self).actions),
    {
        self.push(BootAction::NewCrc);
        assert(self@ =~= old(self)@ + crc_actions());
    }

    fn radio(&mut self)
        requires
            old(self).wf(),
            old(self)@.len() + radio_actions().len() <= BOOT_ACTIONS,
        ensures
            final(self).wf(),
            final(self)@ == old(self)@ + radio_actions(),
            *final(final(self).actions) == *final(old(self).actions),
    {
        self.connect(Source::SpiDevice(SpiDevice::Rf233), Component::Rf233);
        self.push(
            BootAction::InitializeRf233 {
                buffer: Buffer::Rf233.memory(),
                reg_write: Buffer::Rf233RegWrite.memory(),
                reg_read: Buffer::Rf233RegRead.memory(),
            },
        );
        self.push(BootAction::NewRadioMac);
        self.push(BootAction::NewRadioDriver);
        self.push(BootAction::ConfigRadioBuffer { buffer: Buffer::Radio.memory() });
        self.connect(Source::RadioMacTransmit, Component::RadioDriver);
        self.connect(Source::RadioMacReceive, Component::RadioDriver);
        self.connect(Source::Rf233Transmit, Component::RadioMac);
        self.push(
            BootAction::SetRf233ReceiveClient {
                client: Component::RadioMac,
                buffer: Buffer::Rf233Receive.memory(),
            },
        );
        self.connect(Source::Rf233Config, Component::RadioMac);
        assert(self@ =~= old(self)@ + radio_actions());
    }

    fn usb(&mut self)
        requires
            old(self).wf(),
            old(self)@.len() + usb_actions().len() <= BOOT_ACTIONS,
        ensures
            final(self).wf(),
            final(self)@ == old(self)@ + usb_actions(),
            *final(final(self).actions) == *final(old(self).actions),
    {
        self.push(BootAction::NewUsbClient);
        self.connect(Source::Usbc, Component::UsbClient);
        self.push(BootAction::NewUsbDriver);
        assert(self@ =~= old(self)@ + usb_actions());
    }

    fn launch(&mut self)
        requires
            old(self).wf(),
            old(self)@.len() + launch_actions().len() <= BOOT_ACTIONS,
        ensures
            final(self).wf(),
            final(self)@ == old(self)@ + launch_actions(),
            *final(final(self).actions) == *final(old(self).actions),
    {
        let imix: Imix<Component> = platform();
        let processes: ProcessArray = ProcessArray { slots: NUM_PROCS };
        self.push(BootAction::NewIpc);
        self.push(BootAction::AssemblePlatform(imix));
        self.push(BootAction::NewChip);
        self.push(BootAction::ResetRf233);
        self.push(BootAction::SetPan(0xABCD));
        self.push(BootAction::SetAddress(0x1008));
        self.push(BootAction::StartRf233);
        self.push(BootAction::Debug { message: "Initialization complete. Entering main loop" });
        self.push(
            BootAction::LoadProcesses {
                images: AppImages::Sapps,
                app_memory: Buffer::AppMemory.memory(),
                processes,
                fault_response: FAULT_RESPONSE,
            },
        );
        self.push(
            BootAction::EnterMainLoop {
                platform: imix,
                chip: Component::Chip,
                processes,
                ipc: imix.ipc,
            },
        );
        assert(self@ =~= old(self)@ + launch_actions());
    }
}

/// Fills `actions` with what brings the board up, in the order in which the firmware performs it.
/// What was in `actions` before does not matter.
pub fn reset_handler(actions: &mut [BootAction; BOOT_ACTIONS])
    ensures
        final(actions)@ == boot_sequence(),
        Board::reset().after_all(final(actions)@) == Some(Board::running()),
{
    let mut plan: Plan = Plan { actions, len: 0 };
    plan.chip();
    plan.pins();
    plan.power();
    plan.console();
    plan.timer();
    plan.isl29035();
    plan.spi();
    plan.si7021();
    plan.rf233();
    plan.ninedof();
    plan.adc();
    plan.gpio();
    plan.led();
    plan.button();
    plan.crc();
    plan.radio();
    plan.usb();
    plan.launch();
    assert(plan@ =~= boot_sequence());
    assert(plan.actions@ =~= plan@);
    proof {
        lemma_boot_completes();
    }
}

} // verus!
