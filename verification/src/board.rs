//! What the actions do to the board, and what the board is once it is up.

use crate::boot::{pa, pc, BootAction};
use crate::parts::{
    buffer_size, AdcChannel, Alarm, Component, I2cDevice, Memory, Peripheral, ProcessArray, Source,
    SpiDevice, NUM_PROCS,
};
use crate::pins::{PeripheralFunction, Pin, Port};
use crate::platform::Imix;
use vstd::prelude::*;

verus! {

/// What a component can be built on.
pub enum Part {
    Peripheral(Peripheral),
    Pin(Pin),
    Component(Component),
}

/// A step that is done once and that other actions wait for.
pub enum Milestone {
    ChipInitialized,
    SystemClockSet,
    Ck32SourceSet,
    SubmodulesConfigured,
    ConsoleInitialized,
    KernelConsoleAssigned,
    SpiInitialized,
    SpiEnabled,
    SpiBuffersConfigured,
    Rf233Initialized,
    RadioBufferConfigured,
    Rf233Reset,
    PanSet,
    AddressSet,
    Rf233Started,
    InitializationAnnounced,
    ProcessesLoaded,
    MainLoopEntered,
}

/// The board at some point on the way up.
#[verifier::ext_equal]
pub struct Board {
    /// What the pins are set to.
    pub pins: Map<Pin, Option<PeripheralFunction>>,
    /// The components that are there.
    pub built: Set<Component>,
    /// The component that has each part for itself. A multiplexer is never a part in this sense:
    /// several components are built on it.
    pub owner: Map<Part, Component>,
    /// Who listens to whom.
    pub clients: Map<Source, Component>,
    /// The memory that is given away.
    pub lent: Set<Memory>,
    /// The addresses on the I2C bus.
    pub addresses: Map<I2cDevice, u8>,
    /// The drivers that processes can reach.
    pub platform: Option<Imix<Component>>,
    /// The array that the processes are loaded into.
    pub loaded: Option<ProcessArray>,
    /// The steps that are done.
    pub done: Set<Milestone>,
}

/// The part whose events come from `source`.
pub open spec fn reporter(source: Source) -> Part {
    match source {
        Source::Usart3 => Part::Peripheral(Peripheral::Usart3),
        Source::Ast => Part::Peripheral(Peripheral::Ast),
        Source::Alarm(alarm) => Part::Component(Component::Alarm(alarm)),
        Source::I2c2 => Part::Peripheral(Peripheral::I2c2),
        Source::I2cDevice(device) => Part::Component(Component::I2cDevice(device)),
        Source::Spi => Part::Peripheral(Peripheral::Spi),
        Source::SpiDevice(device) => Part::Component(Component::SpiDevice(device)),
        Source::Pin(pin) => Part::Pin(pin),
        Source::Fxos8700 => Part::Component(Component::Fxos8700),
        Source::Adc0 => Part::Peripheral(Peripheral::Adc0),
        Source::RadioMacTransmit | Source::RadioMacReceive => Part::Component(Component::RadioMac),
        Source::Rf233Transmit | Source::Rf233Receive | Source::Rf233Config => Part::Component(
            Component::Rf233,
        ),
        Source::Usbc => Part::Peripheral(Peripheral::Usbc),
    }
}

/// The component that an action builds.
pub open spec fn creates(action: BootAction) -> Option<Component> {
    match action {
        BootAction::NewConsole { .. } => Some(Component::Console),
        BootAction::NewConsoleApp => Some(Component::ConsoleApp),
        BootAction::NewMuxAlarm => Some(Component::MuxAlarm),
        BootAction::NewVirtualAlarm { alarm } => Some(Component::Alarm(alarm)),
        BootAction::NewTimer { .. } => Some(Component::Timer),
        BootAction::NewMuxI2c => Some(Component::MuxI2c),
        BootAction::NewI2cDevice { i2c, .. } => Some(Component::I2cDevice(i2c)),
        BootAction::NewIsl29035 { .. } => Some(Component::Isl29035),
        BootAction::NewMuxSpi => Some(Component::MuxSpi),
        BootAction::NewSpiDevice { spi, .. } => Some(Component::SpiDevice(spi)),
        BootAction::NewSpiSyscalls { .. } => Some(Component::SpiSyscalls),
        BootAction::NewSi7021 { .. } => Some(Component::Si7021),
        BootAction::NewRf233 { .. } => Some(Component::Rf233),
        BootAction::NewFxos8700 { .. } => Some(Component::Fxos8700),
        BootAction::NewNineDof => Some(Component::NineDof),
        BootAction::NewAdc { .. } => Some(Component::Adc),
        BootAction::NewGpio { .. } => Some(Component::Gpio),
        BootAction::NewLed { .. } => Some(Component::Led),
        BootAction::NewButton { .. } => Some(Component::Button),
        BootAction::NewCrc => Some(Component::Crc),
        BootAction::NewRadioMac => Some(Component::RadioMac),
        BootAction::NewRadioDriver => Some(Component::RadioDriver),
        BootAction::NewUsbClient => Some(Component::UsbClient),
        BootAction::NewUsbDriver => Some(Component::UsbDriver),
        BootAction::NewIpc => Some(Component::Ipc),
        BootAction::NewChip => Some(Component::Chip),
        _ => None,
    }
}

/// Whether the component that an action builds takes `part` for itself.
pub open spec fn takes(action: BootAction, part: Part) -> bool {
    match action {
        BootAction::NewConsole { .. } => part == Part::Peripheral(Peripheral::Usart3),
        BootAction::NewMuxAlarm => part == Part::Peripheral(Peripheral::Ast),
        BootAction::NewTimer { alarm } => part == Part::Component(Component::Alarm(alarm)),
        BootAction::NewMuxI2c => part == Part::Peripheral(Peripheral::I2c2),
        BootAction::NewIsl29035 { i2c, alarm, .. } | BootAction::NewSi7021 {
            i2c,
            alarm,
            ..
        } => part == Part::Component(Component::I2cDevice(i2c)) || part == Part::Component(
            Component::Alarm(alarm),
        ),
        BootAction::NewMuxSpi => part == Part::Peripheral(Peripheral::Spi),
        BootAction::NewSpiSyscalls { spi } => part == Part::Component(
            Component::SpiDevice(spi),
        ),
        BootAction::NewRf233 { spi, reset, sleep, irq, irq_ctl } => part == Part::Component(
            Component::SpiDevice(spi),
        ) || part == Part::Pin(reset) || part == Part::Pin(sleep) || part == Part::Pin(irq) || part
            == Part::Pin(irq_ctl),
        BootAction::NewFxos8700 { i2c, interrupt, .. } => part == Part::Component(
            Component::I2cDevice(i2c),
        ) || part == Part::Pin(interrupt),
        BootAction::NewNineDof => part == Part::Component(Component::Fxos8700),
        BootAction::NewAdc { channels, .. } => part == Part::Peripheral(Peripheral::Adc0) || (
        exists|i: int|
            0 <= i < channels@.len() && part == Part::Peripheral(
                Peripheral::AdcInput(#[trigger] channels@[i]),
            )),
        BootAction::NewGpio { pins } => exists|i: int|
            0 <= i < pins@.len() && part == Part::Pin(#[trigger] pins@[i]),
        BootAction::NewLed { leds } => exists|i: int|
            0 <= i < leds@.len() && part == Part::Pin((#[trigger] leds@[i]).0),
        BootAction::NewButton { buttons } => exists|i: int|
            0 <= i < buttons@.len() && part == Part::Pin(#[trigger] buttons@[i]),
        BootAction::NewCrc => part == Part::Peripheral(Peripheral::Crccu),
        BootAction::NewRadioMac => part == Part::Component(Component::Rf233),
        BootAction::NewRadioDriver => part == Part::Component(Component::RadioMac),
        BootAction::NewUsbClient => part == Part::Peripheral(Peripheral::Usbc),
        BootAction::NewUsbDriver => part == Part::Component(Component::UsbClient),
        _ => false,
    }
}

/// Whether an action needs `component` to be there already.
pub open spec fn needs(action: BootAction, component: Component) -> bool {
    takes(action, Part::Component(component)) || match action {
        BootAction::SetClient { client, .. } => component == client,
        BootAction::InitializeConsole => component == Component::Console,
        BootAction::AssignConsoleDriver => component == Component::Console || component
            == Component::ConsoleApp,
        BootAction::NewVirtualAlarm { .. } => component == Component::MuxAlarm,
        BootAction::NewI2cDevice { .. } => component == Component::MuxI2c,
        BootAction::NewSpiDevice { .. } => component == Component::MuxSpi,
        BootAction::ConfigSpiBuffers { .. } => component == Component::SpiSyscalls,
        BootAction::InitializeRf233 { .. }
        | BootAction::ResetRf233
        | BootAction::SetPan(_)
        | BootAction::SetAddress(_)
        | BootAction::StartRf233 => component == Component::Rf233,
        BootAction::ConfigRadioBuffer { .. } => component == Component::RadioDriver,
        BootAction::SetRf233ReceiveClient { client, .. } => component == client,
        BootAction::AssemblePlatform(imix) => exists|n: usize| #[trigger]
            imix.driver(n) == Some(&component),
        // All of them, for the initialization to be complete.
        BootAction::Debug { .. } => true,
        BootAction::EnterMainLoop { chip, ipc, .. } => component == chip || component == ipc,
        _ => false,
    }
}

/// The memory that an action gives away.
pub open spec fn lends(action: BootAction) -> Seq<Memory> {
    match action {
        BootAction::NewConsole { buffer, .. }
        | BootAction::NewIsl29035 { buffer, .. }
        | BootAction::NewSi7021 { buffer, .. }
        | BootAction::NewFxos8700 { buffer, .. }
        | BootAction::ConfigRadioBuffer { buffer }
        | BootAction::SetRf233ReceiveClient { buffer, .. } => seq![buffer],
        BootAction::ConfigSpiBuffers { read, write } => seq![read, write],
        BootAction::NewAdc { buffers, .. } => buffers@,
        BootAction::InitializeRf233 { buffer, reg_write, reg_read } => seq![
            buffer,
            reg_write,
            reg_read,
        ],
        BootAction::LoadProcesses { app_memory, .. } => seq![app_memory],
        _ => seq![],
    }
}

/// The source and the client that an action brings together.
pub open spec fn connects(action: BootAction) -> Option<(Source, Component)> {
    match action {
        BootAction::SetClient { source, client } => Some((source, client)),
        BootAction::SetRf233ReceiveClient { client, .. } => Some((Source::Rf233Receive, client)),
        _ => None,
    }
}

/// The step that an action is.
pub open spec fn achieves(action: BootAction) -> Option<Milestone> {
    match action {
        BootAction::InitChip => Some(Milestone::ChipInitialized),
        BootAction::SetupSystemClock(_) => Some(Milestone::SystemClockSet),
        BootAction::SetCk32Source(_) => Some(Milestone::Ck32SourceSet),
        BootAction::ConfigureSubmodules(_) => Some(Milestone::SubmodulesConfigured),
        BootAction::InitializeConsole => Some(Milestone::ConsoleInitialized),
        BootAction::AssignConsoleDriver => Some(Milestone::KernelConsoleAssigned),
        BootAction::InitSpi => Some(Milestone::SpiInitialized),
        BootAction::EnableSpi => Some(Milestone::SpiEnabled),
        BootAction::ConfigSpiBuffers { .. } => Some(Milestone::SpiBuffersConfigured),
        BootAction::InitializeRf233 { .. } => Some(Milestone::Rf233Initialized),
        BootAction::ConfigRadioBuffer { .. } => Some(Milestone::RadioBufferConfigured),
        BootAction::ResetRf233 => Some(Milestone::Rf233Reset),
        BootAction::SetPan(_) => Some(Milestone::PanSet),
        BootAction::SetAddress(_) => Some(Milestone::AddressSet),
        BootAction::StartRf233 => Some(Milestone::Rf233Started),
        BootAction::Debug { .. } => Some(Milestone::InitializationAnnounced),
        BootAction::LoadProcesses { .. } => Some(Milestone::ProcessesLoaded),
        BootAction::EnterMainLoop { .. } => Some(Milestone::MainLoopEntered),
        _ => None,
    }
}

/// Whether an action has to wait for `milestone`.
pub open spec fn awaits(action: BootAction, milestone: Milestone) -> bool {
    match action {
        // The chip first.
        BootAction::InitChip => false,
        BootAction::SetupSystemClock(_) | BootAction::SetCk32Source(_) => milestone
            == Milestone::ChipInitialized,
        // Then the clocks, before anything runs on them.
        BootAction::ConfigurePin(_) | BootAction::ConfigureSubmodules(_) => milestone
            == Milestone::ChipInitialized || milestone == Milestone::SystemClockSet || milestone
            == Milestone::Ck32SourceSet,
        // The kernel writes through a console that runs.
        BootAction::AssignConsoleDriver => milestone == Milestone::SubmodulesConfigured || milestone
            == Milestone::ConsoleInitialized,
        BootAction::EnableSpi => milestone == Milestone::SpiInitialized,
        // The radio talks over the SPI bus.
        BootAction::InitializeRf233 { .. } => milestone == Milestone::SubmodulesConfigured
            || milestone == Milestone::SpiEnabled,
        BootAction::ResetRf233 => milestone == Milestone::Rf233Initialized,
        BootAction::SetPan(_) | BootAction::SetAddress(_) => milestone == Milestone::Rf233Reset,
        BootAction::StartRf233 => milestone == Milestone::Rf233Initialized || milestone
            == Milestone::Rf233Reset || milestone == Milestone::PanSet || milestone
            == Milestone::AddressSet,
        // The message comes when all is set up, over the kernel's console among the rest, and
        // before the processes.
        BootAction::Debug { .. } => milestone != Milestone::InitializationAnnounced && milestone
            != Milestone::ProcessesLoaded && milestone != Milestone::MainLoopEntered,
        BootAction::LoadProcesses { .. } => milestone == Milestone::InitializationAnnounced,
        // The main loop last.
        BootAction::EnterMainLoop { .. } => milestone != Milestone::MainLoopEntered,
        // Everything else waits until the board is clocked and powered.
        _ => milestone == Milestone::ChipInitialized || milestone == Milestone::SystemClockSet
            || milestone == Milestone::Ck32SourceSet || milestone
            == Milestone::SubmodulesConfigured,
    }
}

/// Whether an action waits until `source` has a client, so that no event is lost.
pub open spec fn awaits_client(action: BootAction, source: Source) -> bool {
    match action {
        BootAction::InitializeConsole => source == Source::Usart3,
        BootAction::InitSpi | BootAction::EnableSpi => source == Source::Spi,
        BootAction::InitializeRf233 { .. } => source == Source::SpiDevice(SpiDevice::Rf233)
            || source == Source::Pin(pa(8)),
        BootAction::ResetRf233 | BootAction::StartRf233 => source == Source::Rf233Transmit || source
            == Source::Rf233Receive || source == Source::Rf233Config,
        BootAction::Debug { .. } | BootAction::EnterMainLoop { .. } => has_client(source),
        _ => false,
    }
}

impl Board {
    /// The board out of reset.
    pub open spec fn reset() -> Board {
        Board {
            pins: Map::empty(),
            built: Set::empty(),
            owner: Map::empty(),
            clients: Map::empty(),
            lent: Set::empty(),
            addresses: Map::empty(),
            platform: None,
            loaded: None,
            done: Set::empty(),
        }
    }

    /// Whether `part` is there for a component to take: nobody has it yet; a pin is set to GPIO.
    pub open spec fn available(self, part: Part) -> bool {
        &&& !self.owner.dom().contains(part)
        &&& match part {
            Part::Peripheral(_) => true,
            Part::Pin(pin) => self.pins.dom().contains(pin) && self.pins[pin] is None,
            Part::Component(component) => self.built.contains(component),
        }
    }

    /// Whether `action` may be performed on the board as it is.
    pub open spec fn admits(self, action: BootAction) -> bool {
        // Steps come in order, and once.
        &&& forall|m: Milestone| #[trigger] awaits(action, m) ==> self.done.contains(m)
        &&& achieves(action) matches Some(m) ==> !self.done.contains(m)
        // No pin is set twice.
        &&& action matches BootAction::ConfigurePin(s) ==> !self.pins.dom().contains(s.pin)
        // What is used is there; what is built is new, and built on what is free.
        &&& forall|c: Component| #[trigger] needs(action, c) ==> self.built.contains(c)
        &&& creates(action) matches Some(c) ==> !self.built.contains(c)
        &&& forall|p: Part| #[trigger] takes(action, p) ==> self.available(p)
        // Memory is lent at its size, and nothing twice.
        &&& lends(action).no_duplicates()
        &&& forall|m: Memory| #[trigger]
            lends(action).contains(m) ==> m.size == buffer_size(m.buffer) && !self.lent.contains(m)
        // A source gets one client: the component that has the reporting part.
        &&& connects(action) matches Some((source, client)) ==> {
            &&& !self.clients.dom().contains(source)
            &&& self.owner.dom().contains(reporter(source))
            &&& self.owner[reporter(source)] == client
        }
        &&& forall|s: Source| #[trigger] awaits_client(action, s) ==> self.clients.dom().contains(s)
        // A device on the I2C bus has a seven-bit address of its own.
        &&& action matches BootAction::NewI2cDevice { address, .. } ==> {
            &&& address < 0x80
            &&& forall|d: I2cDevice| #[trigger]
                self.addresses.dom().contains(d) ==> self.addresses[d] != address
        }
        &&& action is AssemblePlatform ==> self.platform is None
        // The kernel gets the drivers that are published, the handle of the chip, the processes
        // that are loaded, and the drivers' component for interprocess communication.
        &&& action matches BootAction::EnterMainLoop { platform, chip, processes, ipc } ==> {
            &&& self.platform == Some(platform)
            &&& chip == Component::Chip
            &&& self.loaded == Some(processes)
            &&& platform.ipc == ipc
        }
    }

    /// The board after `action`.
    pub open spec fn after(self, action: BootAction) -> Board {
        Board {
            pins: match action {
                BootAction::ConfigurePin(s) => self.pins.insert(s.pin, s.function),
                _ => self.pins,
            },
            built: match creates(action) {
                Some(c) => self.built.insert(c),
                None => self.built,
            },
            owner: Map::new(
                |p: Part| self.owner.dom().contains(p) || takes(action, p),
                |p: Part| if takes(action, p) { creates(action)->0 } else { self.owner[p] },
            ),
            clients: match connects(action) {
                Some((source, client)) => self.clients.insert(source, client),
                None => self.clients,
            },
            lent: Set::new(|m: Memory| self.lent.contains(m) || lends(action).contains(m)),
            addresses: match action {
                BootAction::NewI2cDevice { i2c, address } => self.addresses.insert(i2c, address),
                _ => self.addresses,
            },
            platform: match action {
                BootAction::AssemblePlatform(imix) => Some(imix),
                _ => self.platform,
            },
            loaded: match action {
                BootAction::LoadProcesses { processes, .. } => Some(processes),
                _ => self.loaded,
            },
            done: match achieves(action) {
                Some(m) => self.done.insert(m),
                None => self.done,
            },
        }
    }

    /// The board after the first `n` of `actions`, unless one of them was not admitted.
    pub open spec fn after_first(self, actions: Seq<BootAction>, n: nat) -> Option<Board>
        decreases n,
    {
        if n == 0 {
            Some(self)
        } else {
            match self.after_first(actions, (n - 1) as nat) {
                Some(board) if board.admits(actions[n - 1]) => Some(board.after(actions[n - 1])),
                _ => None,
            }
        }
    }

    /// The board after all of `actions`, unless one of them was not admitted.
    pub open spec fn after_all(self, actions: Seq<BootAction>) -> Option<Board> {
        self.after_first(actions, actions.len())
    }

    /// The board when the kernel's main loop runs: every pin set, every component built on its
    /// parts, every client in place, all memory given away, all steps done.
    pub open spec fn running() -> Board {
        Board {
            pins: Map::new(
                |pin: Pin| crate::pins::primary_pins().contains(pin),
                |pin: Pin| crate::pins::primary_function(pin),
            ),
            built: Set::full(),
            owner: Map::new(|p: Part| user(p) is Some, |p: Part| user(p)->0),
            clients: Map::new(|s: Source| has_client(s), |s: Source| user(reporter(s))->0),
            lent: Set::new(|m: Memory| m.size == buffer_size(m.buffer)),
            addresses: Map::total(|d: I2cDevice| i2c_address(d)),
            platform: Some(crate::platform::board_platform()),
            loaded: Some(ProcessArray { slots: NUM_PROCS }),
            done: Set::full(),
        }
    }
}

/// The component that has `part` for itself.
pub open spec fn user(part: Part) -> Option<Component> {
    match part {
        Part::Peripheral(peripheral) => Some(
            match peripheral {
                Peripheral::Usart3 => Component::Console,
                Peripheral::Ast => Component::MuxAlarm,
                Peripheral::I2c2 => Component::MuxI2c,
                Peripheral::Spi => Component::MuxSpi,
                Peripheral::Adc0 | Peripheral::AdcInput(_) => Component::Adc,
                Peripheral::Crccu => Component::Crc,
                Peripheral::Usbc => Component::UsbClient,
            },
        ),
        Part::Pin(pin) => match pin.port {
            Port::A => if 8 <= pin.index <= 10 {
                Some(Component::Rf233)
            } else if pin.index == 20 {
                Some(Component::Gpio)
            } else {
                None
            },
            Port::B => None,
            Port::C => if pin.index == 10 || pin.index == 22 {
                Some(Component::Led)
            } else if pin.index == 13 {
                Some(Component::Fxos8700)
            } else if pin.index == 24 {
                Some(Component::Button)
            } else if 26 <= pin.index <= 31 {
                Some(Component::Gpio)
            } else {
                None
            },
        },
        Part::Component(component) => match component {
            Component::Alarm(Alarm::Timer) => Some(Component::Timer),
            Component::Alarm(Alarm::Isl29035) => Some(Component::Isl29035),
            Component::Alarm(Alarm::Si7021) => Some(Component::Si7021),
            Component::I2cDevice(I2cDevice::Isl29035) => Some(Component::Isl29035),
            Component::I2cDevice(I2cDevice::Si7021) => Some(Component::Si7021),
            Component::I2cDevice(I2cDevice::Fxos8700) => Some(Component::Fxos8700),
            Component::SpiDevice(SpiDevice::Syscalls) => Some(Component::SpiSyscalls),
            Component::SpiDevice(SpiDevice::Rf233) => Some(Component::Rf233),
            Component::Fxos8700 => Some(Component::NineDof),
            Component::Rf233 => Some(Component::RadioMac),
            Component::RadioMac => Some(Component::RadioDriver),
            Component::UsbClient => Some(Component::UsbDriver),
            _ => None,
        },
    }
}

/// Whether `source` has a client: of the pins, those that raise interrupts.
pub open spec fn has_client(source: Source) -> bool {
    match source {
        Source::Pin(pin) => pin == pa(8) || pin == pc(13) || user(Part::Pin(pin)) == Some(
            Component::Gpio,
        ) || user(Part::Pin(pin)) == Some(Component::Button),
        _ => true,
    }
}

/// Whether a signal of `peripheral` is on `pin`.
pub open spec fn has_signal(peripheral: Peripheral, pin: Pin) -> bool {
    match peripheral {
        Peripheral::Usart3 => pin.port is B && (pin.index == 6 || pin.index == 9 || pin.index
            == 10),
        Peripheral::I2c2 => pin.port is A && (pin.index == 21 || pin.index == 22),
        Peripheral::Spi => pin.port is C && pin.index <= 6,
        Peripheral::AdcInput(AdcChannel::Ad1) => pin.port is A && pin.index == 5,
        Peripheral::AdcInput(AdcChannel::Ad2) => pin.port is A && pin.index == 7,
        Peripheral::AdcInput(AdcChannel::Ad3) => pin.port is B && pin.index == 2,
        Peripheral::AdcInput(AdcChannel::Ad4) => pin.port is B && pin.index == 3,
        Peripheral::AdcInput(AdcChannel::Ad5) => pin.port is B && pin.index == 4,
        Peripheral::AdcInput(AdcChannel::Ad6) => pin.port is B && pin.index == 5,
        Peripheral::Usbc => pin.port is A && (pin.index == 25 || pin.index == 26),
        Peripheral::Ast | Peripheral::Adc0 | Peripheral::Crccu => false,
    }
}

/// The peripheral function that routes the signals of `peripheral` to its pins.
pub open spec fn signal_function(peripheral: Peripheral) -> PeripheralFunction {
    match peripheral {
        Peripheral::I2c2 => PeripheralFunction::E,
        _ => PeripheralFunction::A,
    }
}

/// The address of a device on the I2C bus.
pub open spec fn i2c_address(device: I2cDevice) -> u8 {
    match device {
        I2cDevice::Isl29035 => 0x44,
        I2cDevice::Si7021 => 0x40,
        I2cDevice::Fxos8700 => 0x1e,
    }
}

} // verus!
