use imix::boot::{self, BootAction, BOOT_ACTIONS};
use imix::parts::{
    ActivationMode, AdcChannel, Alarm, AppImages, Buffer, BufferSize, Ck32Source, Component,
    FaultResponse, I2cDevice, Memory, OscillatorFrequency, OscillatorStartup, ProcessArray, Source,
    SpiDevice, SubmoduleConfig, SystemClockSource, APP_MEMORY_SIZE, FAULT_RESPONSE, NUM_PROCS,
    RF233_REGISTER_BUFFER_SIZE, SPI_BUFFER_SIZE,
};
use imix::pins::{set_pin_primary_functions, Pin, Port};
use imix::platform::platform;

fn reset_handler() -> [BootAction; BOOT_ACTIONS] {
    let mut plan = [BootAction::EnableSpi; BOOT_ACTIONS];
    boot::reset_handler(&mut plan);
    plan
}

fn pa(index: u8) -> Pin {
    Pin { port: Port::A, index }
}

fn pc(index: u8) -> Pin {
    Pin { port: Port::C, index }
}

fn bytes(buffer: Buffer, size: usize) -> Memory {
    Memory { buffer, size: BufferSize::Bytes(size) }
}

fn packet(buffer: Buffer) -> Memory {
    Memory { buffer, size: BufferSize::Packet }
}

fn of_driver(buffer: Buffer) -> Memory {
    Memory { buffer, size: BufferSize::OfDriver }
}

fn client(source: Source, client: Component) -> BootAction {
    BootAction::SetClient { source, client }
}

fn position(action: BootAction) -> usize {
    reset_handler().iter().position(|a| *a == action).unwrap()
}

#[test]
fn the_whole_sequence() {
    let mut expected = vec![
        BootAction::InitChip,
        BootAction::SetupSystemClock(SystemClockSource::PllExternalOscillatorAt48MHz {
            frequency: OscillatorFrequency::Frequency16MHz,
            startup_mode: OscillatorStartup::FastStart,
        }),
        BootAction::SetCk32Source(Ck32Source::RC32K),
    ];
    for setting in set_pin_primary_functions() {
        expected.push(BootAction::ConfigurePin(setting));
    }
    expected.extend([
        BootAction::ConfigureSubmodules(SubmoduleConfig {
            rf233: true,
            nrf51422: true,
            sensors: true,
            trng: true,
        }),
        BootAction::NewConsole { baud_rate: 115200, buffer: of_driver(Buffer::ConsoleWrite) },
        client(Source::Usart3, Component::Console),
        BootAction::InitializeConsole,
        BootAction::NewConsoleApp,
        BootAction::AssignConsoleDriver,
        BootAction::NewMuxAlarm,
        client(Source::Ast, Component::MuxAlarm),
        BootAction::NewVirtualAlarm { alarm: Alarm::Timer },
        BootAction::NewTimer { alarm: Alarm::Timer },
        client(Source::Alarm(Alarm::Timer), Component::Timer),
        BootAction::NewMuxI2c,
        client(Source::I2c2, Component::MuxI2c),
        BootAction::NewI2cDevice { i2c: I2cDevice::Isl29035, address: 0x44 },
        BootAction::NewVirtualAlarm { alarm: Alarm::Isl29035 },
        BootAction::NewIsl29035 {
            i2c: I2cDevice::Isl29035,
            alarm: Alarm::Isl29035,
            buffer: of_driver(Buffer::Isl29035),
        },
        client(Source::I2cDevice(I2cDevice::Isl29035), Component::Isl29035),
        client(Source::Alarm(Alarm::Isl29035), Component::Isl29035),
        BootAction::NewMuxSpi,
        client(Source::Spi, Component::MuxSpi),
        BootAction::InitSpi,
        BootAction::EnableSpi,
        BootAction::NewSpiDevice { spi: SpiDevice::Syscalls, chip_select: 3 },
        BootAction::NewSpiSyscalls { spi: SpiDevice::Syscalls },
        BootAction::ConfigSpiBuffers {
            read: bytes(Buffer::SpiRead, 64),
            write: bytes(Buffer::SpiWrite, 64),
        },
        client(Source::SpiDevice(SpiDevice::Syscalls), Component::SpiSyscalls),
        BootAction::NewVirtualAlarm { alarm: Alarm::Si7021 },
        BootAction::NewI2cDevice { i2c: I2cDevice::Si7021, address: 0x40 },
        BootAction::NewSi7021 {
            i2c: I2cDevice::Si7021,
            alarm: Alarm::Si7021,
            buffer: of_driver(Buffer::Si7021),
        },
        client(Source::I2cDevice(I2cDevice::Si7021), Component::Si7021),
        client(Source::Alarm(Alarm::Si7021), Component::Si7021),
        BootAction::NewSpiDevice { spi: SpiDevice::Rf233, chip_select: 3 },
        BootAction::NewRf233 {
            spi: SpiDevice::Rf233,
            reset: pa(9),
            sleep: pa(10),
            irq: pa(8),
            irq_ctl: pa(8),
        },
        client(Source::Pin(pa(8)), Component::Rf233),
        BootAction::NewI2cDevice { i2c: I2cDevice::Fxos8700, address: 0x1e },
        BootAction::NewFxos8700 {
            i2c: I2cDevice::Fxos8700,
            interrupt: pc(13),
            buffer: of_driver(Buffer::Fxos8700),
        },
        client(Source::I2cDevice(I2cDevice::Fxos8700), Component::Fxos8700),
        client(Source::Pin(pc(13)), Component::Fxos8700),
        BootAction::NewNineDof,
        client(Source::Fxos8700, Component::NineDof),
        BootAction::NewAdc {
            channels: [
                AdcChannel::Ad1,
                AdcChannel::Ad2,
                AdcChannel::Ad3,
                AdcChannel::Ad4,
                AdcChannel::Ad5,
                AdcChannel::Ad6,
            ],
            buffers: [
                of_driver(Buffer::Adc1),
                of_driver(Buffer::Adc2),
                of_driver(Buffer::Adc3),
            ],
        },
        client(Source::Adc0, Component::Adc),
        BootAction::NewGpio {
            pins: [pc(31), pc(30), pc(29), pc(28), pc(27), pc(26), pa(20)],
        },
        client(Source::Pin(pc(31)), Component::Gpio),
        client(Source::Pin(pc(30)), Component::Gpio),
        client(Source::Pin(pc(29)), Component::Gpio),
        client(Source::Pin(pc(28)), Component::Gpio),
        client(Source::Pin(pc(27)), Component::Gpio),
        client(Source::Pin(pc(26)), Component::Gpio),
        client(Source::Pin(pa(20)), Component::Gpio),
        BootAction::NewLed {
            leds: [(pc(22), ActivationMode::ActiveHigh), (pc(10), ActivationMode::ActiveHigh)],
        },
        BootAction::NewButton { buttons: [pc(24)] },
        client(Source::Pin(pc(24)), Component::Button),
        BootAction::NewCrc,
        client(Source::SpiDevice(SpiDevice::Rf233), Component::Rf233),
        BootAction::InitializeRf233 {
            buffer: packet(Buffer::Rf233),
            reg_write: bytes(Buffer::Rf233RegWrite, 2),
            reg_read: bytes(Buffer::Rf233RegRead, 2),
        },
        BootAction::NewRadioMac,
        BootAction::NewRadioDriver,
        BootAction::ConfigRadioBuffer { buffer: packet(Buffer::Radio) },
        client(Source::RadioMacTransmit, Component::RadioDriver),
        client(Source::RadioMacReceive, Component::RadioDriver),
        client(Source::Rf233Transmit, Component::RadioMac),
        BootAction::SetRf233ReceiveClient {
            client: Component::RadioMac,
            buffer: packet(Buffer::Rf233Receive),
        },
        client(Source::Rf233Config, Component::RadioMac),
        BootAction::NewUsbClient,
        client(Source::Usbc, Component::UsbClient),
        BootAction::NewUsbDriver,
        BootAction::NewIpc,
        BootAction::AssemblePlatform(platform()),
        BootAction::NewChip,
        BootAction::ResetRf233,
        BootAction::SetPan(0xABCD),
        BootAction::SetAddress(0x1008),
        BootAction::StartRf233,
        BootAction::Debug { message: "Initialization complete. Entering main loop" },
        BootAction::LoadProcesses {
            images: AppImages::Sapps,
            app_memory: bytes(Buffer::AppMemory, 16384),
            processes: ProcessArray { slots: 2 },
            fault_response: FaultResponse::Panic,
        },
        BootAction::EnterMainLoop {
            platform: platform(),
            chip: Component::Chip,
            processes: ProcessArray { slots: 2 },
            ipc: Component::Ipc,
        },
    ]);
    assert_eq!(expected.len(), BOOT_ACTIONS);
    assert_eq!(reset_handler().to_vec(), expected);
}

#[test]
fn what_was_there_before_does_not_matter() {
    let mut plan = [BootAction::NewCrc; BOOT_ACTIONS];
    boot::reset_handler(&mut plan);
    assert_eq!(plan, reset_handler());
    boot::reset_handler(&mut plan);
    assert_eq!(plan, reset_handler());
}

#[test]
fn the_sizes_of_the_board() {
    assert_eq!(NUM_PROCS, 2);
    assert_eq!(APP_MEMORY_SIZE, 16384);
    assert_eq!(SPI_BUFFER_SIZE, 64);
    assert_eq!(RF233_REGISTER_BUFFER_SIZE, 2);
    assert_eq!(FAULT_RESPONSE, FaultResponse::Panic);
}

#[test]
fn the_main_loop_comes_last_and_once() {
    let plan = reset_handler();
    let enters = |a: &BootAction| matches!(a, BootAction::EnterMainLoop { .. });
    assert!(enters(&plan[BOOT_ACTIONS - 1]));
    assert_eq!(plan.iter().filter(|a| enters(a)).count(), 1);
}

#[test]
fn taken_pins_are_gpio() {
    let plan = reset_handler();
    let settings = set_pin_primary_functions();
    let mut taken: Vec<Pin> = Vec::new();
    for action in plan {
        match action {
            BootAction::NewRf233 { reset, sleep, irq, irq_ctl, .. } => {
                assert_eq!(irq, irq_ctl);
                taken.extend([reset, sleep, irq]);
            }
            BootAction::NewFxos8700 { interrupt, .. } => taken.push(interrupt),
            BootAction::NewGpio { pins } => taken.extend(pins),
            BootAction::NewLed { leds } => taken.extend(leds.map(|(pin, _)| pin)),
            BootAction::NewButton { buttons } => taken.extend(buttons),
            _ => {}
        }
    }
    assert_eq!(taken.len(), 14);
    for (i, pin) in taken.iter().enumerate() {
        assert!(!taken[..i].contains(pin));
        let setting = settings.iter().find(|s| s.pin == *pin).unwrap();
        assert_eq!(setting.function, None);
    }
}

#[test]
fn memory_is_lent_once() {
    let mut lent: Vec<Memory> = Vec::new();
    for action in reset_handler() {
        match action {
            BootAction::NewConsole { buffer, .. }
            | BootAction::NewIsl29035 { buffer, .. }
            | BootAction::NewSi7021 { buffer, .. }
            | BootAction::NewFxos8700 { buffer, .. }
            | BootAction::ConfigRadioBuffer { buffer }
            | BootAction::SetRf233ReceiveClient { buffer, .. } => lent.push(buffer),
            BootAction::ConfigSpiBuffers { read, write } => lent.extend([read, write]),
            BootAction::NewAdc { buffers, .. } => lent.extend(buffers),
            BootAction::InitializeRf233 { buffer, reg_write, reg_read } => {
                lent.extend([buffer, reg_write, reg_read])
            }
            BootAction::LoadProcesses { app_memory, .. } => lent.push(app_memory),
            _ => {}
        }
    }
    assert_eq!(lent.len(), 15);
    for i in 0..lent.len() {
        assert!(lent[..i].iter().all(|m| m.buffer != lent[i].buffer));
        assert_eq!(lent[i], lent[i].buffer.memory());
    }
}

#[test]
fn the_sizes_of_the_buffers() {
    assert_eq!(Buffer::AppMemory.memory(), bytes(Buffer::AppMemory, 16384));
    assert_eq!(Buffer::SpiRead.memory(), bytes(Buffer::SpiRead, 64));
    assert_eq!(Buffer::SpiWrite.memory(), bytes(Buffer::SpiWrite, 64));
    assert_eq!(Buffer::Rf233RegWrite.memory(), bytes(Buffer::Rf233RegWrite, 2));
    assert_eq!(Buffer::Rf233RegRead.memory(), bytes(Buffer::Rf233RegRead, 2));
    for buffer in [Buffer::Rf233, Buffer::Rf233Receive, Buffer::Radio] {
        assert_eq!(buffer.memory(), packet(buffer));
    }
    for buffer in [Buffer::ConsoleWrite, Buffer::Isl29035, Buffer::Si7021, Buffer::Fxos8700] {
        assert_eq!(buffer.memory(), of_driver(buffer));
    }
}

#[test]
fn the_message_comes_between_the_radio_and_the_processes() {
    let plan = reset_handler();
    let message = BootAction::Debug { message: "Initialization complete. Entering main loop" };
    let at = position(message);
    assert_eq!(plan.iter().filter(|a| matches!(a, BootAction::Debug { .. })).count(), 1);
    assert!(position(BootAction::AssignConsoleDriver) < at);
    assert!(position(BootAction::InitializeConsole) < position(BootAction::AssignConsoleDriver));
    assert_eq!(plan[at - 1], BootAction::StartRf233);
    assert!(matches!(plan[at + 1], BootAction::LoadProcesses { .. }));
}

#[test]
fn the_kernel_gets_what_was_made() {
    let plan = reset_handler();
    let mut published = None;
    let mut filled = None;
    let mut chip_built = false;
    for action in plan {
        match action {
            BootAction::AssemblePlatform(imix) => published = Some(imix),
            BootAction::NewChip => chip_built = true,
            BootAction::LoadProcesses { processes, .. } => filled = Some(processes),
            BootAction::EnterMainLoop { platform, chip, processes, ipc } => {
                assert_eq!(chip, Component::Chip);
                assert!(chip_built);
                assert_eq!(published, Some(platform));
                assert_eq!(platform.with_driver(0xff, |d| d.copied()), Some(ipc));
                assert_eq!(filled, Some(processes));
            }
            _ => {}
        }
    }
}

#[test]
fn i2c_addresses_differ() {
    let mut addresses: Vec<u8> = Vec::new();
    for action in reset_handler() {
        if let BootAction::NewI2cDevice { address, .. } = action {
            addresses.push(address);
        }
    }
    assert_eq!(addresses, vec![0x44, 0x40, 0x1e]);
}

#[test]
fn components_are_built_before_they_are_used() {
    assert!(
        position(BootAction::NewMuxAlarm)
            < position(BootAction::NewVirtualAlarm { alarm: Alarm::Timer })
    );
    assert!(
        position(BootAction::NewVirtualAlarm { alarm: Alarm::Timer })
            < position(BootAction::NewTimer { alarm: Alarm::Timer })
    );
    assert!(position(BootAction::NewRadioMac) < position(BootAction::NewRadioDriver));
    assert!(
        position(BootAction::NewUsbDriver)
            < position(BootAction::AssemblePlatform(platform()))
    );
    assert!(position(BootAction::NewIpc) < position(BootAction::AssemblePlatform(platform())));
}

#[test]
fn every_source_gets_one_client() {
    let mut sources: Vec<Source> = Vec::new();
    for action in reset_handler() {
        match action {
            BootAction::SetClient { source, .. } => sources.push(source),
            BootAction::SetRf233ReceiveClient { .. } => sources.push(Source::Rf233Receive),
            _ => {}
        }
    }
    assert_eq!(sources.len(), 30);
    for i in 0..sources.len() {
        assert!(!sources[..i].contains(&sources[i]));
    }
}

#[test]
fn clients_listen_before_the_source_starts() {
    assert!(
        position(client(Source::Usart3, Component::Console))
            < position(BootAction::InitializeConsole)
    );
    assert!(position(client(Source::Spi, Component::MuxSpi)) < position(BootAction::InitSpi));
    assert!(
        position(client(Source::Rf233Config, Component::RadioMac))
            < position(BootAction::StartRf233)
    );
}

#[test]
fn the_radio_starts_after_it_is_configured() {
    assert!(position(BootAction::ResetRf233) < position(BootAction::SetPan(0xABCD)));
    assert!(position(BootAction::SetPan(0xABCD)) < position(BootAction::SetAddress(0x1008)));
    assert!(position(BootAction::SetAddress(0x1008)) < position(BootAction::StartRf233));
    assert!(position(BootAction::EnableSpi) < position(BootAction::ResetRf233));
}
