//! When everything is due on the way up: positions in the boot sequence.

use crate::board::{
    achieves, awaits, awaits_client, connects, creates, has_client, i2c_address, lends, needs,
    reporter, takes, user, Milestone, Part,
};
use crate::boot::{
    adc_actions, button_actions, chip_actions, console_actions, crc_actions, gpio_actions,
    isl29035_actions, launch_actions, led_actions, ninedof_actions, pa, pc, pin_actions,
    power_actions, radio_actions, rf233_actions, si7021_actions, spi_actions, timer_actions,
    usb_actions, BootAction,
};
use crate::parts::{
    sized, Alarm, Buffer, Component, I2cDevice, Memory, ProcessArray, Source, SpiDevice, NUM_PROCS,
};
use crate::pins::{is_wired, primary_function, primary_settings, Pin};
use crate::platform::board_platform;
use vstd::prelude::*;

verus! {

/// The position at which a component is built.
pub open spec fn built_at(component: Component) -> int {
    match component {
        Component::Console => 63,
        Component::ConsoleApp => 66,
        Component::MuxAlarm => 68,
        Component::Alarm(Alarm::Timer) => 70,
        Component::Timer => 71,
        Component::MuxI2c => 73,
        Component::I2cDevice(I2cDevice::Isl29035) => 75,
        Component::Alarm(Alarm::Isl29035) => 76,
        Component::Isl29035 => 77,
        Component::MuxSpi => 80,
        Component::SpiDevice(SpiDevice::Syscalls) => 84,
        Component::SpiSyscalls => 85,
        Component::Alarm(Alarm::Si7021) => 88,
        Component::I2cDevice(I2cDevice::Si7021) => 89,
        Component::Si7021 => 90,
        Component::SpiDevice(SpiDevice::Rf233) => 93,
        Component::Rf233 => 94,
        Component::I2cDevice(I2cDevice::Fxos8700) => 96,
        Component::Fxos8700 => 97,
        Component::NineDof => 100,
        Component::Adc => 102,
        Component::Gpio => 104,
        Component::Led => 112,
        Component::Button => 113,
        Component::Crc => 115,
        Component::RadioMac => 118,
        Component::RadioDriver => 119,
        Component::UsbClient => 126,
        Component::UsbDriver => 128,
        Component::Ipc => 129,
        Component::Chip => 131,
    }
}

/// The position at which a source gets its client.
pub open spec fn connected_at(source: Source) -> int {
    match source {
        Source::Usart3 => 64,
        Source::Ast => 69,
        Source::Alarm(Alarm::Timer) => 72,
        Source::I2c2 => 74,
        Source::I2cDevice(I2cDevice::Isl29035) => 78,
        Source::Alarm(Alarm::Isl29035) => 79,
        Source::Spi => 81,
        Source::SpiDevice(SpiDevice::Syscalls) => 87,
        Source::I2cDevice(I2cDevice::Si7021) => 91,
        Source::Alarm(Alarm::Si7021) => 92,
        Source::I2cDevice(I2cDevice::Fxos8700) => 98,
        Source::Fxos8700 => 101,
        Source::Adc0 => 103,
        Source::Pin(pin) => if pin == pa(8) {
            95
        } else if pin == pc(13) {
            99
        } else if pin == pc(24) {
            114
        } else if pin == pa(20) {
            111
        } else {
            136 - pin.index
        },
        Source::SpiDevice(SpiDevice::Rf233) => 116,
        Source::RadioMacTransmit => 121,
        Source::RadioMacReceive => 122,
        Source::Rf233Transmit => 123,
        Source::Rf233Receive => 124,
        Source::Rf233Config => 125,
        Source::Usbc => 127,
    }
}

/// The position at which memory is given away.
pub open spec fn lent_at(buffer: Buffer) -> int {
    match buffer {
        Buffer::ConsoleWrite => 63,
        Buffer::Isl29035 => 77,
        Buffer::SpiRead | Buffer::SpiWrite => 86,
        Buffer::Si7021 => 90,
        Buffer::Fxos8700 => 97,
        Buffer::Adc1 | Buffer::Adc2 | Buffer::Adc3 => 102,
        Buffer::Rf233 | Buffer::Rf233RegWrite | Buffer::Rf233RegRead => 117,
        Buffer::Radio => 120,
        Buffer::Rf233Receive => 124,
        Buffer::AppMemory => 137,
    }
}

/// The position at which a step is done.
pub open spec fn done_at(milestone: Milestone) -> int {
    match milestone {
        Milestone::ChipInitialized => 0,
        Milestone::SystemClockSet => 1,
        Milestone::Ck32SourceSet => 2,
        Milestone::SubmodulesConfigured => 62,
        Milestone::ConsoleInitialized => 65,
        Milestone::KernelConsoleAssigned => 67,
        Milestone::SpiInitialized => 82,
        Milestone::SpiEnabled => 83,
        Milestone::SpiBuffersConfigured => 86,
        Milestone::Rf233Initialized => 117,
        Milestone::RadioBufferConfigured => 120,
        Milestone::Rf233Reset => 132,
        Milestone::PanSet => 133,
        Milestone::AddressSet => 134,
        Milestone::Rf233Started => 135,
        Milestone::InitializationAnnounced => 136,
        Milestone::ProcessesLoaded => 137,
        Milestone::MainLoopEntered => 138,
    }
}

/// How many pins are set before a position.
pub open spec fn pins_before(position: int) -> int {
    if position <= 3 {
        0
    } else if position <= 62 {
        position - 3
    } else {
        59
    }
}

/// Whether an action does what is due at a position, and all that it needs is done before.
#[verifier::opaque]
pub open spec fn on_schedule(position: int, action: BootAction) -> bool {
    // What is due is done, and nothing else.
    &&& forall|c: Component| #[trigger] built_at(c) == position <==> creates(action) == Some(c)
    &&& forall|p: Part| #[trigger]
        takes(action, p) <==> user(p) is Some && built_at(user(p)->0) == position
    &&& forall|s: Source| #[trigger]
        connected_at(s) == position && has_client(s) <==> connects(action) == Some(
            (s, user(reporter(s))->0),
        )
    &&& connects(action) matches Some((s, c)) ==> has_client(s) && user(reporter(s)) == Some(c)
        && built_at(c) < position
    &&& forall|m: Memory| #[trigger]
        lends(action).contains(m) <==> lent_at(m.buffer) == position && m == sized(m.buffer)
    &&& forall|m: Milestone| #[trigger] done_at(m) == position <==> achieves(action) == Some(m)
    &&& 3 <= position < 62 <==> action is ConfigurePin
    &&& action matches BootAction::ConfigurePin(s) ==> s == primary_settings()[position - 3]
    &&& action matches BootAction::NewI2cDevice { i2c, address } ==> address == i2c_address(i2c)
    &&& position == 130 <==> action is AssemblePlatform
    &&& action matches BootAction::AssemblePlatform(imix) ==> imix == board_platform()
    &&& position == 137 <==> action is LoadProcesses
    &&& action matches BootAction::LoadProcesses { processes, .. } ==> processes == (ProcessArray {
        slots: NUM_PROCS,
    })
    &&& action matches BootAction::EnterMainLoop { platform, chip, processes, ipc } ==> {
        &&& position > 137
        &&& platform == board_platform()
        &&& chip == Component::Chip
        &&& ipc == platform.ipc
        &&& processes == (ProcessArray { slots: NUM_PROCS })
    }
    // What is needed is there.
    &&& forall|m: Milestone| #[trigger] awaits(action, m) ==> done_at(m) < position
    &&& forall|c: Component| #[trigger] needs(action, c) ==> built_at(c) < position
    &&& forall|s: Source| #[trigger]
        awaits_client(action, s) ==> has_client(s) && connected_at(s) < position
    &&& forall|pin: Pin| #[trigger]
        takes(action, Part::Pin(pin)) ==> is_wired(pin) && primary_function(pin) is None
            && position >= 62
    &&& lends(action).no_duplicates()
}

/// Whether all of `actions` are on schedule, the first of them at a position.
pub open spec fn all_on_schedule(position: int, actions: Seq<BootAction>) -> bool {
    forall|i: int| 0 <= i < actions.len() ==> on_schedule(position + i, #[trigger] actions[i])
}

pub proof fn lemma_chip_schedule()
    ensures
        all_on_schedule(0, chip_actions()),
{
    let actions = chip_actions();
    assert forall|i: int| 0 <= i < 3 implies on_schedule(0 + i, #[trigger] actions[i]) by {
        reveal(on_schedule);
    }
}

pub proof fn lemma_pin_schedule()
    ensures
        all_on_schedule(3, pin_actions()),
{
    let actions = pin_actions();
    assert forall|i: int| 0 <= i < 59 implies on_schedule(3 + i, #[trigger] actions[i]) by {
        reveal(on_schedule);
        assert(actions[i] == BootAction::ConfigurePin(primary_settings()[i]));
    }
}

pub proof fn lemma_power_schedule()
    ensures
        all_on_schedule(62, power_actions()),
{
    let actions = power_actions();
    assert forall|i: int| 0 <= i < 1 implies on_schedule(62 + i, #[trigger] actions[i]) by {
        reveal(on_schedule);
    }
}

pub proof fn lemma_console_schedule()
    ensures
        all_on_schedule(63, console_actions()),
{
    let actions = console_actions();
    assert(lends(actions[0])[0] == sized(Buffer::ConsoleWrite));
    assert forall|i: int| 0 <= i < 5 implies on_schedule(63 + i, #[trigger] actions[i]) by {
        reveal(on_schedule);
    }
}

pub proof fn lemma_timer_schedule()
    ensures
        all_on_schedule(68, timer_actions()),
{
    let actions = timer_actions();
    assert forall|i: int| 0 <= i < 5 implies on_schedule(68 + i, #[trigger] actions[i]) by {
        reveal(on_schedule);
    }
}

#[verifier::rlimit(30)]
proof fn lemma_isl29035_devices_schedule()
    ensures
        forall|i: int|
            0 <= i < 4 ==> on_schedule(73 + i, #[trigger] isl29035_actions()[i]),
{
    let actions = isl29035_actions();
    assert forall|i: int| 0 <= i < 4 implies on_schedule(73 + i, #[trigger] actions[i]) by {
        reveal(on_schedule);
    }
}

#[verifier::rlimit(30)]
proof fn lemma_isl29035_sensor_schedule()
    ensures
        forall|i: int|
            4 <= i < 7 ==> on_schedule(73 + i, #[trigger] isl29035_actions()[i]),
{
    let actions = isl29035_actions();
    assert(lends(actions[4])[0] == sized(Buffer::Isl29035));
    assert forall|i: int| 4 <= i < 7 implies on_schedule(73 + i, #[trigger] actions[i]) by {
        reveal(on_schedule);
    }
}

pub proof fn lemma_isl29035_schedule()
    ensures
        all_on_schedule(73, isl29035_actions()),
{
    lemma_isl29035_devices_schedule();
    lemma_isl29035_sensor_schedule();
}

#[verifier::rlimit(30)]
proof fn lemma_spi_bus_schedule()
    ensures
        forall|i: int|
            0 <= i < 3 ==> on_schedule(80 + i, #[trigger] spi_actions()[i]),
{
    let actions = spi_actions();
    assert forall|i: int| 0 <= i < 3 implies on_schedule(80 + i, #[trigger] actions[i]) by {
        reveal(on_schedule);
    }
}

#[verifier::rlimit(30)]
proof fn lemma_spi_syscalls_schedule()
    ensures
        forall|i: int|
            3 <= i < 8 ==> on_schedule(80 + i, #[trigger] spi_actions()[i]),
{
    let actions = spi_actions();
    assert(lends(actions[6])[0] == sized(Buffer::SpiRead));
    assert(lends(actions[6])[1] == sized(Buffer::SpiWrite));
    assert forall|i: int| 3 <= i < 8 implies on_schedule(80 + i, #[trigger] actions[i]) by {
        reveal(on_schedule);
    }
}

pub proof fn lemma_spi_schedule()
    ensures
        all_on_schedule(80, spi_actions()),
{
    lemma_spi_bus_schedule();
    lemma_spi_syscalls_schedule();
}

pub proof fn lemma_si7021_schedule()
    ensures
        all_on_schedule(88, si7021_actions()),
{
    let actions = si7021_actions();
    assert(lends(actions[2])[0] == sized(Buffer::Si7021));
    assert forall|i: int| 0 <= i < 5 implies on_schedule(88 + i, #[trigger] actions[i]) by {
        reveal(on_schedule);
    }
}

pub proof fn lemma_rf233_schedule()
    ensures
        all_on_schedule(93, rf233_actions()),
{
    let actions = rf233_actions();
    assert forall|i: int| 0 <= i < 3 implies on_schedule(93 + i, #[trigger] actions[i]) by {
        reveal(on_schedule);
    }
}

#[verifier::rlimit(30)]
proof fn lemma_ninedof_sensor_schedule()
    ensures
        forall|i: int|
            0 <= i < 3 ==> on_schedule(96 + i, #[trigger] ninedof_actions()[i]),
{
    let actions = ninedof_actions();
    assert(lends(actions[1])[0] == sized(Buffer::Fxos8700));
    assert forall|i: int| 0 <= i < 3 implies on_schedule(96 + i, #[trigger] actions[i]) by {
        reveal(on_schedule);
    }
}

#[verifier::rlimit(30)]
proof fn lemma_ninedof_clients_schedule()
    ensures
        forall|i: int|
            3 <= i < 6 ==> on_schedule(96 + i, #[trigger] ninedof_actions()[i]),
{
    let actions = ninedof_actions();
    assert forall|i: int| 3 <= i < 6 implies on_schedule(96 + i, #[trigger] actions[i]) by {
        reveal(on_schedule);
    }
}

pub proof fn lemma_ninedof_schedule()
    ensures
        all_on_schedule(96, ninedof_actions()),
{
    lemma_ninedof_sensor_schedule();
    lemma_ninedof_clients_schedule();
}

pub proof fn lemma_adc_schedule()
    ensures
        all_on_schedule(102, adc_actions()),
{
    let actions = adc_actions();
    assert(lends(actions[0])[0] == sized(Buffer::Adc1));
    assert(lends(actions[0])[1] == sized(Buffer::Adc2));
    assert(lends(actions[0])[2] == sized(Buffer::Adc3));
    assert forall|i: int| 0 <= i < 2 implies on_schedule(102 + i, #[trigger] actions[i]) by {
        reveal(on_schedule);
    }
}

pub proof fn lemma_gpio_schedule()
    ensures
        all_on_schedule(104, gpio_actions()),
{
    let actions = gpio_actions();
    assert forall|i: int| 0 <= i < 8 implies on_schedule(104 + i, #[trigger] actions[i]) by {
        reveal(on_schedule);
    }
}

pub proof fn lemma_led_schedule()
    ensures
        all_on_schedule(112, led_actions()),
{
    let actions = led_actions();
    assert forall|i: int| 0 <= i < 1 implies on_schedule(112 + i, #[trigger] actions[i]) by {
        reveal(on_schedule);
    }
}

pub proof fn lemma_button_schedule()
    ensures
        all_on_schedule(113, button_actions()),
{
    let actions = button_actions();
    assert forall|i: int| 0 <= i < 2 implies on_schedule(113 + i, #[trigger] actions[i]) by {
        reveal(on_schedule);
    }
}

pub proof fn lemma_crc_schedule()
    ensures
        all_on_schedule(115, crc_actions()),
{
    let actions = crc_actions();
    assert forall|i: int| 0 <= i < 1 implies on_schedule(115 + i, #[trigger] actions[i]) by {
        reveal(on_schedule);
    }
}

#[verifier::rlimit(30)]
proof fn lemma_radio_parts_schedule()
    ensures
        forall|i: int|
            0 <= i < 5 ==> on_schedule(116 + i, #[trigger] radio_actions()[i]),
{
    let actions = radio_actions();
    assert(lends(actions[1])[0] == sized(Buffer::Rf233));
    assert(lends(actions[1])[1] == sized(Buffer::Rf233RegWrite));
    assert(lends(actions[1])[2] == sized(Buffer::Rf233RegRead));
    assert(lends(actions[4])[0] == sized(Buffer::Radio));
    assert forall|i: int| 0 <= i < 5 implies on_schedule(116 + i, #[trigger] actions[i]) by {
        reveal(on_schedule);
    }
}

#[verifier::rlimit(30)]
proof fn lemma_radio_clients_schedule()
    ensures
        forall|i: int|
            5 <= i < 10 ==> on_schedule(116 + i, #[trigger] radio_actions()[i]),
{
    let actions = radio_actions();
    assert(lends(actions[8])[0] == sized(Buffer::Rf233Receive));
    assert forall|i: int| 5 <= i < 10 implies on_schedule(116 + i, #[trigger] actions[i]) by {
        reveal(on_schedule);
    }
}

pub proof fn lemma_radio_schedule()
    ensures
        all_on_schedule(116, radio_actions()),
{
    lemma_radio_parts_schedule();
    lemma_radio_clients_schedule();
}

pub proof fn lemma_usb_schedule()
    ensures
        all_on_schedule(126, usb_actions()),
{
    let actions = usb_actions();
    assert forall|i: int| 0 <= i < 3 implies on_schedule(126 + i, #[trigger] actions[i]) by {
        reveal(on_schedule);
    }
}

pub proof fn lemma_launch_schedule()
    ensures
        all_on_schedule(129, launch_actions()),
{
    let actions = launch_actions();
    assert(lends(actions[8])[0] == sized(Buffer::AppMemory));
    assert forall|i: int| 0 <= i < 10 implies on_schedule(129 + i, #[trigger] actions[i]) by {
        reveal(on_schedule);
    }
}

} // verus!
