//! What holds of the board as a whole.

use crate::board::{
    achieves, awaits, awaits_client, connects, creates, has_client, has_signal, i2c_address, lends,
    needs, reporter, signal_function, takes, user, Board, Milestone, Part,
};
use crate::boot::{
    adc_actions, boot_sequence, button_actions, chip_actions, console_actions, crc_actions,
    gpio_actions, isl29035_actions, launch_actions, led_actions, ninedof_actions, pin_actions,
    pa, pc, power_actions, radio_actions, rf233_actions, si7021_actions, spi_actions, timer_actions,
    usb_actions, BootAction, BOOT_ACTIONS,
};
use crate::parts::{
    buffer_size, sized, AppImages, Buffer, BufferSize, Component, FaultResponse, I2cDevice, Memory,
    Peripheral, ProcessArray, Source, NUM_PROCS,
};
use crate::pins::{
    lemma_pins_are_set_in_order, lemma_wired_pins_are_set, primary_function,
    primary_pins, primary_settings, Pin, PinSetting,
};
use crate::platform::{
    board_platform, is_driver_number, lemma_number_reaches_its_component, Imix,
};
use crate::schedule::{
    all_on_schedule, built_at, connected_at, done_at, lemma_adc_schedule, lemma_button_schedule,
    lemma_chip_schedule, lemma_console_schedule, lemma_crc_schedule, lemma_gpio_schedule,
    lemma_isl29035_schedule, lemma_launch_schedule, lemma_led_schedule, lemma_ninedof_schedule,
    lemma_pin_schedule, lemma_power_schedule, lemma_radio_schedule, lemma_rf233_schedule,
    lemma_si7021_schedule, lemma_spi_schedule, lemma_timer_schedule, lemma_usb_schedule, lent_at,
    on_schedule, pins_before,
};
use vstd::prelude::*;

verus! {

/// The board after the first `position` actions of the boot sequence.
spec fn board_at(position: int) -> Board {
    Board {
        pins: Map::new(
            |pin: Pin| primary_pins().take(pins_before(position)).contains(pin),
            |pin: Pin| primary_function(pin),
        ),
        built: Set::new(|c: Component| built_at(c) < position),
        owner: Map::new(
            |p: Part| user(p) is Some && built_at(user(p)->0) < position,
            |p: Part| user(p)->0,
        ),
        clients: Map::new(
            |s: Source| has_client(s) && connected_at(s) < position,
            |s: Source| user(reporter(s))->0,
        ),
        lent: Set::new(
            |m: Memory| lent_at(m.buffer) < position && m == sized(m.buffer),
        ),
        addresses: Map::new(
            |d: I2cDevice| built_at(Component::I2cDevice(d)) < position,
            |d: I2cDevice| i2c_address(d),
        ),
        platform: if position <= 130 {
            None
        } else {
            Some(board_platform())
        },
        loaded: if position <= 137 {
            None
        } else {
            Some(ProcessArray { slots: NUM_PROCS })
        },
        done: Set::new(|m: Milestone| done_at(m) < position),
    }
}

/// An action on schedule is admitted and leads to the next position.
proof fn lemma_on_schedule(position: int, action: BootAction)
    requires
        on_schedule(position, action),
    ensures
        board_at(position).admits(action),
        board_at(position).after(action) == board_at(position + 1),
{
    reveal(on_schedule);
    let here = board_at(position);
    let next = board_at(position + 1);
    assert forall|p: Part| takes(action, p) implies here.available(p) by {
        if let Part::Pin(pin) = p {
            assert(takes(action, Part::Pin(pin)));
            lemma_wired_pins_are_set(pin);
            assert(primary_pins().take(59) =~= primary_pins());
        }
        if let Part::Component(c) = p {
            assert(needs(action, c));
        }
    }
    lemma_pin_on_schedule(position, action);
    assert(here.admits(action));
    assert(here.after(action).built =~= next.built);
    assert(here.after(action).owner =~= next.owner);
    assert(here.after(action).clients =~= next.clients);
    assert(here.after(action).lent =~= next.lent);
    assert(here.after(action).addresses =~= next.addresses);
    assert(here.after(action).done =~= next.done);
}

/// A pin is set when it is due.
proof fn lemma_pin_on_schedule(position: int, action: BootAction)
    requires
        on_schedule(position, action),
    ensures
        action matches BootAction::ConfigurePin(s) ==> !board_at(position).pins.dom().contains(
            s.pin,
        ),
        board_at(position).after(action).pins == board_at(position + 1).pins,
{
    reveal(on_schedule);
    let after = board_at(position).after(action).pins;
    if action is ConfigurePin {
        let pins = primary_pins();
        let i = position - 3;
        assert(action == BootAction::ConfigurePin(primary_settings()[i]));
        assert forall|j: int| 0 <= j < i implies pins.take(i)[j] != pins[i] by {
            lemma_pins_are_set_in_order(j, i);
        }
        assert(primary_settings()[i].pin == pins[i]);
        assert forall|pin: Pin| #[trigger]
            after.dom().contains(pin) <==> board_at(position + 1).pins.dom().contains(pin) by {
            assert(after.dom().contains(pin) <==> pins.take(i).contains(pin) || pin == pins[i]);
            if pins.take(i).contains(pin) {
                let j = choose|j: int| 0 <= j < i && pins.take(i)[j] == pin;
                assert(pins.take(i + 1)[j] == pin);
            }
            assert(pins.take(i + 1)[i] == pins[i]);
        }
        assert(after.dom() =~= board_at(position + 1).pins.dom());
    }
    assert(after =~= board_at(position + 1).pins);
}

/// Two runs of actions that are on schedule are so together.
proof fn lemma_join(first: Seq<BootAction>, second: Seq<BootAction>)
    requires
        all_on_schedule(0, first),
        all_on_schedule(first.len() as int, second),
    ensures
        all_on_schedule(0, first + second),
{
    let both = first + second;
    assert forall|i: int| 0 <= i < both.len() implies on_schedule(0 + i, #[trigger] both[i]) by {
        if i < first.len() {
            assert(on_schedule(0 + i, first[i]));
        } else {
            assert(on_schedule(first.len() + (i - first.len()), second[i - first.len()]));
        }
    }
}

/// The whole boot sequence is on schedule.
proof fn lemma_all_on_schedule()
    ensures
        boot_sequence().len() == BOOT_ACTIONS,
        all_on_schedule(0, boot_sequence()),
{
    lemma_chip_schedule();
    let s = chip_actions();
    lemma_pin_schedule();
    lemma_join(s, pin_actions());
    let s = s + pin_actions();
    lemma_power_schedule();
    lemma_join(s, power_actions());
    let s = s + power_actions();
    lemma_console_schedule();
    lemma_join(s, console_actions());
    let s = s + console_actions();
    lemma_timer_schedule();
    lemma_join(s, timer_actions());
    let s = s + timer_actions();
    lemma_isl29035_schedule();
    lemma_join(s, isl29035_actions());
    let s = s + isl29035_actions();
    lemma_spi_schedule();
    lemma_join(s, spi_actions());
    let s = s + spi_actions();
    lemma_si7021_schedule();
    lemma_join(s, si7021_actions());
    let s = s + si7021_actions();
    lemma_rf233_schedule();
    lemma_join(s, rf233_actions());
    let s = s + rf233_actions();
    lemma_ninedof_schedule();
    lemma_join(s, ninedof_actions());
    let s = s + ninedof_actions();
    lemma_adc_schedule();
    lemma_join(s, adc_actions());
    let s = s + adc_actions();
    lemma_gpio_schedule();
    lemma_join(s, gpio_actions());
    let s = s + gpio_actions();
    lemma_led_schedule();
    lemma_join(s, led_actions());
    let s = s + led_actions();
    lemma_button_schedule();
    lemma_join(s, button_actions());
    let s = s + button_actions();
    lemma_crc_schedule();
    lemma_join(s, crc_actions());
    let s = s + crc_actions();
    lemma_radio_schedule();
    lemma_join(s, radio_actions());
    let s = s + radio_actions();
    lemma_usb_schedule();
    lemma_join(s, usb_actions());
    let s = s + usb_actions();
    lemma_launch_schedule();
    lemma_join(s, launch_actions());
}

/// The first `n` actions of the boot sequence are admitted.
proof fn lemma_board_at(n: nat)
    requires
        n <= BOOT_ACTIONS,
    ensures
        Board::reset().after_first(boot_sequence(), n) == Some(board_at(n as int)),
    decreases n,
{
    if n == 0 {
        let start = board_at(0);
        assert(start.pins =~= Map::empty());
        assert(start.built =~= Set::empty());
        assert(start.owner =~= Map::empty());
        assert(start.clients =~= Map::empty());
        assert(start.lent =~= Set::empty());
        assert(start.addresses =~= Map::empty());
        assert(start.done =~= Set::empty());
    } else {
        lemma_board_at((n - 1) as nat);
        lemma_all_on_schedule();
        assert(on_schedule(0 + (n - 1), boot_sequence()[n - 1]));
        lemma_on_schedule(n - 1, boot_sequence()[n - 1]);
    }
}

/// The boot sequence brings the board from reset to the main loop: every action is admitted where
/// it comes, and at the end the board is complete.
pub proof fn lemma_boot_completes()
    ensures
        Board::reset().after_all(boot_sequence()) == Some(Board::running()),
{
    lemma_all_on_schedule();
    lemma_board_at(BOOT_ACTIONS as nat);
    let end = board_at(BOOT_ACTIONS as int);
    assert(primary_pins().take(59) =~= primary_pins());
    assert(end.pins =~= Board::running().pins);
    assert(end.built =~= Set::full());
    assert(end.owner =~= Board::running().owner);
    assert(end.clients =~= Board::running().clients);
    assert(end.lent =~= Board::running().lent);
    assert(end.addresses =~= Board::running().addresses);
    assert(end.done =~= Set::full());
}

/// The action of the boot sequence at a position is on schedule.
proof fn lemma_action_on_schedule(i: int)
    requires
        0 <= i < boot_sequence().len(),
    ensures
        boot_sequence().len() == BOOT_ACTIONS,
        on_schedule(i, boot_sequence()[i]),
{
    lemma_all_on_schedule();
    assert(on_schedule(0 + i, boot_sequence()[i]));
}

/// Every component is built, and built once.
pub proof fn lemma_every_component_is_built_once(component: Component)
    ensures
        exists|i: int|
            0 <= i < boot_sequence().len() && creates(#[trigger] boot_sequence()[i]) == Some(
                component,
            ),
        forall|i: int, j: int|
            0 <= i < boot_sequence().len() && 0 <= j < boot_sequence().len() && creates(
                #[trigger] boot_sequence()[i],
            ) == Some(component) && creates(#[trigger] boot_sequence()[j]) == Some(component) ==> i
                == j,
{
    lemma_all_on_schedule();
    let at = built_at(component);
    lemma_action_on_schedule(at);
    assert forall|i: int|
        0 <= i < boot_sequence().len() && creates(#[trigger] boot_sequence()[i]) == Some(
            component,
        ) implies i == at by {
        lemma_action_on_schedule(i);
        reveal(on_schedule);
    }
    reveal(on_schedule);
    assert(creates(boot_sequence()[at]) == Some(component));
}

/// A component is there before any action uses it.
pub proof fn lemma_built_before_use(i: int, component: Component)
    requires
        0 <= i < boot_sequence().len(),
        needs(boot_sequence()[i], component),
    ensures
        exists|j: int| 0 <= j < i && creates(#[trigger] boot_sequence()[j]) == Some(component),
{
    lemma_action_on_schedule(i);
    let at = built_at(component);
    lemma_action_on_schedule(at);
    reveal(on_schedule);
    assert(creates(boot_sequence()[at]) == Some(component));
}

/// A part other than a multiplexer goes to one component only.
pub proof fn lemma_part_is_taken_once(i: int, j: int, part: Part)
    requires
        0 <= i < boot_sequence().len(),
        0 <= j < boot_sequence().len(),
        takes(boot_sequence()[i], part),
        takes(boot_sequence()[j], part),
    ensures
        i == j,
{
    lemma_action_on_schedule(i);
    lemma_action_on_schedule(j);
    reveal(on_schedule);
}

/// A pin that a component takes has been set to GPIO before.
pub proof fn lemma_taken_pin_is_gpio(i: int, pin: Pin)
    requires
        0 <= i < boot_sequence().len(),
        takes(boot_sequence()[i], Part::Pin(pin)),
    ensures
        exists|j: int|
            0 <= j < i && #[trigger] boot_sequence()[j] == BootAction::ConfigurePin(
                PinSetting { pin, function: None },
            ),
{
    lemma_action_on_schedule(i);
    reveal(on_schedule);
    lemma_wired_pins_are_set(pin);
    let k = choose|k: int| 0 <= k < primary_pins().len() && primary_pins()[k] == pin;
    lemma_action_on_schedule(k + 3);
    assert(primary_settings()[k] == PinSetting { pin, function: None });
    assert(boot_sequence()[k + 3] == BootAction::ConfigurePin(PinSetting { pin, function: None }));
}

/// All memory is given away, each area once and at its size.
pub proof fn lemma_memory_is_lent_once(buffer: Buffer)
    ensures
        exists|i: int|
            0 <= i < boot_sequence().len() && lends(#[trigger] boot_sequence()[i]).contains(
                sized(buffer),
            ),
        forall|i: int, x: int, j: int, y: int|
            0 <= i < boot_sequence().len() && 0 <= x < lends(boot_sequence()[i]).len() && 0 <= j
                < boot_sequence().len() && 0 <= y < lends(boot_sequence()[j]).len() && (
            #[trigger] lends(boot_sequence()[i])[x]).buffer == buffer && (#[trigger] lends(
                boot_sequence()[j],
            )[y]).buffer == buffer ==> i == j && x == y,
        forall|i: int, x: int|
            0 <= i < boot_sequence().len() && 0 <= x < lends(boot_sequence()[i]).len() && (
            #[trigger] lends(boot_sequence()[i])[x]).buffer == buffer ==> lends(
                boot_sequence()[i],
            )[x].size == buffer_size(buffer),
{
    lemma_all_on_schedule();
    let at = lent_at(buffer);
    lemma_action_on_schedule(at);
    assert forall|i: int, x: int|
        0 <= i < boot_sequence().len() && 0 <= x < lends(boot_sequence()[i]).len() && (
        #[trigger] lends(boot_sequence()[i])[x]).buffer == buffer implies i == at && lends(
        boot_sequence()[i],
    )[x] == sized(buffer) by {
        lemma_action_on_schedule(i);
        reveal(on_schedule);
        assert(lends(boot_sequence()[i]).contains(lends(boot_sequence()[i])[x]));
    }
    reveal(on_schedule);
    assert(lends(boot_sequence()[at]).contains(sized(buffer)));
}

/// A part reports to the component that was built on it, and to no other.
pub proof fn lemma_client_is_built_on_source(i: int, source: Source, client: Component)
    requires
        0 <= i < boot_sequence().len(),
        connects(boot_sequence()[i]) == Some((source, client)),
    ensures
        exists|j: int|
            0 <= j < i && creates(#[trigger] boot_sequence()[j]) == Some(client) && takes(
                boot_sequence()[j],
                reporter(source),
            ),
        forall|j: int|
            0 <= j < boot_sequence().len() && j != i ==> (connects(
                #[trigger] boot_sequence()[j],
            ) matches Some((s, _)) ==> s != source),
{
    lemma_action_on_schedule(i);
    let at = built_at(client);
    lemma_action_on_schedule(at);
    assert forall|j: int|
        0 <= j < boot_sequence().len() && j != i implies (connects(
        #[trigger] boot_sequence()[j],
    ) matches Some((s, _)) ==> s != source) by {
        lemma_action_on_schedule(j);
        reveal(on_schedule);
        if let Some((s, c)) = connects(boot_sequence()[j]) {
            assert(connected_at(s) == j);
        }
        assert(connected_at(source) == i);
    }
    reveal(on_schedule);
    assert(creates(boot_sequence()[at]) == Some(client));
    assert(takes(boot_sequence()[at], reporter(source)));
}

/// What an action waits for has been done before it.
pub proof fn lemma_steps_come_in_order(i: int, milestone: Milestone)
    requires
        0 <= i < boot_sequence().len(),
        awaits(boot_sequence()[i], milestone),
    ensures
        exists|j: int| 0 <= j < i && achieves(#[trigger] boot_sequence()[j]) == Some(milestone),
{
    lemma_action_on_schedule(i);
    let at = done_at(milestone);
    lemma_action_on_schedule(at);
    reveal(on_schedule);
    assert(achieves(boot_sequence()[at]) == Some(milestone));
}

/// Whoever is to hear of an event listens before the source is started.
pub proof fn lemma_clients_listen_in_time(i: int, source: Source)
    requires
        0 <= i < boot_sequence().len(),
        awaits_client(boot_sequence()[i], source),
    ensures
        exists|j: int|
            0 <= j < i && (connects(#[trigger] boot_sequence()[j]) matches Some((s, _)) && s
                == source),
{
    lemma_action_on_schedule(i);
    reveal(on_schedule);
    let at = connected_at(source);
    lemma_action_on_schedule(at);
    assert(connects(boot_sequence()[at]) == Some((source, user(reporter(source))->0)));
}

/// The devices on the I2C bus have different seven-bit addresses.
pub proof fn lemma_i2c_addresses_differ(i: int, j: int)
    requires
        0 <= i < j < boot_sequence().len(),
        boot_sequence()[i] is NewI2cDevice,
        boot_sequence()[j] is NewI2cDevice,
    ensures
        boot_sequence()[i]->address < 0x80,
        boot_sequence()[j]->address < 0x80,
        boot_sequence()[i]->address != boot_sequence()[j]->address,
{
    lemma_action_on_schedule(i);
    lemma_action_on_schedule(j);
    reveal(on_schedule);
    assert(creates(boot_sequence()[i]) is Some);
    assert(built_at(creates(boot_sequence()[i])->0) == i);
    assert(built_at(creates(boot_sequence()[j])->0) == j);
}

/// Every driver that a process can reach is there when the main loop starts, whatever the number
/// that the process asks for.
pub proof fn lemma_reachable_drivers_are_built(driver_num: usize)
    requires
        board_platform().driver(driver_num) is Some,
    ensures
        exists|j: int|
            0 <= j < boot_sequence().len() - 1 && creates(#[trigger] boot_sequence()[j]) == Some(
                *board_platform().driver(driver_num)->0,
            ),
{
    lemma_all_on_schedule();
    let component = *board_platform().driver(driver_num)->0;
    let at = built_at(component);
    lemma_action_on_schedule(at);
    reveal(on_schedule);
    assert(creates(boot_sequence()[at]) == Some(component));
}

/// The driver on an I2C sensor talks to the address of that sensor: the ISL29035 to 0x44, the
/// SI7021 to 0x40, the FXOS8700CQ to 0x1e.
pub proof fn lemma_sensors_have_their_addresses(i: int, j: int)
    requires
        0 <= i < boot_sequence().len(),
        0 <= j < boot_sequence().len(),
        boot_sequence()[j] is NewI2cDevice,
    ensures
        boot_sequence()[i] is NewIsl29035 && boot_sequence()[i]->NewIsl29035_i2c
            == boot_sequence()[j]->NewI2cDevice_i2c ==> boot_sequence()[j]->address == 0x44,
        boot_sequence()[i] is NewSi7021 && boot_sequence()[i]->NewSi7021_i2c
            == boot_sequence()[j]->NewI2cDevice_i2c ==> boot_sequence()[j]->address == 0x40,
        boot_sequence()[i] is NewFxos8700 && boot_sequence()[i]->NewFxos8700_i2c
            == boot_sequence()[j]->NewI2cDevice_i2c ==> boot_sequence()[j]->address == 0x1e,
{
    lemma_action_on_schedule(i);
    lemma_action_on_schedule(j);
    reveal(on_schedule);
    let part = Part::Component(Component::I2cDevice(boot_sequence()[j]->NewI2cDevice_i2c));
    if takes(boot_sequence()[i], part) {
        assert(built_at(user(part)->0) == i);
    }
}

/// The driver that a number reaches, on any platform that the boot sequence publishes or hands to
/// the kernel, is the one that was built for that number: on USART3 for 0, on the light sensor for
/// 6, on the temperature and humidity sensor for 10, and so on.
pub proof fn lemma_numbers_reach_what_was_built(k: int, imix: Imix<Component>, n: usize, i: int)
    requires
        0 <= k < boot_sequence().len(),
        boot_sequence()[k] == BootAction::AssemblePlatform(imix) || (boot_sequence()[k]
            is EnterMainLoop && boot_sequence()[k]->platform == imix),
        0 <= i < boot_sequence().len(),
        imix.driver(n) is Some,
        creates(boot_sequence()[i]) == Some(*imix.driver(n)->0),
    ensures
        i < k,
        n == 0 ==> boot_sequence()[i] is NewConsole && takes(
            boot_sequence()[i],
            Part::Peripheral(Peripheral::Usart3),
        ),
        n == 1 ==> boot_sequence()[i] is NewGpio && takes(boot_sequence()[i], Part::Pin(pc(31))),
        n == 3 ==> boot_sequence()[i] is NewTimer,
        n == 4 ==> boot_sequence()[i] is NewSpiSyscalls,
        n == 6 ==> boot_sequence()[i] is NewIsl29035,
        n == 7 ==> boot_sequence()[i] is NewAdc && takes(
            boot_sequence()[i],
            Part::Peripheral(Peripheral::Adc0),
        ),
        n == 8 ==> boot_sequence()[i] is NewLed && takes(boot_sequence()[i], Part::Pin(pc(22))),
        n == 9 ==> boot_sequence()[i] is NewButton && takes(boot_sequence()[i], Part::Pin(pc(24))),
        n == 10 ==> boot_sequence()[i] is NewSi7021,
        n == 11 ==> boot_sequence()[i] is NewNineDof,
        n == 16 ==> boot_sequence()[i] is NewCrc && takes(
            boot_sequence()[i],
            Part::Peripheral(Peripheral::Crccu),
        ),
        n == 34 ==> boot_sequence()[i] is NewUsbDriver,
        n == 154 ==> boot_sequence()[i] is NewRadioDriver,
        n == 255 ==> boot_sequence()[i] is NewIpc,
        is_driver_number(n),
{
    lemma_action_on_schedule(k);
    lemma_action_on_schedule(i);
    reveal(on_schedule);
    let component = *imix.driver(n)->0;
    assert(imix == board_platform());
    lemma_number_reaches_its_component(n);
    assert(built_at(component) == i);
    if boot_sequence()[k] is EnterMainLoop {
        assert(done_at(Milestone::MainLoopEntered) == k);
    }
}

/// Wherever they occur, the console runs at 115200 baud, the SPI devices select chip 3, all
/// submodules are powered, and the radio joins PAN 0xABCD under the address 0x1008.
pub proof fn lemma_board_is_set_up_as_documented(i: int)
    requires
        0 <= i < boot_sequence().len(),
    ensures
        boot_sequence()[i] matches BootAction::NewConsole { baud_rate, .. } ==> baud_rate == 115200,
        boot_sequence()[i] matches BootAction::NewSpiDevice { chip_select, .. } ==> chip_select
            == 3,
        boot_sequence()[i] matches BootAction::ConfigureSubmodules(config) ==> config.rf233
            && config.nrf51422 && config.sensors && config.trng,
        boot_sequence()[i] matches BootAction::SetPan(pan) ==> pan == 0xABCD,
        boot_sequence()[i] matches BootAction::SetAddress(address) ==> address == 0x1008,
        boot_sequence()[i] matches BootAction::NewRf233 { reset, sleep, irq, irq_ctl, .. } ==> reset
            == pa(9) && sleep == pa(10) && irq == pa(8) && irq_ctl == pa(8),
        boot_sequence()[i] matches BootAction::NewFxos8700 { interrupt, .. } ==> interrupt == pc(
            13,
        ),
{
    lemma_action_on_schedule(i);
    reveal(on_schedule);
    assert(boot_sequence()[62] == power_actions()[0]);
    assert(boot_sequence()[63] == console_actions()[0]);
    assert(boot_sequence()[84] == spi_actions()[4]);
    assert(boot_sequence()[93] == rf233_actions()[0]);
    assert(boot_sequence()[94] == rf233_actions()[1]);
    assert(boot_sequence()[97] == ninedof_actions()[1]);
    assert(boot_sequence()[133] == launch_actions()[4]);
    assert(boot_sequence()[134] == launch_actions()[5]);
    if let Some(component) = creates(boot_sequence()[i]) {
        assert(built_at(component) == i);
    }
    if let Some(milestone) = achieves(boot_sequence()[i]) {
        assert(done_at(milestone) == i);
    }
}

/// The boot sequence ends in the main loop, and enters it nowhere else.
pub proof fn lemma_main_loop_is_last(i: int)
    requires
        0 <= i < boot_sequence().len(),
    ensures
        boot_sequence()[i] is EnterMainLoop <==> i == boot_sequence().len() - 1,
{
    lemma_action_on_schedule(i);
    reveal(on_schedule);
    assert(done_at(Milestone::MainLoopEntered) == boot_sequence().len() - 1);
}

/// The message that the initialization is complete is true: it comes when every component is built
/// and every client is in place, over a kernel console that is attached to an initialized console,
/// and before the processes are loaded.
pub proof fn lemma_message_is_true(i: int, component: Component, source: Source)
    requires
        0 <= i < boot_sequence().len(),
        boot_sequence()[i] is Debug,
    ensures
        boot_sequence()[i] == (BootAction::Debug {
            message: "Initialization complete. Entering main loop",
        }),
        exists|j: int| 0 <= j < i && creates(#[trigger] boot_sequence()[j]) == Some(component),
        has_client(source) ==> exists|j: int|
            0 <= j < i && (connects(#[trigger] boot_sequence()[j]) matches Some((s, _)) && s
                == source),
        exists|j: int, k: int|
            0 <= j < k < i && #[trigger] boot_sequence()[j] == BootAction::InitializeConsole
                && #[trigger] boot_sequence()[k] == BootAction::AssignConsoleDriver,
        exists|j: int|
            i < j < boot_sequence().len() && #[trigger] boot_sequence()[j] is LoadProcesses,
        forall|j: int|
            0 <= j < boot_sequence().len() && #[trigger] boot_sequence()[j] is LoadProcesses ==> i
                < j,
{
    lemma_action_on_schedule(i);
    lemma_built_before_use(i, component);
    if has_client(source) {
        lemma_clients_listen_in_time(i, source);
    }
    assert(boot_sequence()[65] == BootAction::InitializeConsole);
    assert(boot_sequence()[67] == BootAction::AssignConsoleDriver);
    assert(boot_sequence()[136] == launch_actions()[7]);
    assert(boot_sequence()[137] is LoadProcesses);
    reveal(on_schedule);
    assert(done_at(Milestone::InitializationAnnounced) == i);
    assert forall|j: int|
        0 <= j < boot_sequence().len() && #[trigger] boot_sequence()[j] is LoadProcesses implies i
        < j by {
        lemma_action_on_schedule(j);
    }
}

/// The processes are loaded once, from the images that begin at `_sapps`, into 16384 bytes of
/// memory and the two slots of the process array; a fault panics.
pub proof fn lemma_processes_are_loaded_once(i: int)
    requires
        0 <= i < boot_sequence().len(),
        boot_sequence()[i] is LoadProcesses,
    ensures
        i == boot_sequence().len() - 2,
        boot_sequence()[i] == (BootAction::LoadProcesses {
            images: AppImages::Sapps,
            app_memory: Memory { buffer: Buffer::AppMemory, size: BufferSize::Bytes(16384) },
            processes: ProcessArray { slots: 2 },
            fault_response: FaultResponse::Panic,
        }),
{
    lemma_action_on_schedule(i);
    reveal(on_schedule);
    assert(boot_sequence()[137] == launch_actions()[8]);
}

/// The kernel runs on what was made for it: the drivers that were published, the handle of the chip
/// that was built, the array that the processes were loaded into, and the component for
/// interprocess communication that processes reach as driver 0xff.
pub proof fn lemma_kernel_gets_what_was_made(i: int, c: int, j: int, k: int)
    requires
        0 <= i < boot_sequence().len(),
        boot_sequence()[i] is AssemblePlatform,
        0 <= c < boot_sequence().len(),
        boot_sequence()[c] is NewChip,
        0 <= j < boot_sequence().len(),
        boot_sequence()[j] is LoadProcesses,
        0 <= k < boot_sequence().len(),
        boot_sequence()[k] is EnterMainLoop,
    ensures
        i < c < j < k,
        boot_sequence()[k]->platform == boot_sequence()[i]->AssemblePlatform_0,
        creates(boot_sequence()[c]) == Some(boot_sequence()[k]->chip),
        boot_sequence()[k]->EnterMainLoop_processes
            == boot_sequence()[j]->LoadProcesses_processes,
        boot_sequence()[k]->platform.driver(0xff) == Some(&boot_sequence()[k]->ipc),
        boot_sequence()[k]->ipc == board_platform().ipc,
{
    lemma_action_on_schedule(i);
    lemma_action_on_schedule(c);
    lemma_action_on_schedule(j);
    lemma_action_on_schedule(k);
    reveal(on_schedule);
    assert(built_at(Component::Chip) == c);
}

/// The signal of a peripheral that the board uses has its pin routed to it: the pin is set to the
/// function that the peripheral has there, and no component drives it as GPIO.
pub proof fn lemma_signals_are_routed(peripheral: Peripheral, pin: Pin)
    requires
        has_signal(peripheral, pin),
    ensures
        primary_pins().contains(pin),
        primary_function(pin) == Some(signal_function(peripheral)),
        user(Part::Pin(pin)) is None,
{
    lemma_wired_pins_are_set(pin);
}

} // verus!
