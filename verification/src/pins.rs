//! What every GPIO pin of the board is used for.

use vstd::prelude::*;

verus! {

/// One of the GPIO ports of the chip.
#[derive(Clone, Copy, Debug, PartialEq, Eq)]
pub enum Port {
    A,
    B,
    C,
}

/// One pin of a GPIO port.
#[derive(Clone, Copy, Debug, PartialEq, Eq)]
pub struct Pin {
    pub port: Port,
    pub index: u8,
}

/// A peripheral function that the chip can route to a pin.
#[derive(Clone, Copy, Debug, PartialEq, Eq)]
pub enum PeripheralFunction {
    A,
    B,
    C,
    E,
}

/// What a pin is set to: a peripheral function, or plain GPIO where there is none.
#[derive(Clone, Copy, Debug, PartialEq, Eq)]
pub struct PinSetting {
    pub pin: Pin,
    pub function: Option<PeripheralFunction>,
}

/// The number of pins that the board sets at start.
pub const PIN_SETTINGS: usize = 59;

/// The pins of `port` from `first` to `last`, in order.
pub open spec fn pin_range(port: Port, first: int, last: int) -> Seq<Pin> {
    Seq::new((last - first + 1) as nat, |k: int| Pin { port, index: (first + k) as u8 })
}

/// The pins that the board sets, in the order in which it sets them: by port, then upwards.
pub open spec fn primary_pins() -> Seq<Pin> {
    pin_range(Port::A, 4, 10) + pin_range(Port::A, 13, 14) + pin_range(Port::A, 17, 18)
        + pin_range(Port::A, 20, 22) + pin_range(Port::A, 25, 26) + pin_range(Port::B, 0, 7)
        + pin_range(Port::B, 9, 15) + pin_range(Port::C, 0, 14) + pin_range(Port::C, 16, 19)
        + pin_range(Port::C, 22, 22) + pin_range(Port::C, 24, 31)
}

/// The peripheral function of a pin that the board sets; `None` leaves it to GPIO.
pub open spec fn primary_function(pin: Pin) -> Option<PeripheralFunction> {
    let i = pin.index;
    match pin.port {
        Port::A => if i == 6 {
            Some(PeripheralFunction::C)
        } else if i == 21 || i == 22 {
            Some(PeripheralFunction::E)
        } else if i <= 7 || i == 18 || i >= 25 {
            Some(PeripheralFunction::A)
        } else {
            None
        },
        Port::B => if i == 7 {
            None
        } else {
            Some(PeripheralFunction::A)
        },
        Port::C => if i <= 6 {
            Some(PeripheralFunction::A)
        } else if i == 7 || i == 11 || i == 12 || i == 25 {
            Some(PeripheralFunction::B)
        } else if i == 8 {
            Some(PeripheralFunction::E)
        } else {
            None
        },
    }
}

/// Whether the board sets a pin: the chip's pins that are wired to something.
pub open spec fn is_wired(pin: Pin) -> bool {
    let i = pin.index;
    match pin.port {
        Port::A => 4 <= i <= 10 || 13 <= i <= 14 || 17 <= i <= 18 || 20 <= i <= 22 || 25 <= i <= 26,
        Port::B => i <= 15 && i != 8,
        Port::C => i <= 14 || 16 <= i <= 19 || i == 22 || 24 <= i <= 31,
    }
}

/// Every pin of the board with what it is set to.
pub open spec fn primary_settings() -> Seq<PinSetting> {
    primary_pins().map_values(|pin: Pin| PinSetting { pin, function: primary_function(pin) })
}

/// The board sets the pins that are wired, and no others; a port has 32 pins.
pub proof fn lemma_wired_pins_are_set(pin: Pin)
    ensures
        primary_pins().contains(pin) <==> is_wired(pin),
        is_wired(pin) ==> pin.index < 32,
{
    if is_wired(pin) {
        let i = pin.index as int;
        // Where the run of pins with this one starts in the order, less the run's first index.
        let k = match pin.port {
            Port::A => if i <= 10 {
                i - 4
            } else if i <= 14 {
                i - 6
            } else if i <= 18 {
                i - 8
            } else if i <= 22 {
                i - 9
            } else {
                i - 11
            },
            Port::B => if i <= 7 {
                i + 16
            } else {
                i + 15
            },
            Port::C => if i <= 14 {
                i + 31
            } else if i <= 19 {
                i + 30
            } else if i == 22 {
                i + 28
            } else {
                i + 27
            },
        };
        assert(primary_pins()[k] == pin);
    }
}

/// No pin is set twice: the pins are set by port, and upwards within a port.
pub proof fn lemma_pins_are_set_in_order(i: int, j: int)
    requires
        0 <= i < j < primary_pins().len(),
    ensures
        primary_pins()[i].port == primary_pins()[j].port ==> primary_pins()[i].index
            < primary_pins()[j].index,
        primary_pins()[i].port is B ==> !(primary_pins()[j].port is A),
        primary_pins()[i].port is C ==> primary_pins()[j].port is C,
{
}

/// Read from the functions to the pins: E goes to PA21, PA22 and PC08, C to PA06, B to PC07, PC11,
/// PC12 and PC25; the pins of the radio, the accelerometer, the LEDs, the button, the power
/// switches and the connectors are GPIO; every other pin that the board sets has A.
pub proof fn lemma_pins_by_function(i: int)
    requires
        0 <= i < primary_settings().len(),
    ensures
        ({
            let port = primary_settings()[i].pin.port;
            let n = primary_settings()[i].pin.index;
            let function = primary_settings()[i].function;
            &&& function == Some(PeripheralFunction::E) <==> {
                ||| port is A && (n == 21 || n == 22)
                ||| port is C && n == 8
            }
            &&& function == Some(PeripheralFunction::C) <==> port is A && n == 6
            &&& function == Some(PeripheralFunction::B) <==> port is C && (n == 7 || n == 11 || n
                == 12 || n == 25)
            &&& function is None <==> {
                ||| port is A && (8 <= n <= 10 || n == 13 || n == 14 || n == 17 || n == 20)
                ||| port is B && n == 7
                ||| port is C && (n == 9 || n == 10 || 13 <= n <= 24 || n >= 26)
            }
        }),
{
    lemma_wired_pins_are_set(primary_pins()[i]);
    assert(primary_pins().contains(primary_pins()[i]));
}

fn peripheral(port: Port, index: u8, function: PeripheralFunction) -> (setting: PinSetting)
    ensures
        setting == (PinSetting { pin: Pin { port, index }, function: Some(function) }),
{
    PinSetting { pin: Pin { port, index }, function: Some(function) }
}

fn gpio(port: Port, index: u8) -> (setting: PinSetting)
    ensures
        setting == (PinSetting { pin: Pin { port, index }, function: None }),
{
    PinSetting { pin: Pin { port, index }, function: None }
}

/// The settings of all the pins, in the order in which the board makes them.
pub fn set_pin_primary_functions() -> (settings: [PinSetting; PIN_SETTINGS])
    ensures
        settings@ == primary_settings(),
{
    let settings: [PinSetting; PIN_SETTINGS] = [
        // Right column: imix pin name and SAM4L signal.
        peripheral(Port::A, 4, PeripheralFunction::A),  // AD0         -- ADCIFE AD0
        peripheral(Port::A, 5, PeripheralFunction::A),  // AD1         -- ADCIFE AD1
        peripheral(Port::A, 6, PeripheralFunction::C),  // EXTINT1     -- EIC EXTINT1
        peripheral(Port::A, 7, PeripheralFunction::A),  // AD1         -- ADCIFE AD2
        gpio(Port::A, 8),  // RF233 IRQ
        gpio(Port::A, 9),  // RF233 RST
        gpio(Port::A, 10),  // RF233 SLP
        gpio(Port::A, 13),  // TRNG EN
        gpio(Port::A, 14),  // TRNG OUT
        gpio(Port::A, 17),  // NRF INT
        peripheral(Port::A, 18, PeripheralFunction::A),  // NRF CLK     -- USART2 CLK
        gpio(Port::A, 20),  // D8
        peripheral(Port::A, 21, PeripheralFunction::E),  // TWI2 SDA    -- TWIM2 SDA
        peripheral(Port::A, 22, PeripheralFunction::E),  // TWI2 SCL    -- TWIM2 TWCK
        peripheral(Port::A, 25, PeripheralFunction::A),  // USB_N       -- USB DM
        peripheral(Port::A, 26, PeripheralFunction::A),  // USB_P       -- USB DP
        peripheral(Port::B, 0, PeripheralFunction::A),  // TWI1_SDA    -- TWIMS1 TWD
        peripheral(Port::B, 1, PeripheralFunction::A),  // TWI1_SCL    -- TWIMS1 TWCK
        peripheral(Port::B, 2, PeripheralFunction::A),  // AD3         -- ADCIFE AD3
        peripheral(Port::B, 3, PeripheralFunction::A),  // AD4         -- ADCIFE AD4
        peripheral(Port::B, 4, PeripheralFunction::A),  // AD5         -- ADCIFE AD5
        peripheral(Port::B, 5, PeripheralFunction::A),  // VHIGHSAMPLE -- ADCIFE AD6
        peripheral(Port::B, 6, PeripheralFunction::A),  // RTS3        -- USART3 RTS
        gpio(Port::B, 7),  // NRF RESET
        peripheral(Port::B, 9, PeripheralFunction::A),  // RX3         -- USART3 RX
        peripheral(Port::B, 10, PeripheralFunction::A),  // TX3         -- USART3 TX
        peripheral(Port::B, 11, PeripheralFunction::A),  // CTS0        -- USART0 CTS
        peripheral(Port::B, 12, PeripheralFunction::A),  // RTS0        -- USART0 RTS
        peripheral(Port::B, 13, PeripheralFunction::A),  // CLK0        -- USART0 CLK
        peripheral(Port::B, 14, PeripheralFunction::A),  // RX0         -- USART0 RX
        peripheral(Port::B, 15, PeripheralFunction::A),  // TX0         -- USART0 TX
        peripheral(Port::C, 0, PeripheralFunction::A),  // CS2         -- SPI NPCS2
        peripheral(Port::C, 1, PeripheralFunction::A),  // CS3 (RF233) -- SPI NPCS3
        peripheral(Port::C, 2, PeripheralFunction::A),  // CS1         -- SPI NPCS1
        peripheral(Port::C, 3, PeripheralFunction::A),  // CS0         -- SPI NPCS0
        peripheral(Port::C, 4, PeripheralFunction::A),  // MISO        -- SPI MISO
        peripheral(Port::C, 5, PeripheralFunction::A),  // MOSI        -- SPI MOSI
        peripheral(Port::C, 6, PeripheralFunction::A),  // SCK         -- SPI CLK
        peripheral(Port::C, 7, PeripheralFunction::B),  // RTS2 (BLE)  -- USART2 RTS
        peripheral(Port::C, 8, PeripheralFunction::E),  // CTS2 (BLE)  -- USART2 CTS
        gpio(Port::C, 9),  // NRF GPIO
        gpio(Port::C, 10),  // USER LED
        peripheral(Port::C, 11, PeripheralFunction::B),  // RX2 (BLE)   -- USART2 RX
        peripheral(Port::C, 12, PeripheralFunction::B),  // TX2 (BLE)   -- USART2 TX
        gpio(Port::C, 13),  // ACC_INT1
        gpio(Port::C, 14),  // ACC_INT2
        gpio(Port::C, 16),  // SENSE_PWR
        gpio(Port::C, 17),  // NRF_PWR
        gpio(Port::C, 18),  // RF233_PWR
        gpio(Port::C, 19),  // TRNG_PWR
        gpio(Port::C, 22),  // KERNEL LED
        gpio(Port::C, 24),  // USER_BTN
        peripheral(Port::C, 25, PeripheralFunction::B),  // LI_INT      -- EIC EXTINT2
        gpio(Port::C, 26),  // D7
        gpio(Port::C, 27),  // D6
        gpio(Port::C, 28),  // D5
        gpio(Port::C, 29),  // D4
        gpio(Port::C, 30),  // D3
        gpio(Port::C, 31),  // D2
    ];
    assert(settings@ =~= primary_settings());
    settings
}

} // verus!
