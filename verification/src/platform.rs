//! Which driver answers which system call.

use crate::parts::Component;
use vstd::prelude::*;

verus! {

/// The drivers of the board that processes can reach, each by a handle of type `D`.
#[derive(Debug, PartialEq, Eq)]
pub struct Imix<D> {
    pub console: D,
    pub gpio: D,
    pub timer: D,
    pub si7021: D,
    pub isl29035: D,
    pub adc: D,
    pub led: D,
    pub button: D,
    pub spi: D,
    pub ipc: D,
    pub ninedof: D,
    pub radio: D,
    pub crc: D,
    pub usb_driver: D,
}

impl<D: Copy> Copy for Imix<D> {

}

impl<D: Copy> Clone for Imix<D> {
    fn clone(&self) -> (copy: Self)
        ensures
            copy == *self,
    {
        *self
    }
}

impl<D> Imix<D> {
    /// The driver with the number `driver_num`, if the board has one.
    pub open spec fn driver(&self, driver_num: usize) -> Option<&D> {
        match driver_num {
            0 => Some(&self.console),
            1 => Some(&self.gpio),
            3 => Some(&self.timer),
            4 => Some(&self.spi),
            6 => Some(&self.isl29035),
            7 => Some(&self.adc),
            8 => Some(&self.led),
            9 => Some(&self.button),
            10 => Some(&self.si7021),
            11 => Some(&self.ninedof),
            16 => Some(&self.crc),
            34 => Some(&self.usb_driver),
            154 => Some(&self.radio),
            255 => Some(&self.ipc),
            _ => None,
        }
    }

    /// Hands `f` the driver with the number `driver_num`, or `None` where there is none, and
    /// returns what `f` makes of it.
    pub fn with_driver<F, R>(&self, driver_num: usize, f: F) -> (r: R) where
        F: FnOnce(Option<&D>) -> R,
        requires
            f.requires((self.driver(driver_num),)),
        ensures
            f.ensures((self.driver(driver_num),), r),
    {
        match driver_num {
            0 => f(Some(&self.console)),
            1 => f(Some(&self.gpio)),
            3 => f(Some(&self.timer)),
            4 => f(Some(&self.spi)),
            6 => f(Some(&self.isl29035)),
            7 => f(Some(&self.adc)),
            8 => f(Some(&self.led)),
            9 => f(Some(&self.button)),
            10 => f(Some(&self.si7021)),
            11 => f(Some(&self.ninedof)),
            16 => f(Some(&self.crc)),
            34 => f(Some(&self.usb_driver)),
            154 => f(Some(&self.radio)),
            0xff => f(Some(&self.ipc)),
            _ => f(None),
        }
    }
}

/// The drivers of the board, each by the component that it is.
pub open spec fn board_platform() -> Imix<Component> {
    Imix {
        console: Component::Console,
        gpio: Component::Gpio,
        timer: Component::Timer,
        si7021: Component::Si7021,
        isl29035: Component::Isl29035,
        adc: Component::Adc,
        led: Component::Led,
        button: Component::Button,
        spi: Component::SpiSyscalls,
        ipc: Component::Ipc,
        ninedof: Component::NineDof,
        radio: Component::RadioDriver,
        crc: Component::Crc,
        usb_driver: Component::UsbDriver,
    }
}

/// The drivers of the board, each by the component that it is.
pub fn platform() -> (imix: Imix<Component>)
    ensures
        imix == board_platform(),
        imix.driver(0) == Some(&Component::Console),
        imix.driver(1) == Some(&Component::Gpio),
        imix.driver(3) == Some(&Component::Timer),
        imix.driver(4) == Some(&Component::SpiSyscalls),
        imix.driver(6) == Some(&Component::Isl29035),
        imix.driver(7) == Some(&Component::Adc),
        imix.driver(8) == Some(&Component::Led),
        imix.driver(9) == Some(&Component::Button),
        imix.driver(10) == Some(&Component::Si7021),
        imix.driver(11) == Some(&Component::NineDof),
        imix.driver(16) == Some(&Component::Crc),
        imix.driver(34) == Some(&Component::UsbDriver),
        imix.driver(154) == Some(&Component::RadioDriver),
        imix.driver(255) == Some(&Component::Ipc),
{
    Imix {
        console: Component::Console,
        timer: Component::Timer,
        gpio: Component::Gpio,
        si7021: Component::Si7021,
        isl29035: Component::Isl29035,
        adc: Component::Adc,
        led: Component::Led,
        button: Component::Button,
        crc: Component::Crc,
        spi: Component::SpiSyscalls,
        ipc: Component::Ipc,
        ninedof: Component::NineDof,
        radio: Component::RadioDriver,
        usb_driver: Component::UsbDriver,
    }
}

/// The number by which processes reach a component, if they can.
pub open spec fn driver_number(component: Component) -> Option<usize> {
    match component {
        Component::Console => Some(0),
        Component::Gpio => Some(1),
        Component::Timer => Some(3),
        Component::SpiSyscalls => Some(4),
        Component::Isl29035 => Some(6),
        Component::Adc => Some(7),
        Component::Led => Some(8),
        Component::Button => Some(9),
        Component::Si7021 => Some(10),
        Component::NineDof => Some(11),
        Component::Crc => Some(16),
        Component::UsbDriver => Some(34),
        Component::RadioDriver => Some(154),
        Component::Ipc => Some(255),
        _ => None,
    }
}

/// A driver answers to its own number and to no other, and a number that is no driver's is
/// answered by none.
pub proof fn lemma_driver_numbers(driver_num: usize, component: Component)
    ensures
        board_platform().driver(driver_num) == Some(&component) <==> driver_number(component)
            == Some(driver_num),
{
}

/// Whether a driver of the board has the number `driver_num`.
pub open spec fn is_driver_number(driver_num: usize) -> bool {
    set![0usize, 1, 3, 4, 6, 7, 8, 9, 10, 11, 16, 34, 154, 255].contains(driver_num)
}

/// Whatever the handles are, a number reaches the driver that it stands for, and a number that
/// stands for none reaches nothing.
pub proof fn lemma_number_reaches_its_driver<D>(imix: Imix<D>, driver_num: usize)
    ensures
        driver_num == 0 ==> imix.driver(driver_num) == Some(&imix.console),
        driver_num == 1 ==> imix.driver(driver_num) == Some(&imix.gpio),
        driver_num == 3 ==> imix.driver(driver_num) == Some(&imix.timer),
        driver_num == 4 ==> imix.driver(driver_num) == Some(&imix.spi),
        driver_num == 6 ==> imix.driver(driver_num) == Some(&imix.isl29035),
        driver_num == 7 ==> imix.driver(driver_num) == Some(&imix.adc),
        driver_num == 8 ==> imix.driver(driver_num) == Some(&imix.led),
        driver_num == 9 ==> imix.driver(driver_num) == Some(&imix.button),
        driver_num == 10 ==> imix.driver(driver_num) == Some(&imix.si7021),
        driver_num == 11 ==> imix.driver(driver_num) == Some(&imix.ninedof),
        driver_num == 16 ==> imix.driver(driver_num) == Some(&imix.crc),
        driver_num == 34 ==> imix.driver(driver_num) == Some(&imix.usb_driver),
        driver_num == 154 ==> imix.driver(driver_num) == Some(&imix.radio),
        driver_num == 255 ==> imix.driver(driver_num) == Some(&imix.ipc),
        imix.driver(driver_num) is Some <==> is_driver_number(driver_num),
{
}

/// On the board's own platform a number reaches the component that processes expect there: 6 the
/// light sensor, 10 the temperature and humidity sensor, and so on; any other number reaches
/// nothing.
pub proof fn lemma_number_reaches_its_component(driver_num: usize)
    ensures
        driver_num == 0 ==> board_platform().driver(driver_num) == Some(&Component::Console),
        driver_num == 1 ==> board_platform().driver(driver_num) == Some(&Component::Gpio),
        driver_num == 3 ==> board_platform().driver(driver_num) == Some(&Component::Timer),
        driver_num == 4 ==> board_platform().driver(driver_num) == Some(&Component::SpiSyscalls),
        driver_num == 6 ==> board_platform().driver(driver_num) == Some(&Component::Isl29035),
        driver_num == 7 ==> board_platform().driver(driver_num) == Some(&Component::Adc),
        driver_num == 8 ==> board_platform().driver(driver_num) == Some(&Component::Led),
        driver_num == 9 ==> board_platform().driver(driver_num) == Some(&Component::Button),
        driver_num == 10 ==> board_platform().driver(driver_num) == Some(&Component::Si7021),
        driver_num == 11 ==> board_platform().driver(driver_num) == Some(&Component::NineDof),
        driver_num == 16 ==> board_platform().driver(driver_num) == Some(&Component::Crc),
        driver_num == 34 ==> board_platform().driver(driver_num) == Some(&Component::UsbDriver),
        driver_num == 154 ==> board_platform().driver(driver_num) == Some(&Component::RadioDriver),
        driver_num == 255 ==> board_platform().driver(driver_num) == Some(&Component::Ipc),
        board_platform().driver(driver_num) is Some <==> is_driver_number(driver_num),
{
}

} // verus!
