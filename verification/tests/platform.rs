use imix::parts::Component;
use imix::platform::{platform, Imix};

fn letters() -> Imix<char> {
    Imix {
        console: 'c',
        gpio: 'g',
        timer: 't',
        si7021: 'h',
        isl29035: 'i',
        adc: 'a',
        led: 'l',
        button: 'b',
        spi: 's',
        ipc: 'p',
        ninedof: 'n',
        radio: 'r',
        crc: 'x',
        usb_driver: 'u',
    }
}

#[test]
fn drivers_answer_to_their_numbers() {
    let imix = letters();
    for (number, letter) in [
        (0, 'c'),
        (1, 'g'),
        (3, 't'),
        (4, 's'),
        (6, 'i'),
        (7, 'a'),
        (8, 'l'),
        (9, 'b'),
        (10, 'h'),
        (11, 'n'),
        (16, 'x'),
        (34, 'u'),
        (154, 'r'),
        (0xff, 'p'),
    ] {
        assert_eq!(imix.with_driver(number, |d| d.copied()), Some(letter));
    }
}

#[test]
fn other_numbers_have_no_driver() {
    let imix = letters();
    let known = [0, 1, 3, 4, 6, 7, 8, 9, 10, 11, 16, 34, 154, 255];
    for number in 0..1000 {
        if !known.contains(&number) {
            assert!(imix.with_driver(number, |d| d.is_none()));
        }
    }
    assert!(imix.with_driver(usize::MAX, |d| d.is_none()));
}

#[test]
fn the_result_of_the_caller_comes_back() {
    let imix = letters();
    assert_eq!(imix.with_driver(16, |d| format!("{:?}", d)), "Some('x')");
    assert_eq!(imix.with_driver(2, |d| format!("{:?}", d)), "None");
}

#[test]
fn the_board_publishes_its_own_drivers() {
    let imix = platform();
    assert_eq!(imix.console, Component::Console);
    assert_eq!(imix.spi, Component::SpiSyscalls);
    assert_eq!(imix.radio, Component::RadioDriver);
    assert_eq!(imix.usb_driver, Component::UsbDriver);
    // No driver has two numbers.
    let mut seen: Vec<Component> = Vec::new();
    for number in 0..256 {
        if let Some(c) = imix.with_driver(number, |d| d.copied()) {
            assert!(!seen.contains(&c));
            seen.push(c);
        }
    }
    assert_eq!(seen.len(), 14);
}

#[test]
fn a_copy_is_the_same() {
    let imix = platform();
    let copy = imix.clone();
    assert_eq!(imix, copy);
}
