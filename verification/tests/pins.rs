use imix::pins::{
    set_pin_primary_functions, PeripheralFunction, Pin, PinSetting, Port, PIN_SETTINGS,
};

fn on(port: Port, index: u8, function: Option<PeripheralFunction>) -> PinSetting {
    PinSetting { pin: Pin { port, index }, function }
}

fn rank(pin: Pin) -> (u8, u8) {
    let port = match pin.port {
        Port::A => 0,
        Port::B => 1,
        Port::C => 2,
    };
    (port, pin.index)
}

#[test]
fn every_pin_has_its_function() {
    let a = Some(PeripheralFunction::A);
    let b = Some(PeripheralFunction::B);
    let c = Some(PeripheralFunction::C);
    let e = Some(PeripheralFunction::E);
    let mut expected = Vec::new();
    for (index, function) in [
        (4, a),
        (5, a),
        (6, c),
        (7, a),
        (8, None),
        (9, None),
        (10, None),
        (13, None),
        (14, None),
        (17, None),
        (18, a),
        (20, None),
        (21, e),
        (22, e),
        (25, a),
        (26, a),
    ] {
        expected.push(on(Port::A, index, function));
    }
    for index in [0, 1, 2, 3, 4, 5, 6] {
        expected.push(on(Port::B, index, a));
    }
    expected.push(on(Port::B, 7, None));
    for index in [9, 10, 11, 12, 13, 14, 15] {
        expected.push(on(Port::B, index, a));
    }
    for index in [0, 1, 2, 3, 4, 5, 6] {
        expected.push(on(Port::C, index, a));
    }
    for (index, function) in [
        (7, b),
        (8, e),
        (9, None),
        (10, None),
        (11, b),
        (12, b),
        (13, None),
        (14, None),
        (16, None),
        (17, None),
        (18, None),
        (19, None),
        (22, None),
        (24, None),
        (25, b),
        (26, None),
        (27, None),
        (28, None),
        (29, None),
        (30, None),
        (31, None),
    ] {
        expected.push(on(Port::C, index, function));
    }
    assert_eq!(set_pin_primary_functions().to_vec(), expected);
}

#[test]
fn pins_are_set_upwards_and_once() {
    let settings = set_pin_primary_functions();
    assert_eq!(settings.len(), PIN_SETTINGS);
    for i in 1..settings.len() {
        assert!(rank(settings[i - 1].pin) < rank(settings[i].pin));
    }
}

#[test]
fn pins_that_are_not_wired_are_left_alone() {
    let settings = set_pin_primary_functions();
    for (port, index) in [(Port::A, 3), (Port::A, 11), (Port::B, 8), (Port::C, 15), (Port::C, 23)] {
        assert!(settings.iter().all(|s| s.pin != Pin { port, index }));
    }
}

#[test]
fn signals_are_routed() {
    let settings = set_pin_primary_functions();
    let a = Some(PeripheralFunction::A);
    let e = Some(PeripheralFunction::E);
    // USART3, I2C2, SPI and USB.
    for (port, index, function) in [
        (Port::B, 9, a),
        (Port::B, 10, a),
        (Port::A, 21, e),
        (Port::A, 22, e),
        (Port::C, 4, a),
        (Port::C, 5, a),
        (Port::C, 6, a),
        (Port::A, 25, a),
        (Port::A, 26, a),
    ] {
        let setting = settings.iter().find(|s| s.pin == Pin { port, index }).unwrap();
        assert_eq!(setting.function, function);
    }
}
