use ddsm_driver::config::{
    port_builder, DataBits, FlowControl, MySerialPort, Parity, StopBits, BAUD_RATE,
    DEFAULT_PORT_NAME, DEFAULT_TIMEOUT_MS,
};
use std::time::Duration;

#[test]
fn new_configuration_has_the_datasheet_parameters() {
    let config = MySerialPort::new("/dev/ttyUSB3");
    assert_eq!(config.port_name(), "/dev/ttyUSB3");
    assert_eq!(config.baud_rate(), 115200);
    assert_eq!(config.data_bits(), DataBits::Eight);
    assert_eq!(config.stop_bits(), StopBits::One);
    assert_eq!(config.parity(), Parity::Off);
    assert_eq!(config.flow_control(), FlowControl::Off);
    assert_eq!(config.timeout_ms(), 100);
}

#[test]
fn default_configuration_names_the_default_device() {
    let config = MySerialPort::default();
    assert_eq!(DEFAULT_PORT_NAME, "/dev/ttyACM0");
    assert_eq!(BAUD_RATE, 115200);
    assert_eq!(DEFAULT_TIMEOUT_MS, 100);
    assert_eq!(config.port_name(), "/dev/ttyACM0");
    assert_eq!(config, MySerialPort::new("/dev/ttyACM0"));
}

#[test]
fn configure_timeout_changes_the_timeout_only() {
    let mut config = MySerialPort::new("/dev/ttyUSB0");
    config.configure_timeout(2500);
    assert_eq!(config.timeout_ms(), 2500);
    assert_eq!(config.port_name(), "/dev/ttyUSB0");
    assert_eq!(config.baud_rate(), 115200);
    assert_eq!(config.data_bits(), DataBits::Eight);
    assert_eq!(config.stop_bits(), StopBits::One);
    assert_eq!(config.parity(), Parity::Off);
    assert_eq!(config.flow_control(), FlowControl::Off);
    config.configure_timeout(0);
    assert_eq!(config.timeout_ms(), 0);
    config.configure_timeout(u64::MAX);
    assert_eq!(config.timeout_ms(), u64::MAX);
}

#[test]
fn clone_keeps_every_setting() {
    let mut config = MySerialPort::new("/dev/ttyS1");
    config.configure_timeout(7);
    let copy = config.clone();
    assert_eq!(copy, config);
    assert_eq!(copy.timeout_ms(), 7);
    assert_eq!(copy.port_name(), "/dev/ttyS1");
}

#[test]
fn builder_of_a_configuration_carries_its_settings() {
    let mut config = MySerialPort::new("/dev/ttyUSB0");
    config.configure_timeout(250);
    let expected = serialport::new("/dev/ttyUSB0", 115200)
        .stop_bits(serialport::StopBits::One)
        .data_bits(serialport::DataBits::Eight)
        .parity(serialport::Parity::None)
        .flow_control(serialport::FlowControl::None)
        .timeout(Duration::from_millis(250));
    assert_eq!(config.builder(), expected);
    assert_ne!(config.builder(), serialport::new("/dev/ttyUSB0", 115200));
    assert_ne!(
        config.builder(),
        serialport::new("/dev/ttyUSB1", 115200).timeout(Duration::from_millis(250))
    );
}

#[test]
fn port_builder_stores_the_path_and_the_baud_rate() {
    let made = port_builder(
        "/dev/ttyACM1",
        9600,
        DataBits::Eight,
        StopBits::One,
        Parity::Off,
        FlowControl::Off,
        0,
    );
    assert_eq!(made, serialport::new("/dev/ttyACM1", 9600));
    assert_ne!(made, serialport::new("/dev/ttyACM1", 115200));
    assert_ne!(made, serialport::new("/dev/ttyACM0", 9600));
}

#[test]
fn port_builder_stores_the_stop_bits() {
    let made = port_builder(
        "/dev/ttyACM0",
        115200,
        DataBits::Eight,
        StopBits::Two,
        Parity::Off,
        FlowControl::Off,
        0,
    );
    let plain = serialport::new("/dev/ttyACM0", 115200);
    assert_eq!(made, plain.clone().stop_bits(serialport::StopBits::Two));
    assert_ne!(made, plain);
}

#[test]
fn port_builder_stores_the_data_bits() {
    let plain = serialport::new("/dev/ttyACM0", 115200);
    let cases = [
        (DataBits::Five, serialport::DataBits::Five),
        (DataBits::Six, serialport::DataBits::Six),
        (DataBits::Seven, serialport::DataBits::Seven),
    ];
    for (ours, theirs) in cases {
        let made = port_builder(
            "/dev/ttyACM0",
            115200,
            ours,
            StopBits::One,
            Parity::Off,
            FlowControl::Off,
            0,
        );
        assert_eq!(made, plain.clone().data_bits(theirs));
        assert_ne!(made, plain);
    }
}

#[test]
fn port_builder_stores_the_parity() {
    let plain = serialport::new("/dev/ttyACM0", 115200);
    let cases = [
        (Parity::Odd, serialport::Parity::Odd),
        (Parity::Even, serialport::Parity::Even),
    ];
    for (ours, theirs) in cases {
        let made = port_builder(
            "/dev/ttyACM0",
            115200,
            DataBits::Eight,
            StopBits::One,
            ours,
            FlowControl::Off,
            0,
        );
        assert_eq!(made, plain.clone().parity(theirs));
        assert_ne!(made, plain);
    }
}

#[test]
fn port_builder_stores_the_flow_control() {
    let plain = serialport::new("/dev/ttyACM0", 115200);
    let cases = [
        (FlowControl::Software, serialport::FlowControl::Software),
        (FlowControl::Hardware, serialport::FlowControl::Hardware),
    ];
    for (ours, theirs) in cases {
        let made = port_builder(
            "/dev/ttyACM0",
            115200,
            DataBits::Eight,
            StopBits::One,
            Parity::Off,
            ours,
            0,
        );
        assert_eq!(made, plain.clone().flow_control(theirs));
        assert_ne!(made, plain);
    }
}

#[test]
fn port_builder_stores_the_timeout() {
    let made = port_builder(
        "/dev/ttyACM0",
        115200,
        DataBits::Eight,
        StopBits::One,
        Parity::Off,
        FlowControl::Off,
        1500,
    );
    let plain = serialport::new("/dev/ttyACM0", 115200);
    assert_eq!(made, plain.clone().timeout(Duration::from_millis(1500)));
    assert_ne!(made, plain);
}
