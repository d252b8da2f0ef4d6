//! The settings of the serial line to the motor.
//!
//! The datasheet fixes the electrical parameters: 115200 baud, eight data
//! bits, one stop bit, no parity (the frame checksum takes its place) and no
//! flow control. Only the device path and the timeout can be chosen.

use vstd::prelude::*;
use serialport::SerialPortBuilder;
use std::time::Duration;

verus! {

/// The baud rate of the device.
pub const BAUD_RATE: u32 = 115200;

/// The read and write timeout of a new configuration, in milliseconds.
pub const DEFAULT_TIMEOUT_MS: u64 = 100;

/// The device path of the default configuration.
pub const DEFAULT_PORT_NAME: &'static str = "/dev/ttyACM0";

/// Number of bits per character.
#[derive(Clone, Copy, Debug, PartialEq, Eq, Structural)]
pub enum DataBits {
    Five,
    Six,
    Seven,
    Eight,
}

/// Number of stop bits after each character.
#[derive(Clone, Copy, Debug, PartialEq, Eq, Structural)]
pub enum StopBits {
    One,
    Two,
}

/// Parity checking of each character.
#[derive(Clone, Copy, Debug, PartialEq, Eq, Structural)]
pub enum Parity {
    Off,
    Odd,
    Even,
}

/// Flow control of the line.
#[derive(Clone, Copy, Debug, PartialEq, Eq, Structural)]
pub enum FlowControl {
    Off,
    Software,
    Hardware,
}

/// What a configuration holds, as plain values.
pub struct SerialSettings {
    pub port_name: Seq<char>,
    pub baud_rate: u32,
    pub data_bits: DataBits,
    pub stop_bits: StopBits,
    pub parity: Parity,
    pub flow_control: FlowControl,
    pub timeout_ms: u64,
}

impl SerialSettings {
    /// The settings for the device at `port_name` with the given timeout and
    /// the electrical parameters of the datasheet.
    pub open spec fn for_device(port_name: Seq<char>, timeout_ms: u64) -> SerialSettings {
        SerialSettings {
            port_name,
            baud_rate: BAUD_RATE,
            data_bits: DataBits::Eight,
            stop_bits: StopBits::One,
            parity: Parity::Off,
            flow_control: FlowControl::Off,
            timeout_ms,
        }
    }

    /// The electrical parameters are those of the datasheet.
    pub open spec fn is_electrically_fixed(self) -> bool {
        self == Self::for_device(self.port_name, self.timeout_ms)
    }
}

/// The configuration of the serial line to one device.
#[derive(Debug, PartialEq, Eq)]
pub struct MySerialPort {
    port_name: String,
    baud_rate: u32,
    data_bits: DataBits,
    stop_bits: StopBits,
    parity: Parity,
    flow_control: FlowControl,
    timeout_ms: u64,
}

impl View for MySerialPort {
    type V = SerialSettings;

    closed spec fn view(&self) -> SerialSettings {
        SerialSettings {
            port_name: self.port_name@,
            baud_rate: self.baud_rate,
            data_bits: self.data_bits,
            stop_bits: self.stop_bits,
            parity: self.parity,
            flow_control: self.flow_control,
            timeout_ms: self.timeout_ms,
        }
    }
}

impl MySerialPort {
    #[verifier::type_invariant]
    closed spec fn electrically_fixed(self) -> bool {
        self@.is_electrically_fixed()
    }

    /// The configuration for the device at `port_name`, with the default
    /// timeout.
    pub fn new(port_name: &str) -> (config: MySerialPort)
        ensures
            config@ == SerialSettings::for_device(port_name@, DEFAULT_TIMEOUT_MS),
    {
        MySerialPort {
            port_name: port_name.to_owned(),
            baud_rate: BAUD_RATE,
            data_bits: DataBits::Eight,
            stop_bits: StopBits::One,
            parity: Parity::Off,
            flow_control: FlowControl::Off,
            timeout_ms: DEFAULT_TIMEOUT_MS,
        }
    }

    /// Sets the read and write timeout, in milliseconds. Nothing else
    /// changes.
    pub fn configure_timeout(&mut self, timeout_ms: u64)
        ensures
            final(self)@ == SerialSettings::for_device(old(self)@.port_name, timeout_ms),
    {
        proof {
            use_type_invariant(&*self);
        }
        self.timeout_ms = timeout_ms;
    }

    /// The device path.
    pub fn port_name(&self) -> (name: &str)
        ensures
            name@ == self@.port_name,
    {
        self.port_name.as_str()
    }

    /// The baud rate, which is always that of the datasheet.
    pub fn baud_rate(&self) -> (baud_rate: u32)
        ensures
            baud_rate == self@.baud_rate,
            baud_rate == BAUD_RATE,
    {
        proof {
            use_type_invariant(self);
        }
        self.baud_rate
    }

    /// The number of data bits, which is always eight.
    pub fn data_bits(&self) -> (data_bits: DataBits)
        ensures
            data_bits == self@.data_bits,
            data_bits == DataBits::Eight,
    {
        proof {
            use_type_invariant(self);
        }
        self.data_bits
    }

    /// The number of stop bits, which is always one.
    pub fn stop_bits(&self) -> (stop_bits: StopBits)
        ensures
            stop_bits == self@.stop_bits,
            stop_bits == StopBits::One,
    {
        proof {
            use_type_invariant(self);
        }
        self.stop_bits
    }

    /// The parity, which is always off.
    pub fn parity(&self) -> (parity: Parity)
        ensures
            parity == self@.parity,
            parity == Parity::Off,
    {
        proof {
            use_type_invariant(self);
        }
        self.parity
    }

    /// The flow control, which is always off.
    pub fn flow_control(&self) -> (flow_control: FlowControl)
        ensures
            flow_control == self@.flow_control,
            flow_control == FlowControl::Off,
    {
        proof {
            use_type_invariant(self);
        }
        self.flow_control
    }

    /// The read and write timeout, in milliseconds.
    pub fn timeout_ms(&self) -> (timeout_ms: u64)
        ensures
            timeout_ms == self@.timeout_ms,
    {
        self.timeout_ms
    }
}

impl Clone for MySerialPort {
    fn clone(&self) -> (copy: MySerialPort)
        ensures
            copy@ == self@,
    {
        proof {
            use_type_invariant(self);
        }
        MySerialPort {
            port_name: self.port_name.clone(),
            baud_rate: self.baud_rate,
            data_bits: self.data_bits,
            stop_bits: self.stop_bits,
            parity: self.parity,
            flow_control: self.flow_control,
            timeout_ms: self.timeout_ms,
        }
    }
}

impl Default for MySerialPort {
    /// The configuration for the default device path.
    fn default() -> (config: MySerialPort)
        ensures
            config@ == SerialSettings::for_device(DEFAULT_PORT_NAME@, DEFAULT_TIMEOUT_MS),
    {
        MySerialPort::new(DEFAULT_PORT_NAME)
    }
}

/// `serialport::SerialPortBuilder`, the settings with which a serial port is
/// opened. Nothing inside it is visible here; it is only carried through.
#[verifier::external_type_specification]
#[verifier::external_body]
pub struct ExSerialPortBuilder(serialport::SerialPortBuilder);

/// The builder that `serialport::new` returns for a path and a baud rate.
pub uninterp spec fn builder_new(path: Seq<char>, baud_rate: u32) -> SerialPortBuilder;

/// The builder that `SerialPortBuilder::stop_bits` makes of a builder.
pub uninterp spec fn builder_stop_bits(
    builder: SerialPortBuilder,
    stop_bits: StopBits,
) -> SerialPortBuilder;

/// The builder that `SerialPortBuilder::data_bits` makes of a builder.
pub uninterp spec fn builder_data_bits(
    builder: SerialPortBuilder,
    data_bits: DataBits,
) -> SerialPortBuilder;

/// The builder that `SerialPortBuilder::parity` makes of a builder.
pub uninterp spec fn builder_parity(builder: SerialPortBuilder, parity: Parity) -> SerialPortBuilder;

/// The builder that `SerialPortBuilder::flow_control` makes of a builder.
pub uninterp spec fn builder_flow_control(
    builder: SerialPortBuilder,
    flow_control: FlowControl,
) -> SerialPortBuilder;

/// The builder that `SerialPortBuilder::timeout` makes of a builder and a
/// timeout in milliseconds.
pub uninterp spec fn builder_timeout(builder: SerialPortBuilder, timeout_ms: u64) -> SerialPortBuilder;

/// Calls `serialport::new`. The builder that comes back is a plain record of
/// settings, so it depends on the path and the baud rate alone.
#[verifier::external_body]
fn new_builder(path: &str, baud_rate: u32) -> (builder: SerialPortBuilder)
    ensures
        builder == builder_new(path@, baud_rate),
{
    serialport::new(path, baud_rate)
}

/// Calls `SerialPortBuilder::stop_bits`, which stores the setting in the
/// builder and hands the builder back.
#[verifier::external_body]
fn with_stop_bits(builder: SerialPortBuilder, stop_bits: StopBits) -> (out: SerialPortBuilder)
    ensures
        out == builder_stop_bits(builder, stop_bits),
{
    builder.stop_bits(
        match stop_bits {
            StopBits::One => serialport::StopBits::One,
            StopBits::Two => serialport::StopBits::Two,
        },
    )
}

/// Calls `SerialPortBuilder::data_bits`, which stores the setting in the
/// builder and hands the builder back.
#[verifier::external_body]
fn with_data_bits(builder: SerialPortBuilder, data_bits: DataBits) -> (out: SerialPortBuilder)
    ensures
        out == builder_data_bits(builder, data_bits),
{
    builder.data_bits(
        match data_bits {
            DataBits::Five => serialport::DataBits::Five,
            DataBits::Six => serialport::DataBits::Six,
            DataBits::Seven => serialport::DataBits::Seven,
            DataBits::Eight => serialport::DataBits::Eight,
        },
    )
}

/// Calls `SerialPortBuilder::parity`, which stores the setting in the builder
/// and hands the builder back. `Off` is what the outside crate calls `None`.
#[verifier::external_body]
fn with_parity(builder: SerialPortBuilder, parity: Parity) -> (out: SerialPortBuilder)
    ensures
        out == builder_parity(builder, parity),
{
    builder.parity(
        match parity {
            Parity::Off => serialport::Parity::None,
            Parity::Odd => serialport::Parity::Odd,
            Parity::Even => serialport::Parity::Even,
        },
    )
}

/// Calls `SerialPortBuilder::flow_control`, which stores the setting in the
/// builder and hands the builder back. `Off` is what the outside crate calls
/// `None`.
#[verifier::external_body]
fn with_flow_control(
    builder: SerialPortBuilder,
    flow_control: FlowControl,
) -> (out: SerialPortBuilder)
    ensures
        out == builder_flow_control(builder, flow_control),
{
    builder.flow_control(
        match flow_control {
            FlowControl::Off => serialport::FlowControl::None,
            FlowControl::Software => serialport::FlowControl::Software,
            FlowControl::Hardware => serialport::FlowControl::Hardware,
        },
    )
}

/// Calls `SerialPortBuilder::timeout` with a duration of `timeout_ms`
/// milliseconds. It stores the duration in the builder and hands the builder
/// back.
#[verifier::external_body]
fn with_timeout(builder: SerialPortBuilder, timeout_ms: u64) -> (out: SerialPortBuilder)
    ensures
        out == builder_timeout(builder, timeout_ms),
{
    builder.timeout(Duration::from_millis(timeout_ms))
}

/// The builder that opens the line with the given settings: made for the path
/// and the baud rate, then given the stop bits, the data bits, the parity, the
/// flow control and the timeout, in this order.
pub open spec fn builder_for(settings: SerialSettings) -> SerialPortBuilder {
    builder_timeout(
        builder_flow_control(
            builder_parity(
                builder_data_bits(
                    builder_stop_bits(
                        builder_new(settings.port_name, settings.baud_rate),
                        settings.stop_bits,
                    ),
                    settings.data_bits,
                ),
                settings.parity,
            ),
            settings.flow_control,
        ),
        settings.timeout_ms,
    )
}

/// Makes the builder that opens the line at `port_name` with the given
/// settings. Opening is left to the caller.
pub fn port_builder(
    port_name: &str,
    baud_rate: u32,
    data_bits: DataBits,
    stop_bits: StopBits,
    parity: Parity,
    flow_control: FlowControl,
    timeout_ms: u64,
) -> (builder: SerialPortBuilder)
    ensures
        builder == builder_for(
            (SerialSettings {
                port_name: port_name@,
                baud_rate,
                data_bits,
                stop_bits,
                parity,
                flow_control,
                timeout_ms,
            }),
        ),
{
    let builder = new_builder(port_name, baud_rate);
    let builder = with_stop_bits(builder, stop_bits);
    let builder = with_data_bits(builder, data_bits);
    let builder = with_parity(builder, parity);
    let builder = with_flow_control(builder, flow_control);
    with_timeout(builder, timeout_ms)
}

impl MySerialPort {
    /// The builder that opens the line as this configuration says: the
    /// electrical parameters of the datasheet, the configured path and
    /// timeout. Opening is left to the caller.
    pub fn builder(&self) -> (builder: SerialPortBuilder)
        ensures
            builder == builder_for(self@),
            self@.is_electrically_fixed(),
    {
        proof {
            use_type_invariant(self);
        }
        port_builder(
            self.port_name.as_str(),
            self.baud_rate,
            self.data_bits,
            self.stop_bits,
            self.parity,
            self.flow_control,
            self.timeout_ms,
        )
    }
}

} // verus!
