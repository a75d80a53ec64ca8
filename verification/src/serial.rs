//! The intercom peripheral: which port it is opened on, with which line
//! settings, and what the bytes it sends mean.

use vstd::prelude::*;

verus! {

/// Speed of the peripheral's serial line.
pub const BAUD_RATE: u32 = 9600;

/// ASCII `'0'`: the first of the two bytes the peripheral sends.
pub const BUTTON_BASE: u8 = 48;

/// Number of stop bits of a serial line.
#[derive(Clone, Copy, PartialEq, Eq, Structural, Debug)]
pub enum StopBits {
    One,
    Two,
}

/// Number of data bits of a serial line.
#[derive(Clone, Copy, PartialEq, Eq, Structural, Debug)]
pub enum DataBits {
    Five,
    Six,
    Seven,
    Eight,
}

/// Parity checking of a serial line.
#[derive(Clone, Copy, PartialEq, Eq, Structural, Debug)]
pub enum Parity {
    /// No parity bit.
    Off,
    Odd,
    Even,
}

/// Flow control of a serial line.
#[derive(Clone, Copy, PartialEq, Eq, Structural, Debug)]
pub enum FlowControl {
    /// No flow control.
    Off,
    Software,
    Hardware,
}

/// How the peripheral's port is opened.
pub struct PortSettings {
    pub path: String,
    pub baud_rate: u32,
    pub stop_bits: StopBits,
    pub data_bits: DataBits,
    pub parity: Parity,
    pub flow_control: FlowControl,
    /// How long a read waits before it times out, in milliseconds.
    pub timeout_ms: u64,
}

/// The settings for the peripheral, given the names of the serial ports found
/// on the machine: the first port, at 9600 baud, two stop bits, six data
/// bits, no parity, no flow control and a read time-out of zero. There is
/// none when no port was found.
pub fn port_settings(port_names: &Vec<String>) -> (s: Option<PortSettings>)
    ensures
        s is None <==> port_names@.len() == 0,
        s matches Some(p) ==> {
            &&& p.path@ == port_names@[0]@
            &&& p.baud_rate == BAUD_RATE
            &&& p.stop_bits == StopBits::Two
            &&& p.data_bits == DataBits::Six
            &&& p.parity == Parity::Off
            &&& p.flow_control == FlowControl::Off
            &&& p.timeout_ms == 0
        },
{
    if port_names.len() == 0 {
        None
    } else {
        Some(
            PortSettings {
                path: port_names[0].clone(),
                baud_rate: BAUD_RATE,
                stop_bits: StopBits::Two,
                data_bits: DataBits::Six,
                parity: Parity::Off,
                flow_control: FlowControl::Off,
                timeout_ms: 0,
            },
        )
    }
}

/// The button state carried by one read of `count` bytes whose first byte is
/// `byte`: a single `'0'` or `'1'` gives 0 or 1, anything else gives nothing.
pub open spec fn button_of(count: nat, byte: u8) -> Option<u8> {
    if count == 1 && (byte == 48 || byte == 49) {
        Some((byte - 48) as u8)
    } else {
        None
    }
}

/// Decodes one read from the peripheral.
pub fn decode_button(count: usize, byte: u8) -> (b: Option<u8>)
    ensures
        b == button_of(count as nat, byte),
        b is Some <==> (count == 1 && (byte == 48 || byte == 49)),
        b matches Some(v) ==> byte == 48 + v,
{
    if count == 1 && (byte == 48 || byte == 49) {
        Some(byte - BUTTON_BASE)
    } else {
        None
    }
}

/// How one read from the peripheral ended.
#[derive(Clone, Copy, PartialEq, Eq, Structural, Debug)]
pub enum ReadOutcome {
    /// `count` bytes were read; `first` is the first byte of the buffer.
    Bytes { count: usize, first: u8 },
    /// The read timed out.
    TimedOut,
    /// The read failed for another reason.
    Failed,
}

/// What the listening loop does after a read.
#[derive(Clone, Copy, PartialEq, Eq, Structural, Debug)]
pub enum ReadAction {
    /// Announce the button state.
    Announce(u8),
    /// Nothing; read again.
    Ignore,
    /// Report the error; read again.
    Report,
}

pub open spec fn action_for(outcome: ReadOutcome) -> ReadAction {
    match outcome {
        ReadOutcome::Bytes { count, first } => match button_of(count as nat, first) {
            Some(b) => ReadAction::Announce(b),
            None => ReadAction::Ignore,
        },
        ReadOutcome::TimedOut => ReadAction::Ignore,
        ReadOutcome::Failed => ReadAction::Report,
    }
}

/// The listening loop's decision after one read: a button byte is
/// announced, a time-out and any other bytes are passed over, and any other
/// error is reported.
pub fn on_read(outcome: ReadOutcome) -> (a: ReadAction)
    ensures
        a == action_for(outcome),
        a is Announce <==> (outcome is Bytes && outcome->count == 1 && (outcome->first == 48
            || outcome->first == 49)),
        a matches ReadAction::Announce(v) ==> outcome->first == 48 + v,
        a == ReadAction::Report <==> outcome == ReadOutcome::Failed,
{
    match outcome {
        ReadOutcome::Bytes { count, first } => match decode_button(count, first) {
            Some(b) => ReadAction::Announce(b),
            None => ReadAction::Ignore,
        },
        ReadOutcome::TimedOut => ReadAction::Ignore,
        ReadOutcome::Failed => ReadAction::Report,
    }
}

/// A read carries a button state exactly when it is the single byte `'0'`
/// or `'1'`; the state is then 0 or 1, the digit that was sent.
pub proof fn lemma_button_is_bit(count: nat, byte: u8)
    ensures
        button_of(count, byte) is Some <==> (count == 1 && (byte == 48 || byte == 49)),
        button_of(count, byte) matches Some(b) ==> (b == 0 || b == 1) && byte == 48 + b,
{
}

/// The listening loop announces exactly the reads that carry a button
/// state, announces the state that was sent, and reports only failed reads.
pub proof fn lemma_read_actions(outcome: ReadOutcome)
    ensures
        action_for(outcome) is Announce <==> (outcome matches ReadOutcome::Bytes { count, first }
            && count == 1 && (first == 48 || first == 49)),
        action_for(outcome) matches ReadAction::Announce(v) ==> (outcome matches ReadOutcome::Bytes {
            count,
            first,
        } && first == 48 + v),
        action_for(outcome) == ReadAction::Report <==> outcome == ReadOutcome::Failed,
{
}

/// Sending the digit of a bit, alone, decodes back to that bit.
pub proof fn lemma_button_round_trip(bit: u8)
    requires
        bit <= 1,
    ensures
        button_of(1, (48 + bit) as u8) == Some(bit),
{
}

} // verus!
