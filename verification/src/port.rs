//! Choosing the TCP port the backend worker listens on.

use vstd::prelude::*;
use vstd::string::StringExecFns;

verus! {

/// The well-known port: used in development mode, and whenever no port can
/// be probed.
pub const DEFAULT_PORT: u16 = 8765;

/// The operating system could not provide a probing socket.
#[derive(Clone, Copy, Debug, PartialEq, Eq, Structural)]
pub struct AllocationError;

/// The port an allocation yields: the fixed port in development mode,
/// otherwise whatever the probe reported.
pub open spec fn allocated(dev_mode: bool, probe: Option<u16>) -> Result<u16, AllocationError> {
    if dev_mode {
        Ok(DEFAULT_PORT)
    } else {
        match probe {
            Some(port) => Ok(port),
            None => Err(AllocationError),
        }
    }
}

/// Whether an allocation has to probe the operating system for a free port.
/// Development mode never probes.
pub fn needs_probe(dev_mode: bool) -> (probe: bool)
    ensures
        probe == !dev_mode,
{
    !dev_mode
}

/// Allocates the backend's port.
///
/// `probe` is the port number read back from a loopback socket bound to
/// port 0 and released again, or `None` when no such socket could be had.
/// In development mode the probe is not looked at and the allocation cannot
/// fail.
pub fn allocate(dev_mode: bool, probe: Option<u16>) -> (result: Result<u16, AllocationError>)
    ensures
        result == allocated(dev_mode, probe),
        dev_mode ==> result == Ok::<u16, AllocationError>(DEFAULT_PORT),
        !dev_mode ==> (result is Err <==> probe is None),
{
    if dev_mode {
        Ok(DEFAULT_PORT)
    } else {
        match probe {
            Some(port) => Ok(port),
            None => Err(AllocationError),
        }
    }
}

/// The port the backend is started on: the allocated one, or the well-known
/// port when allocation failed. Startup never aborts for want of a port.
pub fn port_or_default(allocation: Result<u16, AllocationError>) -> (port: u16)
    ensures
        port == match allocation {
            Ok(p) => p,
            Err(_) => DEFAULT_PORT,
        },
{
    match allocation {
        Ok(p) => p,
        Err(_) => DEFAULT_PORT,
    }
}

/// The character of a decimal digit.
pub open spec fn digit_char(digit: nat) -> char {
    if digit == 0 {
        '0'
    } else if digit == 1 {
        '1'
    } else if digit == 2 {
        '2'
    } else if digit == 3 {
        '3'
    } else if digit == 4 {
        '4'
    } else if digit == 5 {
        '5'
    } else if digit == 6 {
        '6'
    } else if digit == 7 {
        '7'
    } else if digit == 8 {
        '8'
    } else {
        '9'
    }
}

/// A number written in decimal, without sign or leading zeros.
pub open spec fn decimal(number: nat) -> Seq<char>
    decreases number,
{
    if number < 10 {
        seq![digit_char(number)]
    } else {
        decimal(number / 10).push(digit_char(number % 10))
    }
}

/// The text of one decimal digit.
fn digit_text(digit: u16) -> (text: &'static str)
    requires
        digit < 10,
    ensures
        text@ == seq![digit_char(digit as nat)],
{
    proof {
        reveal_strlit("0");
        reveal_strlit("1");
        reveal_strlit("2");
        reveal_strlit("3");
        reveal_strlit("4");
        reveal_strlit("5");
        reveal_strlit("6");
        reveal_strlit("7");
        reveal_strlit("8");
        reveal_strlit("9");
    }
    let text = if digit == 0 {
        "0"
    } else if digit == 1 {
        "1"
    } else if digit == 2 {
        "2"
    } else if digit == 3 {
        "3"
    } else if digit == 4 {
        "4"
    } else if digit == 5 {
        "5"
    } else if digit == 6 {
        "6"
    } else if digit == 7 {
        "7"
    } else if digit == 8 {
        "8"
    } else {
        "9"
    };
    assert(text@ =~= seq![digit_char(digit as nat)]);
    text
}

/// Appends a number in decimal to a text.
fn append_decimal(text: &mut String, number: u16)
    ensures
        final(text)@ == old(text)@ + decimal(number as nat),
    decreases number,
{
    if number >= 10 {
        append_decimal(text, number / 10);
    }
    text.append(digit_text(number % 10));
    assert(text@ =~= old(text)@ + decimal(number as nat));
}

/// The name of the environment variable that tells the backend its port.
pub fn port_variable() -> (name: &'static str)
    ensures
        name@ == "VOCISTANT_PORT"@,
{
    "VOCISTANT_PORT"
}

/// The value of that variable: the port in decimal.
pub fn port_value(port: u16) -> (value: String)
    ensures
        value@ == decimal(port as nat),
{
    let mut value = String::new();
    append_decimal(&mut value, port);
    assert(value@ =~= decimal(port as nat));
    value
}

} // verus!
