//! What the control requests on an open descriptor report: each request's
//! outcome, as the OS gave it, turned into a value or an error of the
//! taxonomy, and the requests that setting a line takes.
use vstd::prelude::*;
use crate::error::{Error, ErrorKind, ErrnoCodes, errno_text, kind_of};
use crate::lines::{Line, ModemCodes, SerialLines, raw_has};
use crate::settings::{DataBits, FlowControl, Parity, Settings, StopBits};

verus! {

/// `e` is the error for OS error number `code` met by `call`.
pub open spec fn is_os_error(e: Error, code: i32, call: Seq<char>, c: ErrnoCodes) -> bool {
    &&& e.kind == kind_of(code, c)
    &&& e.code == code
    &&& e.call@ == call
    &&& e.description@ == errno_text(code)
}

/// A request that returns nothing: success, or the error number that the OS
/// recorded right after it.
pub fn finish_unit(outcome: Result<i32, i32>, call: &str, c: &ErrnoCodes) -> (r: Result<
    (),
    Error,
>)
    ensures
        outcome is Ok <==> r is Ok,
        outcome is Err ==> is_os_error(r->Err_0, outcome->Err_0, call@, *c),
{
    match outcome {
        Ok(_) => Ok(()),
        Err(code) => Err(Error::from_os(code, call, c)),
    }
}

/// The modem-line query: the lines asserted in the status word `status`
/// that the request filled in. Bits that stand for no line are dropped.
pub fn finish_status(outcome: Result<i32, i32>, status: i32, codes: &ModemCodes, call: &str, c: &ErrnoCodes) -> (r: Result<SerialLines, Error>)
    ensures
        outcome is Ok <==> r is Ok,
        r is Ok ==> forall|l: Line| #[trigger] r->Ok_0.has(l) == raw_has(status, *codes, l),
        outcome is Err ==> is_os_error(r->Err_0, outcome->Err_0, call@, *c),
{
    match outcome {
        Ok(_) => Ok(SerialLines::from_raw(status, codes)),
        Err(code) => Err(Error::from_os(code, call, c)),
    }
}

/// A buffer-occupancy query: the count that the request filled in. A
/// negative count is no count, and is reported as an I/O failure.
pub fn finish_count(outcome: Result<i32, i32>, count: i32, call: &str, c: &ErrnoCodes) -> (r: Result<u32, Error>)
    ensures
        r is Ok <==> (outcome is Ok && count >= 0),
        r is Ok ==> r->Ok_0 == count,
        outcome is Err ==> is_os_error(r->Err_0, outcome->Err_0, call@, *c),
        outcome is Ok && count < 0 ==> r->Err_0.kind == ErrorKind::Io && r->Err_0.code == 0,
{
    match outcome {
        Ok(_) => {
            if count >= 0 {
                Ok(count as u32)
            } else {
                Err(Error::new(ErrorKind::Io, call, "negative byte count"))
            }
        },
        Err(code) => Err(Error::from_os(code, call, c)),
    }
}

/// A read or write of a data buffer. No byte moved before the deadline is a
/// timeout, never a success: a serial device has no end of stream while
/// open.
pub fn finish_transfer(outcome: Result<usize, i32>, call: &str, c: &ErrnoCodes) -> (r: Result<
    usize,
    Error,
>)
    ensures
        r is Ok <==> (outcome is Ok && outcome->Ok_0 > 0),
        r is Ok ==> r->Ok_0 == outcome->Ok_0,
        outcome is Ok && outcome->Ok_0 == 0 ==> r->Err_0.kind == ErrorKind::Timeout,
        outcome is Err ==> is_os_error(r->Err_0, outcome->Err_0, call@, *c),
{
    match outcome {
        Ok(n) => {
            if n > 0 {
                Ok(n)
            } else {
                Err(Error::new(ErrorKind::Timeout, call, "operation timed out"))
            }
        },
        Err(code) => Err(Error::from_os(code, call, c)),
    }
}

/// A wait for the descriptor to become ready: the number of ready
/// descriptors that the wait reported. None ready means that the deadline
/// passed.
pub fn finish_wait(outcome: Result<i32, i32>, call: &str, c: &ErrnoCodes) -> (r: Result<(), Error>)
    ensures
        r is Ok <==> (outcome is Ok && outcome->Ok_0 > 0),
        outcome is Ok && outcome->Ok_0 <= 0 ==> r->Err_0.kind == ErrorKind::Timeout,
        outcome is Err ==> is_os_error(r->Err_0, outcome->Err_0, call@, *c),
{
    match outcome {
        Ok(n) => {
            if n > 0 {
                Ok(())
            } else {
                Err(Error::new(ErrorKind::Timeout, call, "operation timed out"))
            }
        },
        Err(code) => Err(Error::from_os(code, call, c)),
    }
}

/// A request on the modem lines: the status-word bits to set, or to clear.
#[derive(PartialEq, Eq, Structural, Clone, Copy, Debug)]
pub enum LineRequest {
    Assert(i32),
    Deassert(i32),
}

/// The request that drives `line` to `level`. Only terminal ready and
/// request to send can be driven from this end; any other line is an
/// invalid input.
pub fn line_request(line: Line, level: bool, codes: &ModemCodes) -> (r: Result<LineRequest, Error>)
    requires
        codes.wf(),
    ensures
        r is Ok <==> (line == Line::DataTerminalReady || line == Line::RequestToSend),
        r is Err ==> r->Err_0.kind == ErrorKind::InvalidInput,
        r is Ok && level ==> r->Ok_0 == LineRequest::Assert(codes.code_of(line)),
        r is Ok && !level ==> r->Ok_0 == LineRequest::Deassert(codes.code_of(line)),
{
    if !(SerialLines::writable().contains(line)) {
        return Err(Error::new(ErrorKind::InvalidInput, "set_line", "line cannot be driven"));
    }
    let bits = codes.code(line);
    if level {
        Ok(LineRequest::Assert(bits))
    } else {
        Ok(LineRequest::Deassert(bits))
    }
}

/// Data bits as a count, if the count is one a line supports (5 to 8).
pub open spec fn data_bits_of(n: u8) -> Option<DataBits> {
    if n == 5 {
        Some(DataBits::Five)
    } else if n == 6 {
        Some(DataBits::Six)
    } else if n == 7 {
        Some(DataBits::Seven)
    } else if n == 8 {
        Some(DataBits::Eight)
    } else {
        None
    }
}

/// Settings from plain values given by a caller: the rate must be positive,
/// data bits 5 to 8, stop bits 1 or 2; anything else is an invalid input.
pub fn settings_from_values(
    baud_rate: u32,
    data_bits: u8,
    parity: Parity,
    stop_bits: u8,
    flow_control: FlowControl,
) -> (r: Result<Settings, Error>)
    ensures
        r is Ok <==> (baud_rate > 0 && data_bits_of(data_bits) is Some && (stop_bits == 1
            || stop_bits == 2)),
        r is Ok ==> r->Ok_0 == (Settings {
            baud_rate,
            data_bits: data_bits_of(data_bits)->Some_0,
            parity,
            stop_bits: if stop_bits == 1 {
                StopBits::One
            } else {
                StopBits::Two
            },
            flow_control,
        }),
        r is Err ==> r->Err_0.kind == ErrorKind::InvalidInput,
{
    if baud_rate == 0 {
        return Err(Error::new(ErrorKind::InvalidInput, "configure", "baud rate must be positive"));
    }
    let d = if data_bits == 5 {
        DataBits::Five
    } else if data_bits == 6 {
        DataBits::Six
    } else if data_bits == 7 {
        DataBits::Seven
    } else if data_bits == 8 {
        DataBits::Eight
    } else {
        return Err(Error::new(ErrorKind::InvalidInput, "configure", "unsupported data bits"));
    };
    let s = if stop_bits == 1 {
        StopBits::One
    } else if stop_bits == 2 {
        StopBits::Two
    } else {
        return Err(Error::new(ErrorKind::InvalidInput, "configure", "unsupported stop bits"));
    };
    Ok(Settings { baud_rate, data_bits: d, parity, stop_bits: s, flow_control })
}

} // verus!
