use nix::libc;
use serialport::control::{
    finish_count, finish_status, finish_transfer, finish_unit, finish_wait, line_request,
    settings_from_values, LineRequest,
};
use serialport::error::{ErrnoCodes, Error, ErrorKind};
use serialport::lines::{Line, ModemCodes, SerialLines};
use serialport::session::{next_step, ControlSignal, Step};
use serialport::settings::{
    applied_settings, decode, encode, extended_control, needs_custom_rate, speed_from_plain, DataBits,
    ExtendedCodes, FlowControl, NativeConfig, Parity, Settings, Speed, StopBits, TermiosCodes,
};

const ALL_LINES: [Line; 8] = [
    Line::DataSetReady,
    Line::DataTerminalReady,
    Line::RequestToSend,
    Line::SecondaryTransmit,
    Line::SecondaryReceive,
    Line::ClearToSend,
    Line::DataCarrierDetect,
    Line::Ring,
];

fn modem_codes() -> ModemCodes {
    ModemCodes {
        data_set_ready: libc::TIOCM_DSR,
        data_terminal_ready: libc::TIOCM_DTR,
        request_to_send: libc::TIOCM_RTS,
        secondary_transmit: libc::TIOCM_ST,
        secondary_receive: libc::TIOCM_SR,
        clear_to_send: libc::TIOCM_CTS,
        data_carrier_detect: libc::TIOCM_CAR,
        ring: libc::TIOCM_RNG,
    }
}

fn errno_codes() -> ErrnoCodes {
    ErrnoCodes {
        no_device: libc::ENODEV,
        no_such_device_or_address: libc::ENXIO,
        no_entry: libc::ENOENT,
        bad_descriptor: libc::EBADF,
        invalid: libc::EINVAL,
        not_a_tty: libc::ENOTTY,
        not_supported: libc::EOPNOTSUPP,
        no_system_call: libc::ENOSYS,
        timed_out: libc::ETIMEDOUT,
        would_block: libc::EAGAIN,
    }
}

fn termios_codes() -> TermiosCodes {
    TermiosCodes {
        size_mask: libc::CSIZE as u32,
        size5: libc::CS5 as u32,
        size6: libc::CS6 as u32,
        size7: libc::CS7 as u32,
        size8: libc::CS8 as u32,
        parity_enable: libc::PARENB as u32,
        parity_odd: libc::PARODD as u32,
        two_stop: libc::CSTOPB as u32,
        hardware_flow: libc::CRTSCTS as u32,
        software_out: libc::IXON as u32,
        software_in: libc::IXOFF as u32,
        rates: vec![
            (50, libc::B50 as u32),
            (110, libc::B110 as u32),
            (300, libc::B300 as u32),
            (1200, libc::B1200 as u32),
            (2400, libc::B2400 as u32),
            (4800, libc::B4800 as u32),
            (9600, libc::B9600 as u32),
            (19200, libc::B19200 as u32),
            (38400, libc::B38400 as u32),
            (57600, libc::B57600 as u32),
            (115200, libc::B115200 as u32),
            (230400, libc::B230400 as u32),
            (460800, libc::B460800 as u32),
            (921600, libc::B921600 as u32),
        ],
    }
}

fn base_config() -> NativeConfig {
    NativeConfig {
        control: (libc::CREAD | libc::CLOCAL | libc::HUPCL) as u32,
        input: libc::IGNBRK as u32,
        speed: Speed::Named(libc::B0 as u32),
    }
}

fn settings(baud_rate: u32, d: DataBits, p: Parity, s: StopBits, f: FlowControl) -> Settings {
    Settings { baud_rate, data_bits: d, parity: p, stop_bits: s, flow_control: f }
}

#[test]
fn lines_from_raw_drop_unknown_bits() {
    let codes = modem_codes();
    let l = SerialLines::from_raw(libc::TIOCM_DTR | libc::TIOCM_LE | 0x4000, &codes);
    for line in ALL_LINES {
        assert_eq!(l.contains(line), line == Line::DataTerminalReady);
    }
    assert_eq!(l.to_raw(&codes), libc::TIOCM_DTR);
}

#[test]
fn lines_to_raw_carries_each_code() {
    let codes = modem_codes();
    let mut l = SerialLines::empty();
    l.insert(Line::RequestToSend);
    l.insert(Line::Ring);
    assert_eq!(l.to_raw(&codes), libc::TIOCM_RTS | libc::TIOCM_RNG);
    assert_eq!(SerialLines::all().to_raw(&codes), 0x1fe);
    assert_eq!(SerialLines::empty().to_raw(&codes), 0);
}

#[test]
fn lines_set_operations() {
    let a = SerialLines::single(Line::ClearToSend).union(&SerialLines::writable());
    assert!(a.contains(Line::ClearToSend));
    assert!(a.contains(Line::DataTerminalReady));
    assert!(a.contains(Line::RequestToSend));
    assert!(!a.contains(Line::Ring));
    let d = a.difference(&SerialLines::writable());
    assert_eq!(d, SerialLines::single(Line::ClearToSend));
    let i = a.intersection(&SerialLines::single(Line::RequestToSend));
    assert_eq!(i, SerialLines::single(Line::RequestToSend));
    let mut r = i;
    r.remove(Line::RequestToSend);
    assert!(r.is_empty());
    assert!(!i.is_empty());
}

#[test]
fn assert_then_read_keeps_other_lines() {
    let codes = modem_codes();
    for prior in [0, libc::TIOCM_CTS | libc::TIOCM_DTR, 0x1ff, libc::TIOCM_RNG] {
        let request = SerialLines::writable().to_raw(&codes);
        let after = SerialLines::from_raw(prior | request, &codes);
        let before = SerialLines::from_raw(prior, &codes);
        for line in ALL_LINES {
            let targeted = line == Line::DataTerminalReady || line == Line::RequestToSend;
            assert_eq!(after.contains(line), targeted || before.contains(line));
        }
        let cleared = SerialLines::from_raw(prior & !request, &codes);
        for line in ALL_LINES {
            let targeted = line == Line::DataTerminalReady || line == Line::RequestToSend;
            assert_eq!(cleared.contains(line), !targeted && before.contains(line));
        }
    }
}

#[test]
fn status_query_result() {
    let codes = modem_codes();
    let e = errno_codes();
    let r = finish_status(Ok(0), libc::TIOCM_CAR | libc::TIOCM_DSR, &codes, "tiocmget", &e);
    let l = r.unwrap();
    assert!(l.contains(Line::DataCarrierDetect));
    assert!(l.contains(Line::DataSetReady));
    assert!(!l.contains(Line::Ring));
    let r = finish_status(Err(libc::EBADF), 0, &codes, "tiocmget", &e);
    assert_eq!(r.unwrap_err().kind, ErrorKind::NoDevice);
}

#[test]
fn errors_are_classified() {
    let e = errno_codes();
    let cases = [
        (libc::ENODEV, ErrorKind::NoDevice),
        (libc::ENXIO, ErrorKind::NoDevice),
        (libc::ENOENT, ErrorKind::NoDevice),
        (libc::EBADF, ErrorKind::NoDevice),
        (libc::EINVAL, ErrorKind::InvalidInput),
        (libc::ENOTTY, ErrorKind::Unsupported),
        (libc::EOPNOTSUPP, ErrorKind::Unsupported),
        (libc::ENOSYS, ErrorKind::Unsupported),
        (libc::ETIMEDOUT, ErrorKind::Timeout),
        (libc::EAGAIN, ErrorKind::Timeout),
        (libc::EIO, ErrorKind::Io),
        (libc::EACCES, ErrorKind::Io),
    ];
    for (code, kind) in cases {
        let err = Error::from_os(code, "ioctl", &e);
        assert_eq!(err.kind, kind);
        assert_eq!(err.code, code);
        assert_eq!(err.call, "ioctl");
    }
}

#[test]
fn errors_carry_the_os_description() {
    let e = errno_codes();
    assert_eq!(Error::from_os(libc::ENODEV, "open", &e).description, "No such device");
    assert_eq!(Error::from_os(libc::EINVAL, "open", &e).description, "Invalid argument");
    let n = Error::new(ErrorKind::Unsupported, "tcsets2", "no extended configuration");
    assert_eq!(n.code, 0);
    assert_eq!(n.description, "no extended configuration");
    assert!(!n.is_timeout());
}

#[test]
fn unit_request_results() {
    let e = errno_codes();
    assert_eq!(finish_unit(Ok(0), "tcflush", &e), Ok(()));
    let err = finish_unit(Err(libc::ENOTTY), "tiocexcl", &e).unwrap_err();
    assert_eq!(err.kind, ErrorKind::Unsupported);
    assert_eq!(err.call, "tiocexcl");
}

#[test]
fn count_results() {
    let e = errno_codes();
    assert_eq!(finish_count(Ok(0), 0, "fionread", &e), Ok(0));
    assert_eq!(finish_count(Ok(0), 17, "fionread", &e), Ok(17));
    assert_eq!(finish_count(Ok(0), i32::MAX, "tiocoutq", &e), Ok(2147483647));
    let err = finish_count(Ok(0), -1, "tiocoutq", &e).unwrap_err();
    assert_eq!(err.kind, ErrorKind::Io);
    let err = finish_count(Err(libc::ENODEV), 5, "fionread", &e).unwrap_err();
    assert_eq!(err.kind, ErrorKind::NoDevice);
    assert_eq!(err.code, libc::ENODEV);
}

#[test]
fn empty_read_is_a_timeout() {
    let e = errno_codes();
    assert_eq!(finish_transfer(Ok(0), "read", &e).unwrap_err().kind, ErrorKind::Timeout);
    assert!(finish_transfer(Ok(0), "read", &e).unwrap_err().is_timeout());
    assert_eq!(finish_transfer(Ok(7), "read", &e), Ok(7));
    assert_eq!(
        finish_transfer(Err(libc::EAGAIN), "read", &e).unwrap_err().kind,
        ErrorKind::Timeout
    );
    assert_eq!(finish_transfer(Err(libc::EIO), "write", &e).unwrap_err().kind, ErrorKind::Io);
}

#[test]
fn wait_results() {
    let e = errno_codes();
    assert_eq!(finish_wait(Ok(0), "poll", &e).unwrap_err().kind, ErrorKind::Timeout);
    assert_eq!(finish_wait(Ok(1), "poll", &e), Ok(()));
    assert_eq!(finish_wait(Err(libc::EBADF), "poll", &e).unwrap_err().kind, ErrorKind::NoDevice);
}

#[test]
fn line_requests() {
    let codes = modem_codes();
    assert_eq!(
        line_request(Line::DataTerminalReady, true, &codes),
        Ok(LineRequest::Assert(libc::TIOCM_DTR))
    );
    assert_eq!(
        line_request(Line::RequestToSend, false, &codes),
        Ok(LineRequest::Deassert(libc::TIOCM_RTS))
    );
    let err = line_request(Line::Ring, true, &codes).unwrap_err();
    assert_eq!(err.kind, ErrorKind::InvalidInput);
}

#[test]
fn settings_validation() {
    let s = settings_from_values(9600, 8, Parity::Disabled, 1, FlowControl::Disabled).unwrap();
    assert_eq!(
        s,
        settings(9600, DataBits::Eight, Parity::Disabled, StopBits::One, FlowControl::Disabled)
    );
    let s = settings_from_values(300, 5, Parity::Even, 2, FlowControl::Hardware).unwrap();
    assert_eq!(s.data_bits, DataBits::Five);
    assert_eq!(s.stop_bits, StopBits::Two);
    for (b, d, st) in [(0, 8, 1), (9600, 4, 1), (9600, 9, 1), (9600, 8, 0), (9600, 8, 3)] {
        let err = settings_from_values(b, d, Parity::Odd, st, FlowControl::Software).unwrap_err();
        assert_eq!(err.kind, ErrorKind::InvalidInput);
    }
}

#[test]
fn encode_decode_round_trip_every_combination() {
    let c = termios_codes();
    let base = base_config();
    for d in [DataBits::Five, DataBits::Six, DataBits::Seven, DataBits::Eight] {
        for p in [Parity::Disabled, Parity::Odd, Parity::Even] {
            for s in [StopBits::One, StopBits::Two] {
                for f in [FlowControl::Disabled, FlowControl::Software, FlowControl::Hardware] {
                    for rate in [9600, 115200, 250000, 1] {
                        let want = settings(rate, d, p, s, f);
                        let n = encode(&want, &base, &c);
                        assert_eq!(decode(&n, &c), Some(want));
                        assert_eq!(applied_settings(&n, &c), Ok(want));
                    }
                }
            }
        }
    }
}

#[test]
fn encode_sets_exact_bits() {
    let c = termios_codes();
    let base = base_config();
    let s = settings(9600, DataBits::Seven, Parity::Odd, StopBits::Two, FlowControl::Hardware);
    let n = encode(&s, &base, &c);
    let keep = (libc::CREAD | libc::CLOCAL | libc::HUPCL) as u32;
    let want = keep
        | (libc::CS7 | libc::PARENB | libc::PARODD | libc::CSTOPB | libc::CRTSCTS) as u32;
    assert_eq!(n.control, want);
    assert_eq!(n.input, libc::IGNBRK as u32);
    assert_eq!(n.speed, Speed::Named(libc::B9600 as u32));
    let s = settings(9600, DataBits::Eight, Parity::Disabled, StopBits::One, FlowControl::Software);
    let n = encode(&s, &n, &c);
    assert_eq!(n.control, keep | libc::CS8 as u32);
    assert_eq!(n.input, (libc::IGNBRK | libc::IXON | libc::IXOFF) as u32);
}

#[test]
fn named_rates_never_take_the_custom_path() {
    let c = termios_codes();
    let base = base_config();
    for (rate, code) in c.rates.clone() {
        let s = settings(rate, DataBits::Eight, Parity::Disabled, StopBits::One, FlowControl::Disabled);
        let n = encode(&s, &base, &c);
        assert_eq!(n.speed, Speed::Named(code));
        assert!(!needs_custom_rate(&n));
    }
    for rate in [250000, 31250, 1000000, 1] {
        let s = settings(rate, DataBits::Eight, Parity::Disabled, StopBits::One, FlowControl::Disabled);
        let n = encode(&s, &base, &c);
        assert_eq!(n.speed, Speed::Custom(rate));
        assert!(needs_custom_rate(&n));
    }
}

#[test]
fn decode_rejects_unknown_speed_code() {
    let c = termios_codes();
    let n = NativeConfig { control: libc::CS8 as u32, input: 0, speed: Speed::Named(0o7777) };
    assert_eq!(decode(&n, &c), None);
    assert_eq!(applied_settings(&n, &c).unwrap_err().kind, ErrorKind::Unsupported);
}

#[test]
fn extended_control_marks_other_rate() {
    let e = ExtendedCodes { speed_mask: libc::CBAUD as u32, other_rate: libc::BOTHER as u32 };
    let control = (libc::CS8 | libc::CREAD | libc::B9600) as u32;
    let r = extended_control(control, &e);
    assert_eq!(r, (libc::CS8 | libc::CREAD | libc::BOTHER) as u32);
}

#[test]
fn platform_tables_are_valid() {
    assert!(modem_codes().is_valid());
    assert!(termios_codes().is_valid());
}

#[test]
fn malformed_tables_are_rejected() {
    let mut m = modem_codes();
    m.ring = libc::TIOCM_DTR;
    assert!(!m.is_valid());
    let mut m = modem_codes();
    m.clear_to_send = 0;
    assert!(!m.is_valid());
    let mut t = termios_codes();
    t.rates.push((9600, 0o7777));
    assert!(!t.is_valid());
    let mut t = termios_codes();
    t.rates.push((31250, libc::B9600 as u32));
    assert!(!t.is_valid());
    let mut t = termios_codes();
    t.parity_odd = libc::PARENB as u32;
    assert!(!t.is_valid());
    let mut t = termios_codes();
    t.size7 = t.size8;
    assert!(!t.is_valid());
}

#[test]
fn closed_channel_stops_the_task() {
    let timeout = Error::new(ErrorKind::Timeout, "read", "operation timed out");
    let io = Error::new(ErrorKind::Io, "read", "broken");
    assert_eq!(next_step(&Ok(5), ControlSignal::Closed), Step::Stop);
    assert_eq!(next_step(&Err(timeout.clone()), ControlSignal::Closed), Step::Stop);
    assert_eq!(next_step(&Err(io.clone()), ControlSignal::Closed), Step::Stop);
}

#[test]
fn task_steps() {
    let timeout = Error::new(ErrorKind::Timeout, "read", "operation timed out");
    let io = Error::new(ErrorKind::NoDevice, "read", "gone");
    assert_eq!(next_step(&Ok(5), ControlSignal::Idle), Step::Deliver(5));
    assert_eq!(next_step(&Ok(0), ControlSignal::Idle), Step::Continue);
    assert_eq!(next_step(&Err(timeout.clone()), ControlSignal::Idle), Step::Continue);
    assert_eq!(next_step(&Err(io.clone()), ControlSignal::Idle), Step::Fail);
    assert_eq!(next_step(&Ok(3), ControlSignal::Request), Step::Serve(3));
    assert_eq!(next_step(&Err(timeout), ControlSignal::Request), Step::Serve(0));
    assert_eq!(next_step(&Err(io), ControlSignal::Request), Step::Fail);
}

#[test]
fn errno_table_validity() {
    assert!(errno_codes().is_valid());
    let mut e = errno_codes();
    e.timed_out = libc::EINVAL;
    assert!(!e.is_valid());
}

#[test]
fn request_words_are_exact() {
    let codes = modem_codes();
    let dtr = SerialLines::single(Line::DataTerminalReady);
    let rts = SerialLines::single(Line::RequestToSend);
    assert_eq!(dtr.to_raw(&codes), libc::TIOCM_DTR);
    assert_eq!(dtr.union(&rts).to_raw(&codes), libc::TIOCM_DTR | libc::TIOCM_RTS);
    assert_eq!(SerialLines::all().to_raw(&codes) & 0x8000, 0);
    for prior in [0, libc::TIOCM_CTS, libc::TIOCM_CAR | 0x8000] {
        let twice = (prior | dtr.to_raw(&codes)) | rts.to_raw(&codes);
        assert_eq!(twice, prior | dtr.union(&rts).to_raw(&codes));
        let w = SerialLines::writable().to_raw(&codes);
        assert_eq!((prior | w) & !w, prior);
        assert_eq!(prior | SerialLines::empty().to_raw(&codes), prior);
    }
}

#[test]
fn plain_speed_read_back() {
    let mut c = termios_codes();
    for entry in c.rates.iter_mut() {
        entry.1 = entry.0;
    }
    assert_eq!(speed_from_plain(9600, &c), Speed::Named(9600));
    assert_eq!(speed_from_plain(250000, &c), Speed::Custom(250000));
}
