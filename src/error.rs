//! The uniform error taxonomy that every control operation reports in.
use vstd::prelude::*;
use vstd::string::*;

verus! {

/// What kind of failure an operation met.
#[derive(PartialEq, Eq, Structural, Clone, Copy, Debug)]
pub enum ErrorKind {
    /// The descriptor is invalid, or the device is gone.
    NoDevice,
    /// A value given by the caller lies outside the supported domain.
    InvalidInput,
    /// The operation is not available on this platform or device.
    Unsupported,
    /// A read or write ran past its deadline; retrying is routine.
    Timeout,
    /// Any other failure of the OS.
    Io,
}

/// A failure, with the OS error number, the call that met it, and the
/// OS's description.
#[derive(Clone, Debug, PartialEq, Eq)]
pub struct Error {
    pub kind: ErrorKind,
    /// The OS error number; zero where the failure did not come from the OS.
    pub code: i32,
    /// Name of the operation that failed.
    pub call: String,
    pub description: String,
}

/// The platform's error numbers that the taxonomy tells apart, as the OS
/// headers define them.
#[derive(Clone, Copy, Debug)]
pub struct ErrnoCodes {
    pub no_device: i32,
    pub no_such_device_or_address: i32,
    pub no_entry: i32,
    pub bad_descriptor: i32,
    pub invalid: i32,
    pub not_a_tty: i32,
    pub not_supported: i32,
    pub no_system_call: i32,
    pub timed_out: i32,
    pub would_block: i32,
}

/// The kind that an OS error number is classified into.
pub open spec fn kind_of(code: i32, c: ErrnoCodes) -> ErrorKind {
    if code == c.no_device || code == c.no_such_device_or_address || code == c.no_entry || code
        == c.bad_descriptor {
        ErrorKind::NoDevice
    } else if code == c.invalid {
        ErrorKind::InvalidInput
    } else if code == c.not_a_tty || code == c.not_supported || code == c.no_system_call {
        ErrorKind::Unsupported
    } else if code == c.timed_out || code == c.would_block {
        ErrorKind::Timeout
    } else {
        ErrorKind::Io
    }
}

/// The OS's description of an error number.
pub uninterp spec fn errno_text(code: i32) -> Seq<char>;

/// Relies on nix's `Errno::desc` (after `Errno::from_raw`): the fixed text
/// that the platform gives each error number.
#[verifier::external_body]
fn describe(code: i32) -> (r: String)
    ensures
        r@ == errno_text(code),
{
    nix::errno::Errno::from_raw(code).desc().to_string()
}

/// Classifies the OS error `code` that `call` met.
pub fn kind_for(code: i32, c: &ErrnoCodes) -> (r: ErrorKind)
    ensures
        r == kind_of(code, *c),
{
    if code == c.no_device || code == c.no_such_device_or_address || code == c.no_entry || code
        == c.bad_descriptor {
        ErrorKind::NoDevice
    } else if code == c.invalid {
        ErrorKind::InvalidInput
    } else if code == c.not_a_tty || code == c.not_supported || code == c.no_system_call {
        ErrorKind::Unsupported
    } else if code == c.timed_out || code == c.would_block {
        ErrorKind::Timeout
    } else {
        ErrorKind::Io
    }
}

impl Error {
    /// An error that did not come from the OS.
    pub fn new(kind: ErrorKind, call: &str, description: &str) -> (r: Error)
        ensures
            r.kind == kind,
            r.code == 0,
            r.call@ == call@,
            r.description@ == description@,
    {
        Error {
            kind,
            code: 0,
            call: String::from_str(call),
            description: String::from_str(description),
        }
    }

    /// The error for OS error number `code`, met by `call`: classified, the
    /// number kept, and described as the OS describes it.
    pub fn from_os(code: i32, call: &str, c: &ErrnoCodes) -> (r: Error)
        ensures
            r.kind == kind_of(code, *c),
            r.code == code,
            r.call@ == call@,
            r.description@ == errno_text(code),
    {
        Error {
            kind: kind_for(code, c),
            code,
            call: String::from_str(call),
            description: describe(code),
        }
    }

    /// Whether a caller may retry the operation as routine.
    pub fn is_timeout(&self) -> (r: bool)
        ensures
            r == (self.kind == ErrorKind::Timeout),
    {
        self.kind == ErrorKind::Timeout
    }
}

impl ErrnoCodes {
    /// The numbers of the table, in field order.
    pub open spec fn numbers(&self) -> Seq<i32> {
        seq![
            self.no_device,
            self.no_such_device_or_address,
            self.no_entry,
            self.bad_descriptor,
            self.invalid,
            self.not_a_tty,
            self.not_supported,
            self.no_system_call,
            self.timed_out,
            self.would_block,
        ]
    }

    /// Every error number of the table differs from the others.
    pub open spec fn wf(&self) -> bool {
        self.numbers().no_duplicates()
    }

    /// Whether the table is well formed.
    pub fn is_valid(&self) -> (r: bool)
        ensures
            r == self.wf(),
    {
        let v: Vec<i32> = vec![
            self.no_device,
            self.no_such_device_or_address,
            self.no_entry,
            self.bad_descriptor,
            self.invalid,
            self.not_a_tty,
            self.not_supported,
            self.no_system_call,
            self.timed_out,
            self.would_block,
        ];
        assert(v@ =~= self.numbers());
        let n = v.len();
        let mut i: usize = 0;
        while i < n
            invariant
                i <= n,
                n == v@.len(),
                v@ == self.numbers(),
                forall|a: int, b: int| 0 <= a < i && 0 <= b < n && a != b ==> v@[a] != v@[b],
            decreases n - i,
        {
            let mut j: usize = 0;
            while j < n
                invariant
                    i < n,
                    j <= n,
                    n == v@.len(),
                    v@ == self.numbers(),
                    forall|a: int, b: int| 0 <= a < i && 0 <= b < n && a != b ==> v@[a] != v@[b],
                    forall|b: int| 0 <= b < j && b != i ==> v@[i as int] != v@[b],
                decreases n - j,
            {
                if j != i && v[i] == v[j] {
                    return false;
                }
                j = j + 1;
            }
            i = i + 1;
        }
        true
    }
}

/// In a well-formed table each number is classified into its own kind.
pub proof fn lemma_kinds_of_numbers(c: ErrnoCodes)
    requires
        c.wf(),
    ensures
        kind_of(c.no_device, c) == ErrorKind::NoDevice,
        kind_of(c.no_such_device_or_address, c) == ErrorKind::NoDevice,
        kind_of(c.no_entry, c) == ErrorKind::NoDevice,
        kind_of(c.bad_descriptor, c) == ErrorKind::NoDevice,
        kind_of(c.invalid, c) == ErrorKind::InvalidInput,
        kind_of(c.not_a_tty, c) == ErrorKind::Unsupported,
        kind_of(c.not_supported, c) == ErrorKind::Unsupported,
        kind_of(c.no_system_call, c) == ErrorKind::Unsupported,
        kind_of(c.timed_out, c) == ErrorKind::Timeout,
        kind_of(c.would_block, c) == ErrorKind::Timeout,
{
    let s = c.numbers();
    assert(forall|a: int, b: int| 0 <= a < 10 && 0 <= b < 10 && a != b ==> s[a] != s[b]);
    assert(s[4] != s[0] && s[4] != s[1] && s[4] != s[2] && s[4] != s[3]);
    assert(s[5] != s[0] && s[5] != s[1] && s[5] != s[2] && s[5] != s[3] && s[5] != s[4]);
    assert(s[6] != s[0] && s[6] != s[1] && s[6] != s[2] && s[6] != s[3] && s[6] != s[4]);
    assert(s[7] != s[0] && s[7] != s[1] && s[7] != s[2] && s[7] != s[3] && s[7] != s[4]);
    assert(s[8] != s[0] && s[8] != s[1] && s[8] != s[2] && s[8] != s[3] && s[8] != s[4]);
    assert(s[8] != s[5] && s[8] != s[6] && s[8] != s[7]);
    assert(s[9] != s[0] && s[9] != s[1] && s[9] != s[2] && s[9] != s[3] && s[9] != s[4]);
    assert(s[9] != s[5] && s[9] != s[6] && s[9] != s[7]);
}

} // verus!
