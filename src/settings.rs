//! Portable line settings, and their encoding into the platform's terminal
//! configuration words.
use vstd::prelude::*;

verus! {

#[derive(PartialEq, Eq, Structural, Clone, Copy, Debug)]
pub enum DataBits {
    Five,
    Six,
    Seven,
    Eight,
}

#[derive(PartialEq, Eq, Structural, Clone, Copy, Debug)]
pub enum Parity {
    Disabled,
    Odd,
    Even,
}

#[derive(PartialEq, Eq, Structural, Clone, Copy, Debug)]
pub enum StopBits {
    One,
    Two,
}

#[derive(PartialEq, Eq, Structural, Clone, Copy, Debug)]
pub enum FlowControl {
    Disabled,
    Software,
    Hardware,
}

/// The desired configuration of a line.
#[derive(PartialEq, Eq, Structural, Clone, Copy, Debug)]
pub struct Settings {
    pub baud_rate: u32,
    pub data_bits: DataBits,
    pub parity: Parity,
    pub stop_bits: StopBits,
    pub flow_control: FlowControl,
}

/// How the speed is carried in the native configuration.
#[derive(PartialEq, Eq, Structural, Clone, Copy, Debug)]
pub enum Speed {
    /// A speed code of the platform's named enumeration.
    Named(u32),
    /// A rate in bits per second, set through the platform's arbitrary-rate
    /// request because the enumeration does not name it.
    Custom(u32),
}

/// The platform's terminal configuration, as far as line settings go:
/// the control flags word, the input flags word, and the speed.
#[derive(PartialEq, Eq, Structural, Clone, Copy, Debug)]
pub struct NativeConfig {
    pub control: u32,
    pub input: u32,
    pub speed: Speed,
}

/// The platform's flag bits and named speeds, as the OS headers define them.
#[derive(Clone, Debug)]
pub struct TermiosCodes {
    pub size_mask: u32,
    pub size5: u32,
    pub size6: u32,
    pub size7: u32,
    pub size8: u32,
    pub parity_enable: u32,
    pub parity_odd: u32,
    pub two_stop: u32,
    pub hardware_flow: u32,
    pub software_out: u32,
    pub software_in: u32,
    /// Pairs of a rate in bits per second and the code that names it.
    pub rates: Vec<(u32, u32)>,
}

impl TermiosCodes {
    /// The flag bits are where the platform defines them to be: each
    /// character size lies in the size field and differs from the others;
    /// the parity, stop and flow bits are set bits that overlap neither the
    /// size field nor one another; each rate and each code is named once.
    pub open spec fn wf(&self) -> bool {
        &&& self.size5 & !self.size_mask == 0
        &&& self.size6 & !self.size_mask == 0
        &&& self.size7 & !self.size_mask == 0
        &&& self.size8 & !self.size_mask == 0
        &&& self.size5 != self.size6 && self.size5 != self.size7 && self.size5 != self.size8
        &&& self.size6 != self.size7 && self.size6 != self.size8 && self.size7 != self.size8
        &&& self.parity_enable != 0 && self.parity_odd != 0
        &&& self.two_stop != 0 && self.hardware_flow != 0
        &&& self.software_out != 0 && self.software_in != 0
        &&& self.size_mask & self.parity_enable == 0
        &&& self.size_mask & self.parity_odd == 0
        &&& self.size_mask & self.two_stop == 0
        &&& self.size_mask & self.hardware_flow == 0
        &&& self.parity_enable & self.parity_odd == 0
        &&& self.parity_enable & self.two_stop == 0
        &&& self.parity_enable & self.hardware_flow == 0
        &&& self.parity_odd & self.two_stop == 0
        &&& self.parity_odd & self.hardware_flow == 0
        &&& self.two_stop & self.hardware_flow == 0
        &&& rates_unique(self.rates@)
    }

    /// Every control bit that line settings decide.
    pub open spec fn managed_control(&self) -> u32 {
        self.size_mask | self.parity_enable | self.parity_odd | self.two_stop | self.hardware_flow
    }

    /// Every input bit that line settings decide.
    pub open spec fn managed_input(&self) -> u32 {
        self.software_out | self.software_in
    }
}

/// No rate and no code appears twice.
pub open spec fn rates_unique(t: Seq<(u32, u32)>) -> bool {
    &&& forall|i: int, j: int|
        0 <= i < t.len() && 0 <= j < t.len() && i != j ==> #[trigger] t[i].0 != #[trigger] t[j].0
    &&& forall|i: int, j: int|
        0 <= i < t.len() && 0 <= j < t.len() && i != j ==> #[trigger] t[i].1 != #[trigger] t[j].1
}

/// Whether the named enumeration has `rate`.
pub open spec fn is_named_rate(t: Seq<(u32, u32)>, rate: u32) -> bool {
    exists|i: int| 0 <= i < t.len() && #[trigger] t[i].0 == rate
}

/// Whether the named enumeration has `code`.
pub open spec fn is_named_code(t: Seq<(u32, u32)>, code: u32) -> bool {
    exists|i: int| 0 <= i < t.len() && #[trigger] t[i].1 == code
}

/// The code that names `rate`.
pub open spec fn code_of_rate(t: Seq<(u32, u32)>, rate: u32) -> u32
    recommends
        is_named_rate(t, rate),
{
    t[choose|i: int| 0 <= i < t.len() && #[trigger] t[i].0 == rate].1
}

/// The rate that `code` names.
pub open spec fn rate_of_code(t: Seq<(u32, u32)>, code: u32) -> u32
    recommends
        is_named_code(t, code),
{
    t[choose|i: int| 0 <= i < t.len() && #[trigger] t[i].1 == code].0
}

pub open spec fn size_bits(d: DataBits, c: TermiosCodes) -> u32 {
    match d {
        DataBits::Five => c.size5,
        DataBits::Six => c.size6,
        DataBits::Seven => c.size7,
        DataBits::Eight => c.size8,
    }
}

pub open spec fn parity_bits(p: Parity, c: TermiosCodes) -> u32 {
    match p {
        Parity::Disabled => 0,
        Parity::Odd => c.parity_enable | c.parity_odd,
        Parity::Even => c.parity_enable,
    }
}

pub open spec fn stop_bits_of(s: StopBits, c: TermiosCodes) -> u32 {
    match s {
        StopBits::One => 0,
        StopBits::Two => c.two_stop,
    }
}

pub open spec fn hardware_bits(f: FlowControl, c: TermiosCodes) -> u32 {
    if f == FlowControl::Hardware {
        c.hardware_flow
    } else {
        0
    }
}

pub open spec fn software_bits(f: FlowControl, c: TermiosCodes) -> u32 {
    if f == FlowControl::Software {
        c.software_out | c.software_in
    } else {
        0
    }
}

/// The speed that carries `rate`: its named code where the enumeration has
/// one, else the rate itself.
pub open spec fn speed_for(rate: u32, c: TermiosCodes) -> Speed {
    if is_named_rate(c.rates@, rate) {
        Speed::Named(code_of_rate(c.rates@, rate))
    } else {
        Speed::Custom(rate)
    }
}

/// `base` with the settings' bits in place of the ones that settings decide;
/// every other bit of `base` is kept.
pub open spec fn encoded(s: Settings, base: NativeConfig, c: TermiosCodes) -> NativeConfig {
    NativeConfig {
        control: (base.control & !c.managed_control()) | size_bits(s.data_bits, c) | parity_bits(
            s.parity,
            c,
        ) | stop_bits_of(s.stop_bits, c) | hardware_bits(s.flow_control, c),
        input: (base.input & !c.managed_input()) | software_bits(s.flow_control, c),
        speed: speed_for(s.baud_rate, c),
    }
}

/// The settings that a native configuration stands for; `None` where its
/// character size or speed code is not one the platform defines.
pub open spec fn decoded(n: NativeConfig, c: TermiosCodes) -> Option<Settings> {
    let size = n.control & c.size_mask;
    let rate_known = match n.speed {
        Speed::Named(code) => is_named_code(c.rates@, code),
        Speed::Custom(_) => true,
    };
    if !(size == c.size5 || size == c.size6 || size == c.size7 || size == c.size8) || !rate_known {
        None
    } else {
        Some(
            Settings {
                baud_rate: match n.speed {
                    Speed::Named(code) => rate_of_code(c.rates@, code),
                    Speed::Custom(r) => r,
                },
                data_bits: if size == c.size5 {
                    DataBits::Five
                } else if size == c.size6 {
                    DataBits::Six
                } else if size == c.size7 {
                    DataBits::Seven
                } else {
                    DataBits::Eight
                },
                parity: if n.control & c.parity_enable == 0 {
                    Parity::Disabled
                } else if n.control & c.parity_odd != 0 {
                    Parity::Odd
                } else {
                    Parity::Even
                },
                stop_bits: if n.control & c.two_stop != 0 {
                    StopBits::Two
                } else {
                    StopBits::One
                },
                flow_control: if n.control & c.hardware_flow != 0 {
                    FlowControl::Hardware
                } else if n.input & c.software_out != 0 {
                    FlowControl::Software
                } else {
                    FlowControl::Disabled
                },
            },
        )
    }
}

proof fn lemma_control_bits(
    b: u32,
    sm: u32,
    pe: u32,
    po: u32,
    ts: u32,
    hw: u32,
    sz: u32,
    pb: u32,
    sb: u32,
    fb: u32,
)
    requires
        sz & !sm == 0,
        pe != 0,
        po != 0,
        ts != 0,
        hw != 0,
        sm & pe == 0,
        sm & po == 0,
        sm & ts == 0,
        sm & hw == 0,
        pe & po == 0,
        pe & ts == 0,
        pe & hw == 0,
        po & ts == 0,
        po & hw == 0,
        ts & hw == 0,
        pb == 0 || pb == pe || pb == pe | po,
        sb == 0 || sb == ts,
        fb == 0 || fb == hw,
    ensures
        ((b & !(sm | pe | po | ts | hw)) | sz | pb | sb | fb) & sm == sz,
        (((b & !(sm | pe | po | ts | hw)) | sz | pb | sb | fb) & pe == 0) == (pb == 0),
        (((b & !(sm | pe | po | ts | hw)) | sz | pb | sb | fb) & po != 0) == (pb == pe | po),
        (((b & !(sm | pe | po | ts | hw)) | sz | pb | sb | fb) & ts != 0) == (sb != 0),
        (((b & !(sm | pe | po | ts | hw)) | sz | pb | sb | fb) & hw != 0) == (fb != 0),
        pe | po != 0,
{
    assert(pe | po != 0) by (bit_vector)
        requires
            pe != 0,
    ;
    assert(((b & !(sm | pe | po | ts | hw)) | sz | pb | sb | fb) & sm == sz) by (bit_vector)
        requires
            sz & !sm == 0,
            sm & pe == 0,
            sm & po == 0,
            sm & ts == 0,
            sm & hw == 0,
            pb == 0 || pb == pe || pb == pe | po,
            sb == 0 || sb == ts,
            fb == 0 || fb == hw,
    ;
    assert((((b & !(sm | pe | po | ts | hw)) | sz | pb | sb | fb) & pe == 0) == (pb == 0))
        by (bit_vector)
        requires
            sz & !sm == 0,
            pe != 0,
            sm & pe == 0,
            pe & po == 0,
            pe & ts == 0,
            pe & hw == 0,
            pb == 0 || pb == pe || pb == pe | po,
            sb == 0 || sb == ts,
            fb == 0 || fb == hw,
    ;
    assert((((b & !(sm | pe | po | ts | hw)) | sz | pb | sb | fb) & po != 0) == (pb == pe | po))
        by (bit_vector)
        requires
            sz & !sm == 0,
            pe != 0,
            po != 0,
            sm & po == 0,
            pe & po == 0,
            po & ts == 0,
            po & hw == 0,
            pb == 0 || pb == pe || pb == pe | po,
            sb == 0 || sb == ts,
            fb == 0 || fb == hw,
    ;
    assert((((b & !(sm | pe | po | ts | hw)) | sz | pb | sb | fb) & ts != 0) == (sb != 0))
        by (bit_vector)
        requires
            sz & !sm == 0,
            ts != 0,
            sm & ts == 0,
            pe & ts == 0,
            po & ts == 0,
            ts & hw == 0,
            pb == 0 || pb == pe || pb == pe | po,
            sb == 0 || sb == ts,
            fb == 0 || fb == hw,
    ;
    assert((((b & !(sm | pe | po | ts | hw)) | sz | pb | sb | fb) & hw != 0) == (fb != 0))
        by (bit_vector)
        requires
            sz & !sm == 0,
            hw != 0,
            sm & hw == 0,
            pe & hw == 0,
            po & hw == 0,
            ts & hw == 0,
            pb == 0 || pb == pe || pb == pe | po,
            sb == 0 || sb == ts,
            fb == 0 || fb == hw,
    ;
}

proof fn lemma_input_bits(b: u32, so: u32, si: u32, sw: u32)
    requires
        so != 0,
        sw == 0 || sw == so | si,
    ensures
        (((b & !(so | si)) | sw) & so != 0) == (sw != 0),
        so | si != 0,
{
    assert(so | si != 0) by (bit_vector)
        requires
            so != 0,
    ;
    assert((((b & !(so | si)) | sw) & so != 0) == (sw != 0)) by (bit_vector)
        requires
            so != 0,
            sw == 0 || sw == so | si,
    ;
}

/// Decoding the encoding of any settings gives the settings back, whatever
/// the configuration that they were encoded into.
pub proof fn lemma_round_trip(s: Settings, base: NativeConfig, c: TermiosCodes)
    requires
        c.wf(),
    ensures
        decoded(encoded(s, base, c), c) == Some(s),
{
    let n = encoded(s, base, c);
    let pb = parity_bits(s.parity, c);
    let sz = size_bits(s.data_bits, c);
    lemma_control_bits(
        base.control,
        c.size_mask,
        c.parity_enable,
        c.parity_odd,
        c.two_stop,
        c.hardware_flow,
        sz,
        pb,
        stop_bits_of(s.stop_bits, c),
        hardware_bits(s.flow_control, c),
    );
    lemma_input_bits(
        base.input,
        c.software_out,
        c.software_in,
        software_bits(s.flow_control, c),
    );
    let pe = c.parity_enable;
    let po = c.parity_odd;
    assert(pe != pe | po) by (bit_vector)
        requires
            pe & po == 0,
            po != 0,
    ;
    let t = c.rates@;
    if is_named_rate(t, s.baud_rate) {
        let k = choose|i: int| 0 <= i < t.len() && #[trigger] t[i].0 == s.baud_rate;
        let code = t[k].1;
        assert(n.speed == Speed::Named(code));
        assert(is_named_code(t, code));
        let j = choose|i: int| 0 <= i < t.len() && #[trigger] t[i].1 == code;
        assert(t[j].1 == t[k].1);
        assert(j == k);
        assert(rate_of_code(t, code) == s.baud_rate);
    }
    let f = s.flow_control;
    assert(n.input & c.software_out != 0 <==> f == FlowControl::Software);
    assert(n.control & c.hardware_flow != 0 <==> f == FlowControl::Hardware);
    let d = decoded(n, c).unwrap();
    assert(d.data_bits == s.data_bits);
    assert(d.parity == s.parity);
    assert(d.stop_bits == s.stop_bits);
    assert(d.flow_control == s.flow_control);
    assert(d.baud_rate == s.baud_rate);
}

/// The code that names `rate` in the enumeration, if it has one.
fn named_code(t: &Vec<(u32, u32)>, rate: u32) -> (r: Option<u32>)
    requires
        rates_unique(t@),
    ensures
        r.is_some() == is_named_rate(t@, rate),
        r.is_some() ==> r.unwrap() == code_of_rate(t@, rate),
{
    let mut i: usize = 0;
    while i < t.len()
        invariant
            i <= t.len(),
            rates_unique(t@),
            forall|j: int| 0 <= j < i ==> #[trigger] t@[j].0 != rate,
        decreases t.len() - i,
    {
        if t[i].0 == rate {
            proof {
                assert(t@[i as int].0 == rate);
                let k = choose|k: int| 0 <= k < t@.len() && #[trigger] t@[k].0 == rate;
                assert(t@[k].0 == t@[i as int].0);
                assert(k == i as int);
            }
            return Some(t[i].1);
        }
        i = i + 1;
    }
    None
}

/// The rate that `code` names in the enumeration, if it is one of its codes.
fn named_rate(t: &Vec<(u32, u32)>, code: u32) -> (r: Option<u32>)
    requires
        rates_unique(t@),
    ensures
        r.is_some() == is_named_code(t@, code),
        r.is_some() ==> r.unwrap() == rate_of_code(t@, code),
{
    let mut i: usize = 0;
    while i < t.len()
        invariant
            i <= t.len(),
            rates_unique(t@),
            forall|j: int| 0 <= j < i ==> #[trigger] t@[j].1 != code,
        decreases t.len() - i,
    {
        if t[i].1 == code {
            proof {
                assert(t@[i as int].1 == code);
                let k = choose|k: int| 0 <= k < t@.len() && #[trigger] t@[k].1 == code;
                assert(t@[k].1 == t@[i as int].1);
                assert(k == i as int);
            }
            return Some(t[i].0);
        }
        i = i + 1;
    }
    None
}

/// The native configuration for `s`: `base` with the bits that line
/// settings decide replaced. A rate that the enumeration does not name is
/// carried as a custom rate, for the arbitrary-rate request; a named one
/// never is.
pub fn encode(s: &Settings, base: &NativeConfig, c: &TermiosCodes) -> (r: NativeConfig)
    requires
        c.wf(),
    ensures
        r == encoded(*s, *base, *c),
        (r.speed is Custom) == !is_named_rate(c.rates@, s.baud_rate),
{
    let size: u32 = match s.data_bits {
        DataBits::Five => c.size5,
        DataBits::Six => c.size6,
        DataBits::Seven => c.size7,
        DataBits::Eight => c.size8,
    };
    let parity: u32 = match s.parity {
        Parity::Disabled => 0,
        Parity::Odd => c.parity_enable | c.parity_odd,
        Parity::Even => c.parity_enable,
    };
    let stop: u32 = match s.stop_bits {
        StopBits::One => 0,
        StopBits::Two => c.two_stop,
    };
    let hardware: u32 = if s.flow_control == FlowControl::Hardware {
        c.hardware_flow
    } else {
        0
    };
    let software: u32 = if s.flow_control == FlowControl::Software {
        c.software_out | c.software_in
    } else {
        0
    };
    let managed_control = c.size_mask | c.parity_enable | c.parity_odd | c.two_stop
        | c.hardware_flow;
    let managed_input = c.software_out | c.software_in;
    let speed = match named_code(&c.rates, s.baud_rate) {
        Some(code) => Speed::Named(code),
        None => Speed::Custom(s.baud_rate),
    };
    NativeConfig {
        control: (base.control & !managed_control) | size | parity | stop | hardware,
        input: (base.input & !managed_input) | software,
        speed,
    }
}

/// Whether applying `n` takes the arbitrary-rate request.
pub fn needs_custom_rate(n: &NativeConfig) -> (r: bool)
    ensures
        r == (n.speed is Custom),
{
    match n.speed {
        Speed::Named(_) => false,
        Speed::Custom(_) => true,
    }
}

/// The settings that `n` stands for, or `None` where its character size
/// or its speed code is not one the platform defines.
pub fn decode(n: &NativeConfig, c: &TermiosCodes) -> (r: Option<Settings>)
    requires
        c.wf(),
    ensures
        r == decoded(*n, *c),
{
    let size = n.control & c.size_mask;
    let data_bits = if size == c.size5 {
        DataBits::Five
    } else if size == c.size6 {
        DataBits::Six
    } else if size == c.size7 {
        DataBits::Seven
    } else if size == c.size8 {
        DataBits::Eight
    } else {
        return None;
    };
    let baud_rate = match n.speed {
        Speed::Named(code) => match named_rate(&c.rates, code) {
            Some(rate) => rate,
            None => {
                return None;
            },
        },
        Speed::Custom(rate) => rate,
    };
    let parity = if n.control & c.parity_enable == 0 {
        Parity::Disabled
    } else if n.control & c.parity_odd != 0 {
        Parity::Odd
    } else {
        Parity::Even
    };
    let stop_bits = if n.control & c.two_stop != 0 {
        StopBits::Two
    } else {
        StopBits::One
    };
    let flow_control = if n.control & c.hardware_flow != 0 {
        FlowControl::Hardware
    } else if n.input & c.software_out != 0 {
        FlowControl::Software
    } else {
        FlowControl::Disabled
    };
    Some(Settings { baud_rate, data_bits, parity, stop_bits, flow_control })
}

/// The platform's speed field of the extended configuration: the mask of
/// the field, and the value that says "the rate is given in full".
#[derive(Clone, Copy, Debug)]
pub struct ExtendedCodes {
    pub speed_mask: u32,
    pub other_rate: u32,
}

/// The control word of the extended configuration that carries a rate in
/// full: the speed field set to "other rate", every other bit kept.
pub fn extended_control(control: u32, e: &ExtendedCodes) -> (r: u32)
    ensures
        r == (control & !e.speed_mask) | e.other_rate,
        e.other_rate & !e.speed_mask == 0 ==> r & e.speed_mask == e.other_rate,
        r & !e.speed_mask == (control & !e.speed_mask) | (e.other_rate & !e.speed_mask),
{
    let r = (control & !e.speed_mask) | e.other_rate;
    proof {
        let m = e.speed_mask;
        let o = e.other_rate;
        assert(o & !m == 0 ==> ((control & !m) | o) & m == o) by (bit_vector);
        assert(((control & !m) | o) & !m == (control & !m) | (o & !m)) by (bit_vector);
    }
    r
}

/// The settings that a configuration read back from the device stands for;
/// one that names a character size or speed code that the platform does
/// not define is reported as unsupported.
pub fn applied_settings(actual: &NativeConfig, c: &TermiosCodes) -> (r: Result<
    Settings,
    crate::error::Error,
>)
    requires
        c.wf(),
    ensures
        r is Ok <==> decoded(*actual, *c) is Some,
        r is Ok ==> r->Ok_0 == decoded(*actual, *c)->Some_0,
        r is Err ==> r->Err_0.kind == crate::error::ErrorKind::Unsupported,
{
    match decode(actual, c) {
        Some(s) => Ok(s),
        None => Err(
            crate::error::Error::new(
                crate::error::ErrorKind::Unsupported,
                "configure",
                "device reports a configuration outside the supported domain",
            ),
        ),
    }
}

/// The speed that an extended configuration carries: the rate in full where
/// the speed field says "other rate", else the named code in that field.
pub fn speed_from_extended(control: u32, out_rate: u32, e: &ExtendedCodes) -> (r: Speed)
    ensures
        (control & e.speed_mask == e.other_rate) ==> r == Speed::Custom(out_rate),
        (control & e.speed_mask != e.other_rate) ==> r == Speed::Named(control & e.speed_mask),
{
    let field = control & e.speed_mask;
    if field == e.other_rate {
        Speed::Custom(out_rate)
    } else {
        Speed::Named(field)
    }
}

/// Whether no rate and no code of `t` appears twice.
fn rates_are_unique(t: &Vec<(u32, u32)>) -> (r: bool)
    ensures
        r == rates_unique(t@),
{
    let n = t.len();
    let mut i: usize = 0;
    while i < n
        invariant
            i <= n,
            n == t.len(),
            forall|a: int, b: int|
                0 <= a < i && 0 <= b < n && a != b ==> #[trigger] t@[a].0 != #[trigger] t@[b].0,
            forall|a: int, b: int|
                0 <= a < i && 0 <= b < n && a != b ==> #[trigger] t@[a].1 != #[trigger] t@[b].1,
        decreases n - i,
    {
        let mut j: usize = 0;
        while j < n
            invariant
                i < n,
                j <= n,
                n == t.len(),
                forall|a: int, b: int|
                    0 <= a < i && 0 <= b < n && a != b ==> #[trigger] t@[a].0 != #[trigger] t@[b].0,
                forall|a: int, b: int|
                    0 <= a < i && 0 <= b < n && a != b ==> #[trigger] t@[a].1 != #[trigger] t@[b].1,
                forall|b: int| 0 <= b < j && b != i ==> t@[i as int].0 != #[trigger] t@[b].0,
                forall|b: int| 0 <= b < j && b != i ==> t@[i as int].1 != #[trigger] t@[b].1,
            decreases n - j,
        {
            if j != i && (t[i].0 == t[j].0 || t[i].1 == t[j].1) {
                proof {
                    assert(t@[i as int].0 == t@[j as int].0 || t@[i as int].1 == t@[j as int].1);
                }
                return false;
            }
            j = j + 1;
        }
        i = i + 1;
    }
    true
}

impl TermiosCodes {
    /// Whether the table is well formed.
    pub fn is_valid(&self) -> (r: bool)
        ensures
            r == self.wf(),
    {
        let sm = self.size_mask;
        let pe = self.parity_enable;
        let po = self.parity_odd;
        let ts = self.two_stop;
        let hw = self.hardware_flow;
        let sizes_in_field = self.size5 & !sm == 0 && self.size6 & !sm == 0 && self.size7 & !sm
            == 0 && self.size8 & !sm == 0;
        let sizes_differ = self.size5 != self.size6 && self.size5 != self.size7 && self.size5
            != self.size8 && self.size6 != self.size7 && self.size6 != self.size8 && self.size7
            != self.size8;
        let bits_set = pe != 0 && po != 0 && ts != 0 && hw != 0 && self.software_out != 0
            && self.software_in != 0;
        let disjoint = sm & pe == 0 && sm & po == 0 && sm & ts == 0 && sm & hw == 0 && pe & po == 0
            && pe & ts == 0 && pe & hw == 0 && po & ts == 0 && po & hw == 0 && ts & hw == 0;
        sizes_in_field && sizes_differ && bits_set && disjoint && rates_are_unique(&self.rates)
    }
}

/// The speed that a configuration read back carries on a platform whose
/// speed codes are the rates themselves: a named code where the enumeration
/// has the value, else a custom rate set by the direct speed request.
pub fn speed_from_plain(value: u32, c: &TermiosCodes) -> (r: Speed)
    requires
        c.wf(),
    ensures
        is_named_code(c.rates@, value) ==> r == Speed::Named(value),
        !is_named_code(c.rates@, value) ==> r == Speed::Custom(value),
{
    match named_rate(&c.rates, value) {
        Some(_) => Speed::Named(value),
        None => Speed::Custom(value),
    }
}

} // verus!
