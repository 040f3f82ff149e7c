//! Modem and handshake lines, and how they map to and from the
//! platform's status word.
use vstd::prelude::*;

verus! {

/// One signal of a serial connection.
#[derive(PartialEq, Eq, Structural, Clone, Copy, Debug)]
pub enum Line {
    DataSetReady,
    DataTerminalReady,
    RequestToSend,
    SecondaryTransmit,
    SecondaryReceive,
    ClearToSend,
    DataCarrierDetect,
    Ring,
}

/// Position of a line in the canonical order.
pub open spec fn line_index(l: Line) -> u8 {
    match l {
        Line::DataSetReady => 0,
        Line::DataTerminalReady => 1,
        Line::RequestToSend => 2,
        Line::SecondaryTransmit => 3,
        Line::SecondaryReceive => 4,
        Line::ClearToSend => 5,
        Line::DataCarrierDetect => 6,
        Line::Ring => 7,
    }
}

/// Bit of a line in a `SerialLines` value.
pub open spec fn line_mask(l: Line) -> u8 {
    1u8 << line_index(l)
}

/// The line at a position of the canonical order.
pub fn line_at(i: u8) -> (r: Line)
    requires
        i < 8,
    ensures
        line_index(r) == i,
        r == line_at_spec(i),
{
    if i == 0 {
        Line::DataSetReady
    } else if i == 1 {
        Line::DataTerminalReady
    } else if i == 2 {
        Line::RequestToSend
    } else if i == 3 {
        Line::SecondaryTransmit
    } else if i == 4 {
        Line::SecondaryReceive
    } else if i == 5 {
        Line::ClearToSend
    } else if i == 6 {
        Line::DataCarrierDetect
    } else {
        Line::Ring
    }
}

proof fn lemma_index_injective(a: Line, b: Line)
    ensures
        line_index(a) < 8,
        line_index(a) == line_index(b) ==> a == b,
{
}

proof fn lemma_single_bits(i: u8, j: u8)
    requires
        i < 8,
        j < 8,
    ensures
        (1u8 << i) != 0,
        i != j ==> (1u8 << i) & (1u8 << j) == 0,
{
    assert((1u8 << i) != 0 && (i != j ==> (1u8 << i) & (1u8 << j) == 0)) by (bit_vector)
        requires
            i < 8,
            j < 8,
    ;
}

proof fn lemma_masks(a: Line, b: Line)
    ensures
        line_mask(a) != 0,
        a != b ==> line_mask(a) & line_mask(b) == 0,
{
    lemma_index_injective(a, b);
    lemma_index_injective(b, a);
    lemma_single_bits(line_index(a), line_index(b));
}

proof fn lemma_or_u8(x: u8, y: u8, m: u8)
    ensures
        ((x | y) & m != 0) == (x & m != 0 || y & m != 0),
{
    assert(((x | y) & m != 0) == (x & m != 0 || y & m != 0)) by (bit_vector);
}

proof fn lemma_and_not_u8(x: u8, y: u8, m: u8)
    ensures
        ((x & !y) & m != 0) ==> (x & m != 0),
        (y & m == 0) ==> (((x & !y) & m != 0) == (x & m != 0)),
        (m != 0 && y & m == m) ==> ((x & !y) & m == 0),
{
    assert(((x & !y) & m != 0) ==> (x & m != 0)) by (bit_vector);
    assert((y & m == 0) ==> (((x & !y) & m != 0) == (x & m != 0))) by (bit_vector);
    assert((m != 0 && y & m == m) ==> ((x & !y) & m == 0)) by (bit_vector);
}

proof fn lemma_and_u8(x: u8, y: u8, m: u8)
    requires
        m != 0,
        m & (m - 1) as u8 == 0,
    ensures
        ((x & y) & m != 0) == (x & m != 0 && y & m != 0),
{
    assert(((x & y) & m != 0) == (x & m != 0 && y & m != 0)) by (bit_vector)
        requires
            m != 0,
            m & (m - 1) as u8 == 0,
    ;
}

proof fn lemma_mask_single(l: Line)
    ensures
        line_mask(l) != 0,
        line_mask(l) & (line_mask(l) - 1) as u8 == 0,
{
    let i = line_index(l);
    assert(i < 8);
    assert((1u8 << i) != 0 && (1u8 << i) & ((1u8 << i) - 1) as u8 == 0) by (bit_vector)
        requires
            i < 8,
    ;
}

proof fn lemma_or_i32(x: i32, y: i32, m: i32)
    ensures
        ((x | y) & m != 0) == (x & m != 0 || y & m != 0),
{
    assert(((x | y) & m != 0) == (x & m != 0 || y & m != 0)) by (bit_vector);
}

proof fn lemma_and_not_i32(x: i32, y: i32, m: i32)
    ensures
        (y & m == 0) ==> (((x & !y) & m != 0) == (x & m != 0)),
        (m != 0 && y & m == m) ==> ((x & !y) & m == 0),
{
    assert((y & m == 0) ==> (((x & !y) & m != 0) == (x & m != 0))) by (bit_vector);
    assert((m != 0 && y & m == m) ==> ((x & !y) & m == 0)) by (bit_vector);
}

/// The platform's status-word bit for each line, as the OS headers define it.
#[derive(Clone, Copy, Debug)]
pub struct ModemCodes {
    pub data_set_ready: i32,
    pub data_terminal_ready: i32,
    pub request_to_send: i32,
    pub secondary_transmit: i32,
    pub secondary_receive: i32,
    pub clear_to_send: i32,
    pub data_carrier_detect: i32,
    pub ring: i32,
}

impl ModemCodes {
    pub open spec fn code_of(&self, l: Line) -> i32 {
        match l {
            Line::DataSetReady => self.data_set_ready,
            Line::DataTerminalReady => self.data_terminal_ready,
            Line::RequestToSend => self.request_to_send,
            Line::SecondaryTransmit => self.secondary_transmit,
            Line::SecondaryReceive => self.secondary_receive,
            Line::ClearToSend => self.clear_to_send,
            Line::DataCarrierDetect => self.data_carrier_detect,
            Line::Ring => self.ring,
        }
    }

    /// Every line has a code of its own: nonzero, and sharing no bit with
    /// the code of another line.
    pub open spec fn wf(&self) -> bool {
        &&& forall|l: Line| #[trigger] self.code_of(l) != 0
        &&& forall|a: Line, b: Line|
            a != b ==> #[trigger] self.code_of(a) & #[trigger] self.code_of(b) == 0
    }

    /// The bit (or bits) that stand for `l` in the status word.
    pub fn code(&self, l: Line) -> (r: i32)
        ensures
            r == self.code_of(l),
    {
        match l {
            Line::DataSetReady => self.data_set_ready,
            Line::DataTerminalReady => self.data_terminal_ready,
            Line::RequestToSend => self.request_to_send,
            Line::SecondaryTransmit => self.secondary_transmit,
            Line::SecondaryReceive => self.secondary_receive,
            Line::ClearToSend => self.clear_to_send,
            Line::DataCarrierDetect => self.data_carrier_detect,
            Line::Ring => self.ring,
        }
    }
}

/// Whether the status word `raw` has line `l` asserted.
pub open spec fn raw_has(raw: i32, codes: ModemCodes, l: Line) -> bool {
    raw & codes.code_of(l) != 0
}

/// A set of lines.
#[derive(Clone, Copy, Debug, PartialEq, Eq, Structural)]
pub struct SerialLines {
    bits: u8,
}

impl SerialLines {
    /// Whether the set holds `l`.
    pub closed spec fn has(self, l: Line) -> bool {
        self.bits & line_mask(l) != 0
    }

    /// The set with no line.
    pub fn empty() -> (r: SerialLines)
        ensures
            forall|l: Line| !#[trigger] r.has(l),
    {
        proof {
            assert forall|l: Line| !#[trigger] (SerialLines { bits: 0 }).has(l) by {
                let m = line_mask(l);
                assert(0u8 & m == 0) by (bit_vector);
            }
        }
        SerialLines { bits: 0 }
    }

    /// The set with every line.
    pub fn all() -> (r: SerialLines)
        ensures
            forall|l: Line| #[trigger] r.has(l),
    {
        proof {
            assert forall|l: Line| #[trigger] (SerialLines { bits: 0xff }).has(l) by {
                let m = line_mask(l);
                lemma_masks(l, l);
                assert(m != 0 ==> 0xffu8 & m != 0) by (bit_vector);
            }
        }
        SerialLines { bits: 0xff }
    }

    /// The set of one line.
    pub fn single(l: Line) -> (r: SerialLines)
        ensures
            forall|k: Line| #[trigger] r.has(k) == (k == l),
    {
        let mut r = SerialLines::empty();
        r.insert(l);
        r
    }

    /// The lines that can be driven from this end: terminal ready and
    /// request to send.
    pub fn writable() -> (r: SerialLines)
        ensures
            forall|k: Line| #[trigger] r.has(k) == (k == Line::DataTerminalReady
                || k == Line::RequestToSend),
    {
        let mut r = SerialLines::empty();
        r.insert(Line::DataTerminalReady);
        r.insert(Line::RequestToSend);
        r
    }

    pub fn contains(&self, l: Line) -> (r: bool)
        ensures
            r == self.has(l),
    {
        let m: u8 = 1u8 << line_index_exec(l);
        self.bits & m != 0
    }

    pub fn is_empty(&self) -> (r: bool)
        ensures
            r == forall|l: Line| !#[trigger] self.has(l),
    {
        proof {
            if self.bits != 0 {
                let b = self.bits;
                let i: u8 = if b & 1 != 0 { 0 } else if b & 2 != 0 { 1 } else if b & 4 != 0 {
                    2
                } else if b & 8 != 0 { 3 } else if b & 16 != 0 { 4 } else if b & 32 != 0 {
                    5
                } else if b & 64 != 0 { 6 } else { 7 };
                assert(b != 0 ==> b & 1 != 0 || b & 2 != 0 || b & 4 != 0 || b & 8 != 0 || b & 16
                    != 0 || b & 32 != 0 || b & 64 != 0 || b & 128 != 0) by (bit_vector);
                assert(1u8 << 0u8 == 1 && 1u8 << 1u8 == 2 && 1u8 << 2u8 == 4 && 1u8 << 3u8 == 8
                    && 1u8 << 4u8 == 16 && 1u8 << 5u8 == 32 && 1u8 << 6u8 == 64 && 1u8 << 7u8
                    == 128) by (bit_vector);
                let l = line_at_spec(i);
                assert(self.has(l));
            } else {
                assert forall|l: Line| !#[trigger] self.has(l) by {
                    let m = line_mask(l);
                    assert(0u8 & m == 0) by (bit_vector);
                }
            }
        }
        self.bits == 0
    }

    /// Adds `l` to the set.
    pub fn insert(&mut self, l: Line)
        ensures
            forall|k: Line| #[trigger] final(self).has(k) == (old(self).has(k) || k == l),
    {
        let m: u8 = 1u8 << line_index_exec(l);
        let old_bits = self.bits;
        self.bits = self.bits | m;
        proof {
            assert forall|k: Line| #[trigger] self.has(k) == (old(self).has(k) || k == l) by {
                lemma_or_u8(old_bits, m, line_mask(k));
                lemma_masks(l, k);
                lemma_self_u8(m);
            }
        }
    }

    /// Removes `l` from the set.
    pub fn remove(&mut self, l: Line)
        ensures
            forall|k: Line| #[trigger] final(self).has(k) == (old(self).has(k) && k != l),
    {
        let m: u8 = 1u8 << line_index_exec(l);
        let old_bits = self.bits;
        self.bits = self.bits & !m;
        proof {
            assert forall|k: Line| #[trigger] self.has(k) == (old(self).has(k) && k != l) by {
                lemma_and_not_u8(old_bits, m, line_mask(k));
                lemma_masks(l, k);
                lemma_self_u8(m);
            }
        }
    }

    /// Lines in either set.
    pub fn union(&self, o: &SerialLines) -> (r: SerialLines)
        ensures
            forall|k: Line| #[trigger] r.has(k) == (self.has(k) || o.has(k)),
    {
        let r = SerialLines { bits: self.bits | o.bits };
        proof {
            assert forall|k: Line| #[trigger] r.has(k) == (self.has(k) || o.has(k)) by {
                lemma_or_u8(self.bits, o.bits, line_mask(k));
            }
        }
        r
    }

    /// Lines in both sets.
    pub fn intersection(&self, o: &SerialLines) -> (r: SerialLines)
        ensures
            forall|k: Line| #[trigger] r.has(k) == (self.has(k) && o.has(k)),
    {
        let r = SerialLines { bits: self.bits & o.bits };
        proof {
            assert forall|k: Line| #[trigger] r.has(k) == (self.has(k) && o.has(k)) by {
                lemma_mask_single(k);
                lemma_and_u8(self.bits, o.bits, line_mask(k));
            }
        }
        r
    }

    /// Lines of `self` that are not in `o`.
    pub fn difference(&self, o: &SerialLines) -> (r: SerialLines)
        ensures
            forall|k: Line| #[trigger] r.has(k) == (self.has(k) && !o.has(k)),
    {
        let r = SerialLines { bits: self.bits & !o.bits };
        proof {
            assert forall|k: Line| #[trigger] r.has(k) == (self.has(k) && !o.has(k)) by {
                lemma_mask_single(k);
                let m = line_mask(k);
                let x = self.bits;
                let y = o.bits;
                assert(((x & !y) & m != 0) == (x & m != 0 && !(y & m != 0))) by (bit_vector)
                    requires
                        m != 0,
                        m & (m - 1) as u8 == 0,
                ;
            }
        }
        r
    }
}

proof fn lemma_self_u8(m: u8)
    ensures
        m != 0 ==> m & m != 0,
        m & m == m,
{
    assert(m != 0 ==> m & m != 0) by (bit_vector);
    assert(m & m == m) by (bit_vector);
}

pub open spec fn line_at_spec(i: u8) -> Line {
    if i == 0 {
        Line::DataSetReady
    } else if i == 1 {
        Line::DataTerminalReady
    } else if i == 2 {
        Line::RequestToSend
    } else if i == 3 {
        Line::SecondaryTransmit
    } else if i == 4 {
        Line::SecondaryReceive
    } else if i == 5 {
        Line::ClearToSend
    } else if i == 6 {
        Line::DataCarrierDetect
    } else {
        Line::Ring
    }
}

fn line_index_exec(l: Line) -> (r: u8)
    ensures
        r == line_index(l),
        r < 8,
{
    match l {
        Line::DataSetReady => 0,
        Line::DataTerminalReady => 1,
        Line::RequestToSend => 2,
        Line::SecondaryTransmit => 3,
        Line::SecondaryReceive => 4,
        Line::ClearToSend => 5,
        Line::DataCarrierDetect => 6,
        Line::Ring => 7,
    }
}

/// The codes of every line, together.
pub open spec fn all_codes(codes: ModemCodes) -> i32 {
    codes.data_set_ready | codes.data_terminal_ready | codes.request_to_send
        | codes.secondary_transmit | codes.secondary_receive | codes.clear_to_send
        | codes.data_carrier_detect | codes.ring
}

/// `raw` carries exactly the codes of the lines in `flags`, each in full,
/// and no bit outside the codes of all lines.
pub open spec fn raw_carries(raw: i32, codes: ModemCodes, flags: SerialLines) -> bool {
    &&& forall|l: Line|
        (flags.has(l) ==> raw & #[trigger] codes.code_of(l) == codes.code_of(l)) && (!flags.has(l)
            ==> raw & codes.code_of(l) == 0)
    &&& raw & !all_codes(codes) == 0
}

/// The code of the line at position `i` where the set holds it, else 0.
pub open spec fn code_if_held(flags: SerialLines, codes: ModemCodes, i: u8) -> i32 {
    if flags.has(line_at_spec(i)) {
        codes.code_of(line_at_spec(i))
    } else {
        0
    }
}

/// The codes of the lines of `flags` among the first `i` of the canonical
/// order, together.
pub open spec fn word_upto(flags: SerialLines, codes: ModemCodes, i: nat) -> i32
    decreases i,
{
    if i == 0 {
        0
    } else {
        word_upto(flags, codes, (i - 1) as nat) | code_if_held(flags, codes, (i - 1) as u8)
    }
}

/// The status word of a set of lines: the codes of its lines, together.
pub open spec fn lines_word(flags: SerialLines, codes: ModemCodes) -> i32 {
    word_upto(flags, codes, 8)
}

proof fn lemma_code_within_all(codes: ModemCodes, l: Line)
    ensures
        codes.code_of(l) & !all_codes(codes) == 0,
{
    let c0 = codes.data_set_ready;
    let c1 = codes.data_terminal_ready;
    let c2 = codes.request_to_send;
    let c3 = codes.secondary_transmit;
    let c4 = codes.secondary_receive;
    let c5 = codes.clear_to_send;
    let c6 = codes.data_carrier_detect;
    let c7 = codes.ring;
    let c = codes.code_of(l);
    assert(c == c0 || c == c1 || c == c2 || c == c3 || c == c4 || c == c5 || c == c6 || c == c7);
    assert(c & !(c0 | c1 | c2 | c3 | c4 | c5 | c6 | c7) == 0) by (bit_vector)
        requires
            c == c0 || c == c1 || c == c2 || c == c3 || c == c4 || c == c5 || c == c6 || c == c7,
    ;
}

proof fn lemma_or_within(x: i32, c: i32, m: i32)
    requires
        x & !m == 0,
        c & !m == 0,
    ensures
        (x | c) & !m == 0,
{
    assert((x | c) & !m == 0) by (bit_vector)
        requires
            x & !m == 0,
            c & !m == 0,
    ;
}

proof fn lemma_or_step(x: i32, c: i32, d: i32)
    ensures
        (x | c) & c == c,
        c & d == 0 ==> (x | c) & d == x & d,
{
    assert((x | c) & c == c) by (bit_vector);
    assert(c & d == 0 ==> (x | c) & d == x & d) by (bit_vector);
}

proof fn lemma_zero_and(d: i32)
    ensures
        0i32 & d == 0,
{
    assert(0i32 & d == 0) by (bit_vector);
}

impl SerialLines {
    /// The lines asserted in the status word `raw`; bits that stand for no
    /// line are dropped.
    pub fn from_raw(raw: i32, codes: &ModemCodes) -> (r: SerialLines)
        ensures
            forall|l: Line| #[trigger] r.has(l) == raw_has(raw, *codes, l),
    {
        let mut r = SerialLines::empty();
        let mut i: u8 = 0;
        while i < 8
            invariant
                i <= 8,
                forall|l: Line| #[trigger]
                    r.has(l) == (line_index(l) < i && raw_has(raw, *codes, l)),
            decreases 8 - i,
        {
            let l = line_at(i);
            if raw & codes.code(l) != 0 {
                r.insert(l);
            }
            proof {
                assert forall|k: Line| #[trigger]
                    r.has(k) == (line_index(k) < i + 1 && raw_has(raw, *codes, k)) by {
                    lemma_index_injective(k, l);
                    lemma_index_injective(l, k);
                }
            }
            i = i + 1;
        }
        proof {
            assert forall|l: Line| #[trigger] r.has(l) == raw_has(raw, *codes, l) by {
                lemma_index_injective(l, l);
            }
        }
        r
    }

    /// The status word that carries the code of each line in the set.
    pub fn to_raw(&self, codes: &ModemCodes) -> (r: i32)
        requires
            codes.wf(),
        ensures
            r == lines_word(*self, *codes),
            raw_carries(r, *codes, *self),
            forall|l: Line| #[trigger] raw_has(r, *codes, l) == self.has(l),
    {
        let mut raw: i32 = 0;
        let mut i: u8 = 0;
        proof {
            assert forall|l: Line| raw & #[trigger] codes.code_of(l) == 0 by {
                lemma_zero_and(codes.code_of(l));
            }
            lemma_zero_and(!all_codes(*codes));
        }
        while i < 8
            invariant
                i <= 8,
                codes.wf(),
                raw == word_upto(*self, *codes, i as nat),
                raw & !all_codes(*codes) == 0,
                forall|l: Line|
                    (line_index(l) < i && self.has(l) ==> raw & #[trigger] codes.code_of(l)
                        == codes.code_of(l)) && (!(line_index(l) < i && self.has(l)) ==> raw
                        & codes.code_of(l) == 0),
            decreases 8 - i,
        {
            let l = line_at(i);
            let old_raw = raw;
            if self.contains(l) {
                raw = raw | codes.code(l);
            }
            proof {
                lemma_code_within_all(*codes, l);
                lemma_or_within(old_raw, codes.code_of(l), all_codes(*codes));
                assert(old_raw | 0i32 == old_raw) by (bit_vector);
                assert(raw == word_upto(*self, *codes, (i + 1) as nat));
                assert forall|k: Line|
                    (line_index(k) < i + 1 && self.has(k) ==> raw & #[trigger] codes.code_of(k)
                        == codes.code_of(k)) && (!(line_index(k) < i + 1 && self.has(k)) ==> raw
                        & codes.code_of(k) == 0) by {
                    lemma_index_injective(k, l);
                    lemma_index_injective(l, k);
                    lemma_or_step(old_raw, codes.code_of(l), codes.code_of(k));
                    if k != l {
                        assert(codes.code_of(l) & codes.code_of(k) == 0);
                    }
                }
            }
            i = i + 1;
        }
        proof {
            assert forall|l: Line| #[trigger] raw_has(raw, *codes, l) == self.has(l) by {
                lemma_index_injective(l, l);
                assert(codes.code_of(l) != 0);
            }
            assert forall|l: Line|
                (self.has(l) ==> raw & #[trigger] codes.code_of(l) == codes.code_of(l)) && (
                !self.has(l) ==> raw & codes.code_of(l) == 0) by {
                lemma_index_injective(l, l);
            }
        }
        raw
    }
}

/// The status word after a request that asserts the lines whose codes
/// `request` carries: the OS sets those bits and keeps the others.
pub open spec fn status_after_assert(prior: i32, request: i32) -> i32 {
    prior | request
}

/// The status word after a request that deasserts the lines whose codes
/// `request` carries: the OS clears those bits and keeps the others.
pub open spec fn status_after_deassert(prior: i32, request: i32) -> i32 {
    prior & !request
}

/// Asserting a set of lines and then reading the status shows every line of
/// the set asserted and every other line as it was before, whatever that was.
pub proof fn lemma_assert_then_read(prior: i32, flags: SerialLines, codes: ModemCodes)
    requires
        codes.wf(),
    ensures
        forall|request: i32|
            raw_carries(request, codes, flags) ==> forall|l: Line|
                #[trigger] raw_has(status_after_assert(prior, request), codes, l) == (flags.has(l)
                    || raw_has(prior, codes, l)),
{
    assert forall|request: i32, l: Line|
        raw_carries(request, codes, flags) implies #[trigger] raw_has(
        status_after_assert(prior, request),
        codes,
        l,
    ) == (flags.has(l) || raw_has(prior, codes, l)) by {
        let c = codes.code_of(l);
        assert(c != 0);
        lemma_or_i32(prior, request, c);
    }
}

/// Deasserting a set of lines and then reading the status shows every line
/// of the set deasserted and every other line as it was before.
pub proof fn lemma_deassert_then_read(prior: i32, flags: SerialLines, codes: ModemCodes)
    requires
        codes.wf(),
    ensures
        forall|request: i32|
            raw_carries(request, codes, flags) ==> forall|l: Line|
                #[trigger] raw_has(status_after_deassert(prior, request), codes, l) == (!flags.has(
                    l,
                ) && raw_has(prior, codes, l)),
{
    assert forall|request: i32, l: Line|
        raw_carries(request, codes, flags) implies #[trigger] raw_has(
        status_after_deassert(prior, request),
        codes,
        l,
    ) == (!flags.has(l) && raw_has(prior, codes, l)) by {
        let c = codes.code_of(l);
        assert(c != 0);
        lemma_and_not_i32(prior, request, c);
    }
}

impl ModemCodes {
    /// Whether the table is well formed.
    pub fn is_valid(&self) -> (r: bool)
        ensures
            r == self.wf(),
    {
        let mut i: u8 = 0;
        while i < 8
            invariant
                i <= 8,
                forall|a: Line, b: Line|
                    line_index(a) < i ==> #[trigger] self.code_of(a) != 0 && (a != b
                        ==> self.code_of(a) & #[trigger] self.code_of(b) == 0),
            decreases 8 - i,
        {
            let a = line_at(i);
            let ca = self.code(a);
            if ca == 0 {
                return false;
            }
            let mut j: u8 = 0;
            while j < 8
                invariant
                    i < 8,
                    j <= 8,
                    line_index(a) == i,
                    ca == self.code_of(a),
                    ca != 0,
                    forall|x: Line, y: Line|
                        line_index(x) < i ==> #[trigger] self.code_of(x) != 0 && (x != y
                            ==> self.code_of(x) & #[trigger] self.code_of(y) == 0),
                    forall|b: Line|
                        line_index(b) < j && b != a ==> ca & #[trigger] self.code_of(b) == 0,
                decreases 8 - j,
            {
                let b = line_at(j);
                if j != i && ca & self.code(b) != 0 {
                    proof {
                        assert(a != b);
                    }
                    return false;
                }
                proof {
                    assert forall|k: Line|
                        line_index(k) < j + 1 && k != a implies ca & #[trigger] self.code_of(k)
                        == 0 by {
                        lemma_index_injective(k, b);
                        lemma_index_injective(k, a);
                    }
                }
                j = j + 1;
            }
            proof {
                assert forall|x: Line, y: Line|
                    line_index(x) < i + 1 implies #[trigger] self.code_of(x) != 0 && (x != y
                    ==> self.code_of(x) & #[trigger] self.code_of(y) == 0) by {
                    lemma_index_injective(x, a);
                    lemma_index_injective(y, y);
                }
            }
            i = i + 1;
        }
        proof {
            assert forall|x: Line| #[trigger] self.code_of(x) != 0 by {
                lemma_index_injective(x, x);
            }
            assert forall|x: Line, y: Line|
                x != y implies #[trigger] self.code_of(x) & #[trigger] self.code_of(y) == 0 by {
                lemma_index_injective(x, x);
            }
        }
        true
    }
}

proof fn lemma_word_upto_empty(flags: SerialLines, codes: ModemCodes, i: nat)
    requires
        i <= 8,
        forall|l: Line| !#[trigger] flags.has(l),
    ensures
        word_upto(flags, codes, i) == 0,
    decreases i,
{
    if i > 0 {
        lemma_word_upto_empty(flags, codes, (i - 1) as nat);
        assert(!flags.has(line_at_spec((i - 1) as u8)));
        assert(0i32 | 0i32 == 0) by (bit_vector);
    }
}

/// The status word of a set with no line is 0: a request for it changes
/// nothing.
pub proof fn lemma_word_of_empty(flags: SerialLines, codes: ModemCodes)
    requires
        forall|l: Line| !#[trigger] flags.has(l),
    ensures
        lines_word(flags, codes) == 0,
        forall|prior: i32|
            #![auto]
            status_after_assert(prior, lines_word(flags, codes)) == prior
                && status_after_deassert(prior, lines_word(flags, codes)) == prior,
{
    lemma_word_upto_empty(flags, codes, 8);
    assert forall|prior: i32|
        #![auto]
        status_after_assert(prior, 0) == prior && status_after_deassert(prior, 0) == prior by {
        assert(prior | 0i32 == prior && prior & !0i32 == prior) by (bit_vector);
    }
}

proof fn lemma_word_upto_union(
    a: SerialLines,
    b: SerialLines,
    u: SerialLines,
    codes: ModemCodes,
    i: nat,
)
    requires
        i <= 8,
        forall|l: Line| #[trigger] u.has(l) == (a.has(l) || b.has(l)),
    ensures
        word_upto(a, codes, i) | word_upto(b, codes, i) == word_upto(u, codes, i),
    decreases i,
{
    if i == 0 {
        assert(0i32 | 0i32 == 0) by (bit_vector);
    } else {
        let j = (i - 1) as nat;
        lemma_word_upto_union(a, b, u, codes, j);
        let wa = word_upto(a, codes, j);
        let wb = word_upto(b, codes, j);
        let x = code_if_held(a, codes, j as u8);
        let y = code_if_held(b, codes, j as u8);
        let z = code_if_held(u, codes, j as u8);
        let c = codes.code_of(line_at_spec(j as u8));
        assert(u.has(line_at_spec(j as u8)) == (a.has(line_at_spec(j as u8)) || b.has(
            line_at_spec(j as u8),
        )));
        assert(c | c == c && c | 0i32 == c && 0i32 | c == c && 0i32 | 0i32 == 0) by (bit_vector);
        assert(x | y == z);
        assert((wa | x) | (wb | y) == (wa | wb) | (x | y)) by (bit_vector);
    }
}

/// Asserting `a` and then `b` leaves the status word that asserting their
/// union `u` at once leaves.
pub proof fn lemma_assert_twice(
    prior: i32,
    a: SerialLines,
    b: SerialLines,
    u: SerialLines,
    codes: ModemCodes,
)
    requires
        forall|l: Line| #[trigger] u.has(l) == (a.has(l) || b.has(l)),
    ensures
        status_after_assert(
            status_after_assert(prior, lines_word(a, codes)),
            lines_word(b, codes),
        ) == status_after_assert(prior, lines_word(u, codes)),
{
    lemma_word_upto_union(a, b, u, codes, 8);
    let wa = lines_word(a, codes);
    let wb = lines_word(b, codes);
    assert((prior | wa) | wb == prior | (wa | wb)) by (bit_vector);
}

/// Deasserting the lines just asserted restores the status word, where none
/// of them was asserted before.
pub proof fn lemma_assert_then_deassert(prior: i32, flags: SerialLines, codes: ModemCodes)
    requires
        prior & lines_word(flags, codes) == 0,
    ensures
        status_after_deassert(
            status_after_assert(prior, lines_word(flags, codes)),
            lines_word(flags, codes),
        ) == prior,
{
    let w = lines_word(flags, codes);
    assert((prior | w) & !w == prior) by (bit_vector)
        requires
            prior & w == 0,
    ;
}

} // verus!
