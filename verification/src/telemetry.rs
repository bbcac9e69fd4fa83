//! Decoder of the device's diagnostic telemetry stream.
//!
//! Telemetry arrives as a sequence of two-byte records.  The high byte's
//! top nibble names the overall protocol state, its low nibble the control
//! sub-state; the low byte is a one-hot mask naming the bulk sub-state.
//! Every record decodes to one labeled line, numbered from 0; unrecognized
//! values decode to an explicit "unknown" label, never to a failure.

use vstd::prelude::*;

verus! {

/// The decimal digit character of `d`.
pub open spec fn spec_digit(d: int) -> char {
    if d == 0 {
        '0'
    } else if d == 1 {
        '1'
    } else if d == 2 {
        '2'
    } else if d == 3 {
        '3'
    } else if d == 4 {
        '4'
    } else if d == 5 {
        '5'
    } else if d == 6 {
        '6'
    } else if d == 7 {
        '7'
    } else if d == 8 {
        '8'
    } else {
        '9'
    }
}

/// The decimal digit string of `n`, most significant digit first.
pub open spec fn spec_dec(n: nat) -> Seq<char>
    decreases n,
{
    if n < 10 {
        seq![spec_digit(n as int)]
    } else {
        spec_dec(n / 10) + seq![spec_digit((n % 10) as int)]
    }
}

/// `k` space characters.
pub open spec fn spec_spaces(k: nat) -> Seq<char>
    decreases k,
{
    if k == 0 {
        Seq::empty()
    } else {
        spec_spaces((k - 1) as nat).push(' ')
    }
}

/// The decimal digit string of `n`, right-aligned in a field of width 5.
pub open spec fn spec_pad5(n: nat) -> Seq<char> {
    let digits = spec_dec(n);
    if digits.len() >= 5 {
        digits
    } else {
        spec_spaces((5 - digits.len()) as nat) + digits
    }
}

/// The overall-state label of the high byte's top nibble.
pub open spec fn spec_overall(hi: u8) -> Seq<char> {
    let v = hi >> 4;
    if v == 0x01 {
        "ST_IDLE"@
    } else if v == 0x02 {
        "ST_CTRL"@
    } else if v == 0x04 {
        "ST_BULK"@
    } else if v == 0x08 {
        "ST_DUMP"@
    } else {
        "- XXX -"@
    }
}

/// The control sub-state label of the high byte's low nibble.
pub open spec fn spec_ctrl(hi: u8) -> Seq<char> {
    let v = hi & 0x0f;
    if v == 0x00 {
        "CTL_DONE      "@
    } else if v == 0x01 {
        "CTL_SETUP_RX  "@
    } else if v == 0x02 {
        "CTL_SETUP_ACK "@
    } else if v == 0x03 {
        "CTL_DATA_TOK  "@
    } else if v == 0x04 {
        "CTL_DATO_RX   "@
    } else if v == 0x05 {
        "CTL_DATO_ACK  "@
    } else if v == 0x06 {
        "CTL_DATI_TX   "@
    } else if v == 0x07 {
        "CTL_DATI_ACK  "@
    } else if v == 0x08 {
        "CTL_STATUS_TOK"@
    } else if v == 0x09 {
        "CTL_STATUS_RX "@
    } else if v == 0x0a {
        "CTL_STATUS_TX "@
    } else if v == 0x0b {
        "CTL_STATUS_ACK"@
    } else {
        "- UNKNOWN -   "@
    }
}

/// The bulk sub-state label of the low byte's one-hot mask.
pub open spec fn spec_bulk(lo: u8) -> Seq<char> {
    if lo == 0x01 {
        "BLK_IDLE    "@
    } else if lo == 0x02 {
        "BLK_DATI_TX "@
    } else if lo == 0x04 {
        "BLK_DATI_ZDP"@
    } else if lo == 0x08 {
        "BLK_DATI_ACK"@
    } else if lo == 0x10 {
        "BLK_DATO_RX "@
    } else if lo == 0x20 {
        "BLK_DATO_ACK"@
    } else if lo == 0x40 {
        "BLK_DATO_ERR"@
    } else if lo == 0x80 {
        "BLK_DONE    "@
    } else {
        "- UNKNOWN - "@
    }
}

/// The full telemetry line of record `n` with raw bytes `lo` and `hi`.
pub open spec fn spec_to_state(n: nat, lo: u8, hi: u8) -> Seq<char> {
    spec_pad5(n) + "  ->  { "@ + spec_overall(hi) + " : "@ + spec_ctrl(hi) + " : "@ + spec_bulk(
        lo,
    ) + " }"@
}

/// The decimal digit string of a digit value, as a one-character slice.
fn digit_str(d: u8) -> (r: &'static str)
    requires
        d < 10,
    ensures
        r@ == seq![spec_digit(d as int)],
{
    if d == 0 {
        proof {
            reveal_strlit("0");
            assert("0"@ =~= seq![spec_digit(0)]);
        }
        "0"
    } else if d == 1 {
        proof {
            reveal_strlit("1");
            assert("1"@ =~= seq![spec_digit(1)]);
        }
        "1"
    } else if d == 2 {
        proof {
            reveal_strlit("2");
            assert("2"@ =~= seq![spec_digit(2)]);
        }
        "2"
    } else if d == 3 {
        proof {
            reveal_strlit("3");
            assert("3"@ =~= seq![spec_digit(3)]);
        }
        "3"
    } else if d == 4 {
        proof {
            reveal_strlit("4");
            assert("4"@ =~= seq![spec_digit(4)]);
        }
        "4"
    } else if d == 5 {
        proof {
            reveal_strlit("5");
            assert("5"@ =~= seq![spec_digit(5)]);
        }
        "5"
    } else if d == 6 {
        proof {
            reveal_strlit("6");
            assert("6"@ =~= seq![spec_digit(6)]);
        }
        "6"
    } else if d == 7 {
        proof {
            reveal_strlit("7");
            assert("7"@ =~= seq![spec_digit(7)]);
        }
        "7"
    } else if d == 8 {
        proof {
            reveal_strlit("8");
            assert("8"@ =~= seq![spec_digit(8)]);
        }
        "8"
    } else {
        proof {
            reveal_strlit("9");
            assert("9"@ =~= seq![spec_digit(9)]);
        }
        "9"
    }
}

/// The decimal digit string of `n`.
fn dec_string(n: usize) -> (r: String)
    ensures
        r@ == spec_dec(n as nat),
    decreases n,
{
    if n < 10 {
        String::from_str(digit_str(n as u8))
    } else {
        proof {
            assert(n / 10 < n) by (nonlinear_arith)
                requires
                    n >= 10,
            ;
        }
        let mut s = dec_string(n / 10);
        s.append(digit_str((n % 10) as u8));
        s
    }
}

/// The decimal digit string of `n`, right-aligned in a field of width 5.
fn pad5_string(n: usize) -> (r: String)
    ensures
        r@ == spec_pad5(n as nat),
{
    let digits = dec_string(n);
    let l = digits.as_str().unicode_len();
    let pad: usize = if l >= 5 {
        0
    } else {
        5 - l
    };
    let mut out = String::new();
    let mut k: usize = 0;
    proof {
        reveal_strlit(" ");
    }
    while k < pad
        invariant
            k <= pad,
            out@ =~= spec_spaces(k as nat),
            " "@ =~= seq![' '],
        decreases pad - k,
    {
        out.append(" ");
        k += 1;
        proof {
            assert(out@ =~= spec_spaces(k as nat));
        }
    }
    out.append(digits.as_str());
    proof {
        assert(out@ =~= spec_pad5(n as nat));
    }
    out
}

/// The overall-state label of the high byte's top nibble.
fn overall_label(hi: u8) -> (r: &'static str)
    ensures
        r@ == spec_overall(hi),
{
    let v = hi >> 4;
    if v == 0x01 {
        "ST_IDLE"
    } else if v == 0x02 {
        "ST_CTRL"
    } else if v == 0x04 {
        "ST_BULK"
    } else if v == 0x08 {
        "ST_DUMP"
    } else {
        "- XXX -"
    }
}

/// The control sub-state label of the high byte's low nibble.
fn ctrl_label(hi: u8) -> (r: &'static str)
    ensures
        r@ == spec_ctrl(hi),
{
    let v = hi & 0x0f;
    if v == 0x00 {
        "CTL_DONE      "
    } else if v == 0x01 {
        "CTL_SETUP_RX  "
    } else if v == 0x02 {
        "CTL_SETUP_ACK "
    } else if v == 0x03 {
        "CTL_DATA_TOK  "
    } else if v == 0x04 {
        "CTL_DATO_RX   "
    } else if v == 0x05 {
        "CTL_DATO_ACK  "
    } else if v == 0x06 {
        "CTL_DATI_TX   "
    } else if v == 0x07 {
        "CTL_DATI_ACK  "
    } else if v == 0x08 {
        "CTL_STATUS_TOK"
    } else if v == 0x09 {
        "CTL_STATUS_RX "
    } else if v == 0x0a {
        "CTL_STATUS_TX "
    } else if v == 0x0b {
        "CTL_STATUS_ACK"
    } else {
        "- UNKNOWN -   "
    }
}

/// The bulk sub-state label of the low byte's one-hot mask.
fn bulk_label(lo: u8) -> (r: &'static str)
    ensures
        r@ == spec_bulk(lo),
{
    if lo == 0x01 {
        "BLK_IDLE    "
    } else if lo == 0x02 {
        "BLK_DATI_TX "
    } else if lo == 0x04 {
        "BLK_DATI_ZDP"
    } else if lo == 0x08 {
        "BLK_DATI_ACK"
    } else if lo == 0x10 {
        "BLK_DATO_RX "
    } else if lo == 0x20 {
        "BLK_DATO_ACK"
    } else if lo == 0x40 {
        "BLK_DATO_ERR"
    } else if lo == 0x80 {
        "BLK_DONE    "
    } else {
        "- UNKNOWN - "
    }
}

/// Decode one telemetry record into its labeled line: the record number
/// right-aligned to width 5, then the overall state, the control sub-state
/// and the bulk sub-state labels.
pub fn to_state(index: usize, lo: u8, hi: u8) -> (r: String)
    ensures
        r@ == spec_to_state(index as nat, lo, hi),
{
    let mut out = pad5_string(index);
    out.append("  ->  { ");
    out.append(overall_label(hi));
    out.append(" : ");
    out.append(ctrl_label(hi));
    out.append(" : ");
    out.append(bulk_label(lo));
    out.append(" }");
    proof {
        assert(out@ =~= spec_to_state(index as nat, lo, hi));
    }
    out
}

/// Decode a telemetry byte stream two bytes at a time into labeled lines,
/// numbered by record index from 0.  A trailing odd byte is ignored.
pub fn decode_telemetry(data: &Vec<u8>) -> (lines: Vec<String>)
    ensures
        lines@.len() == data@.len() / 2,
        forall|i: int|
            0 <= i < lines@.len() ==> lines@[i]@ == spec_to_state(
                i as nat,
                data@[2 * i],
                data@[2 * i + 1],
            ),
{
    let dlen = data.len();
    let count = dlen / 2;
    let mut lines: Vec<String> = Vec::new();
    let mut i: usize = 0;
    while i < count
        invariant
            i <= count,
            dlen == data@.len(),
            count == data@.len() / 2,
            2 * count <= dlen,
            lines@.len() == i,
            forall|k: int|
                0 <= k < i ==> lines@[k]@ == spec_to_state(
                    k as nat,
                    data@[2 * k],
                    data@[2 * k + 1],
                ),
        decreases count - i,
    {
        proof {
            assert(2 * i + 1 < 2 * count);
        }
        let lo = data[2 * i];
        let hi = data[2 * i + 1];
        let line = to_state(i, lo, hi);
        lines.push(line);
        i += 1;
    }
    lines
}

} // verus!
