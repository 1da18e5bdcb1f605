use vstd::prelude::*;
use vstd::string::StringSliceAdditionalSpecFns;

use crate::error::PaymentError;

verus! {

#[verifier::external_type_specification]
#[verifier::external_body]
pub struct ExTransaction(elements::Transaction);

/// Plain-value summary of a lockup transaction: everything the zero-conf
/// claim heuristic reads.
#[derive(Clone, Copy, Debug, PartialEq, Eq, Structural)]
pub struct LockupTxInfo {
    /// Sum of the transaction's explicit fee outputs, in satoshi (saturating).
    pub fees_sat: u64,
    /// Virtual size of the transaction in vbytes.
    pub vsize: u64,
    /// Whether any input signals opt-in replace-by-fee.
    pub rbf_explicit: bool,
}

/// The summary that the consensus decode of these serialized bytes yields:
/// `None` where the bytes are not a valid transaction, else the virtual
/// size, the saturating sum of the explicit fee outputs, and the
/// replace-by-fee signal. The decode and the three reads depend on the bytes
/// alone, so the result carries a name rather than a transcription of the
/// consensus rules.
pub uninterp spec fn lockup_summary_of(bytes: Seq<u8>) -> Option<LockupTxInfo>;

/// Relies on `elements::encode::deserialize` (encode.rs), and on
/// `Transaction::vsize`, `TxOut::is_fee`, `Value::explicit` and
/// `Sequence::is_rbf` (transaction.rs, confidential.rs): all are functions
/// of the serialized bytes alone, so what they yield is tied to
/// `lockup_summary_of`. The fee outputs' explicit values are handed out one
/// by one, in output order, and summed by verified code — no outside
/// arithmetic runs on them, so a crafted transaction with huge fee outputs
/// cannot overflow here.
#[verifier::external_body]
fn decode_lockup_summary(bytes: &Vec<u8>) -> (r: Option<(u64, Vec<u64>, Vec<bool>)>)
    ensures
        (r is Some) == (lockup_summary_of(bytes@) is Some),
        r matches Some(s) ==> lockup_summary_of(bytes@) matches Some(info) && {
            &&& info.vsize == s.0
            &&& info.fees_sat as int == (if spec_sum_sat(s.1@) <= u64::MAX as int {
                spec_sum_sat(s.1@)
            } else {
                u64::MAX as int
            })
            &&& info.rbf_explicit == exists|i: int| 0 <= i < s.2@.len() && s.2@[i]
        },
{
    match elements::encode::deserialize::<elements::Transaction>(bytes.as_slice()) {
        Ok(tx) => Some(
            (
                tx.vsize() as u64,
                tx.output.iter().filter(|o| o.is_fee()).filter_map(|o| o.value.explicit()).collect(),
                tx.input.iter().map(|i| i.sequence.is_rbf()).collect(),
            ),
        ),
        Err(_) => None,
    }
}

pub open spec fn spec_is_hex_char(c: char) -> bool {
    ('0' <= c && c <= '9') || ('a' <= c && c <= 'f') || ('A' <= c && c <= 'F')
}

/// Numeric value of a hex digit character (0 for non-digits).
pub open spec fn spec_hex_char_val(c: char) -> u8 {
    if '0' <= c && c <= '9' {
        ((c as u8) - 48) as u8
    } else if 'a' <= c && c <= 'f' {
        ((c as u8) - 87) as u8
    } else if 'A' <= c && c <= 'F' {
        ((c as u8) - 55) as u8
    } else {
        0
    }
}

pub open spec fn spec_is_hex_str(s: Seq<char>) -> bool {
    s.len() % 2 == 0 && forall|i: int| 0 <= i < s.len() ==> spec_is_hex_char(#[trigger] s[i])
}

pub open spec fn spec_hex_byte(hi: char, lo: char) -> u8 {
    (spec_hex_char_val(hi) * 16 + spec_hex_char_val(lo)) as u8
}

/// The bytes a well-formed hex string denotes.
pub open spec fn spec_hex_decoded(s: Seq<char>) -> Seq<u8> {
    Seq::new(s.len() / 2, |i: int| spec_hex_byte(s[2 * i], s[2 * i + 1]))
}

/// The lockup transaction summary a raw hex payload denotes: `None` where
/// the payload is not valid hex or its bytes do not decode.
pub open spec fn spec_lockup_tx_of(h: Seq<char>) -> Option<LockupTxInfo> {
    if spec_is_hex_str(h) {
        lockup_summary_of(spec_hex_decoded(h))
    } else {
        None
    }
}

/// Value of one hex digit byte (the characters are ASCII here).
fn hex_val(b: u8) -> (r: Option<u8>)
    ensures
        b < 128 ==> (r is Some) == spec_is_hex_char(b as char),
        b < 128 ==> (r matches Some(v) ==> v == spec_hex_char_val(b as char) && v < 16),
        b >= 128 ==> r is None,
{
    if 48 <= b && b <= 57 {
        Some(b - 48)
    } else if 97 <= b && b <= 102 {
        Some(b - 87)
    } else if 65 <= b && b <= 70 {
        Some(b - 55)
    } else {
        None
    }
}

/// Decodes a hex string into bytes; `None` exactly on malformed input.
pub fn hex_to_bytes(s: &str) -> (r: Option<Vec<u8>>)
    ensures
        (r is Some) == spec_is_hex_str(s@),
        r matches Some(v) ==> v@ == spec_hex_decoded(s@),
{
    if !s.is_ascii() {
        proof {
            let w = choose|i: int|
                0 <= i < s@.len() && !('\0' <= #[trigger] s@[i] && s@[i] <= '\u{7f}');
            assert(!spec_is_hex_char(s@[w]));
        }
        return None;
    }
    proof {
        vstd::string::is_ascii_spec_bytes(s);
    }
    let bytes = s.as_bytes();
    let n = bytes.len();
    if n % 2 != 0 {
        return None;
    }
    let mut out: Vec<u8> = Vec::new();
    let mut k: usize = 0;
    while k < n
        invariant
            k <= n,
            k % 2 == 0,
            n % 2 == 0,
            n == bytes@.len(),
            n == s@.len(),
            bytes@ == Seq::new(s@.len(), |i: int| s@[i] as u8),
            vstd::string::is_ascii(s),
            out@.len() == k / 2,
            forall|i: int|
                0 <= i < out@.len() ==> #[trigger] out@[i] == spec_hex_byte(
                    s@[2 * i],
                    s@[2 * i + 1],
                ),
            forall|i: int| 0 <= i < k ==> spec_is_hex_char(#[trigger] s@[i]),
        decreases n - k,
    {
        proof {
            assert(s@[k as int] as u8 == bytes@[k as int]);
            assert(s@[k as int] <= '\u{7f}');
        }
        let hi = match hex_val(bytes[k]) {
            Some(v) => v,
            None => {
                return None;
            },
        };
        let lo = match hex_val(bytes[k + 1]) {
            Some(v) => v,
            None => {
                return None;
            },
        };
        out.push(hi * 16 + lo);
        k += 2;
    }
    proof {
        assert(out@ =~= spec_hex_decoded(s@));
    }
    Some(out)
}

/// Sum of fee values, saturating at the largest representable amount.
pub open spec fn spec_sum_sat(s: Seq<u64>) -> int
    decreases s.len(),
{
    if s.len() == 0 {
        0
    } else {
        spec_sum_sat(s.drop_last()) + s.last()
    }
}

proof fn lemma_sum_sat_nonneg(s: Seq<u64>)
    ensures
        spec_sum_sat(s) >= 0,
    decreases s.len(),
{
    if s.len() > 0 {
        lemma_sum_sat_nonneg(s.drop_last());
    }
}

/// Saturating sum of a list of satoshi values.
fn sum_sat(values: &Vec<u64>) -> (r: u64)
    ensures
        r as int == if spec_sum_sat(values@) <= u64::MAX as int {
            spec_sum_sat(values@)
        } else {
            u64::MAX as int
        },
{
    let n = values.len();
    let mut acc: u64 = 0;
    let mut k: usize = 0;
    while k < n
        invariant
            k <= n,
            n == values@.len(),
            acc as int == if spec_sum_sat(values@.take(k as int)) <= u64::MAX as int {
                spec_sum_sat(values@.take(k as int))
            } else {
                u64::MAX as int
            },
        decreases n - k,
    {
        let v = values[k];
        proof {
            assert(values@.take(k + 1).drop_last() =~= values@.take(k as int));
            assert(values@.take(k + 1).last() == values@[k as int]);
            lemma_sum_sat_nonneg(values@.take(k as int));
        }
        if v <= u64::MAX - acc {
            acc = acc + v;
        } else {
            acc = u64::MAX;
        }
        k += 1;
    }
    proof {
        assert(values@.take(n as int) =~= values@);
    }
    acc
}

/// Whether any flag is set.
fn any_true(flags: &Vec<bool>) -> (r: bool)
    ensures
        r == exists|i: int| 0 <= i < flags@.len() && flags@[i],
{
    let n = flags.len();
    let mut k: usize = 0;
    while k < n
        invariant
            k <= n,
            n == flags@.len(),
            forall|j: int| 0 <= j < k ==> !flags@[j],
        decreases n - k,
    {
        if flags[k] {
            return true;
        }
        k += 1;
    }
    false
}

/// Parses a raw lockup transaction from its hex encoding and returns the
/// summary the zero-conf claim heuristic reads. Exactly the well-formed
/// payloads succeed — valid hex whose bytes decode as a transaction — and
/// the result is the named decode of those bytes: total explicit fees
/// (verified saturating sum), virtual size, and the replace-by-fee signal.
pub fn parse_lockup_tx(raw_tx_hex: &str) -> (r: Result<LockupTxInfo, PaymentError>)
    ensures
        match spec_lockup_tx_of(raw_tx_hex@) {
            Some(info) => r == Ok::<LockupTxInfo, PaymentError>(info),
            None => r is Err,
        },
        r matches Err(e) ==> e is Generic,
{
    let bytes = match hex_to_bytes(raw_tx_hex) {
        Some(b) => b,
        None => {
            return Err(
                PaymentError::Generic { err: "lockup transaction is not valid hex".to_owned() },
            );
        },
    };
    let summary = match decode_lockup_summary(&bytes) {
        Some(s) => s,
        None => {
            return Err(
                PaymentError::Generic { err: "could not parse lockup transaction".to_owned() },
            );
        },
    };
    let fees_sat = sum_sat(&summary.1);
    let rbf_explicit = any_true(&summary.2);
    let info = LockupTxInfo { fees_sat, vsize: summary.0, rbf_explicit };
    proof {
        assert(lockup_summary_of(bytes@) == Some(info));
    }
    Ok(info)
}

} // verus!
