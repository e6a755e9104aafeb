//! Probe descriptors and the probe selector filter.
//!
//! A selector token names a probe by serial, by `vid:pid`, or by
//! `vid:pid:serial`, with both ids written in 16-bit hexadecimal. The parse
//! rule and the matching rule are specified exactly and verified.

use vstd::prelude::*;
use vstd::string::StrSliceExecFns;
use crate::errors::ConsoleError;

verus! {

/// A read-only snapshot of one probe found at discovery time.
#[derive(Debug)]
pub struct ProbeDescriptor {
    pub vendor_id: u16,
    pub product_id: u16,
    pub serial_number: Option<String>,
    pub identifier: String,
}

/// The mathematical model of a probe descriptor: strings become character
/// sequences.
#[verifier::ext_equal]
pub ghost struct ProbeModel {
    pub vendor_id: u16,
    pub product_id: u16,
    pub serial_number: Option<Seq<char>>,
    pub identifier: Seq<char>,
}

impl View for ProbeDescriptor {
    type V = ProbeModel;

    open spec fn view(&self) -> ProbeModel {
        ProbeModel {
            vendor_id: self.vendor_id,
            product_id: self.product_id,
            serial_number: match self.serial_number {
                Some(sn) => Some(sn@),
                None => None,
            },
            identifier: self.identifier@,
        }
    }
}

impl Clone for ProbeDescriptor {
    fn clone(&self) -> (r: Self)
        ensures
            r@ == self@,
    {
        ProbeDescriptor {
            vendor_id: self.vendor_id,
            product_id: self.product_id,
            serial_number: match &self.serial_number {
                Some(sn) => Some(sn.clone()),
                None => None,
            },
            identifier: self.identifier.clone(),
        }
    }
}

/// A parsed probe selector: an optional (vendor id, product id) pair and an
/// optional serial string. Built once from a command-line token; immutable.
pub struct ProbeFilter {
    pub vid_pid: Option<(u16, u16)>,
    pub serial: Option<String>,
}

/// The mathematical model of a probe filter.
#[verifier::ext_equal]
pub ghost struct FilterModel {
    pub vid_pid: Option<(u16, u16)>,
    pub serial: Option<Seq<char>>,
}

impl View for ProbeFilter {
    type V = FilterModel;

    open spec fn view(&self) -> FilterModel {
        FilterModel {
            vid_pid: self.vid_pid,
            serial: match self.serial {
                Some(s) => Some(s@),
                None => None,
            },
        }
    }
}

/// Whether `c` is a hexadecimal digit.
pub open spec fn is_hex_digit(c: char) -> bool {
    let n = c as u32;
    (48 <= n && n <= 57) || (97 <= n && n <= 102) || (65 <= n && n <= 70)
}

/// The value of the hexadecimal digit `c`.
pub open spec fn hex_digit_value(c: char) -> nat
    recommends
        is_hex_digit(c),
{
    let n = c as u32;
    if 48 <= n && n <= 57 {
        (n - 48) as nat
    } else if 97 <= n && n <= 102 {
        (n - 97 + 10) as nat
    } else {
        (n - 65 + 10) as nat
    }
}

/// Whether `s` is a well-formed hexadecimal numeral: non-empty and made of
/// hexadecimal digits only.
pub open spec fn is_hex_part(s: Seq<char>) -> bool {
    s.len() > 0 && (forall|k: int| 0 <= k < s.len() ==> is_hex_digit(#[trigger] s[k]))
}

/// The value of the hexadecimal numeral `s`, most significant digit first.
pub open spec fn hex_value(s: Seq<char>) -> nat
    decreases s.len(),
{
    if s.len() == 0 {
        0
    } else {
        hex_value(s.drop_last()) * 16 + hex_digit_value(s.last())
    }
}

/// The positions of every `:` in `s`, in increasing order.
pub open spec fn colon_positions(s: Seq<char>) -> Seq<int>
    decreases s.len(),
{
    if s.len() == 0 {
        Seq::empty()
    } else {
        colon_positions(s.drop_last()) + if s.last() == ':' {
            seq![s.len() - 1]
        } else {
            Seq::empty()
        }
    }
}

/// What parsing a selector token yields: the token is split at its colons
/// into one part (a serial), two parts (two hexadecimal 16-bit ids) or
/// three parts (two ids and a serial); any other arity, a non-hexadecimal
/// id part, or an id beyond 16 bits is a format error (`None`).
pub open spec fn spec_parse_filter(s: Seq<char>) -> Option<FilterModel> {
    let ps = colon_positions(s);
    if ps.len() == 0 {
        Some(FilterModel { vid_pid: None, serial: Some(s) })
    } else if ps.len() == 1 {
        let vid = s.subrange(0, ps[0]);
        let pid = s.subrange(ps[0] + 1, s.len() as int);
        if is_hex_part(vid) && hex_value(vid) <= 0xffff && is_hex_part(pid) && hex_value(pid)
            <= 0xffff {
            Some(
                FilterModel {
                    vid_pid: Some((hex_value(vid) as u16, hex_value(pid) as u16)),
                    serial: None,
                },
            )
        } else {
            None
        }
    } else if ps.len() == 2 {
        let vid = s.subrange(0, ps[0]);
        let pid = s.subrange(ps[0] + 1, ps[1]);
        let serial = s.subrange(ps[1] + 1, s.len() as int);
        if is_hex_part(vid) && hex_value(vid) <= 0xffff && is_hex_part(pid) && hex_value(pid)
            <= 0xffff {
            Some(
                FilterModel {
                    vid_pid: Some((hex_value(vid) as u16, hex_value(pid) as u16)),
                    serial: Some(serial),
                },
            )
        } else {
            None
        }
    } else {
        None
    }
}

/// Unfolds `hex_value` one digit to the right: reading one more digit
/// multiplies the prefix value by 16 and adds the digit.
proof fn lemma_hex_value_step(s: Seq<char>, i: int)
    requires
        0 <= i < s.len(),
    ensures
        hex_value(s.take(i + 1)) == hex_value(s.take(i)) * 16 + hex_digit_value(s[i]),
{
    assert(s.take(i + 1).drop_last() =~= s.take(i));
    assert(s.take(i + 1).last() == s[i]);
}

/// The value of a hexadecimal numeral is at least the value of any of its
/// prefixes: appending digits never decreases the value.
proof fn lemma_hex_value_prefix(s: Seq<char>, j: int)
    requires
        0 <= j <= s.len(),
    ensures
        hex_value(s) >= hex_value(s.take(j)),
    decreases s.len() - j,
{
    if j == s.len() {
        assert(s.take(j) =~= s);
    } else {
        lemma_hex_value_step(s, j);
        lemma_hex_value_prefix(s, j + 1);
    }
}

/// Unfolds `colon_positions` one character to the right.
proof fn lemma_colon_positions_step(s: Seq<char>, i: int)
    requires
        0 <= i < s.len(),
    ensures
        colon_positions(s.take(i + 1)) == colon_positions(s.take(i)) + if s[i] == ':' {
            seq![i]
        } else {
            Seq::<int>::empty()
        },
{
    assert(s.take(i + 1).drop_last() =~= s.take(i));
    assert(s.take(i + 1).last() == s[i]);
}

/// Every colon position is a position of a `:` inside `s`, and the
/// positions are strictly increasing.
proof fn lemma_colon_positions_props(s: Seq<char>)
    ensures
        forall|k: int|
            0 <= k < colon_positions(s).len() ==> 0 <= #[trigger] colon_positions(s)[k] < s.len()
                && s[colon_positions(s)[k]] == ':',
        forall|k1: int, k2: int|
            0 <= k1 < k2 < colon_positions(s).len() ==> #[trigger] colon_positions(
                s,
            )[k1] < #[trigger] colon_positions(s)[k2],
    decreases s.len(),
{
    if s.len() > 0 {
        let t = s.drop_last();
        lemma_colon_positions_props(t);
        assert(forall|k: int| 0 <= k < t.len() ==> t[k] == s[k]);
        let ct = colon_positions(t);
        let extra = if s.last() == ':' {
            seq![s.len() - 1]
        } else {
            Seq::<int>::empty()
        };
        assert(colon_positions(s) == ct + extra);
        assert(forall|k: int| 0 <= k < ct.len() ==> #[trigger] (ct + extra)[k] == ct[k]);
        if s.last() == ':' {
            assert((ct + extra)[ct.len() as int] == s.len() - 1);
            assert(s[s.len() - 1] == ':');
        }
    }
}

/// Parses one hexadecimal id part: succeeds exactly when the part is a
/// non-empty string of hexadecimal digits whose value fits in 16 bits, and
/// then returns that value.
pub fn parse_hex_u16(part: &str) -> (r: Option<u16>)
    ensures
        r is Some <==> is_hex_part(part@) && hex_value(part@) <= 0xffff,
        r matches Some(v) ==> v as nat == hex_value(part@),
{
    let n = part.unicode_len();
    if n == 0 {
        return None;
    }
    let mut acc: u32 = 0;
    let mut i: usize = 0;
    while i < n
        invariant
            n == part@.len(),
            i <= n,
            forall|k: int| 0 <= k < i ==> is_hex_digit(#[trigger] part@[k]),
            acc as nat == hex_value(part@.take(i as int)),
            acc <= 0xffff,
        decreases n - i,
    {
        let c = part.get_char(i);
        let cv = c as u32;
        let d: u32 = if 48 <= cv && cv <= 57 {
            cv - 48
        } else if 97 <= cv && cv <= 102 {
            cv - 97 + 10
        } else if 65 <= cv && cv <= 70 {
            cv - 65 + 10
        } else {
            assert(!is_hex_digit(part@[i as int]));
            return None;
        };
        assert(d as nat == hex_digit_value(part@[i as int]));
        let next: u32 = acc * 16 + d;
        proof {
            lemma_hex_value_step(part@, i as int);
        }
        if next > 0xffff {
            proof {
                lemma_hex_value_prefix(part@, i + 1);
            }
            return None;
        }
        acc = next;
        i = i + 1;
    }
    proof {
        assert(part@.take(n as int) =~= part@);
    }
    Some(acc as u16)
}

impl ProbeFilter {
    /// Parses a probe selector token. Succeeds exactly on the inputs
    /// `spec_parse_filter` accepts, returning the filter it describes;
    /// every other token is an `InvalidFilterFormat` error.
    pub fn from_str(s: &str) -> (r: Result<ProbeFilter, ConsoleError>)
        ensures
            match r {
                Ok(f) => spec_parse_filter(s@) == Some(f@),
                Err(e) => spec_parse_filter(s@) is None && e is InvalidFilterFormat,
            },
    {
        let len = s.unicode_len();
        let mut colons: Vec<usize> = Vec::new();
        let mut i: usize = 0;
        while i < len
            invariant
                len == s@.len(),
                i <= len,
                colons@.map_values(|u: usize| u as int) == colon_positions(s@.take(i as int)),
            decreases len - i,
        {
            let c = s.get_char(i);
            proof {
                lemma_colon_positions_step(s@, i as int);
            }
            if c == ':' {
                colons.push(i);
                assert(colons@.map_values(|u: usize| u as int) =~= colon_positions(
                    s@.take(i as int),
                ) + seq![i as int]);
            }
            i = i + 1;
        }
        proof {
            assert(s@.take(len as int) =~= s@);
            lemma_colon_positions_props(s@);
        }
        let ghost ps = colon_positions(s@);
        if colons.len() == 0 {
            Ok(ProbeFilter { vid_pid: None, serial: Some(s.to_owned()) })
        } else if colons.len() == 1 {
            let c1 = colons[0];
            assert(c1 as int == ps[0]);
            let vid_part = s.substring_char(0, c1);
            let pid_part = s.substring_char(c1 + 1, len);
            match (parse_hex_u16(vid_part), parse_hex_u16(pid_part)) {
                (Some(vid), Some(pid)) => Ok(
                    ProbeFilter { vid_pid: Some((vid, pid)), serial: None },
                ),
                _ => Err(ConsoleError::InvalidFilterFormat),
            }
        } else if colons.len() == 2 {
            let c1 = colons[0];
            let c2 = colons[1];
            assert(c1 as int == ps[0] && c2 as int == ps[1]);
            let vid_part = s.substring_char(0, c1);
            let pid_part = s.substring_char(c1 + 1, c2);
            match (parse_hex_u16(vid_part), parse_hex_u16(pid_part)) {
                (Some(vid), Some(pid)) => {
                    let serial_part = s.substring_char(c2 + 1, len);
                    Ok(ProbeFilter { vid_pid: Some((vid, pid)), serial: Some(
                        serial_part.to_owned(),
                    ) })
                },
                _ => Err(ConsoleError::InvalidFilterFormat),
            }
        } else {
            Err(ConsoleError::InvalidFilterFormat)
        }
    }

    /// Whether this filter accepts the probe: every field that is set must
    /// agree with the probe, and a required serial never matches a probe
    /// without one. A filter with no field set accepts every probe.
    pub fn matches(&self, probe: &ProbeDescriptor) -> (r: bool)
        ensures
            r == filter_matches(self@, probe@),
    {
        if let Some((vid, pid)) = self.vid_pid {
            if probe.vendor_id != vid || probe.product_id != pid {
                return false;
            }
        }
        if let Some(serial) = &self.serial {
            match &probe.serial_number {
                Some(probe_serial) => {
                    if !probe_serial.eq(serial) {
                        return false;
                    }
                },
                None => {
                    return false;
                },
            }
        }
        true
    }
}

/// The matching rule: a set vid/pid pair must equal the probe's ids, a set
/// serial must equal the probe's serial (a probe without a serial never
/// matches a required serial), and an unset field constrains nothing.
pub open spec fn filter_matches(f: FilterModel, p: ProbeModel) -> bool {
    &&& match f.vid_pid {
        Some((vid, pid)) => p.vendor_id == vid && p.product_id == pid,
        None => true,
    }
    &&& match f.serial {
        Some(fs) => match p.serial_number {
            Some(probe_serial) => probe_serial == fs,
            None => false,
        },
        None => true,
    }
}

} // verus!
