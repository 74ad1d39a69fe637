//! IPv4 networks in CIDR notation.

use vstd::prelude::*;
use vstd::string::*;
use vstd::utf8::*;

use crate::text::{
    decimal, decimal_is_injective, decimal_is_numeral, digit_char, digits_value,
    digits_value_grows, is_digit,
};

verus! {

/// An IPv4 address with the length of its network prefix.
#[derive(Debug, Clone, Copy, PartialEq, Eq, Structural)]
pub struct Ipv4Net {
    pub a: u8,
    pub b: u8,
    pub c: u8,
    pub d: u8,
    pub prefix_len: u8,
}

impl Ipv4Net {
    /// Whether the prefix is no longer than the address.
    pub open spec fn wf(self) -> bool {
        self.prefix_len <= 32
    }
}

/// A network in CIDR notation: the four octets in decimal with dots between
/// them, `/`, and the prefix length in decimal; no numeral has a sign, a
/// leading zero or white space.
pub open spec fn cidr_text(net: Ipv4Net) -> Seq<char> {
    decimal(net.a as nat) + seq!['.'] + decimal(net.b as nat) + seq!['.'] + decimal(net.c as nat)
        + seq!['.'] + decimal(net.d as nat) + seq!['/'] + decimal(net.prefix_len as nat)
}

/// The text whose characters are the given ASCII bytes.
pub open spec fn ascii_text(bytes: Seq<u8>) -> Seq<char> {
    Seq::new(bytes.len(), |i: int| bytes[i] as char)
}

/// Whether the numeral of `value`, a number up to `limit`, stands in `text`
/// from `start` to `end` and no digit follows it.
pub open spec fn numeral_at(text: Seq<char>, start: int, limit: nat, value: nat, end: int) -> bool {
    &&& 0 <= start <= end <= text.len()
    &&& value <= limit
    &&& text.subrange(start, end) == decimal(value)
    &&& (end == text.len() || !is_digit(text[end]))
}

/// A numeral in a text is a run of digits, and its first digit is `0` only
/// where it is the whole numeral.
proof fn numeral_shape(text: Seq<char>, start: int, limit: nat, value: nat, end: int)
    requires
        numeral_at(text, start, limit, value, end),
    ensures
        start < end,
        forall|k: int| start <= k < end ==> is_digit(#[trigger] text[k]),
        text[start] == '0' ==> end == start + 1,
        digits_value(text.subrange(start, end)) == value,
{
    decimal_is_numeral(value);
    let d = decimal(value);
    assert(d.len() == end - start);
    assert forall|k: int| start <= k < end implies is_digit(#[trigger] text[k]) by {
        assert(text[k] == text.subrange(start, end)[k - start]);
        assert(is_digit(d[k - start]));
    }
    assert(text[start] == text.subrange(start, end)[0]);
}

/// Reads the numeral that stands in `bytes` at `start`: its value, which is
/// at most `limit`, and the position after it.
fn scan_number(bytes: &[u8], start: usize, limit: u32) -> (r: Option<(u32, usize)>)
    requires
        start <= bytes.len(),
        limit <= 0xffff,
    ensures
        match r {
            Some((value, end)) => {
                &&& numeral_at(ascii_text(bytes@), start as int, limit as nat, value as nat, end as int)
                &&& forall|v: nat, e: int| #[trigger]
                    numeral_at(ascii_text(bytes@), start as int, limit as nat, v, e) ==> v == value
                        && e == end
            },
            None => forall|v: nat, e: int|
                !#[trigger] numeral_at(ascii_text(bytes@), start as int, limit as nat, v, e),
        },
{
    let ghost text = ascii_text(bytes@);
    let mut end: usize = start;
    let mut value: u32 = 0;
    while end < bytes.len() && 0x30 <= bytes[end] && bytes[end] <= 0x39
        invariant
            start <= end <= bytes.len(),
            limit <= 0xffff,
            text == ascii_text(bytes@),
            forall|k: int| start <= k < end ==> is_digit(#[trigger] text[k]),
            end > start ==> text.subrange(start as int, end as int) == decimal(value as nat),
            end == start ==> value == 0,
            value <= limit,
        decreases bytes.len() - end,
    {
        let digit: u32 = (bytes[end] - 0x30) as u32;
        assert(is_digit(text[end as int]));
        if end > start && value == 0 {
            proof {
                assert(decimal(0) =~= seq!['0']);
                assert(text.subrange(start as int, end as int).len() == 1);
                assert(text[start as int] == text.subrange(start as int, end as int)[0]);
                assert forall|v: nat, e: int| !#[trigger] numeral_at(
                    text,
                    start as int,
                    limit as nat,
                    v,
                    e,
                ) by {
                    if numeral_at(text, start as int, limit as nat, v, e) {
                        numeral_shape(text, start as int, limit as nat, v, e);
                    }
                }
            }
            return None;
        }
        let next: u32 = value * 10 + digit;
        proof {
            let run = text.subrange(start as int, end + 1);
            assert(text[end as int] == digit_char(digit as int));
            if end == start {
                assert(run =~= seq![digit_char(digit as int)]);
            } else {
                assert(run =~= text.subrange(start as int, end as int).push(text[end as int]));
                assert(next / 10 == value && next % 10 == digit);
            }
            assert(run == decimal(next as nat));
        }
        if next > limit {
            proof {
                assert forall|v: nat, e: int| !#[trigger] numeral_at(
                    text,
                    start as int,
                    limit as nat,
                    v,
                    e,
                ) by {
                    if numeral_at(text, start as int, limit as nat, v, e) {
                        numeral_shape(text, start as int, limit as nat, v, e);
                        assert(e > end);
                        let whole = text.subrange(start as int, e);
                        assert forall|i: int| 0 <= i < whole.len() implies is_digit(
                            #[trigger] whole[i],
                        ) by {
                            assert(whole[i] == text[start + i]);
                        }
                        digits_value_grows(whole, end + 1 - start);
                        assert(whole.subrange(0, end + 1 - start) =~= text.subrange(
                            start as int,
                            end + 1,
                        ));
                        decimal_is_numeral(next as nat);
                    }
                }
            }
            return None;
        }
        value = next;
        end = end + 1;
    }
    if end == start {
        proof {
            assert forall|v: nat, e: int| !#[trigger] numeral_at(
                text,
                start as int,
                limit as nat,
                v,
                e,
            ) by {
                if numeral_at(text, start as int, limit as nat, v, e) {
                    numeral_shape(text, start as int, limit as nat, v, e);
                    assert(is_digit(text[start as int]));
                }
            }
        }
        return None;
    }
    proof {
        assert forall|v: nat, e: int| #[trigger]
            numeral_at(text, start as int, limit as nat, v, e) implies v == value && e == end by {
            numeral_shape(text, start as int, limit as nat, v, e);
            if e < end {
                assert(is_digit(text[e]));
            }
            if e > end {
                assert(is_digit(text[end as int]));
            }
            decimal_is_injective(v, value as nat);
        }
    }
    Some((value, end))
}

/// Whether `text` holds the five numerals of `net`, the first four ending
/// at `end_a` to `end_d`, each followed by its separator, and the last ending the
/// text.
pub open spec fn fields_at(text: Seq<char>, net: Ipv4Net, end_a: int, end_b: int, end_c: int, end_d: int) -> bool {
    &&& numeral_at(text, 0, 255, net.a as nat, end_a)
    &&& end_a < text.len() && text[end_a] == '.'
    &&& numeral_at(text, end_a + 1, 255, net.b as nat, end_b)
    &&& end_b < text.len() && text[end_b] == '.'
    &&& numeral_at(text, end_b + 1, 255, net.c as nat, end_c)
    &&& end_c < text.len() && text[end_c] == '.'
    &&& numeral_at(text, end_c + 1, 255, net.d as nat, end_d)
    &&& end_d < text.len() && text[end_d] == '/'
    &&& numeral_at(text, end_d + 1, 32, net.prefix_len as nat, text.len() as int)
}

/// A text that holds the five numerals of a network with their separators
/// is the network's notation.
proof fn fields_make_text(text: Seq<char>, net: Ipv4Net, end_a: int, end_b: int, end_c: int, end_d: int)
    requires
        fields_at(text, net, end_a, end_b, end_c, end_d),
    ensures
        text == cidr_text(net),
{
    let n = text.len() as int;
    assert(text =~= text.subrange(0, end_a) + seq!['.'] + text.subrange(end_a + 1, end_b) + seq!['.']
        + text.subrange(end_b + 1, end_c) + seq!['.'] + text.subrange(end_c + 1, end_d) + seq!['/']
        + text.subrange(end_d + 1, n));
}

/// The notation of a network holds its five numerals with their separators.
proof fn text_has_fields(net: Ipv4Net) -> (p: (int, int, int, int))
    requires
        net.wf(),
    ensures
        fields_at(cidr_text(net), net, p.0, p.1, p.2, p.3),
{
    let text = cidr_text(net);
    let da = decimal(net.a as nat);
    let db = decimal(net.b as nat);
    let dc = decimal(net.c as nat);
    let dd = decimal(net.d as nat);
    let dp = decimal(net.prefix_len as nat);
    decimal_is_numeral(net.a as nat);
    decimal_is_numeral(net.b as nat);
    decimal_is_numeral(net.c as nat);
    decimal_is_numeral(net.d as nat);
    decimal_is_numeral(net.prefix_len as nat);
    let end_a = da.len() as int;
    let end_b = end_a + 1 + db.len();
    let end_c = end_b + 1 + dc.len();
    let end_d = end_c + 1 + dd.len();
    assert(text.len() == end_d + 1 + dp.len());
    assert(text.subrange(0, end_a) =~= da);
    assert(text.subrange(end_a + 1, end_b) =~= db);
    assert(text.subrange(end_b + 1, end_c) =~= dc);
    assert(text.subrange(end_c + 1, end_d) =~= dd);
    assert(text.subrange(end_d + 1, text.len() as int) =~= dp);
    assert(text[end_a] == '.');
    assert(text[end_b] == '.');
    assert(text[end_c] == '.');
    assert(text[end_d] == '/');
    (end_a, end_b, end_c, end_d)
}

/// The notation of a network is ASCII.
proof fn cidr_text_is_ascii(net: Ipv4Net)
    ensures
        is_ascii_chars(cidr_text(net)),
{
    decimal_is_numeral(net.a as nat);
    decimal_is_numeral(net.b as nat);
    decimal_is_numeral(net.c as nat);
    decimal_is_numeral(net.d as nat);
    decimal_is_numeral(net.prefix_len as nat);
    let da = decimal(net.a as nat);
    let db = decimal(net.b as nat);
    let dc = decimal(net.c as nat);
    let dd = decimal(net.d as nat);
    let dp = decimal(net.prefix_len as nat);
    let text = cidr_text(net);
    let end_a = da.len() as int;
    let end_b = end_a + 1 + db.len();
    let end_c = end_b + 1 + dc.len();
    let end_d = end_c + 1 + dd.len();
    assert forall|i: int| 0 <= i < text.len() implies '\0' <= #[trigger] text[i] <= '\u{7f}' by {
        if i < end_a {
            assert(text[i] == da[i]);
        } else if i == end_a {
        } else if i < end_b {
            assert(text[i] == db[i - end_a - 1]);
        } else if i == end_b {
        } else if i < end_c {
            assert(text[i] == dc[i - end_b - 1]);
        } else if i == end_c {
        } else if i < end_d {
            assert(text[i] == dd[i - end_c - 1]);
        } else if i == end_d {
        } else {
            assert(text[i] == dp[i - end_d - 1]);
        }
    }
}

/// At most one numeral stands at a position.
proof fn numeral_is_unique(
    text: Seq<char>,
    start: int,
    limit: nat,
    v1: nat,
    e1: int,
    v2: nat,
    e2: int,
)
    requires
        numeral_at(text, start, limit, v1, e1),
        numeral_at(text, start, limit, v2, e2),
    ensures
        v1 == v2,
        e1 == e2,
{
    numeral_shape(text, start, limit, v1, e1);
    numeral_shape(text, start, limit, v2, e2);
    if e1 < e2 {
        assert(is_digit(text[e1]));
    }
    if e2 < e1 {
        assert(is_digit(text[e2]));
    }
    decimal_is_injective(v1, v2);
}

/// Two networks with the same notation are the same network.
pub proof fn cidr_text_is_injective(x: Ipv4Net, y: Ipv4Net)
    requires
        x.wf(),
        y.wf(),
        cidr_text(x) == cidr_text(y),
    ensures
        x == y,
{
    let text = cidr_text(x);
    let p = text_has_fields(x);
    let q = text_has_fields(y);
    numeral_is_unique(text, 0, 255, x.a as nat, p.0, y.a as nat, q.0);
    numeral_is_unique(text, p.0 + 1, 255, x.b as nat, p.1, y.b as nat, q.1);
    numeral_is_unique(text, p.1 + 1, 255, x.c as nat, p.2, y.c as nat, q.2);
    numeral_is_unique(text, p.2 + 1, 255, x.d as nat, p.3, y.d as nat, q.3);
    numeral_is_unique(
        text,
        p.3 + 1,
        32,
        x.prefix_len as nat,
        text.len() as int,
        y.prefix_len as nat,
        text.len() as int,
    );
}

/// Whether `text` is the notation of some network.
pub open spec fn is_cidr(text: Seq<char>) -> bool {
    exists|net: Ipv4Net| net.wf() && #[trigger] cidr_text(net) == text
}

/// The network that `text` is the notation of, if it is one.
pub open spec fn cidr_of(text: Seq<char>) -> Option<Ipv4Net> {
    if is_cidr(text) {
        Some(choose|net: Ipv4Net| net.wf() && #[trigger] cidr_text(net) == text)
    } else {
        None
    }
}

/// What a scan for a numeral at `start` says: `r` is the one numeral of at
/// most `limit` that stands there, with the position after it, or `None`
/// where none stands there.
pub open spec fn scanned(text: Seq<char>, start: int, limit: nat, r: Option<(u32, usize)>) -> bool {
    match r {
        Some((value, end)) => {
            &&& numeral_at(text, start, limit, value as nat, end as int)
            &&& forall|v: nat, e: int| #[trigger]
                numeral_at(text, start, limit, v, e) ==> v == value && e == end
        },
        None => forall|v: nat, e: int| !#[trigger] numeral_at(text, start, limit, v, e),
    }
}

/// The numeral found by a scan, if `sep` follows it, with the position
/// after `sep`.
pub open spec fn with_separator(text: Seq<char>, found: Option<(u32, usize)>, sep: char) -> Option<
    (u32, usize),
> {
    match found {
        Some((value, end)) => if end < text.len() && text[end as int] == sep {
            Some((value, (end + 1) as usize))
        } else {
            None
        },
        None => None,
    }
}

/// Whether the scan that follows the field `before` gave `r`; nothing is
/// asked of it where `before` is missing.
pub open spec fn scanned_after(
    text: Seq<char>,
    before: Option<(u32, usize)>,
    limit: nat,
    r: Option<(u32, usize)>,
) -> bool {
    match before {
        Some((_, start)) => scanned(text, start as int, limit, r),
        None => r is None,
    }
}

/// Five scans that follow one another find the fields of every network
/// whose numerals and separators the text holds.
proof fn scans_find_fields(
    text: Seq<char>,
    n1: Option<(u32, usize)>,
    n2: Option<(u32, usize)>,
    n3: Option<(u32, usize)>,
    n4: Option<(u32, usize)>,
    n5: Option<(u32, usize)>,
    net: Ipv4Net,
    end_a: int,
    end_b: int,
    end_c: int,
    end_d: int,
)
    requires
        text.len() <= usize::MAX,
        scanned(text, 0, 255, n1),
        scanned_after(text, with_separator(text, n1, '.'), 255, n2),
        scanned_after(text, with_separator(text, n2, '.'), 255, n3),
        scanned_after(text, with_separator(text, n3, '.'), 255, n4),
        scanned_after(text, with_separator(text, n4, '/'), 32, n5),
        fields_at(text, net, end_a, end_b, end_c, end_d),
    ensures
        n1 == Some((net.a as u32, end_a as usize)),
        n2 == Some((net.b as u32, end_b as usize)),
        n3 == Some((net.c as u32, end_c as usize)),
        n4 == Some((net.d as u32, end_d as usize)),
        n5 == Some((net.prefix_len as u32, text.len() as usize)),
{
    assert(numeral_at(text, 0, 255, net.a as nat, end_a));
    assert(n1 == Some((net.a as u32, end_a as usize)));
    assert(with_separator(text, n1, '.') == Some((net.a as u32, (end_a + 1) as usize)));
    assert(numeral_at(text, end_a + 1, 255, net.b as nat, end_b));
    assert(n2 == Some((net.b as u32, end_b as usize)));
    assert(with_separator(text, n2, '.') == Some((net.b as u32, (end_b + 1) as usize)));
    assert(numeral_at(text, end_b + 1, 255, net.c as nat, end_c));
    assert(n3 == Some((net.c as u32, end_c as usize)));
    assert(with_separator(text, n3, '.') == Some((net.c as u32, (end_c + 1) as usize)));
    assert(numeral_at(text, end_c + 1, 255, net.d as nat, end_d));
    assert(n4 == Some((net.d as u32, end_d as usize)));
    assert(with_separator(text, n4, '/') == Some((net.d as u32, (end_d + 1) as usize)));
    assert(numeral_at(text, end_d + 1, 32, net.prefix_len as nat, text.len() as int));
}

/// Keeps a scanned numeral if the byte `sep` follows it, and steps over
/// `sep`.
fn step_over(bytes: &[u8], found: Option<(u32, usize)>, sep: u8) -> (r: Option<(u32, usize)>)
    requires
        sep < 128,
        found matches Some((_, end)) ==> end <= bytes.len(),
    ensures
        r == with_separator(ascii_text(bytes@), found, sep as char),
        r matches Some((_, next)) ==> next <= bytes.len(),
{
    match found {
        Some((value, end)) => {
            if end < bytes.len() && bytes[end] == sep {
                assert(ascii_text(bytes@)[end as int] == sep as char);
                Some((value, end + 1))
            } else {
                assert(end < bytes.len() ==> ascii_text(bytes@)[end as int] != sep as char);
                None
            }
        },
        None => None,
    }
}

/// Scans for a numeral after the field `before`, if there is one.
fn scan_after(bytes: &[u8], before: Option<(u32, usize)>, limit: u32) -> (r: Option<(u32, usize)>)
    requires
        limit <= 0xffff,
        before matches Some((_, start)) ==> start <= bytes.len(),
    ensures
        scanned_after(ascii_text(bytes@), before, limit as nat, r),
        r matches Some((_, end)) ==> end <= bytes.len(),
{
    match before {
        Some((_, start)) => scan_number(bytes, start, limit),
        None => None,
    }
}

/// Reads a network in CIDR notation. `None` for any text that is no
/// network's notation.
pub fn parse_cidr(text: &str) -> (r: Option<Ipv4Net>)
    ensures
        match r {
            Some(net) => net.wf() && cidr_text(net) == text@,
            None => forall|net: Ipv4Net| net.wf() ==> #[trigger] cidr_text(net) != text@,
        },
        r == cidr_of(text@),
{
    let r = read_cidr(text);
    proof {
        if let Some(net) = r {
            let chosen = choose|n: Ipv4Net| n.wf() && #[trigger] cidr_text(n) == text@;
            cidr_text_is_injective(net, chosen);
        }
    }
    r
}

/// Reads a network in CIDR notation by scanning for its five numerals.
fn read_cidr(text: &str) -> (r: Option<Ipv4Net>)
    ensures
        match r {
            Some(net) => net.wf() && cidr_text(net) == text@,
            None => forall|net: Ipv4Net| net.wf() ==> #[trigger] cidr_text(net) != text@,
        },
{
    if !text.is_ascii() {
        proof {
            assert forall|net: Ipv4Net| net.wf() implies #[trigger] cidr_text(net) != text@ by {
                cidr_text_is_ascii(net);
            }
        }
        return None;
    }
    let bytes = text.as_bytes();
    let ghost t = ascii_text(bytes@);
    proof {
        is_ascii_chars_encode_utf8(text@);
        assert(text@ =~= t);
    }
    let n1 = scan_number(bytes, 0, 255);
    let f1 = step_over(bytes, n1, 0x2e);
    let n2 = scan_after(bytes, f1, 255);
    let f2 = step_over(bytes, n2, 0x2e);
    let n3 = scan_after(bytes, f2, 255);
    let f3 = step_over(bytes, n3, 0x2e);
    let n4 = scan_after(bytes, f3, 255);
    let f4 = step_over(bytes, n4, 0x2f);
    let n5 = scan_after(bytes, f4, 32);
    proof {
        assert(0x2eu8 as char == '.');
        assert(0x2fu8 as char == '/');
    }
    let r = match (f1, f2, f3, f4, n5) {
        (Some((a, s2)), Some((b, s3)), Some((c, s4)), Some((d, s5)), Some((prefix_len, end))) => {
            if end == bytes.len() {
                let net = Ipv4Net {
                    a: a as u8,
                    b: b as u8,
                    c: c as u8,
                    d: d as u8,
                    prefix_len: prefix_len as u8,
                };
                proof {
                    assert(fields_at(t, net, s2 - 1, s3 - 1, s4 - 1, s5 - 1));
                    fields_make_text(t, net, s2 - 1, s3 - 1, s4 - 1, s5 - 1);
                }
                Some(net)
            } else {
                None
            }
        },
        _ => None,
    };
    proof {
        if r is None {
            assert forall|net: Ipv4Net| net.wf() implies #[trigger] cidr_text(net) != text@ by {
                if cidr_text(net) == text@ {
                    let p = text_has_fields(net);
                    scans_find_fields(t, n1, n2, n3, n4, n5, net, p.0, p.1, p.2, p.3);
                }
            }
        }
    }
    r
}

} // verus!
