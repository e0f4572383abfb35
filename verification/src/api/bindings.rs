//! Where the API server listens.
use vstd::prelude::*;
use crate::api::{regex_compiles, regex_find, regex_first_match};
use crate::text::{decimal, push_decimal, string_push};

verus! {

/// Where the API server listens.
pub struct Bindings {
    /// The IPv4 address, octet by octet.
    pub address: [u8; 4],
    pub port: u16,
    /// The path under which destinations are served.
    pub path: String,
}

/// The pattern that a bind address must match: four dot-separated decimal
/// octets.
pub open spec fn address_pattern() -> Seq<char> {
    "^((25[0-5]|(2[0-4]|1\\d|[1-9]|)\\d)\\.?\\b){4}$"@
}

/// `address:port`, with the address in dotted decimal notation.
pub open spec fn spec_full_address(address: [u8; 4], port: u16) -> Seq<char> {
    decimal(address[0] as nat) + seq!['.'] + decimal(address[1] as nat) + seq!['.'] + decimal(
        address[2] as nat,
    ) + seq!['.'] + decimal(address[3] as nat) + seq![':'] + decimal(port as nat)
}

/// `c` is an ASCII digit.
pub open spec fn is_digit(c: char) -> bool {
    '0' <= c && c <= '9'
}

/// The number written by the decimal digits `s`.
pub open spec fn digits_value(s: Seq<char>) -> int
    decreases s.len(),
{
    if s.len() == 0 {
        0
    } else {
        digits_value(s.drop_last()) * 10 + (s.last() as int - '0' as int)
    }
}

/// `t` without its leading `+`, if it has one.
pub open spec fn unsigned_digits(t: Seq<char>) -> Seq<char> {
    if t.len() > 0 && t[0] == '+' { t.drop_first() } else { t }
}

/// Every character of `s` is a decimal digit.
pub open spec fn all_digits(s: Seq<char>) -> bool {
    forall|i: int| 0 <= i < s.len() ==> is_digit(#[trigger] s[i])
}

/// What `u16::from_str` makes of `t`: an optional `+` followed by at least
/// one decimal digit, the number fitting in 16 bits.
pub open spec fn spec_parse_u16(t: Seq<char>) -> Option<u16> {
    let d = unsigned_digits(t);
    if d.len() > 0 && all_digits(d) && digits_value(d) <= 65535 {
        Some(digits_value(d) as u16)
    } else {
        None
    }
}

proof fn lemma_digits_grow(s: Seq<char>, k: int)
    requires
        0 <= k <= s.len(),
        forall|i: int| 0 <= i < s.len() ==> is_digit(#[trigger] s[i]),
    ensures
        digits_value(s.take(k)) <= digits_value(s),
        0 <= digits_value(s),
    decreases s.len(),
{
    if s.len() > 0 {
        let p = s.drop_last();
        assert forall|i: int| 0 <= i < p.len() implies is_digit(#[trigger] p[i]) by {
            assert(p[i] == s[i]);
        }
        assert(is_digit(s[s.len() - 1]));
        if k < s.len() {
            assert(p.take(k) =~= s.take(k));
            lemma_digits_grow(p, k);
        } else {
            lemma_digits_grow(p, 0);
            assert(s.take(k) =~= s);
        }
    } else {
        assert(s.take(k) =~= s);
    }
}

/// The end of the run of decimal digits in `t` that starts at `i`.
pub open spec fn digit_run_end(t: Seq<char>, i: int) -> int
    decreases t.len() - i,
{
    if 0 <= i < t.len() && is_digit(t[i]) {
        digit_run_end(t, i + 1)
    } else {
        i
    }
}

/// The digits `f` write an octet: at least one digit, no leading zero, and
/// at most 255.
pub open spec fn octet_ok(f: Seq<char>) -> bool {
    f.len() > 0 && (f.len() == 1 || f[0] != '0') && digits_value(f) <= 255
}

/// What `Ipv4Addr::from_str` makes of `t`, octet by octet: four runs of
/// decimal digits separated by single dots and filling the text, each run
/// an octet without a leading zero.
pub open spec fn spec_parse_ipv4(t: Seq<char>) -> Option<Seq<u8>> {
    let e0 = digit_run_end(t, 0);
    let e1 = digit_run_end(t, e0 + 1);
    let e2 = digit_run_end(t, e1 + 1);
    let e3 = digit_run_end(t, e2 + 1);
    let f0 = t.subrange(0, e0);
    let f1 = t.subrange(e0 + 1, e1);
    let f2 = t.subrange(e1 + 1, e2);
    let f3 = t.subrange(e2 + 1, e3);
    if e0 < t.len() && t[e0] == '.' && e1 < t.len() && t[e1] == '.' && e2 < t.len() && t[e2] == '.'
        && e3 == t.len() && octet_ok(f0) && octet_ok(f1) && octet_ok(f2) && octet_ok(f3) {
        Some(seq![digits_value(f0) as u8, digits_value(f1) as u8, digits_value(f2) as u8, digits_value(f3) as u8])
    } else {
        None
    }
}

/// Whether the character of `text` at `j` is a decimal digit.
fn digit_at(text: &str, j: usize) -> (res: bool)
    requires
        j < text@.len(),
    ensures
        res == is_digit(text@[j as int]),
{
    let c = text.get_char(j);
    '0' <= c && c <= '9'
}

/// The run of digits of `text` from `i`: where it ends, and the octet it
/// writes if it writes one.
fn read_octet(text: &str, i: usize) -> (res: (usize, Option<u8>))
    requires
        i <= text@.len(),
    ensures
        res.0 == digit_run_end(text@, i as int),
        i <= res.0 <= text@.len(),
        match res.1 {
            Some(o) => octet_ok(text@.subrange(i as int, res.0 as int))
                && o == digits_value(text@.subrange(i as int, res.0 as int)),
            None => !octet_ok(text@.subrange(i as int, res.0 as int)),
        },
{
    let n = text.unicode_len();
    let mut j: usize = i;
    let mut value: u32 = 0;
    let mut big = false;
    let mut leading_zero = false;
    proof {
        assert(text@.subrange(i as int, i as int) =~= Seq::<char>::empty());
    }
    while j < n && digit_at(text, j)
        invariant
            n == text@.len(),
            i <= j <= n,
            digit_run_end(text@, i as int) == digit_run_end(text@, j as int),
            all_digits(text@.subrange(i as int, j as int)),
            !big ==> value == digits_value(text@.subrange(i as int, j as int)) && value <= 255,
            big ==> digits_value(text@.subrange(i as int, j as int)) > 255,
            leading_zero <==> (j > i && text@[i as int] == '0'),
        decreases n - j,
    {
        let c = text.get_char(j);
        let ghost f = text@.subrange(i as int, j as int);
        let ghost g = text@.subrange(i as int, j + 1);
        proof {
            assert(g.drop_last() =~= f);
            assert(g.last() == c);
            assert(digits_value(g) == digits_value(f) * 10 + (c as int - '0' as int));
            assert forall|k: int| 0 <= k < g.len() implies is_digit(#[trigger] g[k]) by {
                if k < f.len() {
                    assert(g[k] == f[k]);
                }
            }
        }
        if j == i && c == '0' {
            leading_zero = true;
        }
        if !big {
            let next = value * 10 + ((c as u32) - ('0' as u32));
            if next > 255 {
                big = true;
            } else {
                value = next;
            }
        }
        j = j + 1;
    }
    proof {
        assert(digit_run_end(text@, j as int) == j);
        let f = text@.subrange(i as int, j as int);
        if j > i {
            assert(f[0] == text@[i as int]);
        }
    }
    if j == i || big || (leading_zero && j > i + 1) {
        (j, None)
    } else {
        (j, Some(value as u8))
    }
}

impl Bindings {
    /// The port written in `text`, as `u16::from_str` reads it: an optional
    /// `+` and then decimal digits whose number fits in 16 bits.
    pub fn parse_port(text: &str) -> (res: Option<u16>)
        ensures
            res == spec_parse_u16(text@),
    {
        let n = text.unicode_len();
        let mut i: usize = 0;
        if n > 0 && text.get_char(0) == '+' {
            i = 1;
        }
        let start = i;
        let ghost d = unsigned_digits(text@);
        proof {
            assert(d =~= text@.skip(start as int));
        }
        if start == n {
            return None;
        }
        let mut value: u32 = 0;
        while i < n
            invariant
                n == text@.len(),
                start <= i <= n,
                d =~= text@.skip(start as int),
                d == unsigned_digits(text@),
                forall|j: int| 0 <= j < i - start ==> is_digit(#[trigger] d[j]),
                value == digits_value(d.take(i - start)),
                value <= 65535,
            decreases n - i,
        {
            let c = text.get_char(i);
            if !('0' <= c && c <= '9') {
                proof {
                    assert(d[i - start] == c);
                    assert(!is_digit(d[i - start]));
                    assert(!all_digits(d));
                    assert(spec_parse_u16(text@) is None);
                }
                return None;
            }
            let digit = (c as u32) - ('0' as u32);
            proof {
                assert(d.take(i - start + 1).drop_last() =~= d.take(i - start));
                assert(d.take(i - start + 1).last() == c);
            }
            let next = value * 10 + digit;
            if next > 65535 {
                proof {
                    assert(d[i - start] == c);
                    assert(digits_value(d.take(i - start + 1)) == digits_value(d.take(i - start)) * 10 + (c as int - '0' as int));
                    assert(digits_value(d.take(i - start + 1)) == next);
                    if all_digits(d) {
                        lemma_digits_grow(d, i - start + 1);
                        assert(digits_value(d) > 65535);
                    }
                    assert(spec_parse_u16(text@) is None);
                }
                return None;
            }
            proof {
                assert(digits_value(d.take(i - start + 1)) == digits_value(d.take(i - start)) * 10 + (c as int - '0' as int));
            }
            value = next;
            i = i + 1;
        }
        proof {
            assert(d.take(n - start) =~= d);
        }
        Some(value as u16)
    }

    /// The octets of the IPv4 address written in `text`, as
    /// `Ipv4Addr::from_str` reads it: dotted decimal, four octets, no
    /// leading zeros.
    pub fn parse_address(text: &str) -> (res: Option<[u8; 4]>)
        ensures
            match res {
                Some(a) => spec_parse_ipv4(text@) == Some(a@),
                None => spec_parse_ipv4(text@) is None,
            },
    {
        let n = text.unicode_len();
        let (e0, o0) = read_octet(text, 0);
        if e0 >= n || text.get_char(e0) != '.' {
            return None;
        }
        let (e1, o1) = read_octet(text, e0 + 1);
        if e1 >= n || text.get_char(e1) != '.' {
            return None;
        }
        let (e2, o2) = read_octet(text, e1 + 1);
        if e2 >= n || text.get_char(e2) != '.' {
            return None;
        }
        let (e3, o3) = read_octet(text, e2 + 1);
        if e3 != n {
            return None;
        }
        match (o0, o1, o2, o3) {
            (Some(a), Some(b), Some(c), Some(d)) => {
                let octets = [a, b, c, d];
                proof {
                    assert(octets@ =~= spec_parse_ipv4(text@).unwrap());
                }
                Some(octets)
            },
            _ => None,
        }
    }

    /// Whether `address` is accepted as a bind address: it matches
    /// `address_pattern`.
    pub fn accepts_address(address: &str) -> (res: bool)
        ensures
            res == (regex_compiles(address_pattern()) && regex_first_match(address_pattern(), address@) is Some),
    {
        match regex_find("^((25[0-5]|(2[0-4]|1\\d|[1-9]|)\\d)\\.?\\b){4}$", address) {
            Ok(Some(_)) => true,
            _ => false,
        }
    }

    /// `address:port`, the address in dotted decimal notation.
    pub fn full_address(&self) -> (res: String)
        ensures
            res@ == spec_full_address(self.address, self.port),
    {
        let mut out = String::new();
        push_decimal(&mut out, self.address[0] as u64);
        string_push(&mut out, '.');
        push_decimal(&mut out, self.address[1] as u64);
        string_push(&mut out, '.');
        push_decimal(&mut out, self.address[2] as u64);
        string_push(&mut out, '.');
        push_decimal(&mut out, self.address[3] as u64);
        string_push(&mut out, ':');
        push_decimal(&mut out, self.port as u64);
        proof {
            assert(out@ =~= spec_full_address(self.address, self.port));
        }
        out
    }
}

} // verus!
