//! IP addresses as plain values, and a verified parser for their standard
//! text forms: dotted-decimal IPv4 ("127.0.0.1") and IPv6 with optional
//! `::` compression and optional embedded IPv4 tail ("::1",
//! "1:2:3:4:5:6:7:8", "::ffff:192.168.1.1").
//!
//! The grammar is stated by the spec functions; the executable parser
//! returns exactly what they describe.

use vstd::prelude::*;

verus! {

/// An IP address as plain bytes: four octets, or eight 16-bit groups.
#[derive(Debug, Clone, Copy, PartialEq, Eq, Structural)]
pub enum IpAddress {
    V4(u8, u8, u8, u8),
    V6(u16, u16, u16, u16, u16, u16, u16, u16),
}

/// A decimal digit.
pub open spec fn is_digit(c: char) -> bool {
    48 <= c as u32 <= 57
}

/// The value of a decimal digit.
pub open spec fn digit_val(c: char) -> int {
    c as u32 - 48
}

/// The octet denoted by `s[i..j)`: one to three decimal digits, no leading
/// zero (except "0" itself), value at most 255.
pub open spec fn octet_at(s: Seq<char>, i: int, j: int) -> Option<u8> {
    if 0 <= i < j <= s.len() && j - i <= 3 && (forall|k: int| i <= k < j ==> is_digit(s[k])) && (j
        - i == 1 || s[i] != '0') {
        let v = if j - i == 1 {
            digit_val(s[i])
        } else if j - i == 2 {
            digit_val(s[i]) * 10 + digit_val(s[i + 1])
        } else {
            digit_val(s[i]) * 100 + digit_val(s[i + 1]) * 10 + digit_val(s[i + 2])
        };
        if v <= 255 {
            Some(v as u8)
        } else {
            None
        }
    } else {
        None
    }
}

/// The first position at or after `from` holding `sep`, or the length of
/// `s` where there is none.
pub open spec fn seg_end(s: Seq<char>, from: int, sep: char) -> int
    decreases s.len() - from,
{
    if from < 0 {
        0
    } else if from >= s.len() {
        s.len() as int
    } else if s[from] == sep {
        from
    } else {
        seg_end(s, from + 1, sep)
    }
}

/// `seg_end` stays between `from` and the length, and everything before it
/// (at or after `from`) differs from `sep`.
pub proof fn lemma_seg_end(s: Seq<char>, from: int, sep: char)
    requires
        0 <= from <= s.len(),
    ensures
        from <= seg_end(s, from, sep) <= s.len(),
        seg_end(s, from, sep) < s.len() ==> s[seg_end(s, from, sep)] == sep,
        forall|k: int| from <= k < seg_end(s, from, sep) ==> s[k] != sep,
    decreases s.len() - from,
{
    if from < s.len() && s[from] != sep {
        lemma_seg_end(s, from + 1, sep);
    }
}

/// The IPv4 address denoted by `s`: four octets separated by exactly three
/// dots.
pub open spec fn parse_ipv4_spec(s: Seq<char>) -> Option<IpAddress> {
    let e1 = seg_end(s, 0, '.');
    let e2 = seg_end(s, e1 + 1, '.');
    let e3 = seg_end(s, e2 + 1, '.');
    let e4 = seg_end(s, e3 + 1, '.');
    if e1 < s.len() && e2 < s.len() && e3 < s.len() && e4 == s.len() {
        match (
            octet_at(s, 0, e1),
            octet_at(s, e1 + 1, e2),
            octet_at(s, e2 + 1, e3),
            octet_at(s, e3 + 1, s.len() as int),
        ) {
            (Some(a), Some(b), Some(c), Some(d)) => Some(IpAddress::V4(a, b, c, d)),
            _ => None,
        }
    } else {
        None
    }
}

/// Find the first `sep` at or after `from`, or the character length of `s`.
fn seg_end_x(s: &str, from: usize, sep: char, n: usize) -> (r: usize)
    requires
        from <= s@.len(),
        n == s@.len(),
    ensures
        r as int == seg_end(s@, from as int, sep),
        from <= r <= s@.len(),
{
    let mut i = from;
    while i < n
        invariant
            from <= i <= n,
            n == s@.len(),
            seg_end(s@, from as int, sep) == seg_end(s@, i as int, sep),
        decreases n - i,
    {
        if s.get_char(i) == sep {
            return i;
        }
        i += 1;
    }
    i
}

/// Parse `s[i..j)` as a decimal octet.
fn octet_at_x(s: &str, i: usize, j: usize) -> (r: Option<u8>)
    requires
        j <= s@.len(),
    ensures
        r == octet_at(s@, i as int, j as int),
{
    if !(i < j && j - i <= 3) {
        return None;
    }
    let mut k = i;
    while k < j
        invariant
            i <= k <= j <= s@.len(),
            forall|m: int| i <= m < k ==> is_digit(s@[m]),
        decreases j - k,
    {
        let c = s.get_char(k);
        if !('0' <= c && c <= '9') {
            assert(!is_digit(s@[k as int]));
            return None;
        }
        k += 1;
    }
    let c0 = s.get_char(i);
    if j - i > 1 && c0 == '0' {
        return None;
    }
    let v: u32 = if j - i == 1 {
        c0 as u32 - 48
    } else if j - i == 2 {
        (c0 as u32 - 48) * 10 + (s.get_char(i + 1) as u32 - 48)
    } else {
        (c0 as u32 - 48) * 100 + (s.get_char(i + 1) as u32 - 48) * 10 + (s.get_char(i + 2) as u32
            - 48)
    };
    if v <= 255 {
        Some(v as u8)
    } else {
        None
    }
}

/// A hexadecimal digit.
pub open spec fn is_hex_digit(c: char) -> bool {
    is_digit(c) || 97 <= c as u32 <= 102 || 65 <= c as u32 <= 70
}

/// The value of a hexadecimal digit.
pub open spec fn hex_val(c: char) -> int {
    if is_digit(c) {
        digit_val(c)
    } else if 97 <= c as u32 <= 102 {
        c as u32 - 87
    } else {
        c as u32 - 55
    }
}

/// The 16-bit group denoted by `s[i..j)`: one to four hexadecimal digits
/// (leading zeros allowed).
pub open spec fn h16_at(s: Seq<char>, i: int, j: int) -> Option<u16> {
    if 0 <= i < j <= s.len() && j - i <= 4 && (forall|k: int| i <= k < j ==> is_hex_digit(s[k])) {
        let v = if j - i == 1 {
            hex_val(s[i])
        } else if j - i == 2 {
            hex_val(s[i]) * 16 + hex_val(s[i + 1])
        } else if j - i == 3 {
            hex_val(s[i]) * 256 + hex_val(s[i + 1]) * 16 + hex_val(s[i + 2])
        } else {
            hex_val(s[i]) * 4096 + hex_val(s[i + 1]) * 256 + hex_val(s[i + 2]) * 16 + hex_val(
                s[i + 3],
            )
        };
        Some(v as u16)
    } else {
        None
    }
}

/// The embedded IPv4 tail starting at `from`, as its two 16-bit groups.
pub open spec fn v4_groups(s: Seq<char>, from: int) -> Option<(u16, u16)> {
    match parse_ipv4_spec(s.skip(from)) {
        Some(IpAddress::V4(a, b, c, d)) => Some(
            ((a * 256 + b) as u16, (c * 256 + d) as u16),
        ),
        _ => None,
    }
}

/// The colon-separated 16-bit groups from `from` to the end of `s` — at
/// least one, at most `budget` — with no embedded IPv4 allowed.
pub open spec fn parse_groups(s: Seq<char>, from: int, budget: nat) -> Option<Seq<u16>>
    decreases budget,
{
    if budget == 0 {
        None
    } else {
        let e = seg_end(s, from, ':');
        match h16_at(s, from, e) {
            None => None,
            Some(h) => if e == s.len() {
                Some(seq![h])
            } else {
                match parse_groups(s, e + 1, (budget - 1) as nat) {
                    None => None,
                    Some(rest) => Some(seq![h] + rest),
                }
            },
        }
    }
}

/// Like `parse_groups`, but the last part may instead be an embedded IPv4
/// address, which counts as two groups.
pub open spec fn parse_tail(s: Seq<char>, from: int, budget: nat) -> Option<Seq<u16>>
    decreases budget,
{
    if budget == 0 {
        None
    } else {
        let e = seg_end(s, from, ':');
        if e == s.len() {
            match h16_at(s, from, e) {
                Some(h) => Some(seq![h]),
                None => match v4_groups(s, from) {
                    Some((hi, lo)) => Some(seq![hi, lo]),
                    None => None,
                },
            }
        } else {
            match h16_at(s, from, e) {
                None => None,
                Some(h) => match parse_tail(s, e + 1, (budget - 1) as nat) {
                    None => None,
                    Some(rest) => Some(seq![h] + rest),
                },
            }
        }
    }
}

/// The position of the first "::" at or after `from`, or the length of `s`
/// where there is none.
pub open spec fn dcolon_pos(s: Seq<char>, from: int) -> int
    decreases s.len() - from,
{
    if from < 0 {
        0
    } else if from + 2 > s.len() {
        s.len() as int
    } else if s[from] == ':' && s[from + 1] == ':' {
        from
    } else {
        dcolon_pos(s, from + 1)
    }
}

/// `dcolon_pos` stays between `from` and the length, and where it falls
/// short of the length it marks a "::".
pub proof fn lemma_dcolon_pos(s: Seq<char>, from: int)
    requires
        0 <= from <= s.len(),
    ensures
        from <= dcolon_pos(s, from) <= s.len(),
        dcolon_pos(s, from) < s.len() ==> dcolon_pos(s, from) + 2 <= s.len() && s[dcolon_pos(
            s,
            from,
        )] == ':' && s[dcolon_pos(s, from) + 1] == ':',
    decreases s.len() - from,
{
    if from + 2 <= s.len() && !(s[from] == ':' && s[from + 1] == ':') {
        lemma_dcolon_pos(s, from + 1);
    }
}

/// A full group list makes an address.
pub open spec fn groups_to_v6(g: Seq<u16>) -> IpAddress
    recommends
        g.len() == 8,
{
    IpAddress::V6(g[0], g[1], g[2], g[3], g[4], g[5], g[6], g[7])
}

/// `n` zero groups.
pub open spec fn zero_groups(n: nat) -> Seq<u16> {
    Seq::new(n, |i: int| 0u16)
}

/// The IPv6 address denoted by `s`: eight groups without compression, or a
/// single "::" standing for the missing all-zero groups, with at most seven
/// explicit groups around it; an embedded IPv4 tail counts as two groups.
pub open spec fn parse_ipv6_spec(s: Seq<char>) -> Option<IpAddress> {
    let dc = dcolon_pos(s, 0);
    if dc == s.len() {
        match parse_tail(s, 0, 8) {
            Some(g) => if g.len() == 8 {
                Some(groups_to_v6(g))
            } else {
                None
            },
            None => None,
        }
    } else {
        let left = s.take(dc);
        let right = s.skip(dc + 2);
        let lg = if left.len() == 0 {
            Some(Seq::<u16>::empty())
        } else {
            parse_groups(left, 0, 8)
        };
        let rg = if right.len() == 0 {
            Some(Seq::<u16>::empty())
        } else {
            parse_tail(right, 0, 8)
        };
        match (lg, rg) {
            (Some(l), Some(r)) => if l.len() + r.len() <= 7 {
                Some(groups_to_v6(l + zero_groups((8 - l.len() - r.len()) as nat) + r))
            } else {
                None
            },
            _ => None,
        }
    }
}

/// The address denoted by `s` in either standard text form.
pub open spec fn parse_ip_spec(s: Seq<char>) -> Option<IpAddress> {
    if parse_ipv4_spec(s) is Some {
        parse_ipv4_spec(s)
    } else {
        parse_ipv6_spec(s)
    }
}

impl IpAddress {
    /// Parse a dotted-decimal IPv4 address: four octets of one to three
    /// digits each, no leading zeros, each at most 255.
    pub fn parse_v4(s: &str) -> (r: Option<IpAddress>)
        ensures
            r == parse_ipv4_spec(s@),
    {
        let n = s.unicode_len();
        let e1 = seg_end_x(s, 0, '.', n);
        proof {
            lemma_seg_end(s@, 0, '.');
        }
        if e1 >= n {
            return None;
        }
        let e2 = seg_end_x(s, e1 + 1, '.', n);
        if e2 >= n {
            return None;
        }
        let e3 = seg_end_x(s, e2 + 1, '.', n);
        if e3 >= n {
            return None;
        }
        let e4 = seg_end_x(s, e3 + 1, '.', n);
        if e4 < n {
            return None;
        }
        match (
            octet_at_x(s, 0, e1),
            octet_at_x(s, e1 + 1, e2),
            octet_at_x(s, e2 + 1, e3),
            octet_at_x(s, e3 + 1, n),
        ) {
            (Some(a), Some(b), Some(c), Some(d)) => Some(IpAddress::V4(a, b, c, d)),
            _ => None,
        }
    }

    /// Parse an IPv6 address: eight colon-separated groups of one to four
    /// hexadecimal digits, a single "::" standing for the missing all-zero
    /// groups, and optionally an embedded dotted-decimal IPv4 tail.
    pub fn parse_v6(s: &str) -> (r: Option<IpAddress>)
        ensures
            r == parse_ipv6_spec(s@),
    {
        let n = s.unicode_len();
        let dc = dcolon_pos_x(s, n);
        proof {
            lemma_dcolon_pos(s@, 0);
        }
        if dc == n {
            match parse_tail_x(s, 0, 8, n) {
                Some(g) => {
                    if g.len() == 8 {
                        Some(IpAddress::V6(g[0], g[1], g[2], g[3], g[4], g[5], g[6], g[7]))
                    } else {
                        None
                    }
                },
                None => None,
            }
        } else {
            let left = s.substring_char(0, dc);
            let right = s.substring_char(dc + 2, n);
            proof {
                assert(left@ =~= s@.take(dc as int));
                assert(right@ =~= s@.skip(dc as int + 2));
            }
            let lg: Option<Vec<u16>> = if dc == 0 {
                Some(Vec::new())
            } else {
                parse_groups_x(left, 0, 8, dc)
            };
            let rg: Option<Vec<u16>> = if dc + 2 == n {
                Some(Vec::new())
            } else {
                parse_tail_x(right, 0, 8, n - (dc + 2))
            };
            match (lg, rg) {
                (Some(l), Some(r2)) => {
                    if l.len() <= 7 && r2.len() <= 7 - l.len() {
                        let ghost lv = l@;
                        let ghost rv = r2@;
                        let zeros: usize = 8 - l.len() - r2.len();
                        let mut g = l;
                        let mut z: usize = 0;
                        while z < zeros
                            invariant
                                z <= zeros,
                                g@ =~= lv + zero_groups(z as nat),
                            decreases zeros - z,
                        {
                            g.push(0);
                            proof {
                                assert(g@ =~= lv + zero_groups((z + 1) as nat));
                            }
                            z += 1;
                        }
                        let mut r2 = r2;
                        g.append(&mut r2);
                        proof {
                            assert(g@ =~= lv + zero_groups(zeros as nat) + rv);
                        }
                        Some(IpAddress::V6(g[0], g[1], g[2], g[3], g[4], g[5], g[6], g[7]))
                    } else {
                        None
                    }
                },
                _ => None,
            }
        }
    }

    /// Parse an IP address in either standard text form: dotted-decimal
    /// IPv4, else IPv6.
    pub fn parse(s: &str) -> (r: Option<IpAddress>)
        ensures
            r == parse_ip_spec(s@),
    {
        match Self::parse_v4(s) {
            Some(ip) => Some(ip),
            None => Self::parse_v6(s),
        }
    }
}

/// Find the first "::" in `s`, or its character length.
fn dcolon_pos_x(s: &str, n: usize) -> (r: usize)
    requires
        n == s@.len(),
    ensures
        r as int == dcolon_pos(s@, 0),
        r <= n,
{
    let mut i: usize = 0;
    while n >= 2 && i <= n - 2
        invariant
            i <= n,
            n == s@.len(),
            dcolon_pos(s@, 0) == dcolon_pos(s@, i as int),
        decreases n - i,
    {
        if s.get_char(i) == ':' && s.get_char(i + 1) == ':' {
            return i;
        }
        i += 1;
    }
    n
}

/// The value of one hexadecimal digit.
fn hex_digit_value(c: char) -> (r: u32)
    requires
        is_hex_digit(c),
    ensures
        r as int == hex_val(c),
{
    let u = c as u32;
    if u >= 97 {
        u - 87
    } else if u >= 65 {
        u - 55
    } else {
        u - 48
    }
}

/// Parse `s[i..j)` as a 16-bit hexadecimal group.
fn h16_at_x(s: &str, i: usize, j: usize) -> (r: Option<u16>)
    requires
        j <= s@.len(),
    ensures
        r == h16_at(s@, i as int, j as int),
{
    if !(i < j && j - i <= 4) {
        return None;
    }
    let mut k = i;
    while k < j
        invariant
            i <= k <= j <= s@.len(),
            forall|m: int| i <= m < k ==> is_hex_digit(s@[m]),
        decreases j - k,
    {
        let c = s.get_char(k);
        if !(('0' <= c && c <= '9') || ('a' <= c && c <= 'f') || ('A' <= c && c <= 'F')) {
            assert(!is_hex_digit(s@[k as int]));
            return None;
        }
        k += 1;
    }
    let v: u32 = if j - i == 1 {
        hex_digit_value(s.get_char(i))
    } else if j - i == 2 {
        hex_digit_value(s.get_char(i)) * 16 + hex_digit_value(s.get_char(i + 1))
    } else if j - i == 3 {
        hex_digit_value(s.get_char(i)) * 256 + hex_digit_value(s.get_char(i + 1)) * 16
            + hex_digit_value(s.get_char(i + 2))
    } else {
        hex_digit_value(s.get_char(i)) * 4096 + hex_digit_value(s.get_char(i + 1)) * 256
            + hex_digit_value(s.get_char(i + 2)) * 16 + hex_digit_value(s.get_char(i + 3))
    };
    Some(v as u16)
}

/// Parse the colon-separated groups from `from` to the end of `s`.
fn parse_groups_x(s: &str, from: usize, budget: u8, n: usize) -> (r: Option<Vec<u16>>)
    requires
        from <= n,
        n == s@.len(),
    ensures
        r matches Some(v) ==> parse_groups(s@, from as int, budget as nat) == Some(v@),
        r is None ==> parse_groups(s@, from as int, budget as nat) is None,
    decreases budget,
{
    if budget == 0 {
        return None;
    }
    let e = seg_end_x(s, from, ':', n);
    proof {
        lemma_seg_end(s@, from as int, ':');
    }
    let h = match h16_at_x(s, from, e) {
        Some(h) => h,
        None => {
            return None;
        },
    };
    if e == n {
        let mut v: Vec<u16> = Vec::new();
        v.push(h);
        proof {
            assert(v@ =~= seq![h]);
        }
        Some(v)
    } else {
        match parse_groups_x(s, e + 1, budget - 1, n) {
            Some(rest) => {
                let ghost rest_view = rest@;
                let mut v: Vec<u16> = Vec::new();
                v.push(h);
                let mut rest = rest;
                v.append(&mut rest);
                proof {
                    assert(v@ =~= seq![h] + rest_view);
                }
                Some(v)
            },
            None => None,
        }
    }
}

/// Parse the colon-separated groups from `from` to the end of `s`, where
/// the last part may be an embedded IPv4 address.
fn parse_tail_x(s: &str, from: usize, budget: u8, n: usize) -> (r: Option<Vec<u16>>)
    requires
        from <= n,
        n == s@.len(),
    ensures
        r matches Some(v) ==> parse_tail(s@, from as int, budget as nat) == Some(v@),
        r is None ==> parse_tail(s@, from as int, budget as nat) is None,
    decreases budget,
{
    if budget == 0 {
        return None;
    }
    let e = seg_end_x(s, from, ':', n);
    proof {
        lemma_seg_end(s@, from as int, ':');
    }
    if e == n {
        match h16_at_x(s, from, e) {
            Some(h) => {
                let mut v: Vec<u16> = Vec::new();
                v.push(h);
                proof {
                    assert(v@ =~= seq![h]);
                }
                Some(v)
            },
            None => {
                let sub = s.substring_char(from, n);
                proof {
                    assert(sub@ =~= s@.skip(from as int));
                }
                match IpAddress::parse_v4(sub) {
                    Some(IpAddress::V4(a, b, c, d)) => {
                        let hi: u16 = (a as u16) * 256 + (b as u16);
                        let lo: u16 = (c as u16) * 256 + (d as u16);
                        let mut v: Vec<u16> = Vec::new();
                        v.push(hi);
                        v.push(lo);
                        proof {
                            assert(v@ =~= seq![hi, lo]);
                        }
                        Some(v)
                    },
                    _ => None,
                }
            },
        }
    } else {
        match h16_at_x(s, from, e) {
            None => None,
            Some(h) => match parse_tail_x(s, e + 1, budget - 1, n) {
                Some(rest) => {
                    let ghost rest_view = rest@;
                    let mut v: Vec<u16> = Vec::new();
                    v.push(h);
                    let mut rest = rest;
                    v.append(&mut rest);
                    proof {
                        assert(v@ =~= seq![h] + rest_view);
                    }
                    Some(v)
                },
                None => None,
            },
        }
    }
}

} // verus!
