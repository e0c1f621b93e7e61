//! Verified text formatting: decimal and hexadecimal rendering of the
//! numeric fields that appear in a canonical record, and string equality.

use vstd::prelude::*;

verus! {

/// The character for one decimal (or low hexadecimal) digit.
pub open spec fn dec_digit(d: int) -> char {
    if d == 0 {
        '0'
    } else if d == 1 {
        '1'
    } else if d == 2 {
        '2'
    } else if d == 3 {
        '3'
    } else if d == 4 {
        '4'
    } else if d == 5 {
        '5'
    } else if d == 6 {
        '6'
    } else if d == 7 {
        '7'
    } else if d == 8 {
        '8'
    } else {
        '9'
    }
}

/// The character for one hexadecimal digit, lower case.
pub open spec fn hex_digit(d: int) -> char {
    if d < 10 {
        dec_digit(d)
    } else if d == 10 {
        'a'
    } else if d == 11 {
        'b'
    } else if d == 12 {
        'c'
    } else if d == 13 {
        'd'
    } else if d == 14 {
        'e'
    } else {
        'f'
    }
}

/// Decimal rendering of a non-negative number, most significant digit first,
/// without leading zeroes.
pub open spec fn spec_dec(n: int) -> Seq<char>
    decreases n,
{
    if n < 10 {
        seq![dec_digit(n)]
    } else {
        spec_dec(n / 10).push(dec_digit(n % 10))
    }
}

/// Hexadecimal rendering of a non-negative number, lower case, without
/// leading zeroes.
pub open spec fn spec_hex(n: int) -> Seq<char>
    decreases n,
{
    if n < 16 {
        seq![hex_digit(n)]
    } else {
        spec_hex(n / 16).push(hex_digit(n % 16))
    }
}

/// A byte as exactly two lower-case hexadecimal digits.
pub open spec fn spec_hex2(b: int) -> Seq<char> {
    seq![hex_digit(b / 16), hex_digit(b % 16)]
}

fn digit_str(d: u8) -> (r: &'static str)
    requires
        d < 10,
    ensures
        r@ == seq![dec_digit(d as int)],
{
    proof {
        reveal_strlit("0");
        reveal_strlit("1");
        reveal_strlit("2");
        reveal_strlit("3");
        reveal_strlit("4");
        reveal_strlit("5");
        reveal_strlit("6");
        reveal_strlit("7");
        reveal_strlit("8");
        reveal_strlit("9");
    }
    let r: &'static str = if d == 0 {
        "0"
    } else if d == 1 {
        "1"
    } else if d == 2 {
        "2"
    } else if d == 3 {
        "3"
    } else if d == 4 {
        "4"
    } else if d == 5 {
        "5"
    } else if d == 6 {
        "6"
    } else if d == 7 {
        "7"
    } else if d == 8 {
        "8"
    } else {
        "9"
    };
    proof {
        assert(r@ =~= seq![dec_digit(d as int)]);
    }
    r
}

fn hex_digit_str(d: u8) -> (r: &'static str)
    requires
        d < 16,
    ensures
        r@ == seq![hex_digit(d as int)],
{
    if d < 10 {
        let r: &'static str = digit_str(d);
        r
    } else {
        proof {
            reveal_strlit("a");
            reveal_strlit("b");
            reveal_strlit("c");
            reveal_strlit("d");
            reveal_strlit("e");
            reveal_strlit("f");
        }
        let r: &'static str = if d == 10 {
            "a"
        } else if d == 11 {
            "b"
        } else if d == 12 {
            "c"
        } else if d == 13 {
            "d"
        } else if d == 14 {
            "e"
        } else {
            "f"
        };
        proof {
            assert(r@ =~= seq![hex_digit(d as int)]);
        }
        r
    }
}

/// Renders `n` in decimal.
pub fn dec_u64(n: u64) -> (r: String)
    ensures
        r@ == spec_dec(n as int),
    decreases n,
{
    if n < 10 {
        String::from_str(digit_str(n as u8))
    } else {
        let mut s = dec_u64(n / 10);
        s.append(digit_str((n % 10) as u8));
        proof {
            assert(s@ =~= spec_dec(n as int));
        }
        s
    }
}

/// Renders `n` in lower-case hexadecimal without leading zeroes.
pub fn hex_u16(n: u16) -> (r: String)
    ensures
        r@ == spec_hex(n as int),
    decreases n,
{
    if n < 16 {
        String::from_str(hex_digit_str(n as u8))
    } else {
        let mut s = hex_u16(n / 16);
        s.append(hex_digit_str((n % 16) as u8));
        proof {
            assert(s@ =~= spec_hex(n as int));
        }
        s
    }
}

/// Renders a byte as exactly two hexadecimal digits.
pub fn hex2(b: u8) -> (r: String)
    ensures
        r@ == spec_hex2(b as int),
{
    let mut s = String::from_str(hex_digit_str(b / 16));
    s.append(hex_digit_str(b % 16));
    proof {
        assert(s@ =~= spec_hex2(b as int));
    }
    s
}

/// A six-byte hardware address as colon-separated hexadecimal pairs.
pub open spec fn spec_mac(b: Seq<u8>) -> Seq<char>
    recommends
        b.len() == 6,
{
    spec_hex2(b[0] as int) + seq![':'] + spec_hex2(b[1] as int) + seq![':'] + spec_hex2(b[2] as int)
        + seq![':'] + spec_hex2(b[3] as int) + seq![':'] + spec_hex2(b[4] as int) + seq![':']
        + spec_hex2(b[5] as int)
}

/// A four-byte network address in dotted decimal form.
pub open spec fn spec_ipv4(b: Seq<u8>) -> Seq<char>
    recommends
        b.len() == 4,
{
    spec_dec(b[0] as int) + seq!['.'] + spec_dec(b[1] as int) + seq!['.'] + spec_dec(b[2] as int)
        + seq!['.'] + spec_dec(b[3] as int)
}

/// The eight 16-bit groups of a sixteen-byte network address.
pub open spec fn spec_groups(b: Seq<u8>) -> Seq<int>
    recommends
        b.len() == 16,
{
    Seq::new(8, |i: int| crate::wire::be16(b, 2 * i))
}

/// The length of the run of zero groups starting at position `i`.
pub open spec fn run_len_at(g: Seq<int>, i: int) -> int
    decreases g.len() - i,
{
    if i < 0 || i >= g.len() || g[i] != 0 {
        0
    } else {
        1 + run_len_at(g, i + 1)
    }
}

/// The leftmost longest run of zero groups starting at or after `i`, as a
/// pair of its start and its length; `(g.len(), 0)` when none remains.
pub open spec fn best_zero_run_from(g: Seq<int>, i: int) -> (int, int)
    decreases g.len() - i,
{
    if i >= g.len() {
        (g.len() as int, 0)
    } else {
        let cur = run_len_at(g, i);
        let rest = best_zero_run_from(g, i + 1);
        if cur >= rest.1 {
            (i, cur)
        } else {
            rest
        }
    }
}

/// Groups `from .. to`, rendered in hexadecimal and joined by colons.
pub open spec fn spec_hex_groups_join(g: Seq<int>, from: int, to: int) -> Seq<char>
    decreases to - from,
{
    if to <= from {
        Seq::empty()
    } else if to == from + 1 {
        spec_hex(g[from])
    } else {
        spec_hex_groups_join(g, from, to - 1) + seq![':'] + spec_hex(g[to - 1])
    }
}

/// Whether an address embeds an IPv4 address in its last four bytes, under
/// the fixed mapped prefix.
pub open spec fn spec_ipv4_mapped(g: Seq<int>) -> bool
    recommends
        g.len() == 8,
{
    g[0] == 0 && g[1] == 0 && g[2] == 0 && g[3] == 0 && g[4] == 0 && g[5] == 0xffff
}

/// A sixteen-byte network address in its canonical textual form: an
/// IPv4-mapped address shows its embedded dotted-decimal address; otherwise
/// the eight hexadecimal groups are joined by colons, with the leftmost
/// longest run of two or more zero groups shortened to a double colon.
pub open spec fn spec_ipv6(b: Seq<u8>) -> Seq<char>
    recommends
        b.len() == 16,
{
    let g = spec_groups(b);
    if spec_ipv4_mapped(g) {
        "::ffff:"@ + spec_ipv4(b.subrange(12, 16))
    } else {
        let r = best_zero_run_from(g, 0);
        if r.1 >= 2 {
            spec_hex_groups_join(g, 0, r.0) + "::"@ + spec_hex_groups_join(g, r.0 + r.1, 8)
        } else {
            spec_hex_groups_join(g, 0, 8)
        }
    }
}

fn append_colon(s: &mut String)
    ensures
        final(s)@ == old(s)@ + seq![':'],
{
    proof {
        reveal_strlit(":");
        assert(":"@ =~= seq![':']);
    }
    s.append(":");
}

/// Formats the six bytes at offset `off` of `data` as a hardware address.
pub fn format_mac(data: &[u8], off: usize) -> (r: String)
    requires
        off + 6 <= data@.len(),
    ensures
        r@ == spec_mac(data@.subrange(off as int, off as int + 6)),
{
    let mut s = hex2(data[off]);
    append_colon(&mut s);
    s.append(hex2(data[off + 1]).as_str());
    append_colon(&mut s);
    s.append(hex2(data[off + 2]).as_str());
    append_colon(&mut s);
    s.append(hex2(data[off + 3]).as_str());
    append_colon(&mut s);
    s.append(hex2(data[off + 4]).as_str());
    append_colon(&mut s);
    s.append(hex2(data[off + 5]).as_str());
    proof {
        assert(s@ =~= spec_mac(data@.subrange(off as int, off as int + 6)));
    }
    s
}

/// Formats the four bytes at offset `off` of `data` in dotted decimal form.
pub fn format_ipv4(data: &[u8], off: usize) -> (r: String)
    requires
        off + 4 <= data@.len(),
    ensures
        r@ == spec_ipv4(data@.subrange(off as int, off as int + 4)),
{
    proof {
        reveal_strlit(".");
        assert("."@ =~= seq!['.']);
    }
    let mut s = dec_u64(data[off] as u64);
    s.append(".");
    s.append(dec_u64(data[off + 1] as u64).as_str());
    s.append(".");
    s.append(dec_u64(data[off + 2] as u64).as_str());
    s.append(".");
    s.append(dec_u64(data[off + 3] as u64).as_str());
    proof {
        assert(s@ =~= spec_ipv4(data@.subrange(off as int, off as int + 4)));
    }
    s
}

/// The groups held by a vector of 16-bit values, as mathematical integers.
pub open spec fn groups_of_vec(g: Seq<u16>) -> Seq<int> {
    Seq::new(g.len(), |i: int| g[i] as int)
}

fn best_zero_run(g: &Vec<u16>) -> (r: (usize, usize))
    requires
        g@.len() == 8,
    ensures
        (r.0 as int, r.1 as int) == best_zero_run_from(groups_of_vec(g@), 0),
{
    let ghost gi = groups_of_vec(g@);
    let mut i: usize = 8;
    let mut zrun: usize = 0;
    let mut bs: usize = 8;
    let mut bl: usize = 0;
    while i > 0
        invariant
            g@.len() == 8,
            gi == groups_of_vec(g@),
            i <= 8,
            zrun as int <= 8 - i,
            zrun as int == run_len_at(gi, i as int),
            (bs as int, bl as int) == best_zero_run_from(gi, i as int),
        decreases i,
    {
        let idx = i - 1;
        if g[idx] == 0 {
            zrun = zrun + 1;
        } else {
            zrun = 0;
        }
        if zrun >= bl {
            bs = idx;
            bl = zrun;
        }
        i = idx;
    }
    (bs, bl)
}

fn join_groups(g: &Vec<u16>, from: usize, to: usize) -> (r: String)
    requires
        from <= to,
        to <= g@.len(),
    ensures
        r@ == spec_hex_groups_join(groups_of_vec(g@), from as int, to as int),
{
    let ghost gi = groups_of_vec(g@);
    if from >= to {
        let r = String::new();
        return r;
    }
    let mut s = hex_u16(g[from]);
    let mut k = from + 1;
    while k < to
        invariant
            gi == groups_of_vec(g@),
            from < k <= to,
            to <= g@.len(),
            s@ == spec_hex_groups_join(gi, from as int, k as int),
        decreases to - k,
    {
        append_colon(&mut s);
        s.append(hex_u16(g[k]).as_str());
        proof {
            assert(s@ =~= spec_hex_groups_join(gi, from as int, k as int + 1));
        }
        k = k + 1;
    }
    s
}

/// Formats the sixteen bytes at offset `off` of `data` in the canonical
/// textual form of a network address: hexadecimal groups with the leftmost
/// longest zero run shortened, or the embedded dotted-decimal address of an
/// IPv4-mapped value.
pub fn format_ipv6(data: &[u8], off: usize) -> (r: String)
    requires
        off + 16 <= data@.len(),
    ensures
        r@ == spec_ipv6(data@.subrange(off as int, off as int + 16)),
{
    let ghost b = data@.subrange(off as int, off as int + 16);
    let n = data.len();
    let mut g: Vec<u16> = Vec::new();
    let mut k: usize = 0;
    while k < 8
        invariant
            n == data@.len(),
            off + 16 <= n,
            b == data@.subrange(off as int, off as int + 16),
            k <= 8,
            g@.len() == k,
            forall|j: int| 0 <= j < k ==> g@[j] as int == crate::wire::be16(b, 2 * j),
        decreases 8 - k,
    {
        let v = crate::wire::read_be16(data, off + 2 * k);
        proof {
            assert(crate::wire::be16(data@, off as int + 2 * k) == crate::wire::be16(
                b,
                2 * k as int,
            ));
        }
        g.push(v);
        k = k + 1;
    }
    proof {
        assert(groups_of_vec(g@) =~= spec_groups(b));
    }
    if g[0] == 0 && g[1] == 0 && g[2] == 0 && g[3] == 0 && g[4] == 0 && g[5] == 0xffff {
        let mut s = String::from_str("::ffff:");
        s.append(format_ipv4(data, off + 12).as_str());
        proof {
            assert(data@.subrange(off as int + 12, off as int + 16) =~= b.subrange(12, 16));
            assert(s@ =~= spec_ipv6(b));
        }
        return s;
    }
    let (bs, bl) = best_zero_run(&g);
    if bl >= 2 {
        proof {
            lemma_best_zero_run_bounds(groups_of_vec(g@), 0);
        }
        let mut s = join_groups(&g, 0, bs);
        proof {
            reveal_strlit("::");
        }
        s.append("::");
        s.append(join_groups(&g, bs + bl, 8).as_str());
        proof {
            assert(s@ =~= spec_ipv6(b));
        }
        s
    } else {
        let s = join_groups(&g, 0, 8);
        proof {
            assert(s@ =~= spec_ipv6(b));
        }
        s
    }
}

/// A zero run found by the search lies inside the group list.
proof fn lemma_best_zero_run_bounds(g: Seq<int>, i: int)
    requires
        0 <= i <= g.len(),
    ensures
        i <= best_zero_run_from(g, i).0,
        best_zero_run_from(g, i).0 + best_zero_run_from(g, i).1 <= g.len(),
        best_zero_run_from(g, i).1 >= 0,
    decreases g.len() - i,
{
    if i < g.len() {
        lemma_run_len_bounds(g, i);
        lemma_best_zero_run_bounds(g, i + 1);
    }
}

proof fn lemma_run_len_bounds(g: Seq<int>, i: int)
    requires
        0 <= i <= g.len(),
    ensures
        0 <= run_len_at(g, i),
        i + run_len_at(g, i) <= g.len(),
    decreases g.len() - i,
{
    if i < g.len() && g[i] == 0 {
        lemma_run_len_bounds(g, i + 1);
    }
}

/// The view of an optional string: the character sequence, if present.
pub open spec fn view_opt(o: Option<String>) -> Option<Seq<char>> {
    match o {
        Option::Some(s) => Option::Some(s@),
        Option::None => Option::None,
    }
}

/// Compares two optional strings by their views.
pub fn opt_str_eq(a: &Option<String>, b: &Option<String>) -> (r: bool)
    ensures
        r == (view_opt(*a) == view_opt(*b)),
{
    match (a, b) {
        (Option::Some(x), Option::Some(y)) => *x == *y,
        (Option::None, Option::None) => true,
        _ => false,
    }
}

/// Copies an optional string.
pub fn clone_opt(o: &Option<String>) -> (r: Option<String>)
    ensures
        view_opt(r) == view_opt(*o),
{
    match o {
        Option::Some(s) => Option::Some(s.clone()),
        Option::None => Option::None,
    }
}

/// Compares two string slices by their character sequences.
pub fn str_eq(a: &str, b: &str) -> (r: bool)
    ensures
        r == (a@ == b@),
{
    let a_len = a.unicode_len();
    let b_len = b.unicode_len();
    if a_len != b_len {
        return false;
    }
    let mut i: usize = 0;
    while i < a_len
        invariant
            a_len == a@.len(),
            a_len == b@.len(),
            i <= a_len,
            forall|j: int| 0 <= j < i ==> a@[j] == b@[j],
        decreases a_len - i,
    {
        if a.get_char(i) != b.get_char(i) {
            return false;
        }
        i = i + 1;
    }
    proof {
        assert(a@ =~= b@);
    }
    true
}

} // verus!
