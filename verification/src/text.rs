//! Verified text helpers: string equality, decimal and hexadecimal
//! rendering, lexicographic ordering, and the small path manipulations the
//! engine needs.

use vstd::prelude::*;

verus! {

/// String equality over views.
pub fn str_eq(a: &str, b: &str) -> (r: bool)
    ensures
        r == (a@ == b@),
{
    let sa = String::from_str(a);
    let sb = String::from_str(b);
    sa == sb
}

/// Equality of optional strings over views.
pub open spec fn opt_view(o: Option<String>) -> Option<Seq<char>> {
    match o {
        Some(s) => Some(s@),
        None => None,
    }
}

/// Equality test for optional strings, decided over views.
pub fn opt_str_eq(a: &Option<String>, b: &Option<String>) -> (r: bool)
    ensures
        r == (opt_view(*a) == opt_view(*b)),
{
    match (a, b) {
        (None, None) => true,
        (Some(x), Some(y)) => str_eq(x.as_str(), y.as_str()),
        _ => false,
    }
}

/// The decimal digit `d` as a character; `d` is expected in `0..10`.
pub open spec fn digit_char(d: int) -> char {
    if d == 0 { '0' } else if d == 1 { '1' } else if d == 2 { '2' } else if d == 3 { '3' }
    else if d == 4 { '4' } else if d == 5 { '5' } else if d == 6 { '6' } else if d == 7 { '7' }
    else if d == 8 { '8' } else if d == 9 { '9' } else { '?' }
}

/// The decimal rendering of `n`, most significant digit first.
pub open spec fn dec_str(n: nat) -> Seq<char>
    decreases n,
{
    if n < 10 {
        seq![digit_char(n as int)]
    } else {
        dec_str(n / 10).push(digit_char((n % 10) as int))
    }
}

/// A one-character string slice for the decimal digit `d`.
fn digit_str(d: u64) -> (r: &'static str)
    requires
        d < 10,
    ensures
        r@ == seq![digit_char(d as int)],
{
    let r = match d {
        0 => "0",
        1 => "1",
        2 => "2",
        3 => "3",
        4 => "4",
        5 => "5",
        6 => "6",
        7 => "7",
        8 => "8",
        _ => "9",
    };
    proof {
        reveal_strlit("0");
        reveal_strlit("1");
        reveal_strlit("2");
        reveal_strlit("3");
        reveal_strlit("4");
        reveal_strlit("5");
        reveal_strlit("6");
        reveal_strlit("7");
        reveal_strlit("8");
        reveal_strlit("9");
        assert(r@ =~= seq![digit_char(d as int)]);
    }
    r
}

/// Renders `n` in decimal.
pub fn u64_to_string(n: u64) -> (s: String)
    ensures
        s@ == dec_str(n as nat),
    decreases n,
{
    if n < 10 {
        String::from_str(digit_str(n))
    } else {
        let s = u64_to_string(n / 10);
        let s2 = s.concat(digit_str(n % 10));
        proof {
            assert(s2@ =~= dec_str(n as nat));
        }
        s2
    }
}

/// The hexadecimal digit `d` as a lower-case character; `d` is expected in
/// `0..16`.
pub open spec fn hex_digit_char(d: int) -> char {
    if d < 10 { digit_char(d) }
    else if d == 10 { 'a' } else if d == 11 { 'b' } else if d == 12 { 'c' }
    else if d == 13 { 'd' } else if d == 14 { 'e' } else if d == 15 { 'f' } else { '?' }
}

/// The lower-case hexadecimal rendering of `n`, most significant digit
/// first.
pub open spec fn hex_str(n: nat) -> Seq<char>
    decreases n,
{
    if n < 16 {
        seq![hex_digit_char(n as int)]
    } else {
        hex_str(n / 16).push(hex_digit_char((n % 16) as int))
    }
}

/// A one-character string slice for the hexadecimal digit `d`.
fn hex_digit_str(d: u64) -> (r: &'static str)
    requires
        d < 16,
    ensures
        r@ == seq![hex_digit_char(d as int)],
{
    if d < 10 {
        digit_str(d)
    } else {
        let r = match d {
            10 => "a",
            11 => "b",
            12 => "c",
            13 => "d",
            14 => "e",
            _ => "f",
        };
        proof {
            reveal_strlit("a");
            reveal_strlit("b");
            reveal_strlit("c");
            reveal_strlit("d");
            reveal_strlit("e");
            reveal_strlit("f");
            assert(r@ =~= seq![hex_digit_char(d as int)]);
        }
        r
    }
}

/// Renders `n` in lower-case hexadecimal, as project identifiers are
/// written.
pub fn u64_to_hex(n: u64) -> (s: String)
    ensures
        s@ == hex_str(n as nat),
    decreases n,
{
    if n < 16 {
        String::from_str(hex_digit_str(n))
    } else {
        let s = u64_to_hex(n / 16);
        let s2 = s.concat(hex_digit_str(n % 16));
        proof {
            assert(s2@ =~= hex_str(n as nat));
        }
        s2
    }
}

/// Lexicographic order on character sequences by code point, matching how
/// the standard library orders strings.
pub open spec fn lex_le(a: Seq<char>, b: Seq<char>) -> bool
    decreases a.len(),
{
    if a.len() == 0 {
        true
    } else if b.len() == 0 {
        false
    } else if a[0] != b[0] {
        (a[0] as int) < (b[0] as int)
    } else {
        lex_le(a.drop_first(), b.drop_first())
    }
}

/// `lex_le` is total: two sequences always compare one way or the other.
pub proof fn lemma_lex_le_total(a: Seq<char>, b: Seq<char>)
    ensures
        lex_le(a, b) || lex_le(b, a),
    decreases a.len(),
{
    if a.len() == 0 || b.len() == 0 {
    } else if a[0] != b[0] {
    } else {
        lemma_lex_le_total(a.drop_first(), b.drop_first());
    }
}

/// `lex_le` is transitive.
pub proof fn lemma_lex_le_trans(a: Seq<char>, b: Seq<char>, c: Seq<char>)
    requires
        lex_le(a, b),
        lex_le(b, c),
    ensures
        lex_le(a, c),
    decreases a.len(),
{
    if a.len() == 0 || b.len() == 0 || c.len() == 0 {
    } else if a[0] == b[0] && b[0] == c[0] {
        lemma_lex_le_trans(a.drop_first(), b.drop_first(), c.drop_first());
    }
}

/// Decides `lex_le` on two string slices.
pub fn str_le(a: &str, b: &str) -> (r: bool)
    ensures
        r == lex_le(a@, b@),
{
    let a_len = a.unicode_len();
    let b_len = b.unicode_len();
    let mut i: usize = 0;
    proof {
        assert(a@.skip(0) =~= a@);
        assert(b@.skip(0) =~= b@);
    }
    loop
        invariant
            i <= a_len,
            i <= b_len,
            a_len == a@.len(),
            b_len == b@.len(),
            lex_le(a@, b@) == lex_le(a@.skip(i as int), b@.skip(i as int)),
            decreases a_len - i,
    {
        if i == a_len {
            proof {
                assert(a@.skip(i as int).len() == 0);
            }
            return true;
        }
        if i == b_len {
            proof {
                assert(b@.skip(i as int).len() == 0);
                assert(a@.skip(i as int).len() > 0);
            }
            return false;
        }
        let ca = a.get_char(i);
        let cb = b.get_char(i);
        proof {
            assert(a@.skip(i as int)[0] == a@[i as int]);
            assert(b@.skip(i as int)[0] == b@[i as int]);
        }
        if ca != cb {
            proof {
                assert(((ca as u32) < (cb as u32)) == ((ca as int) < (cb as int)));
            }
            return (ca as u32) < (cb as u32);
        }
        proof {
            assert(a@.skip(i as int).drop_first() =~= a@.skip(i as int + 1));
            assert(b@.skip(i as int).drop_first() =~= b@.skip(i as int + 1));
        }
        i = i + 1;
    }
}

/// Whether a name is hidden: it starts with a dot.
pub open spec fn starts_with_dot(s: Seq<char>) -> bool {
    s.len() > 0 && s[0] == '.'
}

/// Decides whether a name starts with a dot.
pub fn name_is_hidden(name: &str) -> (r: bool)
    ensures
        r == starts_with_dot(name@),
{
    let len = name.unicode_len();
    if len == 0 {
        false
    } else {
        name.get_char(0) == '.'
    }
}

/// The part of a path after its last slash; the whole path if it holds no
/// slash.
pub open spec fn basename_of(s: Seq<char>) -> Seq<char>
    decreases s.len(),
{
    if s.len() == 0 {
        s
    } else if s.last() == '/' {
        Seq::empty()
    } else {
        basename_of(s.drop_last()).push(s.last())
    }
}

/// The part of a path before its last slash; empty if it holds no slash.
pub open spec fn dirname_of(s: Seq<char>) -> Seq<char>
    decreases s.len(),
{
    if s.len() == 0 {
        Seq::empty()
    } else if s.last() == '/' {
        s.drop_last()
    } else {
        dirname_of(s.drop_last())
    }
}

/// Finds the boundary after the last slash of `path`: the index just past
/// the last `'/'`, or `0` if there is none.
fn last_slash_boundary(path: &str) -> (j: usize)
    ensures
        j <= path@.len(),
        j == 0 || path@[j - 1] == '/',
        forall|k: int| j <= k < path@.len() ==> path@[k] != '/',
{
    let len = path.unicode_len();
    let mut j: usize = 0;
    let mut i: usize = 0;
    while i < len
        invariant
            i <= len,
            j <= i,
            len == path@.len(),
            j == 0 || path@[j - 1] == '/',
            forall|k: int| j <= k < i ==> path@[k] != '/',
        decreases len - i,
    {
        if path.get_char(i) == '/' {
            j = i + 1;
        }
        i = i + 1;
    }
    j
}

/// `basename_of` is the suffix after the boundary that follows the last
/// slash.
proof fn lemma_basename_skip(s: Seq<char>, j: int)
    requires
        0 <= j <= s.len(),
        j == 0 || s[j - 1] == '/',
        forall|k: int| j <= k < s.len() ==> s[k] != '/',
    ensures
        basename_of(s) == s.skip(j),
    decreases s.len(),
{
    if s.len() == 0 {
        assert(basename_of(s) =~= s.skip(0));
    } else if s.last() == '/' {
        assert(j == s.len());
        assert(basename_of(s) =~= s.skip(j));
    } else {
        assert(j < s.len());
        lemma_basename_skip(s.drop_last(), j);
        assert(s.drop_last().skip(j).push(s.last()) =~= s.skip(j));
    }
}

/// `dirname_of` is the prefix before the last slash.
proof fn lemma_dirname_take(s: Seq<char>, j: int)
    requires
        0 <= j <= s.len(),
        j == 0 || s[j - 1] == '/',
        forall|k: int| j <= k < s.len() ==> s[k] != '/',
    ensures
        j == 0 ==> dirname_of(s) == Seq::<char>::empty(),
        j > 0 ==> dirname_of(s) == s.take(j - 1),
    decreases s.len(),
{
    if s.len() == 0 {
    } else if s.last() == '/' {
        assert(j == s.len());
        assert(dirname_of(s) =~= s.take(j - 1));
    } else {
        assert(j < s.len());
        lemma_dirname_take(s.drop_last(), j);
        if j > 0 {
            assert(s.drop_last().take(j - 1) =~= s.take(j - 1));
        }
    }
}

/// Returns the file name at the end of `path`: everything after the last
/// slash, or all of `path` if it holds none.
pub fn filename_from_path(path: &str) -> (r: String)
    ensures
        r@ == basename_of(path@),
{
    let len = path.unicode_len();
    let j = last_slash_boundary(path);
    let tail = path.substring_char(j, len);
    proof {
        lemma_basename_skip(path@, j as int);
        assert(tail@ =~= path@.skip(j as int));
    }
    String::from_str(tail)
}

pub const KB: u64 = 1024;

pub const MB: u64 = 1024 * 1024;

pub const GB: u64 = 1024 * 1024 * 1024;

/// Two fractional digits of `rem / unit`, truncated.
pub open spec fn frac2_text(rem: int, unit: int) -> Seq<char> {
    let f = rem * 100 / unit;
    seq![digit_char(f / 10), digit_char(f % 10)]
}

/// Human-readable size: scaled to the largest of GB, MB and KB that fits,
/// with two (truncated) fractional digits, or a plain byte count.
pub open spec fn size_text(bytes: u64) -> Seq<char> {
    if bytes >= GB {
        dec_str((bytes / GB) as nat) + "."@ + frac2_text(bytes as int % GB as int, GB as int) + " GB"@
    } else if bytes >= MB {
        dec_str((bytes / MB) as nat) + "."@ + frac2_text(bytes as int % MB as int, MB as int) + " MB"@
    } else if bytes >= KB {
        dec_str((bytes / KB) as nat) + "."@ + frac2_text(bytes as int % KB as int, KB as int) + " KB"@
    } else {
        dec_str(bytes as nat) + " B"@
    }
}

/// Renders `bytes / unit` as "whole.ff" followed by `suffix`.
fn format_scaled(bytes: u64, unit: u64, suffix: &str) -> (r: String)
    requires
        1 <= unit <= GB,
    ensures
        r@ == dec_str((bytes / unit) as nat) + "."@ + frac2_text(
            bytes as int % unit as int,
            unit as int,
        ) + suffix@,
{
    let whole = bytes / unit;
    let rem = bytes % unit;
    proof {
        assert(rem < unit);
        assert(rem * 100 <= (unit - 1) * 100 < u64::MAX) by (nonlinear_arith)
            requires
                rem < unit,
                unit <= GB,
        ;
    }
    let f = (rem * 100) / unit;
    proof {
        assert((rem as int * 100) / (unit as int) < 100) by (nonlinear_arith)
            requires
                rem < unit,
                1 <= unit,
        ;
        assert(f < 100);
    }
    let r = u64_to_string(whole)
        .concat(".")
        .concat(digit_str(f / 10))
        .concat(digit_str(f % 10))
        .concat(suffix);
    proof {
        assert(r@ =~= dec_str((bytes / unit) as nat) + "."@ + frac2_text(
            bytes as int % unit as int,
            unit as int,
        ) + suffix@);
    }
    r
}

/// Renders a byte count for display, as in "1.50 MB" or "512 B".
pub fn format_size(bytes: u64) -> (r: String)
    ensures
        r@ == size_text(bytes),
{
    if bytes >= GB {
        format_scaled(bytes, GB, " GB")
    } else if bytes >= MB {
        format_scaled(bytes, MB, " MB")
    } else if bytes >= KB {
        format_scaled(bytes, KB, " KB")
    } else {
        let r = u64_to_string(bytes).concat(" B");
        proof {
            assert(r@ =~= dec_str(bytes as nat) + " B"@);
        }
        r
    }
}

/// Relative-time rendering of the timestamp `ts` as seen at time `now`
/// (both unix seconds); a zero timestamp reads "Unknown".
pub open spec fn timestamp_text(ts: u64, now: u64) -> Seq<char> {
    if ts == 0 {
        "Unknown"@
    } else {
        let diff = if now >= ts { now - ts } else { 0 };
        if diff < 60 {
            "Just now"@
        } else if diff < 3600 {
            dec_str((diff / 60) as nat) + " min ago"@
        } else if diff < 86400 {
            dec_str((diff / 3600) as nat) + " hr ago"@
        } else {
            dec_str((diff / 86400) as nat) + " days ago"@
        }
    }
}

/// Renders `ts` relative to the given current time.
pub fn format_timestamp_at(ts: u64, now: u64) -> (r: String)
    ensures
        r@ == timestamp_text(ts, now),
{
    if ts == 0 {
        return String::from_str("Unknown");
    }
    let diff: u64 = if now >= ts {
        now - ts
    } else {
        0
    };
    if diff < 60 {
        String::from_str("Just now")
    } else if diff < 3600 {
        u64_to_string(diff / 60).concat(" min ago")
    } else if diff < 86400 {
        u64_to_string(diff / 3600).concat(" hr ago")
    } else {
        u64_to_string(diff / 86400).concat(" days ago")
    }
}

/// Renders `ts` relative to the current clock reading.
pub fn format_timestamp(ts: u64) -> (r: String)
    ensures
        exists|now: u64| r@ == timestamp_text(ts, now),
{
    let now = crate::server::unix_timestamp();
    let r = format_timestamp_at(ts, now);
    proof {
        assert(r@ == timestamp_text(ts, now));
    }
    r
}

/// Returns the directory part of `path`: everything before the last slash,
/// or the empty string if it holds none.
pub fn dirname_from_path(path: &str) -> (r: String)
    ensures
        r@ == dirname_of(path@),
{
    let j = last_slash_boundary(path);
    proof {
        lemma_dirname_take(path@, j as int);
    }
    if j == 0 {
        String::new()
    } else {
        let head = path.substring_char(0, j - 1);
        proof {
            assert(head@ =~= path@.take(j as int - 1));
        }
        String::from_str(head)
    }
}

} // verus!
