//! The channel allow-list.
//!
//! The list is parsed from a configuration string: entries are separated by
//! commas, each entry is trimmed of surrounding whitespace, and an entry is
//! kept iff it parses as a nonzero unsigned 64-bit channel identifier (an
//! optional leading plus sign, then decimal digits). Empty and unparsable
//! entries are dropped silently, in keeping with the configuration being
//! best-effort. An empty list means "no restriction".

use vstd::prelude::*;

verus! {

/// A character with the Unicode `White_Space` property, the set that
/// trimming removes from both ends of an entry.
pub open spec fn is_space(c: char) -> bool {
    let u = c as u32;
    (0x09 <= u <= 0x0D) || u == 0x20 || u == 0x85 || u == 0xA0 || u == 0x1680 || (0x2000 <= u
        <= 0x200A) || u == 0x2028 || u == 0x2029 || u == 0x202F || u == 0x205F || u == 0x3000
}

/// The entry with leading whitespace removed.
pub open spec fn trim_start(s: Seq<char>) -> Seq<char>
    decreases s.len(),
{
    if s.len() == 0 {
        s
    } else if is_space(s[0]) {
        trim_start(s.drop_first())
    } else {
        s
    }
}

/// The entry with trailing whitespace removed.
pub open spec fn trim_end(s: Seq<char>) -> Seq<char>
    decreases s.len(),
{
    if s.len() == 0 {
        s
    } else if is_space(s.last()) {
        trim_end(s.drop_last())
    } else {
        s
    }
}

/// The entry with whitespace removed from both ends.
pub open spec fn trim(s: Seq<char>) -> Seq<char> {
    trim_end(trim_start(s))
}

/// An ASCII decimal digit.
pub open spec fn is_digit(c: char) -> bool {
    0x30 <= c as u32 <= 0x39
}

/// The numeric value of an ASCII decimal digit.
pub open spec fn digit_val(c: char) -> nat {
    (c as u32 - 0x30) as nat
}

pub open spec fn all_digits(s: Seq<char>) -> bool {
    forall|i: int| 0 <= i < s.len() ==> is_digit(s[i])
}

/// The value of a string of decimal digits, most significant first.
pub open spec fn digits_value(s: Seq<char>) -> nat
    decreases s.len(),
{
    if s.len() == 0 {
        0
    } else {
        digits_value(s.drop_last()) * 10 + digit_val(s.last())
    }
}

/// A trimmed entry without its optional leading plus sign.
pub open spec fn numeral_body(t: Seq<char>) -> Seq<char> {
    if t.len() > 0 && t[0] == '+' {
        t.drop_first()
    } else {
        t
    }
}

/// What one comma-separated entry contributes to the allow-list: the
/// channel identifier it denotes, or nothing if, once trimmed, it is empty
/// or is not a nonzero decimal number that fits in 64 bits.
pub open spec fn entry_value(seg: Seq<char>) -> Option<u64> {
    let d = numeral_body(trim(seg));
    if d.len() == 0 {
        None
    } else if !all_digits(d) {
        None
    } else if digits_value(d) > u64::MAX {
        None
    } else if digits_value(d) == 0 {
        None
    } else {
        Some(digits_value(d) as u64)
    }
}

/// The position of the first comma, or the length if there is none.
pub open spec fn first_comma(s: Seq<char>) -> int
    decreases s.len(),
{
    if s.len() == 0 {
        0
    } else if s[0] == ',' {
        0
    } else {
        1 + first_comma(s.drop_first())
    }
}

pub proof fn lemma_first_comma_bounds(s: Seq<char>)
    ensures
        0 <= first_comma(s) <= s.len(),
        forall|k: int| 0 <= k < first_comma(s) ==> s[k] != ',',
        first_comma(s) < s.len() ==> s[first_comma(s)] == ',',
    decreases s.len(),
{
    if s.len() == 0 {
    } else if s[0] == ',' {
    } else {
        lemma_first_comma_bounds(s.drop_first());
        assert forall|k: int| 0 <= k < first_comma(s) implies s[k] != ',' by {
            if k > 0 {
                assert(s.drop_first()[k - 1] != ',');
            }
        }
    }
}

/// A position preceded only by non-commas, and itself a comma or the end,
/// is the first comma.
pub proof fn lemma_first_comma_at(s: Seq<char>, j: int)
    requires
        0 <= j <= s.len(),
        forall|k: int| 0 <= k < j ==> s[k] != ',',
        j == s.len() || s[j] == ',',
    ensures
        first_comma(s) == j,
    decreases j,
{
    if j == 0 {
        if s.len() > 0 {
            assert(s[0] == ',');
        }
    } else {
        assert(s[0] != ',');
        lemma_first_comma_at(s.drop_first(), j - 1);
    }
}

/// The allow-list denoted by a configuration string: the values of its
/// comma-separated entries, in order, with empty and unparsable entries
/// dropped.
pub open spec fn spec_allow_list(s: Seq<char>) -> Seq<u64>
    decreases s.len(),
    via spec_allow_list_decreases
{
    let i = first_comma(s);
    let head = entry_value(s.subrange(0, i));
    let rest = if i == s.len() {
        Seq::<u64>::empty()
    } else {
        spec_allow_list(s.subrange(i + 1, s.len() as int))
    };
    match head {
        Some(v) => seq![v] + rest,
        None => rest,
    }
}

#[via_fn]
proof fn spec_allow_list_decreases(s: Seq<char>) {
    lemma_first_comma_bounds(s);
}

/// A longer digit prefix never denotes a smaller value.
proof fn lemma_digits_value_take_le(s: Seq<char>, i: int, j: int)
    requires
        0 <= i <= j <= s.len(),
    ensures
        digits_value(s.take(i)) <= digits_value(s.take(j)),
    decreases j - i,
{
    if i < j {
        lemma_digits_value_take_le(s, i, j - 1);
        assert(s.take(j).drop_last() =~= s.take(j - 1));
    }
}

fn char_is_space(c: char) -> (r: bool)
    ensures
        r == is_space(c),
{
    let u = c as u32;
    (0x09 <= u && u <= 0x0D) || u == 0x20 || u == 0x85 || u == 0xA0 || u == 0x1680 || (0x2000 <= u
        && u <= 0x200A) || u == 0x2028 || u == 0x2029 || u == 0x202F || u == 0x205F || u == 0x3000
}

/// The characters of a string, in order.
fn chars_of(s: &str) -> (v: Vec<char>)
    ensures
        v@ == s@,
{
    let n = s.unicode_len();
    let mut v: Vec<char> = Vec::new();
    let mut i: usize = 0;
    while i < n
        invariant
            i <= n,
            n == s@.len(),
            v@ == s@.take(i as int),
        decreases n - i,
    {
        let c = s.get_char(i);
        v.push(c);
        i = i + 1;
        proof {
            assert(v@ =~= s@.take(i as int));
        }
    }
    proof {
        assert(s@.take(n as int) =~= s@);
    }
    v
}

/// Evaluates the entry `v[start..end]`: trims it, then reads it as a
/// nonzero 64-bit decimal number with an optional leading plus sign.
fn eval_entry(v: &Vec<char>, start: usize, end: usize) -> (r: Option<u64>)
    requires
        start <= end <= v@.len(),
    ensures
        r == entry_value(v@.subrange(start as int, end as int)),
{
    let ghost seg = v@.subrange(start as int, end as int);
    let mut lo = start;
    while lo < end && char_is_space(v[lo])
        invariant
            start <= lo <= end <= v@.len(),
            seg == v@.subrange(start as int, end as int),
            trim_start(seg) == trim_start(v@.subrange(lo as int, end as int)),
        decreases end - lo,
    {
        proof {
            let cur = v@.subrange(lo as int, end as int);
            assert(cur[0] == v@[lo as int]);
            assert(cur.drop_first() =~= v@.subrange(lo as int + 1, end as int));
        }
        lo = lo + 1;
    }
    proof {
        let cur = v@.subrange(lo as int, end as int);
        if lo == end {
            assert(cur =~= Seq::<char>::empty());
        }
        assert(trim_start(seg) == v@.subrange(lo as int, end as int));
    }
    let mut hi = end;
    while hi > lo && char_is_space(v[hi - 1])
        invariant
            start <= lo <= hi <= end <= v@.len(),
            seg == v@.subrange(start as int, end as int),
            trim_start(seg) == v@.subrange(lo as int, end as int),
            trim(seg) == trim_end(v@.subrange(lo as int, hi as int)),
        decreases hi - lo,
    {
        proof {
            let cur = v@.subrange(lo as int, hi as int);
            assert(cur.last() == v@[hi as int - 1]);
            assert(cur.drop_last() =~= v@.subrange(lo as int, hi as int - 1));
        }
        hi = hi - 1;
    }
    proof {
        let cur = v@.subrange(lo as int, hi as int);
        if hi == lo {
            assert(cur =~= Seq::<char>::empty());
        }
        assert(trim(seg) == v@.subrange(lo as int, hi as int));
    }
    let ghost t = v@.subrange(lo as int, hi as int);
    let mut p = lo;
    if p < hi && v[p] == '+' {
        p = p + 1;
    }
    let ghost d = numeral_body(t);
    proof {
        if t.len() > 0 && t[0] == '+' {
            assert(t.drop_first() =~= v@.subrange(lo as int + 1, hi as int));
        }
        assert(d == v@.subrange(p as int, hi as int));
    }
    if p == hi {
        return None;
    }
    let mut acc: u64 = 0;
    let mut j = p;
    while j < hi
        invariant
            start <= p <= j <= hi <= end <= v@.len(),
            seg == v@.subrange(start as int, end as int),
            d == v@.subrange(p as int, hi as int),
            d.len() == hi - p,
            all_digits(d.take(j as int - p as int)),
            acc as nat == digits_value(d.take(j as int - p as int)),
            entry_value(seg) == (if d.len() == 0 {
                None
            } else if !all_digits(d) {
                None::<u64>
            } else if digits_value(d) > u64::MAX {
                None
            } else if digits_value(d) == 0 {
                None
            } else {
                Some(digits_value(d) as u64)
            }),
        decreases hi - j,
    {
        let ghost k = j as int - p as int;
        proof {
            assert(d[k] == v@[j as int]);
            assert(d.take(k + 1).drop_last() =~= d.take(k));
            assert(d.take(k + 1).last() == d[k]);
        }
        let c = v[j];
        let u = c as u32;
        if u < 0x30 || u > 0x39 {
            proof {
                assert(!is_digit(d[k]));
                assert(!all_digits(d));
            }
            return None;
        }
        let dv: u64 = (u - 0x30) as u64;
        proof {
            assert(is_digit(d[k]));
            assert(dv as nat == digit_val(d[k]));
            assert forall|m: int| 0 <= m < k + 1 implies is_digit(#[trigger] d.take(k + 1)[m]) by {
                assert(d.take(k + 1)[m] == d[m]);
                if m < k {
                    assert(d.take(k)[m] == d[m]);
                    assert(is_digit(d.take(k)[m]));
                }
            }
            assert(all_digits(d.take(k + 1)));
        }
        let shifted = match acc.checked_mul(10) {
            Some(x) => x,
            None => {
                proof {
                    lemma_digits_value_take_le(d, k + 1, d.len() as int);
                    assert(d.take(d.len() as int) =~= d);
                }
                return None;
            },
        };
        let next = match shifted.checked_add(dv) {
            Some(x) => x,
            None => {
                proof {
                    lemma_digits_value_take_le(d, k + 1, d.len() as int);
                    assert(d.take(d.len() as int) =~= d);
                }
                return None;
            },
        };
        acc = next;
        j = j + 1;
    }
    proof {
        assert(d.take(d.len() as int) =~= d);
        assert(all_digits(d));
        assert(acc as nat == digits_value(d));
    }
    if acc == 0 {
        None
    } else {
        Some(acc)
    }
}

/// Parses the allow-list from its configuration string.
pub fn parse_allow_list(s: &str) -> (r: Vec<u64>)
    ensures
        r@ == spec_allow_list(s@),
{
    let v = chars_of(s);
    let n = v.len();
    let mut out: Vec<u64> = Vec::new();
    let mut start: usize = 0;
    let mut i: usize = 0;
    proof {
        assert(s@.subrange(0, n as int) =~= s@);
        assert(out@ + spec_allow_list(s@) =~= spec_allow_list(s@));
    }
    loop
        invariant_except_break
            start <= i <= n,
            n == s@.len(),
            v@ == s@,
            forall|k: int| start <= k < i ==> s@[k] != ',',
            spec_allow_list(s@) == out@ + spec_allow_list(s@.subrange(start as int, n as int)),
        ensures
            out@ == spec_allow_list(s@),
        decreases n - i,
    {
        if i == n || v[i] == ',' {
            let e = eval_entry(&v, start, i);
            proof {
                let tail = s@.subrange(start as int, n as int);
                assert forall|k: int| 0 <= k < i - start implies tail[k] != ',' by {
                    assert(tail[k] == s@[start + k]);
                }
                lemma_first_comma_at(tail, i as int - start as int);
                assert(tail.subrange(0, i as int - start as int) =~= s@.subrange(
                    start as int,
                    i as int,
                ));
                if i < n {
                    assert(tail.subrange(i as int - start as int + 1, tail.len() as int)
                        =~= s@.subrange(i as int + 1, n as int));
                }
            }
            let ghost old_out = out@;
            let ghost rest = if i == n {
                Seq::<u64>::empty()
            } else {
                spec_allow_list(s@.subrange(i as int + 1, n as int))
            };
            match e {
                Some(val) => {
                    out.push(val);
                    proof {
                        assert(out@ =~= old_out + seq![val]);
                        assert((old_out + seq![val]) + rest =~= old_out + (seq![val] + rest));
                    }
                },
                None => {},
            }
            proof {
                assert(out@ + rest =~= spec_allow_list(s@));
            }
            if i == n {
                proof {
                    assert(out@ + rest =~= out@);
                }
                break ;
            }
            start = i + 1;
            i = i + 1;
        } else {
            i = i + 1;
        }
    }
    out
}

/// Whether the allow-list admits the given channel: it does when the list
/// is empty (no restriction) or when the channel is listed.
pub fn channel_allowed(list: &Vec<u64>, channel_id: u64) -> (r: bool)
    ensures
        r == (list@.len() == 0 || list@.contains(channel_id)),
{
    if list.len() == 0 {
        return true;
    }
    let mut i: usize = 0;
    while i < list.len()
        invariant
            i <= list@.len(),
            forall|k: int| 0 <= k < i ==> list@[k] != channel_id,
        decreases list@.len() - i,
    {
        if list[i] == channel_id {
            return true;
        }
        i = i + 1;
    }
    proof {
        assert(!list@.contains(channel_id));
    }
    false
}

} // verus!

