//! Text helpers: decimal rendering of integers and substring containment.

use vstd::prelude::*;
use vstd::string::StringExecFns;
use vstd::string::StrSliceExecFns;

verus! {

/// The character for a single decimal digit.
pub open spec fn spec_digit(d: int) -> char {
    if d == 0 {
        '0'
    } else if d == 1 {
        '1'
    } else if d == 2 {
        '2'
    } else if d == 3 {
        '3'
    } else if d == 4 {
        '4'
    } else if d == 5 {
        '5'
    } else if d == 6 {
        '6'
    } else if d == 7 {
        '7'
    } else if d == 8 {
        '8'
    } else {
        '9'
    }
}

/// The usual decimal rendering of a non-negative integer, most significant
/// digit first, with no leading zeros (except for zero itself).
pub open spec fn spec_decimal(n: nat) -> Seq<char>
    decreases n,
{
    if n < 10 {
        seq![spec_digit(n as int)]
    } else {
        spec_decimal(n / 10) + seq![spec_digit((n % 10) as int)]
    }
}

fn digit_str(d: u64) -> (r: &'static str)
    requires
        d < 10,
    ensures
        r@ =~= seq![spec_digit(d as int)],
{
    proof {
        reveal_strlit("0");
        reveal_strlit("1");
        reveal_strlit("2");
        reveal_strlit("3");
        reveal_strlit("4");
        reveal_strlit("5");
        reveal_strlit("6");
        reveal_strlit("7");
        reveal_strlit("8");
        reveal_strlit("9");
    }
    match d {
        0 => "0",
        1 => "1",
        2 => "2",
        3 => "3",
        4 => "4",
        5 => "5",
        6 => "6",
        7 => "7",
        8 => "8",
        _ => "9",
    }
}

/// Renders `n` in decimal.
pub fn decimal_string(n: u64) -> (s: String)
    ensures
        s@ == spec_decimal(n as nat),
    decreases n,
{
    if n < 10 {
        digit_str(n).to_owned()
    } else {
        let mut s = decimal_string(n / 10);
        s.append(digit_str(n % 10));
        assert(s@ =~= spec_decimal(n as nat));
        s
    }
}

/// The JSON object `{"value":<value>,"label":"<label>"}` as serialized by a
/// compact writer: no spaces, fields in this order. The label is taken
/// verbatim, which is faithful for labels without characters that JSON would
/// escape.
pub open spec fn spec_json_metadata(value: int, label: Seq<char>) -> Seq<char> {
    "{\"value\":"@ + spec_decimal(value as nat) + ",\"label\":\""@ + label + "\"}"@
}

/// Builds the compact JSON metadata object for a value and a label.
pub fn metadata_string(value: u64, label: &str) -> (s: String)
    ensures
        s@ == spec_json_metadata(value as int, label@),
{
    let mut s = String::from_str("{\"value\":");
    let d = decimal_string(value);
    s.append(d.as_str());
    s.append(",\"label\":\"");
    s.append(label);
    s.append("\"}");
    assert(s@ =~= spec_json_metadata(value as int, label@));
    s
}

/// `needle` occurs as a contiguous run of characters somewhere in `hay`.
pub open spec fn spec_contains(hay: Seq<char>, needle: Seq<char>) -> bool {
    exists|k: int|
        0 <= k <= hay.len() - needle.len() && #[trigger] hay.subrange(k, k + needle.len() as int)
            == needle
}

fn match_at(hay: &str, needle: &str, k: usize) -> (r: bool)
    requires
        k + needle@.len() <= hay@.len(),
        hay@.len() <= usize::MAX,
    ensures
        r == (hay@.subrange(k as int, k as int + needle@.len() as int) == needle@),
{
    let n = needle.unicode_len();
    let ghost target = hay@.subrange(k as int, k as int + needle@.len() as int);
    let mut i: usize = 0;
    while i < n
        invariant
            n == needle@.len(),
            k + n <= hay@.len(),
            hay@.len() <= usize::MAX,
            i <= n,
            target == hay@.subrange(k as int, k as int + n as int),
            forall|j: int| 0 <= j < i ==> hay@[k + j] == needle@[j],
        decreases n - i,
    {
        if hay.get_char(k + i) != needle.get_char(i) {
            assert(target[i as int] != needle@[i as int]);
            return false;
        }
        i += 1;
    }
    assert(target =~= needle@);
    true
}

/// Tests substring containment of `needle` in `hay` by a direct scan.
pub fn contains_str(hay: &str, needle: &str) -> (r: bool)
    ensures
        r == spec_contains(hay@, needle@),
{
    let h = hay.unicode_len();
    let n = needle.unicode_len();
    if n > h {
        assert(!spec_contains(hay@, needle@));
        return false;
    }
    if n == 0 {
        assert(hay@.subrange(0, 0 + needle@.len() as int) =~= needle@);
        assert(spec_contains(hay@, needle@));
        return true;
    }
    let mut k: usize = 0;
    while k <= h - n
        invariant
            h == hay@.len(),
            n == needle@.len(),
            1 <= n <= h,
            k <= h - n + 1,
            forall|j: int|
                0 <= j < k ==> #[trigger] hay@.subrange(j, j + n as int) != needle@,
        decreases h - n - k + 1,
    {
        if match_at(hay, needle, k) {
            assert(spec_contains(hay@, needle@));
            return true;
        }
        k += 1;
    }
    assert(!spec_contains(hay@, needle@));
    false
}

} // verus!
