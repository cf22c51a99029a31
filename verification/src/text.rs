//! Small verified helpers on strings and on sequences of names.

use vstd::prelude::*;
use vstd::string::StringExecFns;
use vstd::string::StringSliceAdditionalSpecFns;

verus! {

/// Whether `i` is the first position of `names` that holds `wanted`.
pub open spec fn is_first_position(names: Seq<Seq<char>>, wanted: Seq<char>, i: int) -> bool {
    &&& 0 <= i < names.len()
    &&& names[i] == wanted
    &&& forall|j: int| 0 <= j < i ==> names[j] != wanted
}

/// The first position of `names` that holds `wanted`, if any does.
pub open spec fn first_position(names: Seq<Seq<char>>, wanted: Seq<char>) -> Option<int> {
    if exists|i: int| is_first_position(names, wanted, i) {
        Some(choose|i: int| is_first_position(names, wanted, i))
    } else {
        None
    }
}

/// A position that is a first position is the first position.
pub proof fn lemma_first_position_found(names: Seq<Seq<char>>, wanted: Seq<char>, i: int)
    requires
        is_first_position(names, wanted, i),
    ensures
        first_position(names, wanted) == Some(i),
{
    let j = choose|j: int| is_first_position(names, wanted, j);
    assert(is_first_position(names, wanted, j));
    if j < i {
        assert(names[j] != wanted);
    } else if i < j {
        assert(names[i] != wanted);
    }
}

/// Where no position holds `wanted`, there is no first position.
pub proof fn lemma_first_position_absent(names: Seq<Seq<char>>, wanted: Seq<char>)
    requires
        forall|j: int| 0 <= j < names.len() ==> names[j] != wanted,
    ensures
        first_position(names, wanted) is None,
{
}

/// A first position, where there is one, lies in range, holds `wanted`, and
/// nothing before it does; where there is none, nothing holds `wanted`.
pub proof fn lemma_first_position_sound(names: Seq<Seq<char>>, wanted: Seq<char>)
    ensures
        match first_position(names, wanted) {
            Some(i) => is_first_position(names, wanted, i),
            None => forall|j: int| 0 <= j < names.len() ==> names[j] != wanted,
        },
{
    if first_position(names, wanted) is None {
        assert forall|j: int| 0 <= j < names.len() implies names[j] != wanted by {
            if names[j] == wanted {
                lemma_some_match_has_first(names, wanted, j);
            }
        }
    }
}

/// Below any position that holds `wanted` there is a first one.
proof fn lemma_some_match_has_first(names: Seq<Seq<char>>, wanted: Seq<char>, k: int)
    requires
        0 <= k < names.len(),
        names[k] == wanted,
    ensures
        exists|i: int| is_first_position(names, wanted, i),
    decreases k,
{
    if exists|j: int| 0 <= j < k && names[j] == wanted {
        let j = choose|j: int| 0 <= j < k && names[j] == wanted;
        lemma_some_match_has_first(names, wanted, j);
    } else {
        assert(is_first_position(names, wanted, k));
    }
}

/// Whether two string slices hold the same characters.
pub fn str_eq(a: &str, b: &str) -> (same: bool)
    ensures
        same == (a@ == b@),
{
    let x = a.as_bytes();
    let y = b.as_bytes();
    if x.len() != y.len() {
        return false;
    }
    let mut i: usize = 0;
    while i < x.len()
        invariant
            x@ == a.spec_bytes(),
            y@ == b.spec_bytes(),
            x@.len() == y@.len(),
            i <= x@.len(),
            forall|k: int| 0 <= k < i ==> x@[k] == y@[k],
        decreases x@.len() - i,
    {
        if x[i] != y[i] {
            return false;
        }
        i += 1;
    }
    proof {
        assert(x@ =~= y@);
        vstd::utf8::encode_utf8_decode_utf8(a@);
        vstd::utf8::encode_utf8_decode_utf8(b@);
    }
    true
}

/// `a` followed by `b`, as an owned string.
pub fn join2(a: &str, b: &str) -> (joined: String)
    ensures
        joined@ == a@ + b@,
{
    let mut joined = String::from_str(a);
    joined.append(b);
    joined
}

/// `a`, `b` and `c` in a row, as an owned string.
pub fn join3(a: &str, b: &str, c: &str) -> (joined: String)
    ensures
        joined@ == a@ + b@ + c@,
{
    let mut joined = String::from_str(a);
    joined.append(b);
    joined.append(c);
    joined
}

/// The decimal digit `d` as text.
pub open spec fn digit_text(d: int) -> Seq<char> {
    if d == 0 {
        "0"@
    } else if d == 1 {
        "1"@
    } else if d == 2 {
        "2"@
    } else if d == 3 {
        "3"@
    } else if d == 4 {
        "4"@
    } else if d == 5 {
        "5"@
    } else if d == 6 {
        "6"@
    } else if d == 7 {
        "7"@
    } else if d == 8 {
        "8"@
    } else {
        "9"@
    }
}

/// The decimal text of a natural number, without leading zeros.
pub open spec fn decimal_text(n: nat) -> Seq<char>
    decreases n,
{
    if n < 10 {
        digit_text(n as int)
    } else {
        decimal_text(n / 10) + digit_text((n % 10) as int)
    }
}

/// The decimal text of an integer: a minus sign before a negative one.
pub open spec fn signed_decimal_text(n: int) -> Seq<char> {
    if n < 0 {
        "-"@ + decimal_text((-n) as nat)
    } else {
        decimal_text(n as nat)
    }
}

fn digit(d: u64) -> (text: &'static str)
    requires
        d < 10,
    ensures
        text@ == digit_text(d as int),
{
    if d == 0 {
        "0"
    } else if d == 1 {
        "1"
    } else if d == 2 {
        "2"
    } else if d == 3 {
        "3"
    } else if d == 4 {
        "4"
    } else if d == 5 {
        "5"
    } else if d == 6 {
        "6"
    } else if d == 7 {
        "7"
    } else if d == 8 {
        "8"
    } else {
        "9"
    }
}

/// The decimal text of `n`.
pub fn decimal(n: u64) -> (text: String)
    ensures
        text@ == decimal_text(n as nat),
    decreases n,
{
    if n < 10 {
        String::from_str(digit(n))
    } else {
        let mut text = decimal(n / 10);
        text.append(digit(n % 10));
        text
    }
}

/// The decimal text of `n`, with a minus sign where it is negative.
pub fn signed_decimal(n: i64) -> (text: String)
    ensures
        text@ == signed_decimal_text(n as int),
{
    if n < 0 {
        let magnitude: u64 = if n == i64::MIN {
            9223372036854775808u64
        } else {
            (-n) as u64
        };
        let digits = decimal(magnitude);
        join2("-", digits.as_str())
    } else {
        decimal(n as u64)
    }
}

} // verus!
