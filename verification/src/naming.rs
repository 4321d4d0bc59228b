//! Migration file naming.
//!
//! Generated migration files are named `<version>_<name>.up.sql` and
//! `<version>_<name>.down.sql`, with the version rendered in decimal and
//! zero-padded to at least three digits.

use vstd::prelude::*;
use vstd::string::StringExecFns;

use crate::text::string_from_chars;

verus! {

/// The decimal digit character for a value below ten.
pub open spec fn dec_digit(d: int) -> char {
    if d == 0 {
        '0'
    } else if d == 1 {
        '1'
    } else if d == 2 {
        '2'
    } else if d == 3 {
        '3'
    } else if d == 4 {
        '4'
    } else if d == 5 {
        '5'
    } else if d == 6 {
        '6'
    } else if d == 7 {
        '7'
    } else if d == 8 {
        '8'
    } else {
        '9'
    }
}

/// The decimal rendering of a number, most significant digit first, with no
/// leading zeros (zero itself rendered as one digit).
pub open spec fn spec_u32_dec(v: nat) -> Seq<char>
    decreases v,
{
    if v < 10 {
        seq![dec_digit(v as int)]
    } else {
        spec_u32_dec(v / 10).push(dec_digit((v % 10) as int))
    }
}

/// A digit string zero-padded on the left to at least three characters.
pub open spec fn spec_pad3(s: Seq<char>) -> Seq<char> {
    if s.len() >= 3 {
        s
    } else if s.len() == 2 {
        "0"@ + s
    } else if s.len() == 1 {
        "00"@ + s
    } else {
        "000"@
    }
}

fn dec_digit_exec(d: u32) -> (r: char)
    requires
        d < 10,
    ensures
        r == dec_digit(d as int),
{
    match d {
        0 => '0',
        1 => '1',
        2 => '2',
        3 => '3',
        4 => '4',
        5 => '5',
        6 => '6',
        7 => '7',
        8 => '8',
        _ => '9',
    }
}

/// The decimal digits of `v`, most significant first.
pub fn u32_to_dec(v: u32) -> (r: Vec<char>)
    ensures
        r@ == spec_u32_dec(v as nat),
{
    let mut acc: Vec<char> = Vec::new();
    let mut x = v;
    if x == 0 {
        let mut r: Vec<char> = Vec::new();
        r.push('0');
        assert(r@ =~= spec_u32_dec(0));
        return r;
    }
    while x > 0
        invariant
            x > 0 ==> spec_u32_dec(v as nat) == spec_u32_dec(x as nat) + acc@.reverse(),
            x == 0 ==> spec_u32_dec(v as nat) == acc@.reverse(),
        decreases x,
    {
        let ghost acc0 = acc@;
        let ghost x0 = x;
        let d = x % 10;
        acc.push(dec_digit_exec(d));
        x = x / 10;
        proof {
            assert(acc@.reverse() =~= seq![dec_digit(d as int)] + acc0.reverse());
            if x > 0 {
                assert(spec_u32_dec(x0 as nat) == spec_u32_dec(x as nat).push(
                    dec_digit(d as int),
                ));
                assert(spec_u32_dec(x as nat) + acc@.reverse() =~= (spec_u32_dec(x as nat).push(
                    dec_digit(d as int),
                )) + acc0.reverse());
            } else {
                assert(x0 < 10);
                assert(spec_u32_dec(x0 as nat) == seq![dec_digit(x0 as int)]);
                assert(acc@.reverse() =~= spec_u32_dec(x0 as nat) + acc0.reverse());
            }
        }
    }
    let n = acc.len();
    let mut r: Vec<char> = Vec::new();
    let mut k: usize = 0;
    while k < n
        invariant
            k <= n,
            n == acc@.len(),
            r@ == acc@.reverse().take(k as int),
        decreases n - k,
    {
        r.push(acc[n - 1 - k]);
        k = k + 1;
        assert(r@ =~= acc@.reverse().take(k as int));
    }
    assert(r@ =~= acc@.reverse());
    r
}

/// The generated file name for one side of a migration:
/// `<version:03>_<name>.up.sql` when `up` is set, `.down.sql` otherwise.
pub fn migration_file_name(version: u32, name: &str, up: bool) -> (r: String)
    ensures
        r@ == spec_pad3(spec_u32_dec(version as nat)) + "_"@ + name@ + (if up {
            ".up.sql"@
        } else {
            ".down.sql"@
        }),
{
    let digits = u32_to_dec(version);
    let digit_str = string_from_chars(&digits);
    let mut s = String::new();
    if digits.len() == 2 {
        s.append("0");
    } else if digits.len() == 1 {
        s.append("00");
    } else if digits.len() == 0 {
        s.append("000");
    }
    s.append(digit_str.as_str());
    proof {
        assert(s@ =~= spec_pad3(spec_u32_dec(version as nat)));
    }
    s.append("_");
    s.append(name);
    if up {
        s.append(".up.sql");
    } else {
        s.append(".down.sql");
    }
    proof {
        assert(s@ =~= spec_pad3(spec_u32_dec(version as nat)) + "_"@ + name@ + (if up {
            ".up.sql"@
        } else {
            ".down.sql"@
        }));
    }
    s
}

} // verus!
