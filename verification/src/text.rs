//! Character-level text utilities: decimal rendering of integers, conversion
//! between strings and character vectors, and lexicographic comparison.

use vstd::prelude::*;

verus! {

/// The character for one decimal digit.
pub open spec fn dec_digit(d: nat) -> char
    recommends
        d < 10,
{
    if d == 0 {
        '0'
    } else if d == 1 {
        '1'
    } else if d == 2 {
        '2'
    } else if d == 3 {
        '3'
    } else if d == 4 {
        '4'
    } else if d == 5 {
        '5'
    } else if d == 6 {
        '6'
    } else if d == 7 {
        '7'
    } else if d == 8 {
        '8'
    } else {
        '9'
    }
}

/// The decimal digits of a natural number, with none at all for zero.
pub open spec fn dec_nat0(n: nat) -> Seq<char>
    decreases n,
{
    if n == 0 {
        seq![]
    } else {
        dec_nat0(n / 10) + seq![dec_digit(n % 10)]
    }
}

/// The usual decimal rendering of a natural number.
pub open spec fn dec_nat(n: nat) -> Seq<char> {
    if n == 0 {
        seq!['0']
    } else {
        dec_nat0(n)
    }
}

/// The usual decimal rendering of an integer, with a leading minus sign for
/// negative values.
pub open spec fn dec_int(i: int) -> Seq<char> {
    if i >= 0 {
        dec_nat(i as nat)
    } else {
        seq!['-'] + dec_nat((-i) as nat)
    }
}

/// Lexicographic order on character sequences by scalar value; the order in
/// which a canonical JSON object lists its keys.
pub open spec fn chars_lt(a: Seq<char>, b: Seq<char>) -> bool
    decreases a.len(),
{
    if b.len() == 0 {
        false
    } else if a.len() == 0 {
        true
    } else if a[0] != b[0] {
        (a[0] as int) < (b[0] as int)
    } else {
        chars_lt(a.skip(1), b.skip(1))
    }
}

/// The digit character for one decimal digit value.
pub fn digit_char(d: u64) -> (c: char)
    requires
        d < 10,
    ensures
        c == dec_digit(d as nat),
{
    if d == 0 {
        '0'
    } else if d == 1 {
        '1'
    } else if d == 2 {
        '2'
    } else if d == 3 {
        '3'
    } else if d == 4 {
        '4'
    } else if d == 5 {
        '5'
    } else if d == 6 {
        '6'
    } else if d == 7 {
        '7'
    } else if d == 8 {
        '8'
    } else {
        '9'
    }
}

/// Appends the decimal rendering of `n`.
pub fn push_dec_u64(n: u64, out: &mut Vec<char>)
    ensures
        final(out)@ == old(out)@ + dec_nat(n as nat),
{
    if n == 0 {
        out.push('0');
        assert(final(out)@ =~= old(out)@ + dec_nat(0));
        return ;
    }
    let mut digits: Vec<char> = Vec::new();
    let mut cur: u64 = n;
    while cur > 0
        invariant
            dec_nat0(n as nat) == dec_nat0(cur as nat) + digits@.reverse(),
        decreases cur,
    {
        let ghost before = digits@;
        let ghost prev = cur as nat;
        let c = digit_char(cur % 10);
        digits.push(c);
        cur = cur / 10;
        proof {
            assert(dec_nat0(prev) == dec_nat0(prev / 10) + seq![dec_digit(prev % 10)]);
            assert(digits@.reverse() =~= seq![c] + before.reverse());
            assert(dec_nat0(cur as nat) + digits@.reverse() =~= (dec_nat0(prev / 10) + seq![
                dec_digit(prev % 10),
            ]) + before.reverse());
        }
    }
    assert(dec_nat0(n as nat) == digits@.reverse());
    let mut i: usize = digits.len();
    while i > 0
        invariant
            i <= digits.len(),
            out@ == old(out)@ + digits@.reverse().take(digits@.len() - i),
        decreases i,
    {
        i = i - 1;
        out.push(digits[i]);
        proof {
            assert(digits@.reverse()[digits@.len() - i - 1] == digits@[i as int]);
            assert(old(out)@ + digits@.reverse().take(digits@.len() - i) =~= (old(out)@
                + digits@.reverse().take(digits@.len() - i - 1)).push(digits@[i as int]));
        }
    }
    assert(digits@.reverse().take(digits@.len() as int) =~= digits@.reverse());
    assert(dec_nat(n as nat) == dec_nat0(n as nat));
}

/// Appends the decimal rendering of `i`, sign included.
pub fn push_dec_i64(i: i64, out: &mut Vec<char>)
    ensures
        final(out)@ == old(out)@ + dec_int(i as int),
{
    if i >= 0 {
        push_dec_u64(i as u64, out);
    } else {
        let ghost start = out@;
        out.push('-');
        let m: u64 = ((-(i + 1)) as u64) + 1;
        assert(m as nat == (-(i as int)) as nat);
        push_dec_u64(m, out);
        assert(final(out)@ =~= start + dec_int(i as int));
    }
}

/// The text of a boolean, as query strings spell it.
pub open spec fn spec_bool_str(b: bool) -> Seq<char> {
    if b {
        "true"@
    } else {
        "false"@
    }
}

/// The text of a boolean.
pub fn bool_string(b: bool) -> (r: String)
    ensures
        r@ == spec_bool_str(b),
{
    if b {
        "true".to_owned()
    } else {
        "false".to_owned()
    }
}

/// The decimal text of a natural number.
pub fn u64_string(n: u64) -> (r: String)
    ensures
        r@ == dec_nat(n as nat),
{
    let mut v: Vec<char> = Vec::new();
    push_dec_u64(n, &mut v);
    assert(v@ =~= dec_nat(n as nat));
    string_from_chars(&v)
}

/// The decimal text of an integer, sign included.
pub fn i64_string(i: i64) -> (r: String)
    ensures
        r@ == dec_int(i as int),
{
    let mut v: Vec<char> = Vec::new();
    push_dec_i64(i, &mut v);
    assert(v@ =~= dec_int(i as int));
    string_from_chars(&v)
}

/// Two strings, joined.
pub fn str_concat2(a: &str, b: &str) -> (r: String)
    ensures
        r@ == a@ + b@,
{
    let mut out = chars_vec(a);
    let mut t = chars_vec(b);
    out.append(&mut t);
    string_from_chars(&out)
}

/// Three strings, joined.
pub fn str_concat3(a: &str, b: &str, c: &str) -> (r: String)
    ensures
        r@ == a@ + b@ + c@,
{
    let mut out = chars_vec(a);
    let mut t = chars_vec(b);
    out.append(&mut t);
    let mut u = chars_vec(c);
    out.append(&mut u);
    string_from_chars(&out)
}

/// The characters of a string, as a vector.
pub fn chars_vec(s: &str) -> (r: Vec<char>)
    ensures
        r@ == s@,
{
    let mut r: Vec<char> = Vec::new();
    for c in it: s.chars()
        invariant
            it.seq() == s@,
            r@ == it.seq().take(it.index() as int),
    {
        r.push(c);
    }
    assert(r@ =~= s@);
    r
}

/// Relies on `String` collecting an iterator of characters: the result holds
/// exactly the characters of the vector, in order.
#[verifier::external_body]
pub fn string_from_chars(v: &Vec<char>) -> (r: String)
    ensures
        r@ == v@,
{
    v.iter().collect()
}

/// Every character's scalar value lies in the unicode range.
pub proof fn lemma_char_bounds(c: char)
    ensures
        0 <= c as int <= 0x10FFFF,
{
}

/// Whether `a` comes strictly before `b` in lexicographic order.
pub fn chars_lt_exec(a: &Vec<char>, b: &Vec<char>) -> (r: bool)
    ensures
        r == chars_lt(a@, b@),
{
    let mut i: usize = 0;
    proof {
        assert(a@.skip(0) =~= a@);
        assert(b@.skip(0) =~= b@);
    }
    loop
        invariant
            i <= a@.len(),
            i <= b@.len(),
            chars_lt(a@, b@) == chars_lt(a@.skip(i as int), b@.skip(i as int)),
        ensures
            chars_lt(a@, b@) == chars_lt(a@.skip(i as int), b@.skip(i as int)),
            i >= a@.len() || i >= b@.len() || a@[i as int] != b@[i as int],
        decreases a@.len() - i,
    {
        if i >= a.len() || i >= b.len() {
            break ;
        }
        let ca = a[i];
        let cb = b[i];
        if ca != cb {
            break ;
        }
        proof {
            assert(a@.skip(i as int).skip(1) =~= a@.skip(i + 1));
            assert(b@.skip(i as int).skip(1) =~= b@.skip(i + 1));
        }
        i = i + 1;
    }
    if i >= a.len() {
        assert(a@.skip(i as int) =~= Seq::<char>::empty());
        a.len() < b.len()
    } else if i >= b.len() {
        assert(b@.skip(i as int) =~= Seq::<char>::empty());
        false
    } else {
        let ca = a[i];
        let cb = b[i];
        proof {
            lemma_char_bounds(ca);
            lemma_char_bounds(cb);
        }
        let r = (ca as u32) < (cb as u32);
        assert(r == ((ca as int) < (cb as int)));
        r
    }
}

/// Whether two character vectors hold the same characters.
pub fn chars_eq(a: &Vec<char>, b: &Vec<char>) -> (r: bool)
    ensures
        r == (a@ == b@),
{
    if a.len() != b.len() {
        return false;
    }
    let mut i: usize = 0;
    while i < a.len()
        invariant
            i <= a@.len(),
            a@.len() == b@.len(),
            forall|j: int| 0 <= j < i ==> a@[j] == b@[j],
        decreases a@.len() - i,
    {
        if a[i] != b[i] {
            return false;
        }
        i = i + 1;
    }
    proof {
        assert(a@ =~= b@);
    }
    true
}

} // verus!
