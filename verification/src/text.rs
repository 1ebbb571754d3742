//! Character-level helpers on strings: equality with a literal, substring
//! search and decimal rendering of integers.
use vstd::prelude::*;
use vstd::string::*;

verus! {

/// `needle` occurs in `hay` as a contiguous run of characters.
pub open spec fn seq_contains(hay: Seq<char>, needle: Seq<char>) -> bool {
    exists|i: int| 0 <= i && i + needle.len() <= hay.len() && #[trigger] hay.subrange(i, i + needle.len()) == needle
}

/// A run of characters occurs in any text that holds it, wherever it stands
/// there; the empty run occurs in every text; a run occurs only in a text at
/// least as long; and a run that occurs in a part of a text occurs in the
/// whole.
pub proof fn lemma_seq_contains_any_position(p: Seq<char>, needle: Seq<char>, q: Seq<char>)
    ensures
        seq_contains(p + needle + q, needle),
        seq_contains(p, Seq::empty()),
        seq_contains(p, needle) ==> needle.len() <= p.len(),
        seq_contains(q, needle) ==> seq_contains(p + q, needle),
{
    let h = p + needle + q;
    assert(h.subrange(p.len() as int, p.len() + needle.len() as int) =~= needle);
    assert(p.subrange(0, 0 + Seq::<char>::empty().len() as int) =~= Seq::<char>::empty());
    if seq_contains(q, needle) {
        let i = choose|i: int| 0 <= i && i + needle.len() <= q.len() && #[trigger] q.subrange(i, i + needle.len()) == needle;
        assert((p + q).subrange(p.len() as int + i, p.len() as int + i + needle.len()) =~= q.subrange(i, i + needle.len()));
    }
}

/// The characters of `s`, in order.
pub fn chars_of(s: &str) -> (r: Vec<char>)
    ensures
        r@ == s@,
{
    let n = s.unicode_len();
    let mut out: Vec<char> = Vec::new();
    let mut i: usize = 0;
    while i < n
        invariant
            i <= n,
            n == s@.len(),
            out@ == s@.subrange(0, i as int),
        decreases n - i,
    {
        let c = s.get_char(i);
        out.push(c);
        i = i + 1;
        assert(out@ =~= s@.subrange(0, i as int));
    }
    assert(out@ =~= s@);
    out
}

/// Whether `needle` occurs in `hay` at position `start`.
fn occurs_at(hay: &Vec<char>, needle: &Vec<char>, start: usize) -> (r: bool)
    requires
        start + needle@.len() <= hay@.len(),
    ensures
        r == (hay@.subrange(start as int, start + needle@.len()) == needle@),
{
    proof {
        assert(hay@.len() == hay.len());
    }
    let mut j: usize = 0;
    while j < needle.len()
        invariant
            j <= needle@.len(),
            hay@.len() <= usize::MAX,
            start + needle@.len() <= hay@.len(),
            forall|k: int| 0 <= k < j ==> hay@[start + k] == needle@[k],
        decreases needle@.len() - j,
    {
        if hay[start + j] != needle[j] {
            assert(hay@.subrange(start as int, start + needle@.len())[j as int] != needle@[j as int]);
            return false;
        }
        j = j + 1;
    }
    assert(hay@.subrange(start as int, start + needle@.len()) =~= needle@);
    true
}

/// Whether `needle` occurs in `hay` as a contiguous run of characters.
pub fn contains_str(hay: &str, needle: &str) -> (r: bool)
    ensures
        r == seq_contains(hay@, needle@),
{
    let h = chars_of(hay);
    let n = chars_of(needle);
    if n.len() > h.len() {
        assert(!seq_contains(hay@, needle@));
        return false;
    }
    let last = h.len() - n.len();
    let mut i: usize = 0;
    loop
        invariant
            i <= last,
            last == h@.len() - n@.len(),
            n@.len() <= h@.len(),
            h@ == hay@,
            n@ == needle@,
            forall|k: int| 0 <= k < i ==> #[trigger] hay@.subrange(k, k + needle@.len()) != needle@,
        decreases last - i,
    {
        if occurs_at(&h, &n, i) {
            return true;
        }
        if i == last {
            assert forall|k: int| 0 <= k && k + needle@.len() <= hay@.len() implies #[trigger] hay@.subrange(
                k,
                k + needle@.len(),
            ) != needle@ by {
                assert(k <= last);
            }
            return false;
        }
        i = i + 1;
    }
}

/// Whether `s` consists of exactly the characters of `lit`.
pub fn str_is(s: &str, lit: &str) -> (r: bool)
    ensures
        r == (s@ == lit@),
{
    let a = String::from_str(s);
    let b = String::from_str(lit);
    a == b
}

/// The decimal digit for `d`, which is below ten.
pub open spec fn digit_char(d: int) -> char {
    ('0' as int + d) as char
}

/// The decimal digits of `n`, most significant first, without leading zeros.
pub open spec fn decimal_digits(n: nat) -> Seq<char>
    decreases n,
{
    if n < 10 {
        seq![digit_char(n as int)]
    } else {
        decimal_digits(n / 10).push(digit_char((n % 10) as int))
    }
}

/// The decimal rendering of `n`: a minus sign for a negative number, then
/// the digits of its magnitude.
pub open spec fn decimal(n: int) -> Seq<char> {
    if n < 0 {
        seq!['-'] + decimal_digits((-n) as nat)
    } else {
        decimal_digits(n as nat)
    }
}

/// Whether `c` is a decimal digit.
pub open spec fn is_digit_char(c: char) -> bool {
    '0' as int <= c as int <= '9' as int
}

/// The decimal digit for `d` below ten is a digit, and tells `d` apart.
proof fn lemma_digit_char(d: int)
    requires
        0 <= d < 10,
    ensures
        digit_char(d) as int == '0' as int + d,
        is_digit_char(digit_char(d)),
{
}

/// The digits of `n` are not empty, are all decimal digits, and are a
/// single digit exactly when `n` is below ten.
pub proof fn lemma_decimal_digits_shape(n: nat)
    ensures
        decimal_digits(n).len() >= 1,
        (decimal_digits(n).len() == 1) <==> (n < 10),
        forall|i: int| 0 <= i < decimal_digits(n).len() ==> is_digit_char(#[trigger] decimal_digits(n)[i]),
    decreases n,
{
    if n < 10 {
        lemma_digit_char(n as int);
    } else {
        lemma_decimal_digits_shape(n / 10);
        lemma_digit_char((n % 10) as int);
        let d = decimal_digits(n);
        assert forall|i: int| 0 <= i < d.len() implies is_digit_char(#[trigger] d[i]) by {
            if i < d.len() - 1 {
                assert(d[i] == decimal_digits(n / 10)[i]);
            }
        }
    }
}

/// Different numbers have different digits.
pub proof fn lemma_decimal_digits_injective(n: nat, m: nat)
    ensures
        decimal_digits(n) == decimal_digits(m) ==> n == m,
    decreases n,
{
    if decimal_digits(n) == decimal_digits(m) {
        lemma_decimal_digits_shape(n);
        lemma_decimal_digits_shape(m);
        if n < 10 {
            assert(m < 10);
            lemma_digit_char(n as int);
            lemma_digit_char(m as int);
            assert(decimal_digits(n)[0] == decimal_digits(m)[0]);
        } else {
            assert(m >= 10);
            let dn = decimal_digits(n);
            let dm = decimal_digits(m);
            lemma_digit_char((n % 10) as int);
            lemma_digit_char((m % 10) as int);
            assert(dn.last() == dm.last());
            assert(dn.drop_last() =~= decimal_digits(n / 10));
            assert(dm.drop_last() =~= decimal_digits(m / 10));
            lemma_decimal_digits_injective(n / 10, m / 10);
        }
    }
}

/// Different numbers have different decimal renderings.
pub proof fn lemma_decimal_injective(a: int, b: int)
    ensures
        decimal(a) == decimal(b) ==> a == b,
{
    if decimal(a) == decimal(b) {
        if a < 0 && b < 0 {
            assert(decimal(a).drop_first() =~= decimal_digits((-a) as nat));
            assert(decimal(b).drop_first() =~= decimal_digits((-b) as nat));
            lemma_decimal_digits_injective((-a) as nat, (-b) as nat);
        } else if a >= 0 && b >= 0 {
            lemma_decimal_digits_injective(a as nat, b as nat);
        } else if a < 0 {
            lemma_decimal_digits_shape(b as nat);
            assert(decimal(a)[0] == '-');
            assert(is_digit_char(decimal_digits(b as nat)[0]));
        } else {
            lemma_decimal_digits_shape(a as nat);
            assert(decimal(b)[0] == '-');
            assert(is_digit_char(decimal_digits(a as nat)[0]));
        }
    }
}

/// The number that a string of decimal digits reads as, most significant
/// first: each character stands for its distance from `'0'`.
pub open spec fn digits_value(s: Seq<char>) -> int
    decreases s.len(),
{
    if s.len() == 0 {
        0
    } else {
        digits_value(s.drop_last()) * 10 + (s.last() as int - '0' as int)
    }
}

/// The digits of `n` are its standard decimal rendering: each is a character
/// from `'0'` to `'9'`, read back most significant first they give `n`, and
/// the first is `'0'` only for `n == 0` itself.
pub proof fn lemma_decimal_digits_value(n: nat)
    ensures
        digits_value(decimal_digits(n)) == n,
        forall|i: int|
            0 <= i < decimal_digits(n).len() ==> '0' <= #[trigger] decimal_digits(n)[i] && decimal_digits(n)[i]
                <= '9',
        (decimal_digits(n)[0] == '0') <==> (n == 0),
    decreases n,
{
    lemma_decimal_digits_shape(n);
    let d = decimal_digits(n);
    assert forall|i: int| 0 <= i < d.len() implies '0' <= #[trigger] d[i] && d[i] <= '9' by {
        assert(is_digit_char(d[i]));
    }
    if n < 10 {
        lemma_digit_char(n as int);
        assert(d.drop_last() =~= Seq::<char>::empty());
        assert(digits_value(d.drop_last()) == 0);
        assert(d.last() as int == '0' as int + n);
        assert(digits_value(d) == digits_value(d.drop_last()) * 10 + (d.last() as int - '0' as int));
    } else {
        lemma_decimal_digits_value(n / 10);
        lemma_digit_char((n % 10) as int);
        assert(d.drop_last() =~= decimal_digits(n / 10));
        assert(d.last() == digit_char((n % 10) as int));
        assert(d.last() as int == '0' as int + n % 10);
        assert(digits_value(d) == digits_value(d.drop_last()) * 10 + (d.last() as int - '0' as int));
        assert((n / 10) * 10 + n % 10 == n) by (nonlinear_arith);
        lemma_decimal_digits_shape(n / 10);
        assert(d[0] == decimal_digits(n / 10)[0]);
    }
}

/// The decimal rendering of `n` is the standard one: for `n >= 0` its
/// digits read back as `n`; for `n < 0` it is a minus sign followed by
/// digits that read back as `-n`.
pub proof fn lemma_decimal_value(n: int)
    ensures
        n >= 0 ==> digits_value(decimal(n)) == n,
        n < 0 ==> decimal(n)[0] == '-' && digits_value(decimal(n).drop_first()) == -n,
        forall|i: int| (if n < 0 { 1int } else { 0int }) <= i < decimal(n).len() ==> '0' <= #[trigger] decimal(n)[i] && decimal(n)[i] <= '9',
{
    if n < 0 {
        let m = (-n) as nat;
        lemma_decimal_digits_value(m);
        assert(decimal(n).drop_first() =~= decimal_digits(m));
        assert forall|i: int| 1 <= i < decimal(n).len() implies '0' <= #[trigger] decimal(n)[i] && decimal(n)[i] <= '9' by {
            assert(decimal(n)[i] == decimal_digits(m)[i - 1]);
        }
    } else {
        lemma_decimal_digits_value(n as nat);
    }
}

/// The one-character text of the decimal digit for `d`.
fn digit(d: u64) -> (r: &'static str)
    requires
        d < 10,
    ensures
        r@ == seq![digit_char(d as int)],
{
    if d == 0 {
        proof {
            reveal_strlit("0");
        }
        "0"
    }
    else if d == 1 {
        proof {
            reveal_strlit("1");
        }
        "1"
    }
    else if d == 2 {
        proof {
            reveal_strlit("2");
        }
        "2"
    }
    else if d == 3 {
        proof {
            reveal_strlit("3");
        }
        "3"
    }
    else if d == 4 {
        proof {
            reveal_strlit("4");
        }
        "4"
    }
    else if d == 5 {
        proof {
            reveal_strlit("5");
        }
        "5"
    }
    else if d == 6 {
        proof {
            reveal_strlit("6");
        }
        "6"
    }
    else if d == 7 {
        proof {
            reveal_strlit("7");
        }
        "7"
    }
    else if d == 8 {
        proof {
            reveal_strlit("8");
        }
        "8"
    }
    else {
        proof {
            reveal_strlit("9");
        }
        "9"
    }
}

/// Appends the decimal digits of `n` to `s`.
fn push_digits(s: &mut String, n: u64)
    ensures
        final(s)@ == old(s)@ + decimal_digits(n as nat),
    decreases n,
{
    if n >= 10 {
        push_digits(s, n / 10);
        s.append(digit(n % 10));
        assert(final(s)@ =~= old(s)@ + decimal_digits(n as nat));
    } else {
        s.append(digit(n));
        assert(final(s)@ =~= old(s)@ + decimal_digits(n as nat));
    }
}

/// The decimal rendering of `n`.
pub fn decimal_string(n: i32) -> (r: String)
    ensures
        r@ == decimal(n as int),
{
    let mut s = String::new();
    if n < 0 {
        proof {
            reveal_strlit("-");
        }
        s.append("-");
        let m: i64 = n as i64;
        let magnitude: u64 = (-m) as u64;
        push_digits(&mut s, magnitude);
    } else {
        push_digits(&mut s, n as u64);
    }
    s
}

} // verus!
