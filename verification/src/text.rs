//! Characters and strings: moving between `&str`, `Vec<char>` and `String`,
//! and writing integers in decimal.
use vstd::prelude::*;

verus! {

/// `String::push` of std: appends one character at the end and changes
/// nothing else.
pub assume_specification[ String::push ](s: &mut String, c: char)
    ensures
        final(s)@ == old(s)@.push(c),
;

/// The characters of `s`, in order.
pub fn chars_of(s: &str) -> (v: Vec<char>)
    ensures
        v@ == s@,
{
    broadcast use vstd::string::group_string_axioms;
    let mut v: Vec<char> = Vec::new();
    for c in it: s.chars()
        invariant
            it.seq() == s@,
            v@ == s@.take(it.index()),
    {
        v.push(c);
        proof {
            assert(s@.take(it.index() + 1) =~= s@.take(it.index()).push(s@[it.index()]));
        }
    }
    proof {
        assert(s@.take(s@.len() as int) =~= s@);
    }
    v
}

/// The string made of `v[from..to]`.
pub fn string_of_range(v: &Vec<char>, from: usize, to: usize) -> (s: String)
    requires
        from <= to <= v.len(),
    ensures
        s@ == v@.subrange(from as int, to as int),
{
    let mut s = String::new();
    let mut i: usize = from;
    while i < to
        invariant
            from <= i <= to <= v.len(),
            s@ == v@.subrange(from as int, i as int),
        decreases to - i,
    {
        s.push(v[i]);
        i += 1;
        proof {
            assert(v@.subrange(from as int, i as int) =~= v@.subrange(from as int, i - 1).push(v@[i - 1]));
        }
    }
    s
}

/// A copy of `v[from..to]`.
pub fn slice_of(v: &Vec<char>, from: usize, to: usize) -> (r: Vec<char>)
    requires
        from <= to <= v.len(),
    ensures
        r@ == v@.subrange(from as int, to as int),
{
    let mut r: Vec<char> = Vec::new();
    let mut i: usize = from;
    while i < to
        invariant
            from <= i <= to <= v.len(),
            r@ == v@.subrange(from as int, i as int),
        decreases to - i,
    {
        r.push(v[i]);
        i += 1;
        proof {
            assert(v@.subrange(from as int, i as int) =~= v@.subrange(from as int, i - 1).push(v@[i - 1]));
        }
    }
    r
}

/// Whether `c` is one of the ten decimal digits `0` to `9`.
pub open spec fn is_digit(c: char) -> bool {
    '0' <= c && c <= '9'
}

/// The number that the digit `c` stands for.
pub open spec fn digit_value(c: char) -> int {
    c as int - 48
}

/// Whether every character of `s` is a decimal digit.
pub open spec fn all_digits(s: Seq<char>) -> bool {
    forall|i: int| 0 <= i < s.len() ==> is_digit(#[trigger] s[i])
}

/// The number that the digits of `s` write in base ten, most significant first.
pub open spec fn decimal_value(s: Seq<char>) -> int
    decreases s.len(),
{
    if s.len() == 0 {
        0
    } else {
        decimal_value(s.drop_last()) * 10 + digit_value(s.last())
    }
}

/// What `s` denotes as an `i32`: an optional sign, then one or more digits,
/// with a value inside the range of the type. Anything else denotes nothing.
pub open spec fn int_of(s: Seq<char>) -> Option<int> {
    let signed = s.len() > 0 && (s[0] == '+' || s[0] == '-');
    let body = if signed { s.subrange(1, s.len() as int) } else { s };
    let value = if signed && s[0] == '-' { -decimal_value(body) } else { decimal_value(body) };
    if body.len() > 0 && all_digits(body) && i32::MIN <= value <= i32::MAX {
        Some(value)
    } else {
        None
    }
}

/// A prefix of a digit string writes a number that is not negative and not
/// above the number of the whole string.
pub proof fn lemma_decimal_prefix(s: Seq<char>, k: int)
    requires
        all_digits(s),
        0 <= k <= s.len(),
    ensures
        0 <= decimal_value(s.take(k)) <= decimal_value(s),
    decreases s.len(),
{
    if s.len() == 0 {
        assert(s.take(k) =~= s);
    } else {
        let front = s.drop_last();
        assert(is_digit(s.last()));
        lemma_decimal_prefix(front, front.len() as int);
        assert(front.take(front.len() as int) =~= front);
        if k == s.len() {
            assert(s.take(k) =~= s);
        } else {
            lemma_decimal_prefix(front, k);
            assert(front.take(k) =~= s.take(k));
        }
    }
}

/// Whether `c` is a decimal digit.
pub fn is_digit_char(c: char) -> (b: bool)
    ensures
        b == is_digit(c),
{
    '0' <= c && c <= '9'
}

/// The value of the digit `c`.
pub fn digit_of(c: char) -> (d: u8)
    requires
        is_digit(c),
    ensures
        d as int == digit_value(c),
        d <= 9,
{
    (c as u32 - 48) as u8
}

/// Reads `s` as an `i32` in decimal, as `str::parse::<i32>` does: an optional
/// `+` or `-`, then digits only; nothing when the text has another shape or
/// the number does not fit.
pub fn parse_i32(s: &str) -> (r: Option<i32>)
    ensures
        match r {
            Some(v) => int_of(s@) == Some(v as int),
            None => int_of(s@) is None,
        },
{
    let v = chars_of(s);
    let n = v.len();
    let mut negative = false;
    let mut start: usize = 0;
    if n > 0 && (v[0] == '+' || v[0] == '-') {
        negative = v[0] == '-';
        start = 1;
    }
    if start == n {
        return None;
    }
    let ghost body = s@.subrange(start as int, n as int);
    let mut acc: i64 = 0;
    let mut i: usize = start;
    while i < n
        invariant
            start <= i <= n,
            start < n,
            n == v.len(),
            v@ == s@,
            start == if s@.len() > 0 && (s@[0] == '+' || s@[0] == '-') { 1int } else { 0int },
            negative == (start == 1 && s@[0] == '-'),
            body == s@.subrange(start as int, n as int),
            all_digits(body.take(i - start)),
            acc == decimal_value(body.take(i - start)),
            0 <= acc <= 2147483648,
        decreases n - i,
    {
        let c = v[i];
        if !is_digit_char(c) {
            proof {
                assert(!is_digit(body[i - start]));
            }
            return None;
        }
        acc = acc * 10 + digit_of(c) as i64;
        proof {
            let next = body.take(i - start + 1);
            assert(next.drop_last() =~= body.take(i - start));
            assert(next.last() == c);
            assert(acc == decimal_value(next));
            assert forall|j: int| 0 <= j < next.len() implies is_digit(#[trigger] next[j]) by {
                if j < i - start {
                    assert(body.take(i - start)[j] == next[j]);
                }
            }
        }
        if acc > 2147483648 {
            proof {
                assert(s@.subrange(0, n as int) =~= s@);
                if all_digits(body) {
                    lemma_decimal_prefix(body, i - start + 1);
                }
            }
            return None;
        }
        i += 1;
    }
    proof {
        assert(body.take(n - start) =~= body);
        assert(s@.subrange(0, n as int) =~= s@);
    }
    let value: i64 = if negative { -acc } else { acc };
    if value > 2147483647 {
        None
    } else {
        Some(value as i32)
    }
}

/// The character that writes the digit `d`.
pub open spec fn digit_char(d: int) -> char {
    (d + 48) as char
}

/// The digits that write `n` in base ten, without leading zeros.
pub open spec fn decimal_digits(n: nat) -> Seq<char>
    decreases n,
{
    if n < 10 {
        seq![digit_char(n as int)]
    } else {
        decimal_digits(n / 10).push(digit_char((n % 10) as int))
    }
}

/// How an integer is written in base ten: a minus sign where it is
/// negative, then the digits of its size.
pub open spec fn decimal(n: int) -> Seq<char> {
    if n < 0 {
        seq!['-'] + decimal_digits((-n) as nat)
    } else {
        decimal_digits(n as nat)
    }
}

/// `text` filled up on the left with `prefix` to `len` characters; a text
/// that is long enough stays as it is.
pub open spec fn padded(text: Seq<char>, len: nat, prefix: char) -> Seq<char> {
    if text.len() >= len {
        text
    } else {
        Seq::new((len - text.len()) as nat, |i: int| prefix) + text
    }
}

/// Appends the digits of `n`.
pub fn push_digits(s: &mut String, n: u64)
    ensures
        final(s)@ == old(s)@ + decimal_digits(n as nat),
    decreases n,
{
    if n >= 10 {
        push_digits(s, n / 10);
    }
    let d = (n % 10) as u8;
    s.push((d + 48) as char);
    proof {
        if n >= 10 {
            assert(final(s)@ =~= old(s)@ + decimal_digits(n as nat));
        } else {
            assert(final(s)@ =~= old(s)@ + decimal_digits(n as nat));
        }
    }
}

/// Appends `n` written in base ten.
pub fn push_decimal(s: &mut String, n: i64)
    ensures
        final(s)@ == old(s)@ + decimal(n as int),
{
    if n < 0 {
        s.push('-');
        let size: u64 = (-(n + 1)) as u64 + 1;
        push_digits(s, size);
        proof {
            assert(final(s)@ =~= old(s)@ + decimal(n as int));
        }
    } else {
        push_digits(s, n as u64);
    }
}

/// `n` written in base ten.
pub fn decimal_string(n: i64) -> (s: String)
    ensures
        s@ == decimal(n as int),
{
    let mut s = String::new();
    push_decimal(&mut s, n);
    proof {
        assert(Seq::<char>::empty() + decimal(n as int) =~= decimal(n as int));
    }
    s
}

} // verus!
