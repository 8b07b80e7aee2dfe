use vstd::prelude::*;

verus! {

/// The character of a decimal digit `d` (`0 <= d < 10`).
pub open spec fn digit_char(d: nat) -> char {
    (48 + d) as char
}

/// The decimal representation of `n`: no sign, no leading zero, "0" for zero.
pub open spec fn decimal(n: nat) -> Seq<char>
    decreases n,
{
    if n < 10 {
        seq![digit_char(n)]
    } else {
        decimal(n / 10).push(digit_char(n % 10))
    }
}

/// The value of a sequence of decimal digits, most significant first.
pub open spec fn digits_value(s: Seq<char>) -> int
    decreases s.len(),
{
    if s.len() == 0 {
        0
    } else {
        digits_value(s.drop_last()) * 10 + (s.last() as int - 48)
    }
}

/// A character among '0' ..= '9'.
pub open spec fn is_digit(c: char) -> bool {
    48 <= c as int <= 57
}

fn digit_str(d: u64) -> (s: &'static str)
    requires
        d < 10,
    ensures
        s@ == seq![digit_char(d as nat)],
{
    if d == 0 {
        proof { reveal_strlit("0"); }
        "0"
    } else if d == 1 {
        proof { reveal_strlit("1"); }
        "1"
    } else if d == 2 {
        proof { reveal_strlit("2"); }
        "2"
    } else if d == 3 {
        proof { reveal_strlit("3"); }
        "3"
    } else if d == 4 {
        proof { reveal_strlit("4"); }
        "4"
    } else if d == 5 {
        proof { reveal_strlit("5"); }
        "5"
    } else if d == 6 {
        proof { reveal_strlit("6"); }
        "6"
    } else if d == 7 {
        proof { reveal_strlit("7"); }
        "7"
    } else if d == 8 {
        proof { reveal_strlit("8"); }
        "8"
    } else {
        proof { reveal_strlit("9"); }
        "9"
    }
}

/// Appends the decimal representation of `n` to `out`.
pub fn push_decimal(out: &mut String, n: u64)
    ensures
        final(out)@ == old(out)@ + decimal(n as nat),
    decreases n,
{
    if n >= 10 {
        push_decimal(out, n / 10);
    }
    out.append(digit_str(n % 10));
    proof {
        assert(decimal(n as nat) == if n < 10 { seq![digit_char(n as nat)] } else {
            decimal((n / 10) as nat).push(digit_char((n % 10) as nat))
        });
    }
}

/// The decimal representation of `n` as a new string.
pub fn decimal_string(n: u64) -> (s: String)
    ensures
        s@ == decimal(n as nat),
{
    let mut s = String::new();
    push_decimal(&mut s, n);
    assert(s@ =~= decimal(n as nat));
    s
}

/// A decimal representation is made of digits only, starts with a digit
/// other than zero unless it is "0", and reads back as the number it was
/// made from.
pub proof fn lemma_decimal_roundtrip(n: nat)
    ensures
        decimal(n).len() >= 1,
        forall|i: int| 0 <= i < decimal(n).len() ==> is_digit(#[trigger] decimal(n)[i]),
        decimal(n)[0] == '0' ==> n == 0,
        digits_value(decimal(n)) == n,
    decreases n,
{
    if n >= 10 {
        lemma_decimal_roundtrip(n / 10);
        let d = decimal(n / 10);
        assert(decimal(n) == d.push(digit_char(n % 10)));
        assert(decimal(n).drop_last() =~= d);
        assert(decimal(n)[0] == d[0]);
        assert(digit_char(n % 10) as int == 48 + n % 10);
        assert(digits_value(decimal(n)) == digits_value(d) * 10 + (n % 10));
        assert((n / 10) * 10 + n % 10 == n);
    } else {
        assert(digit_char(n) as int == 48 + n);
        assert(decimal(n).drop_last() =~= Seq::<char>::empty());
        assert(digits_value(Seq::<char>::empty()) == 0);
        assert(digits_value(decimal(n)) == n);
    }
}

/// The characters of an optional string.
pub open spec fn opt_text(o: Option<String>) -> Option<Seq<char>> {
    match o {
        Some(s) => Some(s@),
        None => None,
    }
}

/// Whether a string holds exactly the characters of `lit`.
pub(crate) fn same_text(s: &String, lit: &str) -> (b: bool)
    ensures
        b == (s@ == lit@),
{
    let l = lit.to_owned();
    *s == l
}

/// Whether an optional string is there and holds exactly the characters of `lit`.
pub(crate) fn opt_same_text(s: &Option<String>, lit: &str) -> (b: bool)
    ensures
        b == (opt_text(*s) == Some(lit@)),
{
    match s {
        Some(t) => same_text(t, lit),
        None => false,
    }
}

/// `prefix` followed by `t`.
pub(crate) fn prefixed(prefix: &str, t: &String) -> (r: String)
    ensures
        r@ == prefix@ + t@,
{
    let mut out = prefix.to_owned();
    out.append(t.as_str());
    out
}

/// Whether a character has the Unicode `White_Space` property, the set that
/// `char::is_whitespace` tests: U+0009..=U+000D, U+0020, U+0085, U+00A0,
/// U+1680, U+2000..=U+200A, U+2028, U+2029, U+202F, U+205F and U+3000.
pub open spec fn unicode_white_space(c: char) -> bool {
    let n = c as int;
    ||| 0x9 <= n <= 0xD
    ||| n == 0x20
    ||| n == 0x85
    ||| n == 0xA0
    ||| n == 0x1680
    ||| 0x2000 <= n <= 0x200A
    ||| n == 0x2028
    ||| n == 0x2029
    ||| n == 0x202F
    ||| n == 0x205F
    ||| n == 0x3000
}

/// Whether a character is white space.
pub fn is_white_space(c: char) -> (b: bool)
    ensures
        b == unicode_white_space(c),
{
    let n: u32 = c as u32;
    (0x9 <= n && n <= 0xD) || n == 0x20 || n == 0x85 || n == 0xA0 || n == 0x1680 || (0x2000 <= n
        && n <= 0x200A) || n == 0x2028 || n == 0x2029 || n == 0x202F || n == 0x205F || n == 0x3000
}

/// `s[a..b]` is what remains of `s` without its leading and trailing white
/// space: everything before `a` and from `b` on is white space, and the
/// remainder, if any, starts and ends with a character that is not.
pub open spec fn trim_bounds(s: Seq<char>, a: int, b: int) -> bool {
    &&& 0 <= a <= b <= s.len()
    &&& forall|i: int| 0 <= i < a ==> unicode_white_space(#[trigger] s[i])
    &&& forall|i: int| b <= i < s.len() ==> unicode_white_space(#[trigger] s[i])
    &&& a < b ==> !unicode_white_space(s[a]) && !unicode_white_space(s[b - 1])
}

/// `t` is `s` with leading and trailing white space removed.
pub open spec fn is_trim_of(s: Seq<char>, t: Seq<char>) -> bool {
    exists|a: int, b: int| trim_bounds(s, a, b) && t == s.subrange(a, b)
}

/// The characters of a string slice, in order.
fn chars_of(s: &str) -> (cs: Vec<char>)
    ensures
        cs@ == s@,
{
    let mut cs: Vec<char> = Vec::new();
    for c in it: s.chars()
        invariant
            cs@ == it.seq().take(it.index()),
    {
        cs.push(c);
    }
    cs
}

/// A copy of `s` without its leading and trailing white space.
pub fn trim_text(s: &str) -> (r: String)
    ensures
        is_trim_of(s@, r@),
{
    let cs = chars_of(s);
    let n: usize = cs.len();
    let mut a: usize = 0;
    while a < n && is_white_space(cs[a])
        invariant
            cs@ == s@,
            n == cs.len(),
            a <= n,
            forall|i: int| 0 <= i < a ==> unicode_white_space(#[trigger] cs@[i]),
        decreases n - a,
    {
        a = a + 1;
    }
    let mut b: usize = n;
    while b > a && is_white_space(cs[b - 1])
        invariant
            cs@ == s@,
            n == cs.len(),
            a <= b <= n,
            forall|i: int| b <= i < n ==> unicode_white_space(#[trigger] cs@[i]),
        decreases b - a,
    {
        b = b - 1;
    }
    let r = s.substring_char(a, b).to_owned();
    assert(trim_bounds(s@, a as int, b as int));
    r
}


/// Trimming has one result: the text without its leading and trailing white
/// space is determined by the text.
pub proof fn lemma_trim_unique(s: Seq<char>, t1: Seq<char>, t2: Seq<char>)
    requires
        is_trim_of(s, t1),
        is_trim_of(s, t2),
    ensures
        t1 == t2,
{
    let (a1, b1): (int, int) = choose|a: int, b: int| trim_bounds(s, a, b) && t1 == s.subrange(a, b);
    let (a2, b2): (int, int) = choose|a: int, b: int| trim_bounds(s, a, b) && t2 == s.subrange(a, b);
    if a1 < b1 {
        if a2 == b2 {
            assert(a1 < a2 || a1 >= b2);
            assert(unicode_white_space(s[a1]));
        }
    }
    if a2 < b2 {
        if a1 == b1 {
            assert(a2 < a1 || a2 >= b1);
            assert(unicode_white_space(s[a2]));
        }
    }
    if a1 < b1 && a2 < b2 {
        if a1 < a2 {
            assert(unicode_white_space(s[a1]));
        }
        if a2 < a1 {
            assert(unicode_white_space(s[a2]));
        }
        if b1 < b2 {
            assert(unicode_white_space(s[b2 - 1]));
        }
        if b2 < b1 {
            assert(unicode_white_space(s[b1 - 1]));
        }
        assert(a1 == a2 && b1 == b2);
    } else {
        assert(t1 =~= t2);
    }
}

/// Trimming twice is trimming once: a trimmed text is its own trim.
pub proof fn lemma_trim_idempotent(s: Seq<char>, t: Seq<char>)
    requires
        is_trim_of(s, t),
    ensures
        is_trim_of(t, t),
{
    let (a, b): (int, int) = choose|a: int, b: int| trim_bounds(s, a, b) && t == s.subrange(a, b);
    assert(trim_bounds(t, 0, t.len() as int));
    assert(t == t.subrange(0, t.len() as int));
}

/// A trimmed text is the text with a run of white space cut off each end:
/// the text is that run, the result and another run, and the result, unless
/// empty, neither starts nor ends with white space.
pub proof fn lemma_trim_law(s: Seq<char>, t: Seq<char>)
    requires
        is_trim_of(s, t),
    ensures
        exists|p: Seq<char>, q: Seq<char>|
            s == p + t + q && (forall|i: int| 0 <= i < p.len() ==> unicode_white_space(#[trigger] p[i]))
                && (forall|i: int| 0 <= i < q.len() ==> unicode_white_space(#[trigger] q[i])),
        t.len() > 0 ==> !unicode_white_space(t[0]) && !unicode_white_space(t[t.len() - 1]),
        t.len() <= s.len(),
{
    let (a, b): (int, int) = choose|a: int, b: int| trim_bounds(s, a, b) && t == s.subrange(a, b);
    let p = s.subrange(0, a);
    let q = s.subrange(b, s.len() as int);
    assert(s =~= p + t + q);
    assert forall|i: int| 0 <= i < p.len() implies unicode_white_space(#[trigger] p[i]) by {
        assert(p[i] == s[i]);
    }
    assert forall|i: int| 0 <= i < q.len() implies unicode_white_space(#[trigger] q[i]) by {
        assert(q[i] == s[b + i]);
    }
}
} // verus!
