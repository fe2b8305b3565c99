use vstd::prelude::*;

verus! {

/// Appending a character to a `String` (std's `String::push`).
pub assume_specification[ std::string::String::push ](s: &mut std::string::String, ch: char)
    ensures
        final(s)@ == old(s)@.push(ch),
;

/// The decimal digit character for `d` (`0 <= d < 10`).
pub open spec fn digit_char(d: nat) -> char {
    (48 + d) as char
}

/// The decimal representation of `n`, most significant digit first, without
/// leading zeros (`0` is written as `"0"`).
pub open spec fn decimal(n: nat) -> Seq<char>
    decreases n,
{
    if n < 10 {
        seq![digit_char(n)]
    } else {
        decimal(n / 10).push(digit_char(n % 10))
    }
}

/// Writes `n` in decimal.
pub fn u64_to_decimal(n: u64) -> (s: String)
    ensures
        s@ == decimal(n as nat),
{
    let mut digits: Vec<char> = Vec::new();
    let mut m = n;
    while m >= 10
        invariant
            decimal(n as nat) == decimal(m as nat) + digits@.reverse(),
        decreases m,
    {
        let d = (m % 10) as u8;
        digits.push(((48u8 + d) as char));
        proof {
            assert(decimal(m as nat) == decimal((m / 10) as nat).push(digit_char((m % 10) as nat)));
            assert(digits@.reverse() =~= seq![digit_char((m % 10) as nat)] + digits@.drop_last().reverse());
        }
        m = m / 10;
    }
    let mut s = String::new();
    s.push(((48u8 + m as u8) as char));
    let mut i = digits.len();
    while i > 0
        invariant
            i <= digits.len(),
            decimal(n as nat) == s@ + digits@.take(i as int).reverse(),
        decreases i,
    {
        i = i - 1;
        s.push(digits[i]);
        proof {
            assert(digits@.take((i + 1) as int).reverse() =~= seq![digits@[i as int]] + digits@.take(i as int).reverse());
        }
    }
    assert(digits@.take(0).reverse() =~= Seq::<char>::empty());
    s
}

/// `s` with every occurrence of the non-empty `from` replaced by `to`,
/// scanning left to right; occurrences do not overlap.
pub open spec fn replace_all(s: Seq<char>, from: Seq<char>, to: Seq<char>) -> Seq<char>
    decreases s.len(),
{
    if from.len() == 0 || s.len() < from.len() {
        s
    } else if s.take(from.len() as int) == from {
        to + replace_all(s.skip(from.len() as int), from, to)
    } else {
        seq![s[0]] + replace_all(s.skip(1), from, to)
    }
}

/// The characters of `s`.
pub fn chars_of(s: &str) -> (v: Vec<char>)
    ensures
        v@ == s@,
{
    let n = s.unicode_len();
    let mut v: Vec<char> = Vec::new();
    let mut i: usize = 0;
    while i < n
        invariant
            n == s@.len(),
            i <= n,
            v@ == s@.take(i as int),
        decreases n - i,
    {
        v.push(s.get_char(i));
        i = i + 1;
        assert(v@ =~= s@.take(i as int));
    }
    assert(v@ =~= s@);
    v
}

/// Whether two strings hold the same characters.
pub fn str_eq(a: &str, b: &str) -> (r: bool)
    ensures
        r == (a@ == b@),
{
    let n = a.unicode_len();
    if n != b.unicode_len() {
        return false;
    }
    let mut i: usize = 0;
    while i < n
        invariant
            n == a@.len(),
            n == b@.len(),
            i <= n,
            forall|k: int| 0 <= k < i ==> a@[k] == b@[k],
        decreases n - i,
    {
        if a.get_char(i) != b.get_char(i) {
            return false;
        }
        i = i + 1;
    }
    assert(a@ =~= b@);
    true
}

/// Whether `from` occurs in `s` at position `i`.
fn occurs_at(s: &Vec<char>, i: usize, from: &Vec<char>) -> (r: bool)
    requires
        i + from@.len() <= s@.len(),
    ensures
        r == (s@.subrange(i as int, i + from@.len()) == from@),
{
    let n = s.len();
    let mut k: usize = 0;
    while k < from.len()
        invariant
            n == s@.len(),
            i + from@.len() <= s@.len(),
            k <= from@.len(),
            forall|t: int| 0 <= t < k ==> s@[i + t] == from@[t],
        decreases from@.len() - k,
    {
        if s[i + k] != from[k] {
            assert(s@.subrange(i as int, i + from@.len())[k as int] != from@[k as int]);
            return false;
        }
        k = k + 1;
    }
    assert(s@.subrange(i as int, i + from@.len()) =~= from@);
    true
}

/// Whether `t` occurs somewhere in `s`.
pub open spec fn contains_seq(s: Seq<char>, t: Seq<char>) -> bool {
    exists|i: int| 0 <= i && i + t.len() <= s.len() && #[trigger] s.subrange(i, i + t.len()) == t
}

/// Whether `t` occurs somewhere in `s` (std's `str::contains`).
pub fn str_contains(s: &str, t: &str) -> (r: bool)
    ensures
        r == contains_seq(s@, t@),
{
    let sv = chars_of(s);
    let tv = chars_of(t);
    let n = sv.len();
    let m = tv.len();
    if m > n {
        return false;
    }
    if m == 0 {
        assert(s@.subrange(0, 0 + t@.len() as int) =~= t@);
        return true;
    }
    let mut i: usize = 0;
    while i <= n - m
        invariant
            sv@ == s@,
            tv@ == t@,
            n == sv@.len(),
            m == tv@.len(),
            m <= n,
            m > 0,
            i <= n - m + 1,
            forall|k: int| 0 <= k < i ==> #[trigger] s@.subrange(k, k + m) != t@,
        decreases n - m + 1 - i,
    {
        if occurs_at(&sv, i, &tv) {
            return true;
        }
        i = i + 1;
    }
    false
}

proof fn lemma_replace_all_step(s: Seq<char>, i: int, from: Seq<char>, to: Seq<char>)
    requires
        from.len() > 0,
        0 <= i,
        i + from.len() <= s.len(),
    ensures
        s.skip(i).take(from.len() as int) == s.subrange(i, i + from.len()),
{
    assert(s.skip(i).take(from.len() as int) =~= s.subrange(i, i + from.len()));
}

/// Replaces every occurrence of the non-empty `from` in `s` with `to`
/// (std's `str::replace`).
pub fn replace(s: &str, from: &str, to: &str) -> (r: String)
    requires
        from@.len() > 0,
    ensures
        r@ == replace_all(s@, from@, to@),
{
    let sv = chars_of(s);
    let fv = chars_of(from);
    let n = sv.len();
    let m = fv.len();
    let mut out = String::new();
    let mut i: usize = 0;
    assert(s@.skip(0) =~= s@);
    while i < n
        invariant
            sv@ == s@,
            fv@ == from@,
            n == sv@.len(),
            m == fv@.len(),
            m > 0,
            i <= n,
            replace_all(s@, from@, to@) == out@ + replace_all(s@.skip(i as int), from@, to@),
        decreases n - i,
    {
        if m <= n - i && occurs_at(&sv, i, &fv) {
            proof {
                lemma_replace_all_step(s@, i as int, from@, to@);
                assert(s@.skip(i as int).skip(m as int) =~= s@.skip(i + m));
            }
            out.append(to);
            i = i + m;
        } else {
            proof {
                if i + m <= n {
                    lemma_replace_all_step(s@, i as int, from@, to@);
                }
                assert(s@.skip(i as int).skip(1) =~= s@.skip(i + 1));
                assert(s@.skip(i as int)[0] == sv@[i as int]);
            }
            out.push(sv[i]);
            i = i + 1;
        }
    }
    assert(s@.skip(i as int) =~= Seq::<char>::empty());
    out
}

/// Why a string is not a number (std's `IntErrorKind`, as far as unsigned
/// numbers go).
#[derive(Debug, Clone, Copy, PartialEq, Eq, Structural)]
pub enum IntErrorKind {
    Empty,
    InvalidDigit,
    PosOverflow,
}

/// The message of a parse error, as std writes it.
pub open spec fn int_error_text(k: IntErrorKind) -> Seq<char> {
    match k {
        IntErrorKind::Empty => "cannot parse integer from empty string"@,
        IntErrorKind::InvalidDigit => "invalid digit found in string"@,
        IntErrorKind::PosOverflow => "number too large to fit in target type"@,
    }
}

impl IntErrorKind {
    /// The message of this error.
    pub fn message(&self) -> (r: String)
        ensures
            r@ == int_error_text(*self),
    {
        match self {
            IntErrorKind::Empty => String::from_str("cannot parse integer from empty string"),
            IntErrorKind::InvalidDigit => String::from_str("invalid digit found in string"),
            IntErrorKind::PosOverflow => String::from_str("number too large to fit in target type"),
        }
    }
}

pub open spec fn is_digit(c: char) -> bool {
    '0' <= c <= '9'
}

/// Reads the digits `d` after the value `acc` read so far: the first
/// character that is no digit, or that takes the value past `usize::MAX`,
/// stops the reading with that error.
pub open spec fn scan_digits(d: Seq<char>, acc: nat) -> Result<nat, IntErrorKind>
    decreases d.len(),
{
    if d.len() == 0 {
        Ok(acc)
    } else if !is_digit(d[0]) {
        Err(IntErrorKind::InvalidDigit)
    } else if acc * 10 + (d[0] as nat - 48) > usize::MAX {
        Err(IntErrorKind::PosOverflow)
    } else {
        scan_digits(d.drop_first(), (acc * 10 + (d[0] as nat - 48)) as nat)
    }
}

/// What reading `s` as a `usize` gives: decimal digits, optionally after a
/// `+`.
pub open spec fn parse_usize_spec(s: Seq<char>) -> Result<nat, IntErrorKind> {
    if s.len() == 0 {
        Err(IntErrorKind::Empty)
    } else if s[0] == '+' {
        if s.len() == 1 {
            Err(IntErrorKind::InvalidDigit)
        } else {
            scan_digits(s.drop_first(), 0)
        }
    } else {
        scan_digits(s, 0)
    }
}

proof fn lemma_scan_push(s: Seq<char>, c: char, acc: nat, v: nat)
    requires
        scan_digits(s, acc) == Ok::<nat, IntErrorKind>(v),
        is_digit(c),
        v * 10 + (c as nat - 48) <= usize::MAX,
    ensures
        scan_digits(s.push(c), acc) == Ok::<nat, IntErrorKind>((v * 10 + (c as nat - 48)) as nat),
    decreases s.len(),
{
    if s.len() == 0 {
        let x = (acc * 10 + (c as nat - 48)) as nat;
        assert(seq![c].drop_first() =~= Seq::<char>::empty());
        assert(scan_digits(Seq::<char>::empty(), x) == Ok::<nat, IntErrorKind>(x));
        assert(s.push(c) =~= seq![c]);
        assert(scan_digits(Seq::<char>::empty(), acc) == Ok::<nat, IntErrorKind>(acc));
    } else {
        let a2 = (acc * 10 + (s[0] as nat - 48)) as nat;
        assert(s.push(c).drop_first() =~= s.drop_first().push(c));
        assert(s.push(c)[0] == s[0]);
        lemma_scan_push(s.drop_first(), c, a2, v);
    }
}

proof fn lemma_decimal_first(n: nat)
    ensures
        decimal(n).len() > 0,
        is_digit(decimal(n)[0]),
    decreases n,
{
    if n >= 10 {
        lemma_decimal_first(n / 10);
        assert(decimal(n)[0] == decimal(n / 10)[0]);
    }
}

proof fn lemma_scan_decimal(n: nat)
    requires
        n <= usize::MAX,
    ensures
        scan_digits(decimal(n), 0) == Ok::<nat, IntErrorKind>(n),
    decreases n,
{
    if n < 10 {
        let c = digit_char(n);
        assert(c as nat == 48 + n);
        assert(seq![c].drop_first() =~= Seq::<char>::empty());
        assert(scan_digits(Seq::<char>::empty(), n) == Ok::<nat, IntErrorKind>(n));
    } else {
        assert((digit_char(n % 10)) as nat == 48 + n % 10);
        lemma_scan_decimal(n / 10);
        lemma_scan_push(decimal(n / 10), digit_char(n % 10), 0, n / 10);
    }
}

/// Writing a number in decimal and reading it back gives the number: an
/// item's place, written as its `instance`, is read back from a click.
pub proof fn lemma_parse_decimal(n: nat)
    requires
        n <= usize::MAX,
    ensures
        parse_usize_spec(decimal(n)) == Ok::<nat, IntErrorKind>(n),
{
    lemma_decimal_first(n);
    lemma_scan_decimal(n);
}

/// Reads `s` as a decimal `usize`, as std's `str::parse::<usize>` does.
pub fn parse_usize(s: &str) -> (r: Result<usize, IntErrorKind>)
    ensures
        match r {
            Ok(v) => parse_usize_spec(s@) == Ok::<nat, IntErrorKind>(v as nat),
            Err(k) => parse_usize_spec(s@) == Err::<nat, IntErrorKind>(k),
        },
{
    let n = s.unicode_len();
    if n == 0 {
        return Err(IntErrorKind::Empty);
    }
    let mut i: usize = 0;
    if s.get_char(0) == '+' {
        if n == 1 {
            return Err(IntErrorKind::InvalidDigit);
        }
        i = 1;
    }
    assert(i == 1 ==> s@.skip(1) =~= s@.drop_first());
    assert(s@.skip(0) =~= s@);
    let mut acc: usize = 0;
    while i < n
        invariant
            n == s@.len(),
            i <= n,
            parse_usize_spec(s@) == scan_digits(s@.skip(i as int), acc as nat),
        decreases n - i,
    {
        let c = s.get_char(i);
        let ghost rest = s@.skip(i as int);
        assert(rest[0] == c);
        if !('0' <= c && c <= '9') {
            return Err(IntErrorKind::InvalidDigit);
        }
        let x = (c as u32 - 48) as usize;
        if acc > (usize::MAX - x) / 10 {
            assert(acc * 10 + x > usize::MAX) by (nonlinear_arith)
                requires
                    acc > (usize::MAX - x) / 10,
                    x <= 9,
            ;
            return Err(IntErrorKind::PosOverflow);
        }
        assert(acc * 10 + x <= usize::MAX) by (nonlinear_arith)
            requires
                acc <= (usize::MAX - x) / 10,
                x <= 9,
        ;
        acc = acc * 10 + x;
        assert(rest.drop_first() =~= s@.skip(i + 1));
        i = i + 1;
    }
    assert(s@.skip(i as int) =~= Seq::<char>::empty());
    Ok(acc)
}

/// `s` padded on the left with spaces to `w` characters.
pub open spec fn pad_left(s: Seq<char>, w: nat) -> Seq<char> {
    if s.len() >= w {
        s
    } else {
        Seq::new((w - s.len()) as nat, |i: int| ' ') + s
    }
}

/// `s` right-aligned in a field of `w` characters (`format!("{:>w$}", s)`).
pub fn left_pad(s: &str, w: usize) -> (r: String)
    ensures
        r@ == pad_left(s@, w as nat),
{
    let len = s.unicode_len();
    let mut r = String::new();
    let mut k = len;
    while k < w
        invariant
            len == s@.len(),
            len <= k,
            k <= w || k == len,
            r@ == Seq::new((k - len) as nat, |i: int| ' '),
        decreases w - k,
    {
        r.push(' ');
        k = k + 1;
        assert(r@ =~= Seq::new((k - len) as nat, |i: int| ' '));
    }
    r.append(s);
    proof {
        if len >= w {
            assert(Seq::new((k - len) as nat, |i: int| ' ') =~= Seq::<char>::empty());
        }
        assert(r@ =~= pad_left(s@, w as nat));
    }
    r
}

/// The decimal representation of an integer, with a `-` when negative.
pub open spec fn signed_decimal(i: int) -> Seq<char> {
    if i < 0 {
        seq!['-'] + decimal((-i) as nat)
    } else {
        decimal(i as nat)
    }
}

/// Writes `i` in decimal.
pub fn i64_to_decimal(i: i64) -> (s: String)
    ensures
        s@ == signed_decimal(i as int),
{
    if i < 0 {
        let m: u64 = ((-(i + 1)) as u64) + 1;
        let d = u64_to_decimal(m);
        let mut s = String::new();
        s.push('-');
        s.append(d.as_str());
        s
    } else {
        u64_to_decimal(i as u64)
    }
}

} // verus!
