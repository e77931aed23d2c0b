//! Character-level building blocks: number rendering, trimming and UTF-8
//! widths, all stated over sequences of characters.
use vstd::prelude::*;

verus! {

/// Appends one character to a string (`String::push` of the standard
/// library): the text grows by exactly that character.
#[verifier::external_body]
pub(crate) fn push_char(s: &mut String, c: char)
    ensures
        final(s)@ == old(s)@.push(c),
{
    s.push(c)
}

/// The characters of a string slice, in order.
pub fn chars_of(s: &str) -> (v: Vec<char>)
    ensures
        v@ == s@,
{
    let mut v: Vec<char> = Vec::new();
    for c in it: s.chars()
        invariant
            it.seq() == s@,
            v@ == it.seq().take(it.index() as int),
    {
        v.push(c);
    }
    assert(v@ =~= s@);
    v
}

/// Appends the characters `v[from..to]` to `out`.
pub(crate) fn push_range(out: &mut String, v: &Vec<char>, from: usize, to: usize)
    requires
        from <= to <= v.len(),
    ensures
        final(out)@ == old(out)@ + v@.subrange(from as int, to as int),
{
    let mut i: usize = from;
    while i < to
        invariant
            from <= i <= to <= v.len(),
            out@ == old(out)@ + v@.subrange(from as int, i as int),
        decreases to - i,
    {
        push_char(out, v[i]);
        i += 1;
        assert(out@ =~= old(out)@ + v@.subrange(from as int, i as int));
    }
}

/// The string made of the characters of `v`.
pub fn string_of(v: &Vec<char>) -> (s: String)
    ensures
        s@ == v@,
{
    let mut s = String::new();
    push_range(&mut s, v, 0, v.len());
    assert(s@ =~= v@);
    s
}

/// The decimal digit for a value below ten.
pub open spec fn digit_char(d: int) -> char {
    if d == 0 {
        '0'
    } else if d == 1 {
        '1'
    } else if d == 2 {
        '2'
    } else if d == 3 {
        '3'
    } else if d == 4 {
        '4'
    } else if d == 5 {
        '5'
    } else if d == 6 {
        '6'
    } else if d == 7 {
        '7'
    } else if d == 8 {
        '8'
    } else {
        '9'
    }
}

/// The upper-case hexadecimal digit for a value below sixteen.
pub open spec fn hex_char(d: int) -> char {
    if d < 10 {
        digit_char(d)
    } else if d == 10 {
        'A'
    } else if d == 11 {
        'B'
    } else if d == 12 {
        'C'
    } else if d == 13 {
        'D'
    } else if d == 14 {
        'E'
    } else {
        'F'
    }
}

/// The decimal digits of `n`, most significant first, without padding.
pub open spec fn decimal_digits(n: nat) -> Seq<char>
    decreases n,
{
    if n < 10 {
        seq![digit_char(n as int)]
    } else {
        decimal_digits(n / 10).push(digit_char((n % 10) as int))
    }
}

/// The decimal rendering of a signed number: a minus sign for negative
/// values, then the digits of the magnitude.
pub open spec fn decimal_text(n: int) -> Seq<char> {
    if n < 0 {
        seq!['-'] + decimal_digits((-n) as nat)
    } else {
        decimal_digits(n as nat)
    }
}

/// `count` zero digits.
pub open spec fn zeros(count: nat) -> Seq<char> {
    Seq::new(count, |i: int| '0')
}

/// The decimal digits of `n`, padded with leading zeros to at least `width`
/// characters.
pub open spec fn padded_decimal(n: nat, width: nat) -> Seq<char> {
    let digits = decimal_digits(n);
    if digits.len() >= width {
        digits
    } else {
        zeros((width - digits.len()) as nat) + digits
    }
}

/// Four upper-case hexadecimal digits for a 16-bit value.
pub open spec fn hex4(n: u16) -> Seq<char> {
    seq![
        hex_char(n as int / 4096),
        hex_char(n as int / 256 % 16),
        hex_char(n as int / 16 % 16),
        hex_char(n as int % 16),
    ]
}

pub(crate) fn digit_of(d: u8) -> (c: char)
    requires
        d < 10,
    ensures
        c == digit_char(d as int),
{
    if d == 0 {
        '0'
    } else if d == 1 {
        '1'
    } else if d == 2 {
        '2'
    } else if d == 3 {
        '3'
    } else if d == 4 {
        '4'
    } else if d == 5 {
        '5'
    } else if d == 6 {
        '6'
    } else if d == 7 {
        '7'
    } else if d == 8 {
        '8'
    } else {
        '9'
    }
}

pub(crate) fn hex_digit_of(d: u8) -> (c: char)
    requires
        d < 16,
    ensures
        c == hex_char(d as int),
{
    if d < 10 {
        digit_of(d)
    } else if d == 10 {
        'A'
    } else if d == 11 {
        'B'
    } else if d == 12 {
        'C'
    } else if d == 13 {
        'D'
    } else if d == 14 {
        'E'
    } else {
        'F'
    }
}

/// Appends the decimal digits of `n` to `out`.
pub(crate) fn push_digits(out: &mut Vec<char>, n: u64)
    ensures
        final(out)@ == old(out)@ + decimal_digits(n as nat),
    decreases n,
{
    if n >= 10 {
        push_digits(out, n / 10);
    }
    out.push(digit_of((n % 10) as u8));
    assert(out@ =~= old(out)@ + decimal_digits(n as nat));
}

/// The decimal rendering of an unsigned number.
pub fn decimal_string(n: u64) -> (s: String)
    ensures
        s@ == decimal_digits(n as nat),
{
    let mut digits: Vec<char> = Vec::new();
    push_digits(&mut digits, n);
    assert(digits@ =~= decimal_digits(n as nat));
    string_of(&digits)
}

/// The decimal rendering of a signed number.
pub fn signed_decimal_string(n: i64) -> (s: String)
    ensures
        s@ == decimal_text(n as int),
{
    let mut digits: Vec<char> = Vec::new();
    if n < 0 {
        digits.push('-');
        let magnitude: u64 = (-(n + 1)) as u64 + 1;
        push_digits(&mut digits, magnitude);
        assert(digits@ =~= decimal_text(n as int));
    } else {
        push_digits(&mut digits, n as u64);
        assert(digits@ =~= decimal_text(n as int));
    }
    string_of(&digits)
}

/// Appends the decimal digits of `n` to `out`, padded with leading zeros to
/// at least `width` characters.
pub(crate) fn push_padded(out: &mut String, n: u64, width: usize)
    ensures
        final(out)@ == old(out)@ + padded_decimal(n as nat, width as nat),
{
    let mut digits: Vec<char> = Vec::new();
    push_digits(&mut digits, n);
    assert(digits@ =~= decimal_digits(n as nat));
    let mut padded: usize = digits.len();
    while padded < width
        invariant
            digits.len() <= padded,
            padded <= width || padded == digits.len(),
            out@ == old(out)@ + zeros((padded - digits.len()) as nat),
        decreases width - padded,
    {
        push_char(out, '0');
        padded += 1;
        assert(out@ =~= old(out)@ + zeros((padded - digits.len()) as nat));
    }
    push_range(out, &digits, 0, digits.len());
    assert(digits@.subrange(0, digits.len() as int) =~= digits@);
    assert(final(out)@ =~= old(out)@ + padded_decimal(n as nat, width as nat));
}

/// Appends four upper-case hexadecimal digits for `n` to `out`.
pub(crate) fn push_hex4(out: &mut String, n: u16)
    ensures
        final(out)@ == old(out)@ + hex4(n),
{
    push_char(out, hex_digit_of((n / 4096) as u8));
    push_char(out, hex_digit_of((n / 256 % 16) as u8));
    push_char(out, hex_digit_of((n / 16 % 16) as u8));
    push_char(out, hex_digit_of((n % 16) as u8));
    assert(final(out)@ =~= old(out)@ + hex4(n));
}

/// Whether `c` is white space as Unicode defines it (the `White_Space`
/// property).
pub open spec fn is_whitespace(c: char) -> bool {
    let v = c as u32;
    ||| 0x09 <= v <= 0x0D
    ||| v == 0x20
    ||| v == 0x85
    ||| v == 0xA0
    ||| v == 0x1680
    ||| 0x2000 <= v <= 0x200A
    ||| v == 0x2028
    ||| v == 0x2029
    ||| v == 0x202F
    ||| v == 0x205F
    ||| v == 0x3000
}

pub(crate) fn whitespace(c: char) -> (b: bool)
    ensures
        b == is_whitespace(c),
{
    let v: u32 = c as u32;
    (0x09 <= v && v <= 0x0D) || v == 0x20 || v == 0x85 || v == 0xA0 || v == 0x1680 || (0x2000 <= v
        && v <= 0x200A) || v == 0x2028 || v == 0x2029 || v == 0x202F || v == 0x205F || v == 0x3000
}

/// `s` without its leading white space.
pub open spec fn trim_start(s: Seq<char>) -> Seq<char>
    decreases s.len(),
{
    if s.len() > 0 && is_whitespace(s[0]) {
        trim_start(s.drop_first())
    } else {
        s
    }
}

/// `s` without its trailing white space.
pub open spec fn trim_end(s: Seq<char>) -> Seq<char>
    decreases s.len(),
{
    if s.len() > 0 && is_whitespace(s.last()) {
        trim_end(s.drop_last())
    } else {
        s
    }
}

/// `s` without leading and trailing white space.
pub open spec fn trim(s: Seq<char>) -> Seq<char> {
    trim_end(trim_start(s))
}

/// `s` without its trailing NUL characters.
pub open spec fn strip_trailing_nul(s: Seq<char>) -> Seq<char>
    decreases s.len(),
{
    if s.len() > 0 && s.last() == '\0' {
        strip_trailing_nul(s.drop_last())
    } else {
        s
    }
}

/// The cleaned form of a raw text value: trimmed of white space, then
/// stripped of trailing NUL padding.
pub open spec fn clean(s: Seq<char>) -> Seq<char> {
    strip_trailing_nul(trim(s))
}

/// The index at which `trim_start` cuts `v[from..to]`.
fn skip_whitespace(v: &Vec<char>, from: usize, to: usize) -> (start: usize)
    requires
        from <= to <= v.len(),
    ensures
        from <= start <= to,
        trim_start(v@.subrange(from as int, to as int)) == v@.subrange(start as int, to as int),
{
    let mut i: usize = from;
    while i < to && whitespace(v[i])
        invariant
            from <= i <= to <= v.len(),
            trim_start(v@.subrange(from as int, to as int)) == trim_start(
                v@.subrange(i as int, to as int),
            ),
        decreases to - i,
    {
        assert(v@.subrange(i as int, to as int).drop_first() =~= v@.subrange(
            i as int + 1,
            to as int,
        ));
        i += 1;
    }
    i
}

/// The index at which `trim_end` cuts `v[from..to]`.
fn drop_whitespace(v: &Vec<char>, from: usize, to: usize) -> (end: usize)
    requires
        from <= to <= v.len(),
    ensures
        from <= end <= to,
        trim_end(v@.subrange(from as int, to as int)) == v@.subrange(from as int, end as int),
{
    let mut i: usize = to;
    while i > from && whitespace(v[i - 1])
        invariant
            from <= i <= to <= v.len(),
            trim_end(v@.subrange(from as int, to as int)) == trim_end(
                v@.subrange(from as int, i as int),
            ),
        decreases i,
    {
        assert(v@.subrange(from as int, i as int).drop_last() =~= v@.subrange(
            from as int,
            i as int - 1,
        ));
        i -= 1;
    }
    i
}

/// The index at which `strip_trailing_nul` cuts `v[from..to]`.
fn drop_nul(v: &Vec<char>, from: usize, to: usize) -> (end: usize)
    requires
        from <= to <= v.len(),
    ensures
        from <= end <= to,
        strip_trailing_nul(v@.subrange(from as int, to as int)) == v@.subrange(
            from as int,
            end as int,
        ),
{
    let mut i: usize = to;
    while i > from && v[i - 1] == '\0'
        invariant
            from <= i <= to <= v.len(),
            strip_trailing_nul(v@.subrange(from as int, to as int)) == strip_trailing_nul(
                v@.subrange(from as int, i as int),
            ),
        decreases i,
    {
        assert(v@.subrange(from as int, i as int).drop_last() =~= v@.subrange(
            from as int,
            i as int - 1,
        ));
        i -= 1;
    }
    i
}

/// `s` without leading and trailing white space.
pub fn trimmed(s: &str) -> (r: String)
    ensures
        r@ == trim(s@),
{
    let v = chars_of(s);
    let start = skip_whitespace(&v, 0, v.len());
    let end = drop_whitespace(&v, start, v.len());
    assert(v@.subrange(0, v.len() as int) =~= v@);
    let mut r = String::new();
    push_range(&mut r, &v, start, end);
    assert(r@ =~= trim(s@));
    r
}

/// The cleaned form of a raw text value.
pub fn cleaned(s: &str) -> (r: String)
    ensures
        r@ == clean(s@),
{
    let v = chars_of(s);
    let start = skip_whitespace(&v, 0, v.len());
    let end = drop_whitespace(&v, start, v.len());
    let stop = drop_nul(&v, start, end);
    assert(v@.subrange(0, v.len() as int) =~= v@);
    let mut r = String::new();
    push_range(&mut r, &v, start, stop);
    assert(r@ =~= clean(s@));
    r
}

/// The number of bytes that `c` takes in UTF-8.
pub open spec fn utf8_width(c: char) -> nat {
    let v = c as u32;
    if v <= 0x7F {
        1
    } else if v <= 0x7FF {
        2
    } else if v <= 0xFFFF {
        3
    } else {
        4
    }
}

pub(crate) fn width_of(c: char) -> (w: usize)
    ensures
        w == utf8_width(c),
{
    let v: u32 = c as u32;
    if v <= 0x7F {
        1
    } else if v <= 0x7FF {
        2
    } else if v <= 0xFFFF {
        3
    } else {
        4
    }
}

/// The number of bytes that `s` takes in UTF-8.
pub open spec fn utf8_len(s: Seq<char>) -> nat
    decreases s.len(),
{
    if s.len() == 0 {
        0
    } else {
        utf8_len(s.drop_last()) + utf8_width(s.last())
    }
}

/// The UTF-8 length of a concatenation is the sum of the lengths.
pub proof fn utf8_len_concat(a: Seq<char>, b: Seq<char>)
    ensures
        utf8_len(a + b) == utf8_len(a) + utf8_len(b),
    decreases b.len(),
{
    if b.len() == 0 {
        assert(a + b =~= a);
    } else {
        assert((a + b).drop_last() =~= a + b.drop_last());
        utf8_len_concat(a, b.drop_last());
    }
}

/// `utf8_len` agrees with the length of the UTF-8 encoding.
pub proof fn utf8_len_is_encoded_len(s: Seq<char>)
    ensures
        vstd::utf8::encode_utf8(s).len() == utf8_len(s),
    decreases s.len(),
{
    if s.len() > 0 {
        vstd::utf8::char_is_scalar(s[0]);
        utf8_len_is_encoded_len(s.drop_first());
        assert(s =~= seq![s[0]] + s.drop_first());
        utf8_len_concat(seq![s[0]], s.drop_first());
        let one = seq![s[0]];
        assert(one.drop_last() =~= Seq::<char>::empty());
        assert(one.last() == s[0]);
        assert(utf8_len(one.drop_last()) == 0);
        assert(utf8_len(one) == utf8_width(s[0]));
    }
}

/// Whether two texts are the same.
pub fn same_text(a: &str, b: &str) -> (r: bool)
    ensures
        r == (a@ == b@),
{
    let x = chars_of(a);
    let y = chars_of(b);
    if x.len() != y.len() {
        return false;
    }
    let mut i: usize = 0;
    while i < x.len()
        invariant
            x@ == a@,
            y@ == b@,
            x.len() == y.len(),
            i <= x.len(),
            x@.take(i as int) == y@.take(i as int),
        decreases x.len() - i,
    {
        if x[i] != y[i] {
            assert(a@[i as int] != b@[i as int]);
            return false;
        }
        i += 1;
        assert(x@.take(i as int) =~= x@.take(i as int - 1).push(x@[i as int - 1]));
        assert(y@.take(i as int) =~= y@.take(i as int - 1).push(y@[i as int - 1]));
    }
    assert(x@ =~= x@.take(i as int));
    assert(y@ =~= y@.take(i as int));
    true
}

/// The number that a decimal digit stands for.
pub open spec fn digit_value(c: char) -> nat {
    (c as u32 - 48) as nat
}

/// The number that a sequence of decimal digits stands for.
pub open spec fn digits_value(s: Seq<char>) -> nat
    decreases s.len(),
{
    if s.len() == 0 {
        0
    } else {
        digits_value(s.drop_last()) * 10 + digit_value(s.last())
    }
}

/// The decimal digits of a number stand for that number, so two numbers
/// with the same digits are the same.
pub proof fn decimal_digits_value(n: nat)
    ensures
        digits_value(decimal_digits(n)) == n,
    decreases n,
{
    if n < 10 {
        let one = seq![digit_char(n as int)];
        assert(one.drop_last() =~= Seq::<char>::empty());
        assert(one.last() == digit_char(n as int));
        assert(digits_value(one.drop_last()) == 0);
    } else {
        decimal_digits_value(n / 10);
        let all = decimal_digits(n / 10).push(digit_char((n % 10) as int));
        assert(all.drop_last() =~= decimal_digits(n / 10));
        assert(all.last() == digit_char((n % 10) as int));
    }
}

/// The UTF-8 length of a single character.
pub proof fn utf8_len_one(c: char)
    ensures
        utf8_len(seq![c]) == utf8_width(c),
{
    let one = seq![c];
    assert(one.drop_last() =~= Seq::<char>::empty());
    assert(one.last() == c);
    assert(utf8_len(one.drop_last()) == 0);
}

/// Why a text is not read as a 64-bit signed integer.
#[derive(Clone, Copy, Debug, PartialEq, Eq)]
pub enum IntegerError {
    /// The text is empty.
    Empty,
    /// A character is no digit, or a sign stands alone.
    InvalidDigit,
    /// The number is above the greatest 64-bit signed integer.
    PosOverflow,
    /// The number is below the least 64-bit signed integer.
    NegOverflow,
}

/// Whether `c` is a decimal digit.
pub open spec fn is_digit(c: char) -> bool {
    '0' <= c <= '9'
}

/// The number read from the first `n` of the digits `s`, taken as the
/// digits of a negative number where `negative` holds.  The digits are read
/// from the left; the first character that is no digit, or the first digit
/// that takes the number out of range, ends the reading.
pub open spec fn digits_reading(s: Seq<char>, n: nat, negative: bool) -> Result<int, IntegerError>
    decreases n,
{
    if n == 0 {
        Ok(0)
    } else {
        match digits_reading(s, (n - 1) as nat, negative) {
            Err(e) => Err(e),
            Ok(before) => if !is_digit(s[n - 1]) {
                Err(IntegerError::InvalidDigit)
            } else {
                let d = digit_value(s[n - 1]);
                let now = if negative {
                    before * 10 - d
                } else {
                    before * 10 + d
                };
                if now > i64::MAX {
                    Err(IntegerError::PosOverflow)
                } else if now < i64::MIN {
                    Err(IntegerError::NegOverflow)
                } else {
                    Ok(now)
                }
            },
        }
    }
}

/// The 64-bit signed integer that a text stands for: an optional sign, then
/// digits only and at least one.
pub open spec fn integer_reading(s: Seq<char>) -> Result<int, IntegerError> {
    if s.len() == 0 {
        Err(IntegerError::Empty)
    } else if s.len() == 1 && (s[0] == '+' || s[0] == '-') {
        Err(IntegerError::InvalidDigit)
    } else if s[0] == '+' {
        digits_reading(s.drop_first(), (s.len() - 1) as nat, false)
    } else if s[0] == '-' {
        digits_reading(s.drop_first(), (s.len() - 1) as nat, true)
    } else {
        digits_reading(s, s.len(), false)
    }
}

impl IntegerError {
    /// The message that reports the error.
    pub open spec fn message_text(self) -> Seq<char> {
        match self {
            IntegerError::Empty => "cannot parse integer from empty string"@,
            IntegerError::InvalidDigit => "invalid digit found in string"@,
            IntegerError::PosOverflow => "number too large to fit in target type"@,
            IntegerError::NegOverflow => "number too small to fit in target type"@,
        }
    }

    /// The message that reports the error.
    pub fn message(&self) -> (r: String)
        ensures
            r@ == self.message_text(),
    {
        match self {
            IntegerError::Empty => "cannot parse integer from empty string".to_owned(),
            IntegerError::InvalidDigit => "invalid digit found in string".to_owned(),
            IntegerError::PosOverflow => "number too large to fit in target type".to_owned(),
            IntegerError::NegOverflow => "number too small to fit in target type".to_owned(),
        }
    }
}

/// Reads the digits `v[from..]` as a number, negative where `negative`
/// holds.
fn read_digits(v: &Vec<char>, from: usize, negative: bool) -> (r: Result<i64, IntegerError>)
    requires
        from <= v.len(),
    ensures
        match r {
            Ok(n) => digits_reading(v@.skip(from as int), (v.len() - from) as nat, negative) == Ok::<
                int,
                IntegerError,
            >(n as int),
            Err(e) => digits_reading(v@.skip(from as int), (v.len() - from) as nat, negative)
                == Err::<int, IntegerError>(e),
        },
{
    let ghost s = v@.skip(from as int);
    let mut acc: i64 = 0;
    let mut i: usize = from;
    while i < v.len()
        invariant
            from <= i <= v.len(),
            s == v@.skip(from as int),
            digits_reading(s, (i - from) as nat, negative) == Ok::<int, IntegerError>(acc as int),
        decreases v.len() - i,
    {
        let c = v[i];
        assert(s[i - from] == c);
        if !('0' <= c && c <= '9') {
            proof {
                reading_stays_failed(s, (i - from + 1) as nat, (v.len() - from) as nat, negative);
            }
            return Err(IntegerError::InvalidDigit);
        }
        let d: i128 = (c as u32 - 48) as i128;
        let now: i128 = if negative {
            acc as i128 * 10 - d
        } else {
            acc as i128 * 10 + d
        };
        if now > i64::MAX as i128 {
            proof {
                reading_stays_failed(s, (i - from + 1) as nat, (v.len() - from) as nat, negative);
            }
            return Err(IntegerError::PosOverflow);
        }
        if now < i64::MIN as i128 {
            proof {
                reading_stays_failed(s, (i - from + 1) as nat, (v.len() - from) as nat, negative);
            }
            return Err(IntegerError::NegOverflow);
        }
        acc = now as i64;
        i += 1;
    }
    Ok(acc)
}

/// A reading that has failed after `n` characters fails in the same way
/// after any more.
proof fn reading_stays_failed(s: Seq<char>, n: nat, m: nat, negative: bool)
    requires
        n <= m,
        digits_reading(s, n, negative).is_err(),
    ensures
        digits_reading(s, m, negative) == digits_reading(s, n, negative),
    decreases m,
{
    if n < m {
        reading_stays_failed(s, n, (m - 1) as nat, negative);
    }
}

/// Reads a text as a 64-bit signed integer.
pub fn parse_integer(s: &str) -> (r: Result<i64, IntegerError>)
    ensures
        match r {
            Ok(n) => integer_reading(s@) == Ok::<int, IntegerError>(n as int),
            Err(e) => integer_reading(s@) == Err::<int, IntegerError>(e),
        },
{
    let v = chars_of(s);
    if v.len() == 0 {
        return Err(IntegerError::Empty);
    }
    let first = v[0];
    if v.len() == 1 && (first == '+' || first == '-') {
        return Err(IntegerError::InvalidDigit);
    }
    assert(v@.skip(1) =~= s@.drop_first());
    assert(v@.skip(0) =~= s@);
    if first == '+' {
        read_digits(&v, 1, false)
    } else if first == '-' {
        read_digits(&v, 1, true)
    } else {
        read_digits(&v, 0, false)
    }
}

/// Ten to the power of `k`.
pub open spec fn pow10(k: nat) -> nat
    decreases k,
{
    if k == 0 {
        1
    } else {
        10 * pow10((k - 1) as nat)
    }
}

/// A number below ten to the power of `k` has at most `k` digits.
pub proof fn decimal_digits_len(n: nat, k: nat)
    requires
        k >= 1,
        n < pow10(k),
    ensures
        1 <= decimal_digits(n).len() <= k,
    decreases n,
{
    if n >= 10 {
        assert(pow10(1) == 10) by {
            assert(pow10(0) == 1);
        }
        assert(k >= 2);
        decimal_digits_len(n / 10, (k - 1) as nat);
    }
}

/// The digits of a number take one byte each.
pub proof fn decimal_digits_utf8_len(n: nat)
    ensures
        utf8_len(decimal_digits(n)) == decimal_digits(n).len(),
    decreases n,
{
    if n < 10 {
        utf8_len_one(digit_char(n as int));
    } else {
        decimal_digits_utf8_len(n / 10);
        let all = decimal_digits(n / 10).push(digit_char((n % 10) as int));
        assert(all.drop_last() =~= decimal_digits(n / 10));
        assert(all.last() == digit_char((n % 10) as int));
    }
}

/// Zero digits take one byte each.
pub proof fn zeros_utf8_len(count: nat)
    ensures
        utf8_len(zeros(count)) == count,
    decreases count,
{
    if count > 0 {
        zeros_utf8_len((count - 1) as nat);
        assert(zeros(count).drop_last() =~= zeros((count - 1) as nat));
    }
}

/// A number below ten to the power of `width`, padded to `width`, takes
/// exactly `width` bytes.
pub proof fn padded_decimal_len(n: nat, width: nat)
    requires
        width >= 1,
        n < pow10(width),
    ensures
        utf8_len(padded_decimal(n, width)) == width,
{
    decimal_digits_len(n, width);
    decimal_digits_utf8_len(n);
    let digits = decimal_digits(n);
    if digits.len() < width {
        zeros_utf8_len((width - digits.len()) as nat);
        utf8_len_concat(zeros((width - digits.len()) as nat), digits);
    }
}

} // verus!
