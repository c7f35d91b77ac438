//! Character-level building blocks of the wire format: decimal numbers,
//! whitespace trimming, field splitting and the shape of a floating-point
//! literal.

use vstd::prelude::*;

verus! {

/// The characters of `s`, in order.
pub fn chars_of(s: &str) -> (v: Vec<char>)
    ensures
        v@ == s@,
{
    let mut v: Vec<char> = Vec::new();
    for c in it: s.chars()
        invariant
            v@ == it.seq().take(it.index()),
            it.seq() == s@,
    {
        v.push(c);
    }
    v
}

/// Whether `c` is one of the ten decimal digits.
pub open spec fn is_digit(c: char) -> bool {
    '0' <= c <= '9'
}

/// The value of a decimal digit character.
pub open spec fn digit_value(c: char) -> nat
    recommends
        is_digit(c),
{
    (c as u32 - '0' as u32) as nat
}

/// The character of a decimal digit.
pub open spec fn digit_char(d: nat) -> char
    recommends
        d < 10,
{
    if d == 0 {
        '0'
    } else if d == 1 {
        '1'
    } else if d == 2 {
        '2'
    } else if d == 3 {
        '3'
    } else if d == 4 {
        '4'
    } else if d == 5 {
        '5'
    } else if d == 6 {
        '6'
    } else if d == 7 {
        '7'
    } else if d == 8 {
        '8'
    } else {
        '9'
    }
}

/// The number a sequence of decimal digits denotes, most significant first.
pub open spec fn digits_value(s: Seq<char>) -> nat
    decreases s.len(),
{
    if s.len() == 0 {
        0
    } else {
        digits_value(s.drop_last()) * 10 + digit_value(s.last())
    }
}

/// Whether `s` holds nothing but decimal digits.
pub open spec fn all_digits(s: Seq<char>) -> bool {
    forall|i: int| 0 <= i < s.len() ==> is_digit(#[trigger] s[i])
}

/// The decimal text of `n`, without sign or leading zeros.
pub open spec fn decimal(n: nat) -> Seq<char>
    decreases n,
{
    if n < 10 {
        seq![digit_char(n)]
    } else {
        decimal(n / 10).push(digit_char(n % 10))
    }
}

/// The unsigned 32-bit number that a text denotes: an optional `+`, then one
/// or more decimal digits whose value fits; `None` for any other text. These
/// are the texts that the standard library reads as such a number.
pub open spec fn parse_u32(s: Seq<char>) -> Option<u32> {
    let body = if s.len() > 0 && s[0] == '+' {
        s.skip(1)
    } else {
        s
    };
    if body.len() > 0 && all_digits(body) && digits_value(body) <= u32::MAX {
        Some(digits_value(body) as u32)
    } else {
        None
    }
}

fn digit_of(c: char) -> (d: Option<u32>)
    ensures
        d is Some <==> is_digit(c),
        d matches Some(v) ==> v == digit_value(c) && v < 10,
{
    if '0' <= c && c <= '9' {
        Some(c as u32 - '0' as u32)
    } else {
        None
    }
}

proof fn lemma_digits_value_grows(s: Seq<char>, k: int)
    requires
        0 <= k <= s.len(),
    ensures
        digits_value(s.take(k)) <= digits_value(s),
    decreases s.len() - k,
{
    if k < s.len() {
        lemma_digits_value_grows(s, k + 1);
        assert(s.take(k + 1).drop_last() =~= s.take(k));
        assert(digits_value(s.take(k)) <= digits_value(s.take(k + 1))) by (nonlinear_arith)
            requires
                digits_value(s.take(k + 1)) == digits_value(s.take(k)) * 10 + digit_value(
                    s.take(k + 1).last(),
                ),
        ;
    } else {
        assert(s.take(k) =~= s);
    }
}

/// Reads an unsigned 32-bit number from its text.
pub fn read_u32(text: &str) -> (r: Option<u32>)
    ensures
        r == parse_u32(text@),
{
    let chars = chars_of(text);
    let start: usize = if chars.len() > 0 && chars[0] == '+' {
        1
    } else {
        0
    };
    let ghost body = chars@.skip(start as int);
    assert(text@.skip(0) =~= text@);
    if start == chars.len() {
        return None;
    }
    let mut acc: u64 = 0;
    let mut i: usize = start;
    while i < chars.len()
        invariant
            start <= i <= chars.len(),
            start < chars.len(),
            chars@ == text@,
            start == (if chars@.len() > 0 && chars@[0] == '+' {
                1int
            } else {
                0int
            }),
            body == chars@.skip(start as int),
            text@.skip(0) == text@,
            all_digits(body.take(i - start)),
            acc == digits_value(body.take(i - start)),
            acc <= u32::MAX,
        decreases chars.len() - i,
    {
        let ghost seen = body.take(i - start);
        let ghost more = body.take(i + 1 - start);
        assert(more.drop_last() =~= seen);
        assert(more.last() == chars@[i as int]);
        match digit_of(chars[i]) {
            None => {
                assert(!is_digit(body[i - start]));
                return None;
            },
            Some(d) => {
                acc = acc * 10 + d as u64;
                assert(acc == digits_value(more));
                assert forall|j: int| 0 <= j < more.len() implies is_digit(#[trigger] more[j]) by {
                    if j < seen.len() {
                        assert(more[j] == seen[j]);
                    }
                }
                if acc > u32::MAX as u64 {
                    proof {
                        lemma_digits_value_grows(body, i + 1 - start);
                    }
                    return None;
                }
            },
        }
        i += 1;
    }
    assert(body.len() == chars@.len() - start);
    assert(body.take(i - start) =~= body);
    Some(acc as u32)
}

fn digit_text(d: u32) -> (r: &'static str)
    requires
        d < 10,
    ensures
        r@ == seq![digit_char(d as nat)],
{
    proof {
        reveal_strlit("0");
        reveal_strlit("1");
        reveal_strlit("2");
        reveal_strlit("3");
        reveal_strlit("4");
        reveal_strlit("5");
        reveal_strlit("6");
        reveal_strlit("7");
        reveal_strlit("8");
        reveal_strlit("9");
    }
    let r = if d == 0 {
        "0"
    } else if d == 1 {
        "1"
    } else if d == 2 {
        "2"
    } else if d == 3 {
        "3"
    } else if d == 4 {
        "4"
    } else if d == 5 {
        "5"
    } else if d == 6 {
        "6"
    } else if d == 7 {
        "7"
    } else if d == 8 {
        "8"
    } else {
        "9"
    };
    assert(r@ =~= seq![digit_char(d as nat)]);
    r
}

/// Appends the decimal text of `n` to `out`.
pub fn push_decimal(out: &mut String, n: u32)
    ensures
        final(out)@ == old(out)@ + decimal(n as nat),
    decreases n,
{
    if n >= 10 {
        push_decimal(out, n / 10);
    }
    out.append(digit_text(n % 10));
    assert(out@ =~= old(out)@ + decimal(n as nat));
}

/// White space in the sense of Unicode's `White_Space` property, which is
/// what the standard library trims.
pub open spec fn is_whitespace(c: char) -> bool {
    let u = c as u32;
    ||| 0x09 <= u <= 0x0D
    ||| u == 0x20
    ||| u == 0x85
    ||| u == 0xA0
    ||| u == 0x1680
    ||| 0x2000 <= u <= 0x200A
    ||| u == 0x2028
    ||| u == 0x2029
    ||| u == 0x202F
    ||| u == 0x205F
    ||| u == 0x3000
}

/// `s` without the white space that it starts with.
pub open spec fn trim_start(s: Seq<char>) -> Seq<char>
    decreases s.len(),
{
    if s.len() > 0 && is_whitespace(s[0]) {
        trim_start(s.skip(1))
    } else {
        s
    }
}

/// `s` without the white space that it ends with.
pub open spec fn trim_end(s: Seq<char>) -> Seq<char>
    decreases s.len(),
{
    if s.len() > 0 && is_whitespace(s.last()) {
        trim_end(s.drop_last())
    } else {
        s
    }
}

/// `s` without the white space at its two ends.
pub open spec fn trimmed(s: Seq<char>) -> Seq<char> {
    trim_end(trim_start(s))
}

fn whitespace(c: char) -> (b: bool)
    ensures
        b == is_whitespace(c),
{
    let u: u32 = c as u32;
    (0x09 <= u && u <= 0x0D) || u == 0x20 || u == 0x85 || u == 0xA0 || u == 0x1680 || (0x2000 <= u
        && u <= 0x200A) || u == 0x2028 || u == 0x2029 || u == 0x202F || u == 0x205F || u == 0x3000
}

/// The part of `text` between its leading and trailing white space.
pub fn trim(text: &str) -> (r: &str)
    ensures
        r@ == trimmed(text@),
{
    let chars = chars_of(text);
    let mut a: usize = 0;
    assert(chars@.skip(0) =~= chars@);
    while a < chars.len() && whitespace(chars[a])
        invariant
            a <= chars.len(),
            trim_start(chars@) == trim_start(chars@.skip(a as int)),
        decreases chars.len() - a,
    {
        assert(chars@.skip(a as int).skip(1) =~= chars@.skip(a + 1));
        a += 1;
    }
    assert(trim_start(chars@) == chars@.skip(a as int));
    let mut b: usize = chars.len();
    assert(chars@.subrange(a as int, b as int) =~= chars@.skip(a as int));
    while b > a && whitespace(chars[b - 1])
        invariant
            a <= b <= chars.len(),
            trim_end(chars@.skip(a as int)) == trim_end(chars@.subrange(a as int, b as int)),
        decreases b,
    {
        assert(chars@.subrange(a as int, b as int).drop_last() =~= chars@.subrange(
            a as int,
            b - 1,
        ));
        b -= 1;
    }
    text.substring_char(a, b)
}

/// The fields of a line: the texts that its `;` separators divide it into.
/// A line with `n` separators has `n + 1` fields, some of them possibly empty.
pub open spec fn fields(s: Seq<char>) -> Seq<Seq<char>>
    decreases s.len(),
{
    if s.len() == 0 {
        seq![Seq::<char>::empty()]
    } else {
        let before = fields(s.drop_last());
        if s.last() == ';' {
            before.push(Seq::<char>::empty())
        } else {
            before.update(before.len() - 1, before.last().push(s.last()))
        }
    }
}

/// Every line has a field, if only an empty one.
pub proof fn lemma_fields_nonempty(s: Seq<char>)
    ensures
        fields(s).len() >= 1,
    decreases s.len(),
{
    if s.len() > 0 {
        lemma_fields_nonempty(s.drop_last());
    }
}

/// Splits a line at its `;` separators.
pub fn split_fields<'a>(text: &'a str) -> (out: Vec<&'a str>)
    ensures
        out@.len() == fields(text@).len(),
        forall|k: int| 0 <= k < out@.len() ==> (#[trigger] out@[k])@ == fields(text@)[k],
{
    let chars = chars_of(text);
    let mut out: Vec<&'a str> = Vec::new();
    let mut start: usize = 0;
    let mut i: usize = 0;
    while i < chars.len()
        invariant
            start <= i <= chars.len(),
            chars@ == text@,
            fields(chars@.take(i as int)).len() == out@.len() + 1,
            forall|k: int|
                0 <= k < out@.len() ==> (#[trigger] out@[k])@ == fields(chars@.take(i as int))[k],
            fields(chars@.take(i as int)).last() == chars@.subrange(start as int, i as int),
        decreases chars.len() - i,
    {
        assert(chars@.take(i + 1).drop_last() =~= chars@.take(i as int));
        if chars[i] == ';' {
            out.push(text.substring_char(start, i));
            start = i + 1;
            assert(chars@.subrange(start as int, start as int) =~= Seq::<char>::empty());
        } else {
            assert(chars@.subrange(start as int, i as int).push(chars@[i as int])
                =~= chars@.subrange(start as int, i + 1));
        }
        i += 1;
    }
    assert(chars@.take(i as int) =~= chars@);
    out.push(text.substring_char(start, i));
    out
}

/// The number of separators of a line, which is one less than the number of
/// its fields.
pub fn separator_count(text: &str) -> (n: usize)
    ensures
        n + 1 == fields(text@).len(),
{
    let chars = chars_of(text);
    let mut n: usize = 0;
    let mut i: usize = 0;
    while i < chars.len()
        invariant
            i <= chars.len(),
            chars@ == text@,
            n + 1 == fields(chars@.take(i as int)).len(),
            n <= i,
        decreases chars.len() - i,
    {
        assert(chars@.take(i + 1).drop_last() =~= chars@.take(i as int));
        assert(chars@.take(i + 1).last() == chars@[i as int]);
        if chars[i] == ';' {
            n += 1;
        }
        i += 1;
    }
    assert(chars@.take(i as int) =~= chars@);
    n
}

/// Whether `c` is a sign.
pub open spec fn is_sign(c: char) -> bool {
    c == '+' || c == '-'
}

/// `s` without its leading sign, if it has one.
pub open spec fn unsigned_part(s: Seq<char>) -> Seq<char> {
    if s.len() > 0 && is_sign(s[0]) {
        s.skip(1)
    } else {
        s
    }
}

/// How many decimal digits `s` starts with.
pub open spec fn digit_run(s: Seq<char>) -> nat
    decreases s.len(),
{
    if s.len() > 0 && is_digit(s[0]) {
        1 + digit_run(s.skip(1))
    } else {
        0
    }
}

/// Whether `c` is the lower-case ASCII letter `letter` or its upper-case form.
pub open spec fn is_letter(c: char, letter: char) -> bool {
    c == letter || ('A' <= c <= 'Z' && c as u32 + 32 == letter as u32)
}

/// Whether `s` spells the lower-case ASCII word `word`, in any mix of cases.
pub open spec fn spells(s: Seq<char>, word: Seq<char>) -> bool {
    s.len() == word.len() && forall|i: int|
        0 <= i < s.len() ==> is_letter(#[trigger] s[i], word[i])
}

/// The names that stand for an infinity or for a value that is not a number.
pub open spec fn is_named_float(s: Seq<char>) -> bool {
    ||| spells(s, seq!['i', 'n', 'f'])
    ||| spells(s, seq!['i', 'n', 'f', 'i', 'n', 'i', 't', 'y'])
    ||| spells(s, seq!['n', 'a', 'n'])
}

/// An exponent after its `e`: an optional sign, then digits to the end.
pub open spec fn is_exponent(s: Seq<char>) -> bool {
    let d = unsigned_part(s);
    d.len() > 0 && digit_run(d) == d.len()
}

/// Digits with an optional `.` among them, at least one digit in all, and an
/// optional exponent behind them.
pub open spec fn is_decimal_number(s: Seq<char>) -> bool {
    let whole = digit_run(s);
    let after = s.skip(whole as int);
    let dotted = after.len() > 0 && after[0] == '.';
    let frac = if dotted {
        digit_run(after.skip(1))
    } else {
        0
    };
    let rest = if dotted {
        after.skip(1 + frac as int)
    } else {
        after
    };
    whole + frac > 0 && (rest.len() == 0 || ((rest[0] == 'e' || rest[0] == 'E') && is_exponent(
        rest.skip(1),
    )))
}

/// Whether `s` has the shape of a floating-point literal: an optional sign,
/// then either one of the names `inf`, `infinity` and `nan` or a decimal
/// number. No white space is allowed anywhere. These are the texts that the
/// standard library reads as a floating-point number.
pub open spec fn is_float_text(s: Seq<char>) -> bool {
    let u = unsigned_part(s);
    is_named_float(u) || is_decimal_number(u)
}

fn sign(c: char) -> (b: bool)
    ensures
        b == is_sign(c),
{
    c == '+' || c == '-'
}

/// The index behind the digits that start at `from`.
fn skip_digits(chars: &Vec<char>, from: usize) -> (to: usize)
    requires
        from <= chars@.len(),
    ensures
        from <= to <= chars@.len(),
        to - from == digit_run(chars@.skip(from as int)),
{
    let mut to: usize = from;
    while to < chars.len() && digit_of(chars[to]).is_some()
        invariant
            from <= to <= chars@.len(),
            digit_run(chars@.skip(from as int)) == (to - from) + digit_run(chars@.skip(to as int)),
        decreases chars@.len() - to,
    {
        assert(chars@.skip(to as int).skip(1) =~= chars@.skip(to + 1));
        to += 1;
    }
    to
}

fn letter(c: char, l: char) -> (b: bool)
    ensures
        b == is_letter(c, l),
{
    c == l || ('A' <= c && c <= 'Z' && c as u32 + 32 == l as u32)
}

/// Whether the characters from `from` to the end spell `word`.
fn spelled(chars: &Vec<char>, from: usize, word: &str) -> (b: bool)
    requires
        from <= chars@.len(),
    ensures
        b == spells(chars@.skip(from as int), word@),
{
    let w = chars_of(word);
    if chars.len() - from != w.len() {
        return false;
    }
    let mut i: usize = 0;
    while i < w.len()
        invariant
            i <= w@.len(),
            from <= chars@.len() <= usize::MAX,
            chars@.len() - from == w@.len(),
            w@ == word@,
            forall|k: int|
                0 <= k < i ==> is_letter(#[trigger] chars@.skip(from as int)[k], w@[k]),
        decreases w@.len() - i,
    {
        if !letter(chars[from + i], w[i]) {
            assert(!is_letter(chars@.skip(from as int)[i as int], w@[i as int]));
            return false;
        }
        i += 1;
    }
    true
}

/// Whether the characters from `from` to the end are one of the names of a
/// value that is no decimal number.
fn named_float_at(chars: &Vec<char>, from: usize) -> (b: bool)
    requires
        from <= chars@.len(),
    ensures
        b == is_named_float(chars@.skip(from as int)),
{
    proof {
        reveal_strlit("inf");
        reveal_strlit("infinity");
        reveal_strlit("nan");
        assert("inf"@ =~= seq!['i', 'n', 'f']);
        assert("infinity"@ =~= seq!['i', 'n', 'f', 'i', 'n', 'i', 't', 'y']);
        assert("nan"@ =~= seq!['n', 'a', 'n']);
    }
    spelled(chars, from, "inf") || spelled(chars, from, "infinity") || spelled(chars, from, "nan")
}

/// Whether the characters from `from` to the end are an exponent.
fn exponent_at(chars: &Vec<char>, from: usize) -> (b: bool)
    requires
        from <= chars@.len(),
    ensures
        b == is_exponent(chars@.skip(from as int)),
{
    let ghost s = chars@.skip(from as int);
    let start: usize = if from < chars.len() && sign(chars[from]) {
        from + 1
    } else {
        from
    };
    assert(s.skip(0) =~= s);
    assert(from < chars@.len() ==> s.skip(1) =~= chars@.skip(from + 1));
    assert(unsigned_part(s) == chars@.skip(start as int));
    let end = skip_digits(chars, start);
    start < chars.len() && end == chars.len()
}

/// Whether the characters from `from` to the end are a decimal number.
fn decimal_number_at(chars: &Vec<char>, from: usize) -> (b: bool)
    requires
        from <= chars@.len(),
    ensures
        b == is_decimal_number(chars@.skip(from as int)),
{
    let ghost s = chars@.skip(from as int);
    let whole_end = skip_digits(chars, from);
    let ghost after = s.skip(whole_end - from);
    assert(after =~= chars@.skip(whole_end as int));
    let dotted = whole_end < chars.len() && chars[whole_end] == '.';
    let rest_start: usize = if dotted {
        assert(after.skip(1) =~= chars@.skip(whole_end + 1));
        skip_digits(chars, whole_end + 1)
    } else {
        whole_end
    };
    let digits: usize = if dotted {
        rest_start - from - 1
    } else {
        rest_start - from
    };
    let ghost rest = chars@.skip(rest_start as int);
    assert(dotted ==> after.skip(1 + (rest_start - whole_end - 1)) =~= rest);
    if digits == 0 {
        return false;
    }
    if rest_start == chars.len() {
        return true;
    }
    assert(rest.skip(1) =~= chars@.skip(rest_start + 1));
    (chars[rest_start] == 'e' || chars[rest_start] == 'E') && exponent_at(chars, rest_start + 1)
}

/// Whether `text` has the shape of a floating-point literal.
pub fn looks_like_float(text: &str) -> (b: bool)
    ensures
        b == is_float_text(text@),
{
    let chars = chars_of(text);
    let start: usize = if chars.len() > 0 && sign(chars[0]) {
        1
    } else {
        0
    };
    assert(text@.skip(0) =~= text@);
    assert(chars@.skip(start as int) == unsigned_part(text@));
    named_float_at(&chars, start) || decimal_number_at(&chars, start)
}

/// The decimal text of a number is made of digits, at least one, and denotes
/// the number.
pub proof fn lemma_decimal(n: nat)
    ensures
        decimal(n).len() > 0,
        all_digits(decimal(n)),
        digits_value(decimal(n)) == n,
    decreases n,
{
    let d = decimal(n);
    if n < 10 {
        assert(d.drop_last() =~= Seq::<char>::empty());
        assert(digits_value(d.drop_last()) == 0);
    } else {
        lemma_decimal(n / 10);
        assert(d.drop_last() =~= decimal(n / 10));
        assert(digit_value(d.last()) == n % 10);
    }
}

/// A number is read back from its decimal text.
pub proof fn lemma_parse_decimal(n: u32)
    ensures
        parse_u32(decimal(n as nat)) == Some(n),
{
    lemma_decimal(n as nat);
    assert(is_digit(decimal(n as nat)[0]));
}

/// Whether `s` is free of the separator `;`.
pub open spec fn has_no_separator(s: Seq<char>) -> bool {
    forall|i: int| 0 <= i < s.len() ==> #[trigger] s[i] != ';'
}

/// A text without a separator is one field.
pub proof fn lemma_fields_plain(s: Seq<char>)
    requires
        has_no_separator(s),
    ensures
        fields(s) == seq![s],
    decreases s.len(),
{
    if s.len() == 0 {
        assert(s =~= Seq::<char>::empty());
    } else {
        let front = s.drop_last();
        lemma_fields_plain(front);
        assert(front.push(s.last()) =~= s);
        assert(fields(s) =~= seq![s]);
    }
}

/// The fields of two texts joined by a separator are the fields of the one,
/// then those of the other.
pub proof fn lemma_fields_join(a: Seq<char>, b: Seq<char>)
    ensures
        fields(a + seq![';'] + b) == fields(a) + fields(b),
    decreases b.len(),
{
    let whole = a + seq![';'] + b;
    if b.len() == 0 {
        assert(whole.drop_last() =~= a);
        assert(fields(whole) =~= fields(a) + fields(b));
    } else {
        let front = b.drop_last();
        lemma_fields_join(a, front);
        lemma_fields_nonempty(front);
        assert(whole.drop_last() =~= a + seq![';'] + front);
        assert(whole.last() == b.last());
        assert(fields(whole) =~= fields(a) + fields(b));
    }
}

/// Whether `s` has no white space at either end.
pub open spec fn is_trimmed(s: Seq<char>) -> bool {
    s.len() == 0 || (!is_whitespace(s.first()) && !is_whitespace(s.last()))
}

/// Trimming takes the newline off a line whose text has no white space at
/// either end, and nothing else.
pub proof fn lemma_trim_line(s: Seq<char>)
    requires
        is_trimmed(s),
    ensures
        trimmed(s.push('\n')) == s,
{
    let line = s.push('\n');
    assert(is_whitespace('\n'));
    assert(line.drop_last() =~= s);
    if s.len() == 0 {
        assert(line.skip(1) =~= Seq::<char>::empty());
        assert(trim_start(line.skip(1)) == line.skip(1));
        assert(trim_start(line) == line.skip(1));
        assert(s =~= Seq::<char>::empty());
    } else {
        assert(line[0] == s[0]);
        assert(trim_start(line) == line);
        assert(trim_end(s) == s);
        assert(trim_end(line) == trim_end(line.drop_last()));
    }
}

/// A text with a separator has more than one field.
pub proof fn lemma_separator_makes_fields(s: Seq<char>)
    requires
        !has_no_separator(s),
    ensures
        fields(s).len() >= 2,
    decreases s.len(),
{
    let i = choose|i: int| 0 <= i < s.len() && s[i] == ';';
    lemma_fields_nonempty(s.drop_last());
    if s.last() != ';' {
        assert(s.drop_last()[i] == ';');
        lemma_separator_makes_fields(s.drop_last());
    }
}

/// No field holds a separator.
pub proof fn lemma_fields_have_no_separator(s: Seq<char>)
    ensures
        forall|k: int| 0 <= k < fields(s).len() ==> has_no_separator(#[trigger] fields(s)[k]),
    decreases s.len(),
{
    if s.len() > 0 {
        lemma_fields_have_no_separator(s.drop_last());
        lemma_fields_nonempty(s.drop_last());
    }
}

proof fn lemma_trim_start(s: Seq<char>)
    ensures
        trim_start(s).len() <= s.len(),
        trim_start(s) == s.skip(s.len() - trim_start(s).len()),
        trim_start(s).len() > 0 ==> !is_whitespace(trim_start(s).first()),
    decreases s.len(),
{
    if s.len() > 0 && is_whitespace(s[0]) {
        let rest = s.skip(1);
        lemma_trim_start(rest);
        assert(rest.skip(rest.len() - trim_start(rest).len()) =~= s.skip(
            s.len() - trim_start(rest).len(),
        ));
    } else {
        assert(s.skip(0) =~= s);
    }
}

proof fn lemma_trim_end(s: Seq<char>)
    ensures
        trim_end(s).len() <= s.len(),
        trim_end(s) == s.take(trim_end(s).len() as int),
        trim_end(s).len() > 0 ==> !is_whitespace(trim_end(s).last()),
    decreases s.len(),
{
    if s.len() > 0 && is_whitespace(s.last()) {
        let rest = s.drop_last();
        lemma_trim_end(rest);
        assert(rest.take(trim_end(rest).len() as int) =~= s.take(trim_end(rest).len() as int));
    } else {
        assert(s.take(s.len() as int) =~= s);
    }
}

/// What is left of a text after trimming has no white space at either end,
/// and no separator where the text had none.
pub proof fn lemma_trimmed(s: Seq<char>)
    ensures
        is_trimmed(trimmed(s)),
        has_no_separator(s) ==> has_no_separator(trimmed(s)),
{
    lemma_trim_start(s);
    lemma_trim_end(trim_start(s));
}

} // verus!
