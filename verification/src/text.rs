//! Characters and small pieces of text: character classes, trimming, and the
//! unsigned numbers that the corpus and the version marker are written in.

use vstd::prelude::*;

verus! {

/// `String::push` of std appends one character to the end of the string.
pub assume_specification[ String::push ](s: &mut String, c: char)
    ensures
        final(s)@ == old(s)@.push(c),
;

/// `char::from_u32` of std gives the character with the given scalar value, and
/// `None` for a surrogate (U+D800 to U+DFFF) or a value above U+10FFFF.
pub assume_specification[ char::from_u32 ](i: u32) -> (r: Option<char>)
    ensures
        r == scalar_char(i as nat),
;

/// The character whose scalar value is `n`, if there is one.
pub open spec fn scalar_char(n: nat) -> Option<char> {
    if n <= 0xD7FF || 0xE000 <= n <= 0x10FFFF {
        Some(n as char)
    } else {
        None
    }
}

/// Control characters: U+0000 to U+001F and U+007F to U+009F.
pub open spec fn is_control(c: char) -> bool {
    c as u32 <= 0x1F || 0x7F <= c as u32 <= 0x9F
}

/// White space: the characters that carry the Unicode property `White_Space`.
pub open spec fn is_space(c: char) -> bool {
    let n = c as u32;
    ||| 0x09 <= n <= 0x0D
    ||| n == 0x20
    ||| n == 0x85
    ||| n == 0xA0
    ||| n == 0x1680
    ||| 0x2000 <= n <= 0x200A
    ||| n == 0x2028
    ||| n == 0x2029
    ||| n == 0x202F
    ||| n == 0x205F
    ||| n == 0x3000
}

/// Whether `c` is a control character.
pub fn char_is_control(c: char) -> (r: bool)
    ensures
        r == is_control(c),
{
    let n: u32 = c as u32;
    n <= 0x1F || (0x7F <= n && n <= 0x9F)
}

/// Whether `c` is white space.
pub fn char_is_space(c: char) -> (r: bool)
    ensures
        r == is_space(c),
{
    let n: u32 = c as u32;
    (0x09 <= n && n <= 0x0D) || n == 0x20 || n == 0x85 || n == 0xA0 || n == 0x1680 || (0x2000 <= n
        && n <= 0x200A) || n == 0x2028 || n == 0x2029 || n == 0x202F || n == 0x205F || n == 0x3000
}

/// `s` without its leading white space.
pub open spec fn trim_start(s: Seq<char>) -> Seq<char>
    decreases s.len(),
{
    if s.len() > 0 && is_space(s.first()) {
        trim_start(s.drop_first())
    } else {
        s
    }
}

/// `s` without its trailing white space.
pub open spec fn trim_end(s: Seq<char>) -> Seq<char>
    decreases s.len(),
{
    if s.len() > 0 && is_space(s.last()) {
        trim_end(s.drop_last())
    } else {
        s
    }
}

/// `s` without white space at either end.
pub open spec fn trimmed(s: Seq<char>) -> Seq<char> {
    trim_end(trim_start(s))
}

/// Trimming never lengthens, and what is left neither starts nor ends in white space.
pub proof fn lemma_trimmed_is_tight(s: Seq<char>)
    ensures
        trimmed(s).len() <= s.len(),
        trimmed(s).len() > 0 ==> !is_space(trimmed(s).first()) && !is_space(trimmed(s).last()),
        trimmed(trimmed(s)) == trimmed(s),
{
    lemma_trim_start_shape(s);
    let t = trim_start(s);
    lemma_trim_end_shape(t);
    let u = trim_end(t);
    if u.len() > 0 {
        assert(u.first() == t.first());
        assert(trim_start(u) == u);
        assert(trim_end(u) == u);
    } else {
        assert(trim_start(u) == u);
        assert(trim_end(u) == u);
    }
}

proof fn lemma_trim_start_shape(s: Seq<char>)
    ensures
        trim_start(s) == s.skip(s.len() - trim_start(s).len()),
        trim_start(s).len() <= s.len(),
        trim_start(s).len() > 0 ==> !is_space(trim_start(s).first()),
    decreases s.len(),
{
    if s.len() > 0 && is_space(s.first()) {
        let rest = s.drop_first();
        lemma_trim_start_shape(rest);
        let k = rest.len() - trim_start(rest).len();
        assert(rest.skip(k) =~= s.skip(k + 1));
    } else {
        assert(s.skip(0) =~= s);
    }
}

proof fn lemma_trim_end_shape(s: Seq<char>)
    ensures
        trim_end(s) == s.take(trim_end(s).len() as int),
        trim_end(s).len() <= s.len(),
        trim_end(s).len() > 0 ==> !is_space(trim_end(s).last()),
    decreases s.len(),
{
    if s.len() > 0 && is_space(s.last()) {
        let rest = s.drop_last();
        lemma_trim_end_shape(rest);
        let k = trim_end(rest).len() as int;
        assert(rest.take(k) =~= s.take(k));
    } else {
        assert(s.take(s.len() as int) =~= s);
    }
}

/// The text of `text` without white space at either end.
pub fn trim(text: &str) -> (r: &str)
    ensures
        r@ == trimmed(text@),
{
    let len = text.unicode_len();
    let mut start: usize = 0;
    assert(text@.skip(0) =~= text@);
    while start < len && char_is_space(text.get_char(start))
        invariant
            start <= len == text@.len(),
            trim_start(text@) == trim_start(text@.skip(start as int)),
        decreases len - start,
    {
        proof {
            let cur = text@.skip(start as int);
            assert(cur.first() == text@[start as int]);
            assert(cur.drop_first() =~= text@.skip(start + 1));
        }
        start += 1;
    }
    proof {
        let cur = text@.skip(start as int);
        if start < len {
            assert(cur.first() == text@[start as int]);
        }
        assert(trim_start(cur) == cur);
    }
    let mut end: usize = len;
    while end > start && char_is_space(text.get_char(end - 1))
        invariant
            start <= end <= len == text@.len(),
            trimmed(text@) == trim_end(text@.subrange(start as int, end as int)),
        decreases end,
    {
        proof {
            let cur = text@.subrange(start as int, end as int);
            assert(cur.last() == text@[end - 1]);
            assert(cur.drop_last() =~= text@.subrange(start as int, end - 1));
        }
        end -= 1;
    }
    proof {
        let cur = text@.subrange(start as int, end as int);
        if end > start {
            assert(cur.last() == text@[end - 1]);
        }
        assert(trim_end(cur) == cur);
    }
    text.substring_char(start, end)
}

/// The characters of `chars` as a string.
pub fn string_of(chars: &Vec<char>) -> (r: String)
    ensures
        r@ == chars@,
{
    let mut out = String::new();
    let mut i: usize = 0;
    while i < chars.len()
        invariant
            i <= chars.len(),
            out@ == chars@.take(i as int),
        decreases chars.len() - i,
    {
        out.push(chars[i]);
        proof {
            assert(chars@.take(i + 1) =~= chars@.take(i as int).push(chars@[i as int]));
        }
        i += 1;
    }
    proof {
        assert(chars@.take(chars.len() as int) =~= chars@);
    }
    out
}

/// `chars` with `c` inserted before the position `at`.
pub fn with_inserted(chars: &Vec<char>, at: usize, c: char) -> (r: Vec<char>)
    requires
        at <= chars.len(),
    ensures
        r@ == chars@.insert(at as int, c),
{
    let mut out: Vec<char> = Vec::new();
    let mut i: usize = 0;
    while i < chars.len()
        invariant
            i <= chars.len(),
            at <= chars.len(),
            out@ == if i <= at {
                chars@.take(i as int)
            } else {
                chars@.insert(at as int, c).take(i + 1)
            },
        decreases chars.len() - i,
    {
        if i == at {
            out.push(c);
        }
        out.push(chars[i]);
        proof {
            let target = chars@.insert(at as int, c);
            if i < at {
                assert(out@ =~= chars@.take(i + 1));
            } else {
                assert(out@ =~= target.take(i + 2));
            }
        }
        i += 1;
    }
    if at == chars.len() {
        out.push(c);
    }
    proof {
        let target = chars@.insert(at as int, c);
        assert(out@ =~= target);
    }
    out
}

/// `chars` without the character at the position `at`.
pub fn with_removed(chars: &Vec<char>, at: usize) -> (r: Vec<char>)
    requires
        at < chars.len(),
    ensures
        r@ == chars@.remove(at as int),
{
    let mut out: Vec<char> = Vec::new();
    let mut i: usize = 0;
    while i < chars.len()
        invariant
            i <= chars.len(),
            at < chars.len(),
            out@ == if i <= at {
                chars@.take(i as int)
            } else {
                chars@.remove(at as int).take(i - 1)
            },
        decreases chars.len() - i,
    {
        if i != at {
            out.push(chars[i]);
        }
        proof {
            let target = chars@.remove(at as int);
            if i < at {
                assert(out@ =~= chars@.take(i + 1));
            } else {
                assert(out@ =~= target.take(i as int));
            }
        }
        i += 1;
    }
    proof {
        let target = chars@.remove(at as int);
        assert(out@ =~= target);
    }
    out
}

/// The value of `c` as a digit: `0` to `9`, then `a` to `f` in either case.
pub open spec fn digit_of(c: char) -> Option<nat> {
    let n = c as int;
    if 0x30 <= n <= 0x39 {
        Some((n - 0x30) as nat)
    } else if 0x41 <= n <= 0x46 {
        Some((n - 0x41 + 10) as nat)
    } else if 0x61 <= n <= 0x66 {
        Some((n - 0x61 + 10) as nat)
    } else {
        None
    }
}

/// Whether `c` is a digit of the number system with base `radix`.
pub open spec fn is_digit(c: char, radix: nat) -> bool {
    digit_of(c) matches Some(d) && d < radix
}

/// Whether `s` consists of digits of the number system with base `radix`.
pub open spec fn all_digits(s: Seq<char>, radix: nat) -> bool {
    forall|i: int| 0 <= i < s.len() ==> is_digit(#[trigger] s[i], radix)
}

/// The number that the digits `s` denote in base `radix`, most significant first.
pub open spec fn digits_value(s: Seq<char>, radix: nat) -> nat
    decreases s.len(),
{
    if s.len() == 0 {
        0
    } else {
        digits_value(s.drop_last(), radix) * radix + digit_of(s.last()).unwrap_or(0)
    }
}

/// `s` without one leading plus sign.
pub open spec fn unsigned_body(s: Seq<char>) -> Seq<char> {
    if s.len() > 0 && s[0] == '+' {
        s.drop_first()
    } else {
        s
    }
}

/// The number that `s` denotes in base `radix`, if `s` is an optional plus
/// sign followed by one or more digits and the number is at most `max`.
pub open spec fn parse_number(s: Seq<char>, radix: nat, max: nat) -> Option<nat> {
    let body = unsigned_body(s);
    if body.len() > 0 && all_digits(body, radix) && digits_value(body, radix) <= max {
        Some(digits_value(body, radix))
    } else {
        None
    }
}

proof fn lemma_digits_value_grows(s: Seq<char>, radix: nat, k: int)
    requires
        radix >= 1,
        0 <= k <= s.len(),
    ensures
        digits_value(s.take(k), radix) <= digits_value(s, radix),
    decreases s.len() - k,
{
    if k == s.len() {
        assert(s.take(k) =~= s);
    } else {
        lemma_digits_value_grows(s, radix, k + 1);
        let longer = s.take(k + 1);
        assert(longer.drop_last() =~= s.take(k));
        let low = digits_value(s.take(k), radix);
        assert(low <= low * radix) by (nonlinear_arith)
            requires
                radix >= 1,
        ;
    }
}

fn digit_value(c: char) -> (r: Option<u64>)
    ensures
        r is Some == digit_of(c) is Some,
        r matches Some(d) ==> d == digit_of(c).unwrap() && d < 16,
{
    let n: u32 = c as u32;
    if 0x30 <= n && n <= 0x39 {
        Some((n - 0x30) as u64)
    } else if 0x41 <= n && n <= 0x46 {
        Some((n - 0x41 + 10) as u64)
    } else if 0x61 <= n && n <= 0x66 {
        Some((n - 0x61 + 10) as u64)
    } else {
        None
    }
}

/// Reads `text` as an unsigned number in base `radix` that is at most `max`.
pub fn parse_unsigned(text: &str, radix: u64, max: u64) -> (r: Option<u64>)
    requires
        2 <= radix <= 16,
    ensures
        r is Some == parse_number(text@, radix as nat, max as nat) is Some,
        r matches Some(v) ==> parse_number(text@, radix as nat, max as nat) == Some(v as nat),
{
    let len = text.unicode_len();
    let start: usize = if len > 0 && text.get_char(0) == '+' {
        1
    } else {
        0
    };
    let ghost body = unsigned_body(text@);
    assert(body =~= text@.skip(start as int));
    if start == len {
        return None;
    }
    let mut value: u64 = 0;
    let mut i: usize = start;
    while i < len
        invariant
            2 <= radix <= 16,
            start <= i <= len == text@.len(),
            body == text@.skip(start as int),
            body == unsigned_body(text@),
            all_digits(body.take(i - start), radix as nat),
            value == digits_value(body.take(i - start), radix as nat),
            value <= max,
        decreases len - i,
    {
        let c = text.get_char(i);
        assert(body[i - start] == c);
        let ghost longer = body.take(i - start + 1);
        proof {
            assert(longer.drop_last() =~= body.take(i - start));
            assert(longer.last() == c);
        }
        match digit_value(c) {
            Some(d) if d < radix => {
                assert(value * radix <= 0xffff_ffff_ffff_ffff * 16) by (nonlinear_arith)
                    requires
                        value <= 0xffff_ffff_ffff_ffff,
                        radix <= 16,
                ;
                let wide: u128 = (value as u128) * (radix as u128) + (d as u128);
                assert(wide == digits_value(longer, radix as nat)) by (nonlinear_arith)
                    requires
                        wide == (value as int) * (radix as int) + (d as int),
                        digits_value(longer, radix as nat) == (value as nat) * (radix as nat) + (
                        d as nat),
                ;
                if wide > max as u128 {
                    proof {
                        lemma_digits_value_grows(body, radix as nat, i - start + 1);
                    }
                    return None;
                }
                value = wide as u64;
                proof {
                    assert forall|j: int| 0 <= j < longer.len() implies is_digit(
                        #[trigger] longer[j],
                        radix as nat,
                    ) by {
                        if j < i - start {
                            assert(longer[j] == body.take(i - start)[j]);
                        }
                    }
                }
            },
            _ => {
                assert(!is_digit(body[i - start], radix as nat));
                return None;
            },
        }
        i += 1;
    }
    proof {
        assert(body.take(i - start) =~= body);
    }
    Some(value)
}

/// The character for the decimal digit `d`.
pub open spec fn decimal_char(d: nat) -> char {
    (0x30 + d) as char
}

/// The decimal digits of `n`, most significant first, without leading zeros.
pub open spec fn decimal_digits(n: nat) -> Seq<char>
    decreases n,
{
    if n < 10 {
        seq![decimal_char(n)]
    } else {
        decimal_digits(n / 10).push(decimal_char(n % 10))
    }
}

/// Writing a number in decimal and reading it back gives the number.
pub proof fn lemma_decimal_round_trip(n: nat, max: nat)
    requires
        n <= max,
    ensures
        parse_number(decimal_digits(n), 10, max) == Some(n),
{
    lemma_decimal_digits_denote(n);
    let s = decimal_digits(n);
    assert(is_digit(s[0], 10));
    assert(unsigned_body(s) == s);
}

proof fn lemma_decimal_digits_denote(n: nat)
    ensures
        decimal_digits(n).len() > 0,
        all_digits(decimal_digits(n), 10),
        digits_value(decimal_digits(n), 10) == n,
    decreases n,
{
    let s = decimal_digits(n);
    if n < 10 {
        assert(s.drop_last() =~= Seq::<char>::empty());
        assert(digit_of(decimal_char(n)) == Some(n));
        assert(digits_value(s.drop_last(), 10) == 0);
    } else {
        lemma_decimal_digits_denote(n / 10);
        let head = decimal_digits(n / 10);
        assert(s.drop_last() =~= head);
        assert(digit_of(decimal_char(n % 10)) == Some(n % 10));
        assert forall|i: int| 0 <= i < s.len() implies is_digit(#[trigger] s[i], 10) by {
            if i < head.len() {
                assert(s[i] == head[i]);
            }
        }
    }
}

fn decimal_digit(d: u32) -> (c: char)
    requires
        d < 10,
    ensures
        c == decimal_char(d as nat),
{
    match char::from_u32(0x30 + d) {
        Some(c) => c,
        None => '0',
    }
}

/// The decimal text of `n`.
pub fn format_decimal(n: u32) -> (r: String)
    ensures
        r@ == decimal_digits(n as nat),
{
    let mut tail: Vec<char> = Vec::new();
    let mut rest: u32 = n;
    while rest >= 10
        invariant
            decimal_digits(n as nat) == decimal_digits(rest as nat) + tail@,
        decreases rest,
    {
        let c = decimal_digit(rest % 10);
        let ghost before = tail@;
        tail.insert(0, c);
        proof {
            let head = decimal_digits((rest / 10) as nat);
            assert(decimal_digits(rest as nat) == head.push(c));
            assert(tail@ =~= seq![c] + before);
            assert(head.push(c) + before =~= head + tail@);
        }
        rest = rest / 10;
    }
    tail.insert(0, decimal_digit(rest));
    proof {
        assert(decimal_digits(rest as nat) =~= seq![decimal_char(rest as nat)]);
    }
    string_of(&tail)
}

} // verus!
