use vstd::prelude::*;

verus! {

/// The character of the decimal digit `d`.
pub open spec fn digit_char(d: int) -> char {
    (48 + d) as char
}

pub open spec fn is_digit(c: char) -> bool {
    '0' <= c && c <= '9'
}

/// The decimal digits of `n`, most significant first, without leading zeros.
pub open spec fn digits_of(n: nat) -> Seq<char>
    decreases n,
{
    if n < 10 {
        seq![digit_char(n as int)]
    } else {
        digits_of(n / 10).push(digit_char((n % 10) as int))
    }
}

/// `x` written in decimal, with a leading `-` when negative, as Rust prints integers.
pub open spec fn decimal(x: int) -> Seq<char> {
    if x < 0 {
        seq!['-'] + digits_of((-x) as nat)
    } else {
        digits_of(x as nat)
    }
}

/// The number that a string of decimal digits stands for.
pub open spec fn digits_value(s: Seq<char>) -> int
    decreases s.len(),
{
    if s.len() == 0 {
        0
    } else {
        digits_value(s.drop_last()) * 10 + (s.last() as int - 48)
    }
}

pub open spec fn all_digits(s: Seq<char>) -> bool {
    forall|i: int| 0 <= i < s.len() ==> is_digit(#[trigger] s[i])
}

/// The number text starts with a minus sign.
pub open spec fn sign_is_minus(s: Seq<char>) -> bool {
    s.len() > 0 && s[0] == '-'
}

/// The number text without its sign, if it has one.
pub open spec fn unsigned_part(s: Seq<char>) -> Seq<char> {
    if s.len() > 0 && (s[0] == '-' || s[0] == '+') {
        s.drop_first()
    } else {
        s
    }
}

/// The `i64` that `s` stands for, as `i64::from_str` reads it: an optional `+` or `-` sign
/// followed by at least one decimal digit and nothing else, with a value in the `i64` range.
pub open spec fn parse_i64(s: Seq<char>) -> Option<i64> {
    let negative = sign_is_minus(s);
    let body = unsigned_part(s);
    let value = if negative {
        -digits_value(body)
    } else {
        digits_value(body)
    };
    if body.len() > 0 && all_digits(body) && i64::MIN <= value <= i64::MAX {
        Some(value as i64)
    } else {
        None
    }
}

/// The one-character string of the decimal digit `d`.
fn digit_str(d: u8) -> (s: &'static str)
    requires
        d < 10,
    ensures
        s@ == seq![digit_char(d as int)],
{
    proof {
        reveal_strlit("0");
        reveal_strlit("1");
        reveal_strlit("2");
        reveal_strlit("3");
        reveal_strlit("4");
        reveal_strlit("5");
        reveal_strlit("6");
        reveal_strlit("7");
        reveal_strlit("8");
        reveal_strlit("9");
    }
    match d {
        0 => "0",
        1 => "1",
        2 => "2",
        3 => "3",
        4 => "4",
        5 => "5",
        6 => "6",
        7 => "7",
        8 => "8",
        _ => "9",
    }
}

fn append_digits(s: &mut String, n: u128)
    ensures
        final(s)@ == old(s)@ + digits_of(n as nat),
    decreases n,
{
    if n >= 10 {
        append_digits(s, n / 10);
    }
    let d = (n % 10) as u8;
    s.append(digit_str(d));
    proof {
        if n < 10 {
            assert(old(s)@ + digits_of(n as nat) =~= old(s)@ + seq![digit_char(n as int)]);
        } else {
            assert(old(s)@ + digits_of(n as nat) =~= old(s)@ + digits_of((n / 10) as nat) + seq![
                digit_char((n % 10) as int),
            ]);
        }
    }
}

/// Appends `x`, written in decimal, to `s`.
pub fn append_decimal(s: &mut String, x: i128)
    requires
        x > i128::MIN,
    ensures
        final(s)@ == old(s)@ + decimal(x as int),
{
    if x < 0 {
        proof {
            reveal_strlit("-");
        }
        s.append("-");
        append_digits(s, (-x) as u128);
        assert(final(s)@ =~= old(s)@ + decimal(x as int));
    } else {
        append_digits(s, x as u128);
    }
}

/// Whether the strings `a` and `b` hold the same characters.
pub fn str_equals(a: &str, b: &str) -> (r: bool)
    ensures
        r == (a@ == b@),
{
    let n = a.unicode_len();
    if n != b.unicode_len() {
        return false;
    }
    let mut i: usize = 0;
    while i < n
        invariant
            n == a@.len(),
            n == b@.len(),
            i <= n,
            forall|j: int| 0 <= j < i ==> a@[j] == b@[j],
        decreases n - i,
    {
        if a.get_char(i) != b.get_char(i) {
            return false;
        }
        i = i + 1;
    }
    assert(a@ =~= b@);
    true
}

proof fn lemma_digits_value_push(s: Seq<char>, c: char)
    ensures
        digits_value(s.push(c)) == digits_value(s) * 10 + (c as int - 48),
{
    assert(s.push(c).drop_last() =~= s);
}

/// A string of digits stands for no less than any of its beginnings.
proof fn lemma_digits_value_prefix(s: Seq<char>, k: int)
    requires
        all_digits(s),
        0 <= k <= s.len(),
    ensures
        0 <= digits_value(s.take(k)) <= digits_value(s),
    decreases s.len() - k,
{
    if k < s.len() {
        lemma_digits_value_prefix(s, k + 1);
        assert(s.take(k + 1) =~= s.take(k).push(s[k]));
        lemma_digits_value_push(s.take(k), s[k]);
        assert(is_digit(s[k]));
    } else {
        assert(s.take(k) =~= s);
        lemma_digits_value_nonnegative(s);
    }
}

proof fn lemma_digits_value_nonnegative(s: Seq<char>)
    requires
        all_digits(s),
    ensures
        0 <= digits_value(s),
    decreases s.len(),
{
    if s.len() > 0 {
        assert(is_digit(s[s.len() - 1]));
        lemma_digits_value_nonnegative(s.drop_last());
    }
}

/// Reads `text[start..]` as `i64::from_str` does.
fn parse_i64_from(text: &str, start: usize) -> (r: Option<i64>)
    requires
        start <= text@.len(),
    ensures
        r == parse_i64(text@.skip(start as int)),
{
    let n = text.unicode_len();
    let ghost s = text@.skip(start as int);
    let mut i = start;
    let mut negative = false;
    if i < n && (text.get_char(i) == '-' || text.get_char(i) == '+') {
        negative = text.get_char(i) == '-';
        i = i + 1;
    }
    let ghost body_start = i as int;
    let ghost body = text@.skip(body_start);
    assert(body =~= unsigned_part(s));
    assert(negative == sign_is_minus(s));
    if i == n {
        return None;
    }
    let mut value: i128 = 0;
    while i < n
        invariant
            n == text@.len(),
            0 <= body_start <= i <= n,
            body == text@.skip(body_start),
            body.len() == n - body_start,
            body == unsigned_part(s),
            negative == sign_is_minus(s),
            s == text@.skip(start as int),
            all_digits(body.take(i - body_start)),
            value == digits_value(body.take(i - body_start)),
            0 <= value <= 9223372036854775808,
        decreases n - i,
    {
        let c = text.get_char(i);
        if !('0' <= c && c <= '9') {
            assert(text@[i as int] == c);
            assert(body[i - body_start] == text@[i as int]);
            assert(!all_digits(body)) by {
                assert(!is_digit(body[i - body_start]));
            }
            return None;
        }
        let d = (c as u32 - 48) as i128;
        proof {
            assert(body.take(i - body_start + 1) =~= body.take(i - body_start).push(c));
            lemma_digits_value_push(body.take(i - body_start), c);
        }
        value = value * 10 + d;
        i = i + 1;
        if value > 9223372036854775808 {
            proof {
                let k = i - body_start;
                if all_digits(body) {
                    lemma_digits_value_prefix(body, k);
                }
            }
            return None;
        }
    }
    assert(body.take(n - body_start) =~= body);
    if negative {
        Some((-value) as i64)
    } else if value <= 9223372036854775807 {
        Some(value as i64)
    } else {
        None
    }
}

/// The footer of a leaderboard page.
pub open spec fn page_footer_text(page: int) -> Seq<char> {
    "Page "@ + decimal(page)
}

/// The page number that a leaderboard footer names: the text after `Page `, read as an `i64`.
pub open spec fn parse_page_footer_spec(text: Seq<char>) -> Option<i64> {
    if text.len() >= 5 && text.take(5) == "Page "@ {
        parse_i64(text.skip(5))
    } else {
        None
    }
}

/// The footer of leaderboard page `page`.
pub fn page_footer(page: i64) -> (r: String)
    ensures
        r@ == page_footer_text(page as int),
{
    let mut s = String::new();
    s.append("Page ");
    append_decimal(&mut s, page as i128);
    s
}

/// The page number that a leaderboard footer names, if it names one.
pub fn parse_page_footer(text: &str) -> (r: Option<i64>)
    ensures
        r == parse_page_footer_spec(text@),
{
    proof {
        reveal_strlit("Page ");
    }
    let n = text.unicode_len();
    if n < 5 {
        return None;
    }
    if !(text.get_char(0) == 'P' && text.get_char(1) == 'a' && text.get_char(2) == 'g'
        && text.get_char(3) == 'e' && text.get_char(4) == ' ') {
        assert(text@.take(5) != "Page "@) by {
            if text@.take(5) == "Page "@ {
                assert(text@.take(5)[0] == 'P');
                assert(text@.take(5)[1] == 'a');
                assert(text@.take(5)[2] == 'g');
                assert(text@.take(5)[3] == 'e');
                assert(text@.take(5)[4] == ' ');
            }
        }
        return None;
    }
    assert(text@.take(5) =~= "Page "@);
    parse_i64_from(text, 5)
}

/// The decimal digits of `n` are digits, at least one, and stand for `n`.
pub proof fn lemma_digits_of_are_digits(n: nat)
    ensures
        all_digits(digits_of(n)),
        digits_of(n).len() > 0,
        digits_value(digits_of(n)) == n,
    decreases n,
{
    lemma_digit_char((n % 10) as int);
    if n >= 10 {
        lemma_digits_of_are_digits(n / 10);
        lemma_digits_value_push(digits_of(n / 10), digit_char((n % 10) as int));
    } else {
        lemma_digits_value_push(Seq::empty(), digit_char(n as int));
        assert(Seq::<char>::empty().push(digit_char(n as int)) =~= digits_of(n));
    }
}

proof fn lemma_digit_char(d: int)
    requires
        0 <= d < 10,
    ensures
        digit_char(d) as int == 48 + d,
        is_digit(digit_char(d)),
{
}

/// Law: reading a number back from its decimal text gives the number.
pub proof fn lemma_parse_i64_decimal(x: i64)
    ensures
        parse_i64(decimal(x as int)) == Some(x),
{
    let s = decimal(x as int);
    if x < 0 {
        lemma_digits_of_are_digits((-x) as nat);
        assert(s.drop_first() =~= digits_of((-x) as nat));
    } else {
        lemma_digits_of_are_digits(x as nat);
    }
}

/// Law: the page number read back from the footer of page `page` is `page`.
pub proof fn lemma_page_footer_round_trip(page: i64)
    ensures
        parse_page_footer_spec(page_footer_text(page as int)) == Some(page),
{
    reveal_strlit("Page ");
    let t = page_footer_text(page as int);
    assert(t.take(5) =~= "Page "@);
    assert(t.skip(5) =~= decimal(page as int));
    lemma_parse_i64_decimal(page);
}

} // verus!
