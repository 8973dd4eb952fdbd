use vstd::prelude::*;
use vstd::string::*;

verus! {

/// Unicode `White_Space`, the set that `char::is_whitespace` accepts.
pub open spec fn is_white_space(c: char) -> bool {
    ||| ('\u{9}' <= c && c <= '\u{d}')
    ||| c == ' '
    ||| c == '\u{85}'
    ||| c == '\u{a0}'
    ||| c == '\u{1680}'
    ||| ('\u{2000}' <= c && c <= '\u{200a}')
    ||| c == '\u{2028}'
    ||| c == '\u{2029}'
    ||| c == '\u{202f}'
    ||| c == '\u{205f}'
    ||| c == '\u{3000}'
}

/// The text with its leading white space removed.
pub open spec fn trim_start(s: Seq<char>) -> Seq<char>
    decreases s.len(),
{
    if s.len() > 0 && is_white_space(s[0]) {
        trim_start(s.drop_first())
    } else {
        s
    }
}

/// The text with its trailing white space removed.
pub open spec fn trim_end(s: Seq<char>) -> Seq<char>
    decreases s.len(),
{
    if s.len() > 0 && is_white_space(s.last()) {
        trim_end(s.drop_last())
    } else {
        s
    }
}

/// The text with white space removed from both ends, as `str::trim` does.
pub open spec fn trimmed(s: Seq<char>) -> Seq<char> {
    trim_end(trim_start(s))
}

pub exec fn is_white_space_char(c: char) -> (r: bool)
    ensures
        r == is_white_space(c),
{
    ('\u{9}' <= c && c <= '\u{d}') || c == ' ' || c == '\u{85}' || c == '\u{a0}' || c
        == '\u{1680}' || ('\u{2000}' <= c && c <= '\u{200a}') || c == '\u{2028}' || c
        == '\u{2029}' || c == '\u{202f}' || c == '\u{205f}' || c == '\u{3000}'
}

proof fn lemma_trim_start_step(s: Seq<char>, i: int)
    requires
        0 <= i < s.len(),
        is_white_space(s[i]),
    ensures
        trim_start(s.subrange(i, s.len() as int)) == trim_start(s.subrange(i + 1, s.len() as int)),
{
    assert(s.subrange(i, s.len() as int).drop_first() =~= s.subrange(i + 1, s.len() as int));
}

proof fn lemma_trim_end_step(s: Seq<char>, j: int)
    requires
        0 < j <= s.len(),
        is_white_space(s[j - 1]),
    ensures
        trim_end(s.subrange(0, j)) == trim_end(s.subrange(0, j - 1)),
{
    assert(s.subrange(0, j).drop_last() =~= s.subrange(0, j - 1));
}

/// Copies the text with white space removed from both ends.
pub fn trim_text(s: &str) -> (r: String)
    ensures
        r@ == trimmed(s@),
{
    let n = s.unicode_len();
    let mut i: usize = 0;
    assert(s@.subrange(0, n as int) =~= s@);
    while i < n && is_white_space_char(s.get_char(i))
        invariant
            n == s@.len(),
            i <= n,
            trim_start(s@) == trim_start(s@.subrange(i as int, n as int)),
        decreases n - i,
    {
        proof {
            lemma_trim_start_step(s@, i as int);
        }
        i = i + 1;
    }
    proof {
        assert(s@.subrange(0, n as int) =~= s@);
        if i < n {
            assert(!is_white_space(s@.subrange(i as int, n as int)[0]));
        }
    }
    let ghost rest = s@.subrange(i as int, n as int);
    assert(trim_start(s@) == rest);
    let mut j: usize = n;
    assert(rest.subrange(0, j - i) =~= rest);
    while j > i && is_white_space_char(s.get_char(j - 1))
        invariant
            n == s@.len(),
            i <= j <= n,
            rest == s@.subrange(i as int, n as int),
            trim_end(rest) == trim_end(rest.subrange(0, j - i)),
        decreases j,
    {
        proof {
            assert(rest[j - i - 1] == s@[j - 1]);
            lemma_trim_end_step(rest, j - i);
        }
        j = j - 1;
    }
    proof {
        if j > i {
            assert(rest.subrange(0, j - i).last() == s@[j - 1]);
        }
        assert(rest.subrange(0, j - i) =~= s@.subrange(i as int, j as int));
    }
    let part = s.substring_char(i, j);
    String::from_str(part)
}

/// Whether two texts hold the same characters.
pub fn same_text(a: &str, b: &str) -> (r: bool)
    ensures
        r == (a@ == b@),
{
    let x = String::from_str(a);
    let y = String::from_str(b);
    x == y
}

/// The character view of an optional text.
pub open spec fn opt_text(value: Option<String>) -> Option<Seq<char>> {
    match value {
        Some(text) => Some(text@),
        None => None,
    }
}

/// `s` equals the lower-case ASCII text `lower` once its ASCII capitals are
/// lowered, as `s.to_ascii_lowercase() == lower` tests.
pub open spec fn equals_ignoring_ascii_case(s: Seq<char>, lower: Seq<char>) -> bool {
    &&& s.len() == lower.len()
    &&& forall|i: int|
        0 <= i < s.len() ==> #[trigger] s[i] == lower[i] || ('a' <= lower[i] && lower[i] <= 'z'
            && s[i] as u32 == lower[i] as u32 - 32)
}

/// Whether `s` starts with the lower-case ASCII text `lower`, ignoring ASCII
/// case, as `s.to_ascii_lowercase().starts_with(lower)` tests.
pub fn starts_with_ignoring_ascii_case(s: &str, lower: &str) -> (r: bool)
    ensures
        r == (lower@.len() <= s@.len() && equals_ignoring_ascii_case(
            s@.subrange(0, lower@.len() as int),
            lower@,
        )),
{
    let n = s.unicode_len();
    let m = lower.unicode_len();
    if m > n {
        return false;
    }
    let mut i: usize = 0;
    while i < m
        invariant
            n == s@.len(),
            m == lower@.len(),
            m <= n,
            i <= m,
            forall|k: int|
                0 <= k < i ==> #[trigger] s@[k] == lower@[k] || ('a' <= lower@[k] && lower@[k]
                    <= 'z' && s@[k] as u32 == lower@[k] as u32 - 32),
        decreases m - i,
    {
        let c = s.get_char(i);
        let t = lower.get_char(i);
        let same = c == t || ('a' <= t && t <= 'z' && (c as u32) + 32 == (t as u32));
        if !same {
            proof {
                assert(s@.subrange(0, m as int)[i as int] == c);
            }
            return false;
        }
        i = i + 1;
    }
    proof {
        let prefix = s@.subrange(0, m as int);
        assert forall|k: int| 0 <= k < prefix.len() implies #[trigger] prefix[k] == lower@[k] || (
        'a' <= lower@[k] && lower@[k] <= 'z' && prefix[k] as u32 == lower@[k] as u32 - 32) by {
            assert(prefix[k] == s@[k]);
        }
    }
    true
}

/// Whether `s` equals the lower-case ASCII text `lower`, ignoring ASCII case.
pub fn equals_ignoring_case(s: &str, lower: &str) -> (r: bool)
    ensures
        r == equals_ignoring_ascii_case(s@, lower@),
{
    if s.unicode_len() != lower.unicode_len() {
        return false;
    }
    let r = starts_with_ignoring_ascii_case(s, lower);
    proof {
        assert(s@.subrange(0, lower@.len() as int) =~= s@);
    }
    r
}

/// Whether two optional texts are equal.
pub fn same_optional_text(a: &Option<String>, b: &Option<String>) -> (r: bool)
    ensures
        r == (opt_text(*a) == opt_text(*b)),
{
    match (a, b) {
        (Some(x), Some(y)) => *x == *y,
        (None, None) => true,
        _ => false,
    }
}

/// The trimmed text of an optional text, or nothing when that is empty.
pub open spec fn trimmed_non_empty(value: Option<String>) -> Option<Seq<char>> {
    match value {
        Some(text) => if trimmed(text@).len() > 0 {
            Some(trimmed(text@))
        } else {
            None
        },
        None => None,
    }
}

/// Trims an optional text and drops it when nothing remains.
pub fn trim_non_empty(value: &Option<String>) -> (r: Option<String>)
    ensures
        opt_text(r) == trimmed_non_empty(*value),
{
    match value {
        Some(text) => {
            let trimmed_text = trim_text(text.as_str());
            if trimmed_text.as_str().unicode_len() == 0 {
                None
            } else {
                Some(trimmed_text)
            }
        },
        None => None,
    }
}

/// Trimming a text that is already trimmed leaves it unchanged.
pub proof fn lemma_trimmed_is_idempotent(s: Seq<char>)
    ensures
        trimmed(trimmed(s)) == trimmed(s),
{
    lemma_trim_start_is_idempotent(s);
    lemma_trim_start_of_trim_end(trim_start(s));
    lemma_trim_end_is_idempotent(trim_start(s));
}

proof fn lemma_trim_start_is_idempotent(s: Seq<char>)
    ensures
        trim_start(trim_start(s)) == trim_start(s),
        trim_start(s).len() > 0 ==> !is_white_space(trim_start(s)[0]),
    decreases s.len(),
{
    if s.len() > 0 && is_white_space(s[0]) {
        lemma_trim_start_is_idempotent(s.drop_first());
    }
}

proof fn lemma_trim_end_is_idempotent(s: Seq<char>)
    ensures
        trim_end(trim_end(s)) == trim_end(s),
        trim_end(s).len() > 0 ==> !is_white_space(trim_end(s).last()),
    decreases s.len(),
{
    if s.len() > 0 && is_white_space(s.last()) {
        lemma_trim_end_is_idempotent(s.drop_last());
    }
}

/// Removing trailing white space from a text that has no leading white space
/// leaves it without leading white space.
proof fn lemma_trim_start_of_trim_end(s: Seq<char>)
    requires
        s.len() > 0 ==> !is_white_space(s[0]),
    ensures
        trim_start(trim_end(s)) == trim_end(s),
    decreases s.len(),
{
    if s.len() > 0 && is_white_space(s.last()) {
        if s.drop_last().len() > 0 {
            assert(s.drop_last()[0] == s[0]);
        }
        lemma_trim_start_of_trim_end(s.drop_last());
    }
}

/// The characters that trimming removes are exactly the twenty-five code
/// points with the Unicode `White_Space` property, the ones
/// `char::is_whitespace` accepts: tab, line feed, vertical tab, form feed,
/// carriage return, space, next line, no-break space, ogham space mark, the
/// eleven spaces from en quad to hair space, line and paragraph separator,
/// narrow no-break space, medium mathematical space and ideographic space.
pub proof fn lemma_white_space_is_unicode_white_space(c: char)
    ensures
        is_white_space(c) <==> (c == '\t' || c == '\n' || c == '\u{b}' || c == '\u{c}' || c == '\r' || c == ' '
            || c == '\u{85}' || c == '\u{a0}' || c == '\u{1680}' || c == '\u{2000}'
            || c == '\u{2001}' || c == '\u{2002}' || c == '\u{2003}' || c == '\u{2004}'
            || c == '\u{2005}' || c == '\u{2006}' || c == '\u{2007}' || c == '\u{2008}'
            || c == '\u{2009}' || c == '\u{200a}' || c == '\u{2028}' || c == '\u{2029}'
            || c == '\u{202f}' || c == '\u{205f}' || c == '\u{3000}'),
{
}

proof fn lemma_trim_start_of_push(s: Seq<char>, c: char)
    requires
        is_white_space(c),
    ensures
        trim_start(s.push(c)) == (if trim_start(s).len() == 0 {
            Seq::<char>::empty()
        } else {
            trim_start(s).push(c)
        }),
    decreases s.len(),
{
    if s.len() == 0 {
        assert(s.push(c).drop_first() =~= Seq::<char>::empty());
        assert(trim_start(Seq::<char>::empty()) == Seq::<char>::empty());
        assert(trim_start(s) == s);
    } else if is_white_space(s[0]) {
        assert(s.push(c)[0] == s[0]);
        assert(s.push(c).drop_first() =~= s.drop_first().push(c));
        lemma_trim_start_of_push(s.drop_first(), c);
    } else {
        assert(s.push(c)[0] == s[0]);
    }
}

/// Trimming a text ignores any white space character added at its start or
/// at its end: a line ending, a tab or a space around a title is dropped.
pub proof fn lemma_trimming_ignores_surrounding_white_space(s: Seq<char>, c: char)
    requires
        c == '\t' || c == '\n' || c == '\u{b}' || c == '\u{c}' || c == '\r' || c == ' '
            || c == '\u{85}' || c == '\u{a0}' || c == '\u{1680}' || c == '\u{2000}'
            || c == '\u{2001}' || c == '\u{2002}' || c == '\u{2003}' || c == '\u{2004}'
            || c == '\u{2005}' || c == '\u{2006}' || c == '\u{2007}' || c == '\u{2008}'
            || c == '\u{2009}' || c == '\u{200a}' || c == '\u{2028}' || c == '\u{2029}'
            || c == '\u{202f}' || c == '\u{205f}' || c == '\u{3000}',
    ensures
        trimmed(s.push(c)) == trimmed(s),
        trimmed(seq![c] + s) == trimmed(s),
{
    lemma_white_space_is_unicode_white_space(c);
    assert((seq![c] + s).drop_first() =~= s);
    lemma_trim_start_of_push(s, c);
    let t = trim_start(s);
    if t.len() > 0 {
        assert(t.push(c).drop_last() =~= t);
    }
}

/// A text that neither starts nor ends with one of the Unicode `White_Space`
/// characters is left as it is by trimming.
pub proof fn lemma_trimming_keeps_text_without_surrounding_white_space(s: Seq<char>)
    requires
        s.len() > 0,
        !(s[0] == '\t' || s[0] == '\n' || s[0] == '\u{b}' || s[0] == '\u{c}' || s[0] == '\r'
            || s[0] == ' ' || s[0] == '\u{85}' || s[0] == '\u{a0}' || s[0] == '\u{1680}'
            || s[0] == '\u{2000}' || s[0] == '\u{2001}' || s[0] == '\u{2002}'
            || s[0] == '\u{2003}' || s[0] == '\u{2004}' || s[0] == '\u{2005}'
            || s[0] == '\u{2006}' || s[0] == '\u{2007}' || s[0] == '\u{2008}'
            || s[0] == '\u{2009}' || s[0] == '\u{200a}' || s[0] == '\u{2028}'
            || s[0] == '\u{2029}' || s[0] == '\u{202f}' || s[0] == '\u{205f}'
            || s[0] == '\u{3000}'),
        !(s.last() == '\t' || s.last() == '\n' || s.last() == '\u{b}' || s.last() == '\u{c}'
            || s.last() == '\r' || s.last() == ' ' || s.last() == '\u{85}'
            || s.last() == '\u{a0}' || s.last() == '\u{1680}' || s.last() == '\u{2000}'
            || s.last() == '\u{2001}' || s.last() == '\u{2002}' || s.last() == '\u{2003}'
            || s.last() == '\u{2004}' || s.last() == '\u{2005}' || s.last() == '\u{2006}'
            || s.last() == '\u{2007}' || s.last() == '\u{2008}' || s.last() == '\u{2009}'
            || s.last() == '\u{200a}' || s.last() == '\u{2028}' || s.last() == '\u{2029}'
            || s.last() == '\u{202f}' || s.last() == '\u{205f}' || s.last() == '\u{3000}'),
    ensures
        trimmed(s) == s,
{
    lemma_white_space_is_unicode_white_space(s[0]);
    lemma_white_space_is_unicode_white_space(s.last());
}

/// The decimal digit character of a value below ten.
pub open spec fn digit_char(d: nat) -> char {
    if d == 0 {
        '0'
    } else if d == 1 {
        '1'
    } else if d == 2 {
        '2'
    } else if d == 3 {
        '3'
    } else if d == 4 {
        '4'
    } else if d == 5 {
        '5'
    } else if d == 6 {
        '6'
    } else if d == 7 {
        '7'
    } else if d == 8 {
        '8'
    } else {
        '9'
    }
}

/// The decimal digits of a natural number, most significant first.
pub open spec fn decimal_digits(n: nat) -> Seq<char>
    decreases n,
{
    if n < 10 {
        seq![digit_char(n)]
    } else {
        decimal_digits(n / 10).push(digit_char(n % 10))
    }
}

/// The decimal text of an integer, as `{}` formats it.
pub open spec fn decimal(n: int) -> Seq<char> {
    if n < 0 {
        seq!['-'] + decimal_digits((-n) as nat)
    } else {
        decimal_digits(n as nat)
    }
}

proof fn lemma_digit_char_is_digit(d: nat)
    requires
        d < 10,
    ensures
        '0' <= digit_char(d) && digit_char(d) <= '9',
        digit_char(d) as u32 == 0x30 + d,
{
}

/// Every character of a decimal text is an ASCII digit, except a leading
/// minus sign.
pub proof fn lemma_decimal_characters(n: int)
    ensures
        forall|i: int|
            0 <= i < decimal(n).len() ==> ('0' <= #[trigger] decimal(n)[i] && decimal(n)[i] <= '9')
                || (i == 0 && n < 0 && decimal(n)[i] == '-'),
        decimal(n).len() > 0,
        decimal(n)[0] == '-' <==> n < 0,
{
    if n < 0 {
        lemma_decimal_digits_characters((-n) as nat);
        assert forall|i: int| 0 <= i < decimal(n).len() implies ('0' <= #[trigger] decimal(n)[i]
            && decimal(n)[i] <= '9') || (i == 0 && n < 0 && decimal(n)[i] == '-') by {
            if i > 0 {
                assert(decimal(n)[i] == decimal_digits((-n) as nat)[i - 1]);
            }
        }
    } else {
        lemma_decimal_digits_characters(n as nat);
    }
}

proof fn lemma_decimal_digits_characters(n: nat)
    ensures
        forall|i: int|
            0 <= i < decimal_digits(n).len() ==> '0' <= #[trigger] decimal_digits(n)[i]
                && decimal_digits(n)[i] <= '9',
        decimal_digits(n).len() >= 1,
        decimal_digits(n).len() == 1 <==> n < 10,
    decreases n,
{
    if n < 10 {
        lemma_digit_char_is_digit(n);
    } else {
        lemma_decimal_digits_characters(n / 10);
        lemma_digit_char_is_digit(n % 10);
        let d = decimal_digits(n);
        assert(d == decimal_digits(n / 10).push(digit_char(n % 10)));
        assert forall|i: int| 0 <= i < d.len() implies '0' <= #[trigger] d[i] && d[i] <= '9' by {
            if i < d.len() - 1 {
                assert(d[i] == decimal_digits(n / 10)[i]);
            }
        }
    }
}

proof fn lemma_decimal_digits_are_distinct(m: nat, n: nat)
    requires
        decimal_digits(m) == decimal_digits(n),
    ensures
        m == n,
    decreases m,
{
    lemma_decimal_digits_characters(m);
    lemma_decimal_digits_characters(n);
    lemma_digit_char_is_digit(m % 10);
    lemma_digit_char_is_digit(n % 10);
    if m < 10 {
        lemma_digit_char_is_digit(m);
        lemma_digit_char_is_digit(n);
        assert(decimal_digits(m)[0] == decimal_digits(n)[0]);
    } else {
        let dm = decimal_digits(m);
        let dn = decimal_digits(n);
        assert(dm.last() == dn.last());
        assert(dm.drop_last() == dn.drop_last());
        assert(dm.drop_last() =~= decimal_digits(m / 10));
        assert(dn.drop_last() =~= decimal_digits(n / 10));
        lemma_decimal_digits_are_distinct(m / 10, n / 10);
    }
}

/// The number that a text of decimal digits stands for, most significant
/// digit first.
pub open spec fn value_of_digits(digits: Seq<char>) -> int
    decreases digits.len(),
{
    if digits.len() == 0 {
        0
    } else {
        value_of_digits(digits.drop_last()) * 10 + (digits.last() as u32 - 0x30)
    }
}

/// The decimal text of a natural number, as `{}` writes it: digits only, read
/// back as the number itself, with no leading zero except for zero itself.
pub proof fn lemma_decimal_digits_read_back(n: nat)
    ensures
        forall|i: int|
            0 <= i < decimal_digits(n).len() ==> '0' <= #[trigger] decimal_digits(n)[i]
                && decimal_digits(n)[i] <= '9',
        value_of_digits(decimal_digits(n)) == n,
        decimal_digits(n)[0] == '0' ==> n == 0,
    decreases n,
{
    lemma_decimal_digits_characters(n);
    lemma_digit_char_is_digit(n % 10);
    let d = decimal_digits(n);
    if n < 10 {
        assert(d.drop_last() =~= Seq::<char>::empty());
        assert(value_of_digits(Seq::<char>::empty()) == 0);
        assert(d.last() == digit_char(n));
        assert(n % 10 == n);
    } else {
        lemma_decimal_digits_read_back(n / 10);
        assert(d.drop_last() =~= decimal_digits(n / 10));
        assert(d.last() == digit_char(n % 10));
        assert(d[0] == decimal_digits(n / 10)[0]);
        assert((n / 10) * 10 + n % 10 == n);
    }
}

/// The decimal text of an integer, as `{}` writes it: a minus sign exactly
/// for a negative number, followed by the digits of its magnitude.
pub proof fn lemma_decimal_reads_back(n: int)
    ensures
        n < 0 ==> decimal(n)[0] == '-' && value_of_digits(decimal(n).drop_first()) == -n,
        n >= 0 ==> value_of_digits(decimal(n)) == n,
        forall|i: int| 0 < i < decimal(n).len() ==> '0' <= #[trigger] decimal(n)[i] && decimal(n)[i] <= '9',
{
    lemma_decimal_characters(n);
    if n < 0 {
        assert(decimal(n).drop_first() =~= decimal_digits((-n) as nat));
        lemma_decimal_digits_read_back((-n) as nat);
    } else {
        lemma_decimal_digits_read_back(n as nat);
    }
}

/// Different integers have different decimal texts.
pub proof fn lemma_decimal_is_injective(a: int, b: int)
    requires
        decimal(a) == decimal(b),
    ensures
        a == b,
{
    lemma_decimal_characters(a);
    lemma_decimal_characters(b);
    if a < 0 && b < 0 {
        assert(decimal(a).drop_first() =~= decimal_digits((-a) as nat));
        assert(decimal(b).drop_first() =~= decimal_digits((-b) as nat));
        lemma_decimal_digits_are_distinct((-a) as nat, (-b) as nat);
    } else if a >= 0 && b >= 0 {
        lemma_decimal_digits_are_distinct(a as nat, b as nat);
    }
}

fn digit_text(d: u64) -> (r: &'static str)
    requires
        d < 10,
    ensures
        r@ == seq![digit_char(d as nat)],
{
    if d == 0 {
        proof {
            reveal_strlit("0");
        }
        "0"
    } else if d == 1 {
        proof {
            reveal_strlit("1");
        }
        "1"
    } else if d == 2 {
        proof {
            reveal_strlit("2");
        }
        "2"
    } else if d == 3 {
        proof {
            reveal_strlit("3");
        }
        "3"
    } else if d == 4 {
        proof {
            reveal_strlit("4");
        }
        "4"
    } else if d == 5 {
        proof {
            reveal_strlit("5");
        }
        "5"
    } else if d == 6 {
        proof {
            reveal_strlit("6");
        }
        "6"
    } else if d == 7 {
        proof {
            reveal_strlit("7");
        }
        "7"
    } else if d == 8 {
        proof {
            reveal_strlit("8");
        }
        "8"
    } else {
        proof {
            reveal_strlit("9");
        }
        "9"
    }
}

/// The decimal text of an unsigned number.
pub fn unsigned_decimal(n: u64) -> (r: String)
    ensures
        r@ == decimal_digits(n as nat),
    decreases n,
{
    if n < 10 {
        String::from_str(digit_text(n))
    } else {
        let mut text = unsigned_decimal(n / 10);
        text.append(digit_text(n % 10));
        text
    }
}

/// The decimal text of a signed number.
pub fn signed_decimal(n: i64) -> (r: String)
    ensures
        r@ == decimal(n as int),
{
    if n < 0 {
        let magnitude: u64 = ((-(n + 1)) as u64) + 1;
        assert(magnitude == -n);
        proof {
            reveal_strlit("-");
        }
        let text = String::from_str("-");
        let digits = unsigned_decimal(magnitude);
        text.concat(digits.as_str())
    } else {
        unsigned_decimal(n as u64)
    }
}

} // verus!
