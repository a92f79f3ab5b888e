//! Operations on strings, stated over the sequence of characters that a
//! string holds.
use vstd::prelude::*;
use vstd::string::*;
use vstd::utf8::*;

verus! {

/// Whether two strings hold the same characters.
pub fn same_text(a: &str, b: &str) -> (same: bool)
    ensures
        same == (a@ == b@),
{
    broadcast use encode_utf8_decode_utf8;

    let left = a.as_bytes();
    let right = b.as_bytes();
    assert(decode_utf8(encode_utf8(a@)) == a@);
    assert(decode_utf8(encode_utf8(b@)) == b@);
    if left.len() != right.len() {
        return false;
    }
    let mut i: usize = 0;
    while i < left.len()
        invariant
            i <= left.len(),
            left@.len() == right@.len(),
            left@ == a.spec_bytes(),
            right@ == b.spec_bytes(),
            forall|k: int| 0 <= k < i ==> left@[k] == right@[k],
        decreases left.len() - i,
    {
        if left[i] != right[i] {
            return false;
        }
        i = i + 1;
    }
    assert(left@ =~= right@);
    true
}

/// The position of the first `wanted` in `s`, or the length of `s` where it
/// holds none.
pub open spec fn first_index(s: Seq<char>, wanted: char) -> int
    decreases s.len(),
{
    if s.len() == 0 || s[0] == wanted {
        0
    } else {
        1 + first_index(s.skip(1), wanted)
    }
}

/// What the recursive definition of `first_index` amounts to.
pub proof fn lemma_first_index(s: Seq<char>, wanted: char)
    ensures
        0 <= first_index(s, wanted) <= s.len(),
        forall|k: int| 0 <= k < first_index(s, wanted) ==> s[k] != wanted,
        first_index(s, wanted) < s.len() ==> s[first_index(s, wanted)] == wanted,
        s.contains(wanted) <==> first_index(s, wanted) < s.len(),
    decreases s.len(),
{
    if s.len() > 0 && s[0] != wanted {
        let rest = s.skip(1);
        lemma_first_index(rest, wanted);
        let n = first_index(rest, wanted);
        assert forall|k: int| 0 <= k < 1 + n implies s[k] != wanted by {
            if k > 0 {
                assert(rest[k - 1] == s[k]);
            }
        }
        if n < rest.len() {
            assert(rest[n] == s[n + 1]);
        }
    }
}

/// A position is the first index of a character exactly where that character
/// stands there, or the string ends there, and does not stand before it.
pub proof fn lemma_first_index_at(s: Seq<char>, wanted: char, at: int)
    requires
        0 <= at <= s.len(),
        at < s.len() ==> s[at] == wanted,
        forall|k: int| 0 <= k < at ==> s[k] != wanted,
    ensures
        first_index(s, wanted) == at,
{
    lemma_first_index(s, wanted);
    let n = first_index(s, wanted);
    if n < at {
        assert(s[n] == wanted);
    }
}

/// The position of the first `wanted` in `text`, or the number of characters
/// in `text` where it holds none.
pub fn find_char(text: &str, wanted: char) -> (at: usize)
    ensures
        at == first_index(text@, wanted),
{
    let total: usize = text.unicode_len();
    let mut at: usize = 0;
    for c in iter: text.chars()
        invariant
            at == iter.index(),
            iter.seq() == text@,
            total == text@.len(),
            forall|k: int| 0 <= k < at ==> text@[k] != wanted,
    {
        if c == wanted {
            proof {
                lemma_first_index_at(text@, wanted, at as int);
            }
            return at;
        }
        at = at + 1;
    }
    proof {
        lemma_first_index_at(text@, wanted, at as int);
    }
    at
}

/// Whether `text` holds the character `wanted`.
pub fn contains_char(text: &str, wanted: char) -> (found: bool)
    ensures
        found == text@.contains(wanted),
{
    proof {
        lemma_first_index(text@, wanted);
    }
    find_char(text, wanted) < text.unicode_len()
}

/// The characters of `text`, in order.
pub fn characters(text: &str) -> (chars: Vec<char>)
    ensures
        chars@ == text@,
{
    let mut chars: Vec<char> = Vec::new();
    for c in iter: text.chars()
        invariant
            chars@.len() == iter.index(),
            iter.seq() == text@,
            chars@ == text@.take(iter.index() as int),
    {
        chars.push(c);
    }
    assert(text@.take(text@.len() as int) =~= text@);
    chars
}

/// `left` followed by `right`.
pub fn joined(left: &str, right: &str) -> (text: String)
    ensures
        text@ == left@ + right@,
{
    let mut text = left.to_owned();
    text.append(right);
    text
}

/// The characters of an optional string, where it is there.
pub open spec fn optional_text(text: Option<String>) -> Option<Seq<char>> {
    match text {
        Some(t) => Some(t@),
        None => None,
    }
}

/// The characters of an optional borrowed string, where it is there.
pub open spec fn optional_str(text: Option<&str>) -> Option<Seq<char>> {
    match text {
        Some(t) => Some(t@),
        None => None,
    }
}

/// Borrow an optional string.
pub fn borrowed(text: &Option<String>) -> (out: Option<&str>)
    ensures
        optional_str(out) == optional_text(*text),
{
    match text {
        Some(t) => Some(t.as_str()),
        None => None,
    }
}

/// The characters of each string in a list.
pub open spec fn texts_of(list: Seq<&str>) -> Seq<Seq<char>> {
    Seq::new(list.len(), |i: int| list[i]@)
}

/// `text` with every occurrence of `pattern` replaced by `with`, the
/// occurrences being found from the left and not overlapping.
pub open spec fn replaced(text: Seq<char>, pattern: Seq<char>, with: Seq<char>) -> Seq<char>
    decreases text.len(),
{
    if pattern.len() == 0 || text.len() < pattern.len() {
        text
    } else if text.take(pattern.len() as int) == pattern {
        with + replaced(text.skip(pattern.len() as int), pattern, with)
    } else {
        seq![text[0]] + replaced(text.skip(1), pattern, with)
    }
}

/// Whether `pattern` stands in `chars` at position `at`.
fn stands_at(chars: &Vec<char>, pattern: &Vec<char>, at: usize) -> (found: bool)
    requires
        at + pattern@.len() <= chars@.len(),
    ensures
        found == (chars@.skip(at as int).take(pattern@.len() as int) == pattern@),
{
    let ghost window = chars@.skip(at as int).take(pattern@.len() as int);
    let total: usize = chars.len();
    let mut k: usize = 0;
    while k < pattern.len()
        invariant
            k <= pattern@.len(),
            total == chars@.len(),
            at + pattern@.len() <= chars@.len(),
            window == chars@.skip(at as int).take(pattern@.len() as int),
            forall|j: int| 0 <= j < k ==> window[j] == pattern@[j],
        decreases pattern@.len() - k,
    {
        if chars[at + k] != pattern[k] {
            assert(window[k as int] != pattern@[k as int]);
            return false;
        }
        k = k + 1;
    }
    assert(window =~= pattern@);
    true
}

/// `text` with every occurrence of the non-empty `pattern` replaced by `with`.
pub fn replace_text(text: &str, pattern: &str, with: &str) -> (out: String)
    requires
        pattern@.len() > 0,
    ensures
        out@ == replaced(text@, pattern@, with@),
{
    let chars = characters(text);
    let wanted = characters(pattern);
    let mut out = String::new();
    let mut at: usize = 0;
    assert(out@ + replaced(text@.skip(0), pattern@, with@) =~= replaced(text@, pattern@, with@)) by {
        assert(text@.skip(0) =~= text@);
    }
    while chars.len() - at >= wanted.len()
        invariant
            at <= chars@.len(),
            chars@ == text@,
            wanted@ == pattern@,
            pattern@.len() > 0,
            out@ + replaced(text@.skip(at as int), pattern@, with@) == replaced(
                text@,
                pattern@,
                with@,
            ),
        decreases chars@.len() - at,
    {
        let ghost rest = text@.skip(at as int);
        if stands_at(&chars, &wanted, at) {
            let ghost before = out@;
            out.append(with);
            at = at + wanted.len();
            assert(rest.skip(pattern@.len() as int) =~= text@.skip(at as int));
            assert(before + replaced(rest, pattern@, with@) =~= out@ + replaced(
                text@.skip(at as int),
                pattern@,
                with@,
            ));
        } else {
            let ghost before = out@;
            out.append(text.substring_char(at, at + 1));
            assert(rest.skip(1) =~= text@.skip(at + 1));
            assert(text@.subrange(at as int, at + 1) =~= seq![rest[0]]);
            at = at + 1;
            assert(before + replaced(rest, pattern@, with@) =~= out@ + replaced(
                text@.skip(at as int),
                pattern@,
                with@,
            ));
        }
    }
    out.append(text.substring_char(at, chars.len()));
    assert(text@.subrange(at as int, chars@.len() as int) =~= text@.skip(at as int));
    out
}

/// Where a pattern does not occur, nothing is replaced.
pub proof fn lemma_nothing_replaced(text: Seq<char>, pattern: Seq<char>, with: Seq<char>)
    requires
        forall|i: int|
            0 <= i <= text.len() - pattern.len() ==> #[trigger] text.subrange(
                i,
                i + pattern.len(),
            ) != pattern,
    ensures
        replaced(text, pattern, with) == text,
    decreases text.len(),
{
    if pattern.len() > 0 && text.len() >= pattern.len() {
        assert(text.subrange(0int, 0int + pattern.len()) =~= text.take(pattern.len() as int));
        let rest = text.skip(1);
        assert forall|i: int| 0 <= i <= rest.len() - pattern.len() implies #[trigger] rest.subrange(
            i,
            i + pattern.len(),
        ) != pattern by {
            assert(rest.subrange(i, i + pattern.len()) =~= text.subrange(
                i + 1,
                i + 1 + pattern.len(),
            ));
        }
        lemma_nothing_replaced(rest, pattern, with);
        assert(seq![text[0]] + rest =~= text);
    }
}

/// A pattern behind characters that it does not start with is replaced alone.
pub proof fn lemma_replaced_at_end(lead: Seq<char>, pattern: Seq<char>, with: Seq<char>)
    requires
        pattern.len() > 0,
        !lead.contains(pattern[0]),
    ensures
        replaced(lead + pattern, pattern, with) == lead + with,
    decreases lead.len(),
{
    let text = lead + pattern;
    if lead.len() == 0 {
        assert(text =~= pattern);
        assert(text.take(pattern.len() as int) =~= pattern);
        assert(text.skip(pattern.len() as int).len() == 0);
        assert(with + replaced(text.skip(pattern.len() as int), pattern, with) =~= lead + with);
    } else {
        assert(lead.contains(lead[0]));
        assert(text.take(pattern.len() as int)[0] == lead[0]);
        let rest = lead.skip(1);
        assert(text.skip(1) =~= rest + pattern);
        assert(!rest.contains(pattern[0])) by {
            if rest.contains(pattern[0]) {
                let i = choose|i: int| 0 <= i < rest.len() && rest[i] == pattern[0];
                assert(lead[i + 1] == pattern[0]);
            }
        }
        lemma_replaced_at_end(rest, pattern, with);
        assert(seq![text[0]] + (rest + with) =~= lead + with);
    }
}

/// The decimal digit for a number below ten.
pub open spec fn digit(n: int) -> char {
    if n == 0 {
        '0'
    } else if n == 1 {
        '1'
    } else if n == 2 {
        '2'
    } else if n == 3 {
        '3'
    } else if n == 4 {
        '4'
    } else if n == 5 {
        '5'
    } else if n == 6 {
        '6'
    } else if n == 7 {
        '7'
    } else if n == 8 {
        '8'
    } else {
        '9'
    }
}

/// The decimal digits of a natural number, without leading zeros.
pub open spec fn digits(n: nat) -> Seq<char>
    decreases n,
{
    if n < 10 {
        seq![digit(n as int)]
    } else {
        digits(n / 10).push(digit((n % 10) as int))
    }
}

/// The decimal text of an integer: its digits, behind a minus sign where it is
/// negative.
pub open spec fn decimal(n: int) -> Seq<char> {
    if n < 0 {
        seq!['-'] + digits((-n) as nat)
    } else {
        digits(n as nat)
    }
}

/// Different natural numbers have different digits, and every digit is one.
pub proof fn lemma_digits(a: nat, b: nat)
    ensures
        digits(a).len() > 0,
        digits(a)[0] != '-',
        digits(a) == digits(b) ==> a == b,
    decreases a,
{
    if a >= 10 {
        lemma_digits(a / 10, b / 10);
        assert(digits(a)[0] == digits(a / 10)[0]);
    }
    if digits(a) == digits(b) {
        assert(digits(a).last() == digit((a % 10) as int));
        assert(digits(b).last() == digit((b % 10) as int));
        if a < 10 {
            if b >= 10 {
                lemma_digits_longer(b / 10);
            }
        } else if b < 10 {
            lemma_digits_longer(a / 10);
        } else {
            assert(digits(a).drop_last() =~= digits(a / 10));
            assert(digits(b).drop_last() =~= digits(b / 10));
        }
    }
}

/// A number has at least one digit.
proof fn lemma_digits_longer(n: nat)
    ensures
        digits(n).len() > 0,
    decreases n,
{
    if n >= 10 {
        lemma_digits_longer(n / 10);
    }
}

/// Different numbers have different decimal texts.
pub proof fn lemma_decimal_injective(a: int, b: int)
    requires
        decimal(a) == decimal(b),
    ensures
        a == b,
{
    let m: nat = if a < 0 {
        (-a) as nat
    } else {
        a as nat
    };
    let n: nat = if b < 0 {
        (-b) as nat
    } else {
        b as nat
    };
    lemma_digits(m, n);
    lemma_digits(n, m);
    assert(a < 0 ==> decimal(a)[0] == '-');
    assert(b < 0 ==> decimal(b)[0] == '-');
    if a < 0 && b < 0 {
        assert(decimal(a).skip(1) =~= digits(m));
        assert(decimal(b).skip(1) =~= digits(n));
    }
}

/// The text of a single digit.
fn digit_text(n: u64) -> (text: &'static str)
    requires
        n < 10,
    ensures
        text@ == seq![digit(n as int)],
{
    let all = "0123456789";
    proof {
        reveal_strlit("0123456789");
    }
    let text = all.substring_char(n as usize, n as usize + 1);
    assert(text@ =~= seq![digit(n as int)]);
    text
}

/// The decimal digits of an unsigned number.
fn digits_text(n: u64) -> (text: String)
    ensures
        text@ == digits(n as nat),
    decreases n,
{
    if n < 10 {
        digit_text(n).to_owned()
    } else {
        let mut text = digits_text(n / 10);
        text.append(digit_text(n % 10));
        assert(text@ =~= digits(n as nat));
        text
    }
}

/// The decimal text of a signed number.
pub fn decimal_text(n: i64) -> (text: String)
    ensures
        text@ == decimal(n as int),
{
    if n < 0 {
        let magnitude: u64 = (-(n as i128)) as u64;
        let sign = "-";
        proof {
            reveal_strlit("-");
        }
        assert(sign@ =~= seq!['-']);
        joined(sign, digits_text(magnitude).as_str())
    } else {
        digits_text(n as u64)
    }
}

/// What stands before the first character of a pattern is kept.
pub proof fn lemma_lead_is_kept(
    lead: Seq<char>,
    rest: Seq<char>,
    pattern: Seq<char>,
    with: Seq<char>,
)
    requires
        pattern.len() > 0,
        !lead.contains(pattern[0]),
    ensures
        replaced(lead + rest, pattern, with) == lead + replaced(rest, pattern, with),
    decreases lead.len(),
{
    let text = lead + rest;
    if lead.len() == 0 {
        assert(text =~= rest);
        assert(lead + replaced(rest, pattern, with) =~= replaced(rest, pattern, with));
    } else {
        let tail = lead.skip(1);
        assert(lead.contains(lead[0]));
        assert(text.skip(1) =~= tail + rest);
        assert(!tail.contains(pattern[0])) by {
            if tail.contains(pattern[0]) {
                let i = choose|i: int| 0 <= i < tail.len() && tail[i] == pattern[0];
                assert(lead[i + 1] == pattern[0]);
            }
        }
        lemma_lead_is_kept(tail, rest, pattern, with);
        if text.len() >= pattern.len() {
            assert(text.take(pattern.len() as int)[0] == lead[0]);
            assert(seq![text[0]] + (tail + replaced(rest, pattern, with)) =~= lead + replaced(
                rest,
                pattern,
                with,
            ));
        } else {
            assert(replaced(rest, pattern, with) == rest);
        }
    }
}

/// A pattern is replaced where it stands, and what follows is gone through in turn.
pub proof fn lemma_pattern_is_replaced(rest: Seq<char>, pattern: Seq<char>, with: Seq<char>)
    requires
        pattern.len() > 0,
    ensures
        replaced(pattern + rest, pattern, with) == with + replaced(rest, pattern, with),
{
    let text = pattern + rest;
    assert(text.take(pattern.len() as int) =~= pattern);
    assert(text.skip(pattern.len() as int) =~= rest);
}

/// Replacing goes through a text from the left.
pub proof fn lemma_replaced_from_the_left(
    text: &str,
    pattern: &str,
    with: &str,
    out: String,
    lead: Seq<char>,
    rest: Seq<char>,
)
    requires
        pattern@.len() > 0,
        call_ensures(replace_text, (text, pattern, with), out),
        text@ == lead + pattern@ + rest,
        !lead.contains(pattern@[0]),
    ensures
        out@ == lead + with@ + replaced(rest, pattern@, with@),
{
    assert(text@ =~= lead + (pattern@ + rest));
    lemma_lead_is_kept(lead, pattern@ + rest, pattern@, with@);
    lemma_pattern_is_replaced(rest, pattern@, with@);
    assert(out@ =~= lead + with@ + replaced(rest, pattern@, with@));
}

/// The last digit of a number is its remainder by ten, and the digits before it are those
/// of its quotient.
pub proof fn lemma_digits_count(n: nat)
    ensures
        digits(n).len() > 0,
        digits(n).last() as int == '0' as int + n % 10,
        n >= 10 ==> digits(n).drop_last() == digits(n / 10),
        n < 10 ==> digits(n).len() == 1,
{
    lemma_digits(n, n);
    if n >= 10 {
        assert(digits(n).drop_last() =~= digits(n / 10));
    }
}

/// A negative number is written as its magnitude behind a minus sign, any other as its
/// digits.
pub proof fn lemma_decimal(n: i64, text: String)
    requires
        call_ensures(decimal_text, (n,), text),
    ensures
        n >= 0 ==> text@ == digits(n as nat),
        n < 0 ==> text@ == seq!['-'] + digits((-n) as nat),
{
}

} // verus!
