//! Text, character by character: substitution, trimming, and numbers in
//! decimal digits.

use vstd::prelude::*;
use vstd::string::StrSliceExecFns;
use vstd::string::StringExecFns;

verus! {

/// `text` with every occurrence of `pattern` replaced by `with`, reading from
/// the left: where `pattern` starts at the front, `with` is written and
/// reading goes on behind the occurrence; elsewhere one character is copied.
/// An empty pattern occurs nowhere.
pub open spec fn replaced(text: Seq<char>, pattern: Seq<char>, with: Seq<char>) -> Seq<char>
    decreases text.len(),
{
    if pattern.len() == 0 || text.len() < pattern.len() {
        text
    } else if text.subrange(0, pattern.len() as int) == pattern {
        with + replaced(text.skip(pattern.len() as int), pattern, with)
    } else {
        seq![text[0]] + replaced(text.skip(1), pattern, with)
    }
}

/// Whether `pattern` stands in `text` at position `at`.
pub open spec fn occurs_at(text: Seq<char>, pattern: Seq<char>, at: int) -> bool {
    &&& 0 <= at
    &&& at + pattern.len() <= text.len()
    &&& text.subrange(at, at + pattern.len()) == pattern
}

/// The characters of a text, in order.
pub fn chars_of(text: &str) -> (chars: Vec<char>)
    ensures
        chars@ == text@,
{
    let mut chars: Vec<char> = Vec::new();
    for c in it: text.chars()
        invariant
            it.seq() == text@,
            chars@ == it.seq().take(it.index() as int),
    {
        chars.push(c);
    }
    chars
}

/// Whether `pattern` stands in `text` at position `at`.
pub fn found_at(text: &Vec<char>, pattern: &Vec<char>, at: usize) -> (found: bool)
    ensures
        found == occurs_at(text@, pattern@, at as int),
{
    let n: usize = text.len();
    let m: usize = pattern.len();
    if at > n || m > n - at {
        return false;
    }
    let mut k: usize = 0;
    while k < m
        invariant
            n == text@.len(),
            m == pattern@.len(),
            at + m <= n,
            k <= m,
            forall|j: int| 0 <= j < k ==> text@[at + j] == pattern@[j],
        decreases m - k,
    {
        if text[at + k] != pattern[k] {
            assert(text@.subrange(at as int, at + m)[k as int] != pattern@[k as int]);
            return false;
        }
        k += 1;
    }
    assert(text@.subrange(at as int, at + m) =~= pattern@);
    true
}

/// Reading one character past a place where the pattern does not stand, and
/// reading past an occurrence.
proof fn lemma_replaced_step(text: Seq<char>, pattern: Seq<char>, with: Seq<char>, at: int)
    requires
        pattern.len() > 0,
        0 <= at,
        at + pattern.len() <= text.len(),
    ensures
        occurs_at(text, pattern, at) ==> replaced(text.skip(at), pattern, with) == with
            + replaced(text.skip(at + pattern.len()), pattern, with),
        !occurs_at(text, pattern, at) ==> replaced(text.skip(at), pattern, with) == seq![text[at]]
            + replaced(text.skip(at + 1), pattern, with),
{
    let rest = text.skip(at);
    assert(rest.subrange(0, pattern.len() as int) =~= text.subrange(at, at + pattern.len()));
    assert(rest.skip(pattern.len() as int) =~= text.skip(at + pattern.len()));
    assert(rest.skip(1) =~= text.skip(at + 1));
    assert(rest[0] == text[at]);
}

/// A text in which the pattern stands nowhere is left as it is.
pub proof fn lemma_replaced_absent(text: Seq<char>, pattern: Seq<char>, with: Seq<char>)
    requires
        forall|at: int| !occurs_at(text, pattern, at),
    ensures
        replaced(text, pattern, with) == text,
    decreases text.len(),
{
    if pattern.len() == 0 || text.len() < pattern.len() {
    } else {
        assert(!occurs_at(text, pattern, 0));
        let rest = text.skip(1);
        assert forall|at: int| !occurs_at(rest, pattern, at) by {
            if occurs_at(rest, pattern, at) {
                assert(rest.subrange(at, at + pattern.len()) =~= text.subrange(
                    at + 1,
                    at + 1 + pattern.len(),
                ));
                assert(occurs_at(text, pattern, at + 1));
            }
        }
        lemma_replaced_absent(rest, pattern, with);
        assert(seq![text[0]] + rest =~= text);
    }
}

/// Up to the first place where the pattern stands the text is kept, the
/// occurrence there gives way to `with`, and what follows is read on its own.
pub proof fn lemma_replaced_first(text: Seq<char>, pattern: Seq<char>, with: Seq<char>, at: int)
    requires
        pattern.len() > 0,
        occurs_at(text, pattern, at),
        forall|earlier: int| earlier < at ==> !occurs_at(text, pattern, earlier),
    ensures
        replaced(text, pattern, with) == text.take(at) + with + replaced(
            text.skip(at + pattern.len()),
            pattern,
            with,
        ),
    decreases at,
{
    if at == 0 {
        assert(text.take(0) + with =~= with);
    } else {
        assert(!occurs_at(text, pattern, 0));
        let rest = text.skip(1);
        assert(rest.subrange(at - 1, at - 1 + pattern.len()) =~= text.subrange(
            at,
            at + pattern.len(),
        ));
        assert forall|earlier: int| earlier < at - 1 implies !occurs_at(rest, pattern, earlier) by {
            if occurs_at(rest, pattern, earlier) {
                assert(rest.subrange(earlier, earlier + pattern.len()) =~= text.subrange(
                    earlier + 1,
                    earlier + 1 + pattern.len(),
                ));
                assert(occurs_at(text, pattern, earlier + 1));
            }
        }
        lemma_replaced_first(rest, pattern, with, at - 1);
        assert(rest.skip(at - 1 + pattern.len()) =~= text.skip(at + pattern.len()));
        assert(seq![text[0]] + rest.take(at - 1) =~= text.take(at));
        assert(seq![text[0]] + (rest.take(at - 1) + with + replaced(
            text.skip(at + pattern.len()),
            pattern,
            with,
        )) =~= text.take(at) + with + replaced(text.skip(at + pattern.len()), pattern, with));
    }
}

/// Where the pattern stands exactly once, the result is the text with that
/// one occurrence exchanged for `with`.
pub proof fn lemma_replaced_once(
    before: Seq<char>,
    pattern: Seq<char>,
    after: Seq<char>,
    with: Seq<char>,
)
    requires
        pattern.len() > 0,
        forall|at: int|
            occurs_at(before + pattern + after, pattern, at) ==> at == before.len(),
    ensures
        replaced(before + pattern + after, pattern, with) == before + with + after,
{
    let text = before + pattern + after;
    let at = before.len() as int;
    assert(text.subrange(at, at + pattern.len()) =~= pattern);
    assert(text.take(at) =~= before);
    assert(text.skip(at + pattern.len()) =~= after);
    lemma_replaced_first(text, pattern, with, at);
    assert forall|k: int| !occurs_at(after, pattern, k) by {
        if occurs_at(after, pattern, k) {
            assert(after.subrange(k, k + pattern.len()) =~= text.subrange(
                at + pattern.len() + k,
                at + pattern.len() + k + pattern.len(),
            ));
            assert(occurs_at(text, pattern, at + pattern.len() + k));
        }
    }
    lemma_replaced_absent(after, pattern, with);
}

/// Exchanging a pattern for a text of the same length keeps the length.
pub proof fn lemma_replaced_len(text: Seq<char>, pattern: Seq<char>, with: Seq<char>)
    requires
        pattern.len() == with.len(),
    ensures
        replaced(text, pattern, with).len() == text.len(),
    decreases text.len(),
{
    if pattern.len() == 0 || text.len() < pattern.len() {
    } else if text.subrange(0, pattern.len() as int) == pattern {
        lemma_replaced_len(text.skip(pattern.len() as int), pattern, with);
    } else {
        lemma_replaced_len(text.skip(1), pattern, with);
    }
}

/// `text` with every occurrence of `pattern` replaced by `with`.
pub fn replace_all(text: &str, pattern: &str, with: &str) -> (out: String)
    ensures
        out@ == replaced(text@, pattern@, with@),
{
    let chars = chars_of(text);
    let pat = chars_of(pattern);
    let n: usize = chars.len();
    let m: usize = pat.len();
    if m == 0 || n < m {
        return String::from_str(text);
    }
    let mut out = String::new();
    let mut start: usize = 0;
    let mut i: usize = 0;
    assert(text@.skip(0) =~= text@);
    assert(text@.subrange(0, 0) + replaced(text@, pattern@, with@) =~= replaced(
        text@,
        pattern@,
        with@,
    ));
    while i <= n - m
        invariant
            chars@ == text@,
            pat@ == pattern@,
            n == text@.len(),
            m == pattern@.len(),
            0 < m <= n,
            start <= i <= n,
            replaced(text@, pattern@, with@) == out@ + replaced(
                text@.skip(start as int),
                pattern@,
                with@,
            ),
            replaced(text@.skip(start as int), pattern@, with@) == text@.subrange(
                start as int,
                i as int,
            ) + replaced(text@.skip(i as int), pattern@, with@),
        decreases n - i,
    {
        proof {
            lemma_replaced_step(text@, pattern@, with@, i as int);
        }
        if found_at(&chars, &pat, i) {
            out.append(text.substring_char(start, i));
            out.append(with);
            i += m;
            start = i;
            assert(text@.subrange(start as int, i as int) + replaced(
                text@.skip(i as int),
                pattern@,
                with@,
            ) =~= replaced(text@.skip(start as int), pattern@, with@));
        } else {
            assert(text@.subrange(start as int, i as int) + seq![text@[i as int]]
                =~= text@.subrange(start as int, i + 1));
            i += 1;
        }
    }
    assert(text@.skip(i as int).len() < m);
    assert(text@.subrange(start as int, i as int) + text@.skip(i as int) =~= text@.subrange(
        start as int,
        n as int,
    ));
    out.append(text.substring_char(start, n));
    out
}

/// The character for a digit below ten.
pub open spec fn digit_char(digit: nat) -> char {
    (0x30 + digit) as u8 as char
}

/// A number written in decimal digits, without leading zeros.
pub open spec fn decimal_text(number: nat) -> Seq<char>
    decreases number,
{
    if number < 10 {
        seq![digit_char(number)]
    } else {
        decimal_text(number / 10).push(digit_char(number % 10))
    }
}

fn digit(value: usize) -> (text: &'static str)
    requires
        value < 10,
    ensures
        text@ == seq![digit_char(value as nat)],
{
    proof {
        reveal_strlit("0");
        reveal_strlit("1");
        reveal_strlit("2");
        reveal_strlit("3");
        reveal_strlit("4");
        reveal_strlit("5");
        reveal_strlit("6");
        reveal_strlit("7");
        reveal_strlit("8");
        reveal_strlit("9");
    }
    let text = match value {
        0 => "0",
        1 => "1",
        2 => "2",
        3 => "3",
        4 => "4",
        5 => "5",
        6 => "6",
        7 => "7",
        8 => "8",
        _ => "9",
    };
    assert(text@ =~= seq![digit_char(value as nat)]);
    text
}

/// A number written in decimal digits.
pub fn decimal(number: usize) -> (text: String)
    ensures
        text@ == decimal_text(number as nat),
    decreases number,
{
    if number < 10 {
        String::from_str(digit(number))
    } else {
        let mut text = decimal(number / 10);
        text.append(digit(number % 10));
        assert(text@ =~= decimal_text(number as nat));
        text
    }
}

/// Whether `char::is_whitespace` holds of a character: whether it has the
/// White_Space property of Unicode.
pub uninterp spec fn white_space(character: char) -> bool;

/// A text without the white space at its front.
pub open spec fn trimmed_start(text: Seq<char>) -> Seq<char>
    decreases text.len(),
{
    if text.len() > 0 && white_space(text[0]) {
        trimmed_start(text.skip(1))
    } else {
        text
    }
}

/// A text without the white space at its end.
pub open spec fn trimmed_end(text: Seq<char>) -> Seq<char>
    decreases text.len(),
{
    if text.len() > 0 && white_space(text.last()) {
        trimmed_end(text.drop_last())
    } else {
        text
    }
}

/// A text without the white space at both ends.
pub open spec fn trimmed(text: Seq<char>) -> Seq<char> {
    trimmed_end(trimmed_start(text))
}

/// Calls `char::is_whitespace`, which tells whether a character has the
/// White_Space property of Unicode.
#[verifier::external_body]
fn is_white_space(character: char) -> (white: bool)
    ensures
        white == white_space(character),
{
    character.is_whitespace()
}

/// A text without the white space at both ends.
pub fn trim(text: &str) -> (rest: String)
    ensures
        rest@ == trimmed(text@),
{
    let chars = chars_of(text);
    let n: usize = chars.len();
    let mut start: usize = 0;
    assert(text@.skip(0) =~= text@);
    loop
        invariant_except_break
            start <= n,
            chars@ == text@,
            n == text@.len(),
            trimmed_start(text@) == trimmed_start(text@.skip(start as int)),
        ensures
            start <= n,
            chars@ == text@,
            n == text@.len(),
            trimmed_start(text@) == text@.skip(start as int),
        decreases n - start,
    {
        if start == n {
            break ;
        }
        if !is_white_space(chars[start]) {
            break ;
        }
        assert(text@.skip(start as int).skip(1) =~= text@.skip(start + 1));
        start += 1;
    }
    let ghost front = text@.skip(start as int);
    let mut end: usize = n;
    assert(text@.subrange(start as int, n as int) =~= front);
    loop
        invariant_except_break
            start <= end <= n,
            chars@ == text@,
            n == text@.len(),
            trimmed_end(front) == trimmed_end(text@.subrange(start as int, end as int)),
        ensures
            start <= end <= n,
            n == text@.len(),
            trimmed_end(front) == text@.subrange(start as int, end as int),
        decreases end,
    {
        if end == start {
            break ;
        }
        if !is_white_space(chars[end - 1]) {
            break ;
        }
        assert(text@.subrange(start as int, end as int).drop_last() =~= text@.subrange(
            start as int,
            end - 1,
        ));
        end -= 1;
    }
    String::from_str(text.substring_char(start, end))
}

} // verus!
