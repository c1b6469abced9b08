//! Text helpers: joining, decimal numbers, prefixes, fragments and lines.

use vstd::prelude::*;

verus! {

/// The two texts, one after the other.
pub fn join2(a: &str, b: &str) -> (r: String)
    ensures
        r@ == a@ + b@,
{
    let mut out = String::from_str(a);
    out.append(b);
    out
}

/// The three texts, one after the other.
pub fn join3(a: &str, b: &str, c: &str) -> (r: String)
    ensures
        r@ == a@ + b@ + c@,
{
    let mut out = String::from_str(a);
    out.append(b);
    out.append(c);
    out
}

/// The character of a decimal digit.
pub open spec fn digit_char(d: nat) -> char {
    if d == 0 {
        '0'
    } else if d == 1 {
        '1'
    } else if d == 2 {
        '2'
    } else if d == 3 {
        '3'
    } else if d == 4 {
        '4'
    } else if d == 5 {
        '5'
    } else if d == 6 {
        '6'
    } else if d == 7 {
        '7'
    } else if d == 8 {
        '8'
    } else {
        '9'
    }
}

/// The decimal text of a number, without leading zeros.
pub open spec fn decimal_text(n: nat) -> Seq<char>
    decreases n,
{
    if n < 10 {
        seq![digit_char(n)]
    } else {
        decimal_text(n / 10).push(digit_char(n % 10))
    }
}

/// The text of one decimal digit.
fn digit_text(d: u64) -> (r: &'static str)
    requires
        d < 10,
    ensures
        r@ == seq![digit_char(d as nat)],
{
    proof {
        reveal_strlit("0");
        reveal_strlit("1");
        reveal_strlit("2");
        reveal_strlit("3");
        reveal_strlit("4");
        reveal_strlit("5");
        reveal_strlit("6");
        reveal_strlit("7");
        reveal_strlit("8");
        reveal_strlit("9");
    }
    let r = if d == 0 {
        "0"
    } else if d == 1 {
        "1"
    } else if d == 2 {
        "2"
    } else if d == 3 {
        "3"
    } else if d == 4 {
        "4"
    } else if d == 5 {
        "5"
    } else if d == 6 {
        "6"
    } else if d == 7 {
        "7"
    } else if d == 8 {
        "8"
    } else {
        "9"
    };
    assert(r@ =~= seq![digit_char(d as nat)]);
    r
}

/// The decimal text of a number.
pub fn decimal(n: u64) -> (r: String)
    ensures
        r@ == decimal_text(n as nat),
    decreases n,
{
    if n < 10 {
        String::from_str(digit_text(n))
    } else {
        let mut out = decimal(n / 10);
        out.append(digit_text(n % 10));
        assert(out@ =~= decimal_text((n / 10) as nat).push(digit_char((n % 10) as nat)));
        out
    }
}

/// The decimal text of a whole number, with a minus sign where it is
/// negative.
pub open spec fn signed_text(n: int) -> Seq<char> {
    if n < 0 {
        "-"@ + decimal_text((-n) as nat)
    } else {
        decimal_text(n as nat)
    }
}

/// The decimal text of a whole number.
pub fn signed_decimal(n: i64) -> (r: String)
    ensures
        r@ == signed_text(n as int),
{
    if n < 0 {
        let magnitude: u64 = (-(n + 1)) as u64 + 1;
        join2("-", decimal(magnitude).as_str())
    } else {
        decimal(n as u64)
    }
}

/// Whether `text` begins with `prefix`.
pub open spec fn has_prefix(text: Seq<char>, prefix: Seq<char>) -> bool {
    prefix.len() <= text.len() && text.subrange(0, prefix.len() as int) == prefix
}

/// Whether `fragment` stands in `text` at position `at`.
pub open spec fn occurs_at(text: Seq<char>, fragment: Seq<char>, at: int) -> bool {
    0 <= at && at + fragment.len() <= text.len() && text.subrange(at, at + fragment.len())
        == fragment
}

/// Whether `fragment` stands somewhere in `text`.
pub open spec fn has_fragment(text: Seq<char>, fragment: Seq<char>) -> bool {
    exists|at: int| occurs_at(text, fragment, at)
}

/// Whether `fragment` stands in `text` at the character position `at`.
pub fn matches_at(text: &str, fragment: &str, at: usize) -> (r: bool)
    ensures
        r == occurs_at(text@, fragment@, at as int),
{
    let n = text.unicode_len();
    let m = fragment.unicode_len();
    if at > n || m > n - at {
        return false;
    }
    let mut i: usize = 0;
    while i < m
        invariant
            i <= m,
            m == fragment@.len(),
            n == text@.len(),
            at + m <= n,
            forall|j: int| 0 <= j < i ==> text@[at + j] == fragment@[j],
        decreases m - i,
    {
        if text.get_char(at + i) != fragment.get_char(i) {
            assert(text@.subrange(at as int, at + m)[i as int] == text@[at + i]);
            return false;
        }
        i += 1;
    }
    assert(text@.subrange(at as int, at + m) =~= fragment@);
    true
}

/// Whether `text` begins with `prefix`.
pub fn starts_with(text: &str, prefix: &str) -> (r: bool)
    ensures
        r == has_prefix(text@, prefix@),
{
    matches_at(text, prefix, 0)
}

/// Whether `fragment` stands somewhere in `text`.
pub fn contains(text: &str, fragment: &str) -> (r: bool)
    ensures
        r == has_fragment(text@, fragment@),
{
    let n = text.unicode_len();
    let mut at: usize = 0;
    while at <= n
        invariant
            at <= n + 1,
            n == text@.len(),
            forall|k: int| 0 <= k < at ==> !occurs_at(text@, fragment@, k),
        decreases n + 1 - at,
    {
        if matches_at(text, fragment, at) {
            return true;
        }
        if at == n {
            assert forall|k: int| !occurs_at(text@, fragment@, k) by {}
            return false;
        }
        at += 1;
    }
    false
}

/// The position of the first line feed of a text, or its length where it
/// holds none.
pub open spec fn first_newline(text: Seq<char>) -> int
    decreases text.len(),
{
    if text.len() == 0 {
        0
    } else if text[0] == '\n' {
        0
    } else {
        1 + first_newline(text.drop_first())
    }
}

/// A line without the carriage return that ended it, if one did.
pub open spec fn without_return(line: Seq<char>) -> Seq<char> {
    if line.len() > 0 && line.last() == '\r' {
        line.drop_last()
    } else {
        line
    }
}

/// The lines of a text. A line ends with a line feed, or with a carriage
/// return and a line feed; neither belongs to the line. The last line needs
/// no line ending, and an empty text has no lines.
pub open spec fn text_lines(text: Seq<char>) -> Seq<Seq<char>>
    decreases text.len(),
{
    if text.len() == 0 {
        Seq::empty()
    } else {
        let at = first_newline(text);
        if 0 <= at < text.len() {
            seq![without_return(text.take(at))] + text_lines(text.skip(at + 1))
        } else {
            seq![text]
        }
    }
}

/// Where the first line feed of a text stands.
pub proof fn lemma_first_newline(text: Seq<char>, at: int)
    requires
        0 <= at <= text.len(),
        forall|j: int| 0 <= j < at ==> text[j] != '\n',
        at < text.len() ==> text[at] == '\n',
    ensures
        first_newline(text) == at,
    decreases text.len(),
{
    if text.len() > 0 && at > 0 {
        let rest = text.drop_first();
        assert forall|j: int| 0 <= j < at - 1 implies rest[j] != '\n' by {
            assert(rest[j] == text[j + 1]);
        }
        lemma_first_newline(rest, at - 1);
    }
}

/// The views of a list of texts, one by one.
pub open spec fn texts_view(texts: Seq<String>) -> Seq<Seq<char>> {
    texts.map_values(|t: String| t@)
}

/// The lines of a text.
pub fn lines(text: &str) -> (r: Vec<String>)
    ensures
        texts_view(r@) == text_lines(text@),
{
    let n = text.unicode_len();
    let mut out: Vec<String> = Vec::new();
    let mut start: usize = 0;
    assert(text@.skip(0) =~= text@);
    assert(texts_view(out@) =~= Seq::<Seq<char>>::empty());
    while start < n
        invariant
            start <= n,
            n == text@.len(),
            texts_view(out@) + text_lines(text@.skip(start as int)) == text_lines(text@),
        decreases n - start,
    {
        let ghost rest = text@.skip(start as int);
        let mut i: usize = start;
        while i < n && text.get_char(i) != '\n'
            invariant
                start <= i <= n,
                n == text@.len(),
                forall|j: int| start <= j < i ==> text@[j] != '\n',
            decreases n - i,
        {
            i += 1;
        }
        proof {
            assert forall|j: int| 0 <= j < i - start implies rest[j] != '\n' by {
                assert(rest[j] == text@[start + j]);
            }
            lemma_first_newline(rest, i - start);
        }
        let ghost before = texts_view(out@);
        if i == n {
            let line = String::from_str(text.substring_char(start, n));
            proof {
                assert(line@ =~= rest);
                assert(text@.skip(n as int) =~= Seq::<char>::empty());
                assert(texts_view(out@.push(line)) =~= before.push(rest));
                assert(before.push(rest) + text_lines(text@.skip(n as int)) =~= before + seq![
                    rest,
                ]);
            }
            out.push(line);
            start = n;
        } else {
            let mut end: usize = i;
            if end > start && text.get_char(end - 1) == '\r' {
                end = end - 1;
            }
            let line = String::from_str(text.substring_char(start, end));
            proof {
                assert(rest.take(i - start) =~= text@.subrange(start as int, i as int));
                assert(line@ =~= without_return(rest.take(i - start)));
                assert(rest.skip(i - start + 1) =~= text@.skip(i + 1));
                assert(texts_view(out@.push(line)) =~= before.push(line@));
                assert(before.push(line@) + text_lines(text@.skip(i + 1)) =~= before + (seq![
                    line@,
                ] + text_lines(text@.skip(i + 1))));
            }
            out.push(line);
            start = i + 1;
        }
    }
    assert(text@.skip(n as int) =~= Seq::<char>::empty());
    assert(texts_view(out@) + Seq::<Seq<char>>::empty() =~= texts_view(out@));
    out
}

} // verus!
