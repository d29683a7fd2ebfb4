//! Text building blocks shared by the encoders: decimal numbers and line splitting.

use vstd::prelude::*;
use vstd::string::StringExecFns;

verus! {

/// The character of a single decimal digit.
pub open spec fn digit_char(d: nat) -> char
    recommends
        d < 10,
{
    if d == 0 {
        '0'
    } else if d == 1 {
        '1'
    } else if d == 2 {
        '2'
    } else if d == 3 {
        '3'
    } else if d == 4 {
        '4'
    } else if d == 5 {
        '5'
    } else if d == 6 {
        '6'
    } else if d == 7 {
        '7'
    } else if d == 8 {
        '8'
    } else {
        '9'
    }
}

/// The ordinary decimal representation of `n`: no sign, no padding, `"0"` for zero.
pub open spec fn decimal(n: nat) -> Seq<char>
    decreases n,
{
    if n < 10 {
        seq![digit_char(n)]
    } else {
        decimal(n / 10).push(digit_char(n % 10))
    }
}

fn digit_str(d: usize) -> (r: &'static str)
    requires
        d < 10,
    ensures
        r@ == seq![digit_char(d as nat)],
{
    proof {
        reveal_strlit("0");
        reveal_strlit("1");
        reveal_strlit("2");
        reveal_strlit("3");
        reveal_strlit("4");
        reveal_strlit("5");
        reveal_strlit("6");
        reveal_strlit("7");
        reveal_strlit("8");
        reveal_strlit("9");
    }
    if d == 0 {
        "0"
    } else if d == 1 {
        "1"
    } else if d == 2 {
        "2"
    } else if d == 3 {
        "3"
    } else if d == 4 {
        "4"
    } else if d == 5 {
        "5"
    } else if d == 6 {
        "6"
    } else if d == 7 {
        "7"
    } else if d == 8 {
        "8"
    } else {
        "9"
    }
}

/// Appends the decimal representation of `n` to `out`.
pub fn push_decimal(out: &mut String, n: usize)
    ensures
        final(out)@ == old(out)@ + decimal(n as nat),
    decreases n,
{
    if n >= 10 {
        push_decimal(out, n / 10);
    }
    let d: usize = n % 10;
    out.append(digit_str(d));
}

/// Whether `c` ends a line: a line feed or a carriage return.
pub open spec fn is_break(c: char) -> bool {
    c == '\n' || c == '\r'
}

/// The number of characters of `s` from `from` up to the next line break or the end.
pub open spec fn line_len(s: Seq<char>, from: int) -> nat
    decreases s.len() - from,
{
    if 0 <= from < s.len() && !is_break(s[from]) {
        1 + line_len(s, from + 1)
    } else {
        0
    }
}

/// The width of the line break at `at`: two for a carriage return that a line feed
/// follows, one otherwise.
pub open spec fn break_len(s: Seq<char>, at: int) -> int {
    if s[at] == '\r' && at + 1 < s.len() && s[at + 1] == '\n' {
        2
    } else {
        1
    }
}

/// The lines of `s` that start at or after `from`, where `from` is the start of a line.
pub open spec fn lines_from(s: Seq<char>, from: int) -> Seq<Seq<char>>
    decreases s.len() - from,
{
    if 0 <= from < s.len() {
        let end = from + line_len(s, from);
        let line = s.subrange(from, end);
        if end < s.len() {
            seq![line] + lines_from(s, end + break_len(s, end))
        } else {
            seq![line]
        }
    } else {
        Seq::empty()
    }
}

/// The lines of `s`. A line ends at `"\n"`, `"\r\n"` or a lone `"\r"`; the break is not
/// part of the line, and a break at the very end opens no further line. The empty text
/// has no lines at all.
pub open spec fn lines(s: Seq<char>) -> Seq<Seq<char>> {
    lines_from(s, 0)
}

/// A run of characters without a break, ended by a break or by the end of the text,
/// is exactly one line's length.
pub proof fn lemma_line_len(s: Seq<char>, from: int, end: int)
    requires
        0 <= from <= end <= s.len(),
        forall|k: int| from <= k < end ==> !is_break(#[trigger] s[k]),
        end < s.len() ==> is_break(s[end]),
    ensures
        line_len(s, from) == end - from,
    decreases end - from,
{
    if from < end {
        lemma_line_len(s, from + 1, end);
    }
}

/// A line ends where the text ends or where a break stands, and stays inside the text.
pub proof fn lemma_line_end(s: Seq<char>, from: int)
    requires
        0 <= from <= s.len(),
    ensures
        from + line_len(s, from) <= s.len(),
        from + line_len(s, from) < s.len() ==> is_break(s[from + line_len(s, from)]),
        forall|k: int| from <= k < from + line_len(s, from) ==> !is_break(#[trigger] s[k]),
    decreases s.len() - from,
{
    if from < s.len() && !is_break(s[from]) {
        lemma_line_end(s, from + 1);
    }
}

/// Whether a text holds no line break.
pub open spec fn break_free(s: Seq<char>) -> bool {
    forall|k: int| 0 <= k < s.len() ==> !is_break(#[trigger] s[k])
}

/// What stands at or after `from` decides a line's length: it is the length of the
/// first line of the rest.
pub proof fn lemma_line_len_of_rest(s: Seq<char>, from: int)
    requires
        0 <= from <= s.len(),
    ensures
        line_len(s, from) == line_len(s.skip(from), 0),
    decreases s.len() - from,
{
    let rest = s.skip(from);
    if from < s.len() && !is_break(s[from]) {
        lemma_line_len_of_rest(s, from + 1);
        lemma_line_end(rest, 1);
        lemma_line_end(rest, 0);
        lemma_line_end(s, from + 1);
        let n = line_len(s, from + 1) as int;
        assert forall|k: int| 0 <= k < 1 + n implies !is_break(#[trigger] rest[k]) by {}
        lemma_line_len(rest, 0, 1 + n);
    }
}

/// The lines from the start of a line on are the lines of the rest of the text.
pub proof fn lemma_lines_of_rest(s: Seq<char>, from: int)
    requires
        0 <= from <= s.len(),
    ensures
        lines_from(s, from) == lines(s.skip(from)),
    decreases s.len() - from,
{
    let rest = s.skip(from);
    if from < s.len() {
        lemma_line_len_of_rest(s, from);
        lemma_line_end(s, from);
        let n = line_len(s, from) as int;
        let end = from + n;
        assert(s.subrange(from, end) =~= rest.subrange(0, n));
        if end < s.len() {
            let width = break_len(s, end);
            lemma_lines_of_rest(s, end + width);
            lemma_lines_of_rest(rest, n + width);
            assert(rest.skip(n + width) =~= s.skip(end + width));
        }
    }
}

/// No line holds a line break.
pub proof fn lemma_lines_are_break_free(s: Seq<char>, from: int, i: int)
    requires
        0 <= from <= s.len(),
        0 <= i < lines_from(s, from).len(),
    ensures
        break_free(lines_from(s, from)[i]),
    decreases s.len() - from,
{
    lemma_line_end(s, from);
    let end = from + line_len(s, from);
    if i == 0 {
        assert forall|k: int| 0 <= k < s.subrange(from, end).len() implies !is_break(
            #[trigger] s.subrange(from, end)[k],
        ) by {}
    } else {
        lemma_lines_are_break_free(s, end + break_len(s, end), i - 1);
    }
}

/// The characters of `text`, one by one.
fn collect_chars(text: &str) -> (chars: Vec<char>)
    ensures
        chars@ == text@,
{
    let mut chars: Vec<char> = Vec::new();
    for c in it: text.chars()
        invariant
            chars@ == it.seq().take(it.index() as int),
            it.seq() == text@,
    {
        chars.push(c);
    }
    chars
}

/// Splits `text` into its lines.
pub fn split_lines(text: &str) -> (out: Vec<String>)
    ensures
        out.deep_view() == lines(text@),
{
    let chars = collect_chars(text);
    let n = chars.len();
    let mut out: Vec<String> = Vec::new();
    let mut from: usize = 0;
    while from < n
        invariant
            chars@ == text@,
            n == chars.len(),
            from <= n,
            out.deep_view() + lines_from(text@, from as int) == lines(text@),
        decreases n - from,
    {
        let mut end = from;
        while end < n && chars[end] != '\n' && chars[end] != '\r'
            invariant
                from <= end <= n,
                n == chars.len(),
                forall|k: int| from <= k < end ==> !is_break(#[trigger] chars@[k]),
            decreases n - end,
        {
            end += 1;
        }
        proof {
            lemma_line_len(text@, from as int, end as int);
        }
        out.push(String::from_str(text.substring_char(from, end)));
        from = if end == n {
            n
        } else if chars[end] == '\r' && end + 1 < n && chars[end + 1] == '\n' {
            end + 2
        } else {
            end + 1
        };
    }
    out
}

} // verus!
