//! The grammar of the request line.
//!
//! A request is read as text. Its first line is cut into words at white space,
//! and the second word is the path that the request asks for. Nothing else of
//! the request is interpreted: the method is not validated and no header is read.

use vstd::prelude::*;
use vstd::std_specs::iter::IteratorSpec;

verus! {

/// The path of a request that names none.
pub open spec fn default_path() -> Seq<char> {
    seq!['/']
}

/// Whether `c` is white space: the characters with the Unicode property
/// `White_Space`, as `char::is_whitespace` of the standard library has them.
pub open spec fn is_whitespace(c: char) -> bool {
    let u = c as u32;
    ||| 0x09 <= u <= 0x0D
    ||| u == 0x20
    ||| u == 0x85
    ||| u == 0xA0
    ||| u == 0x1680
    ||| 0x2000 <= u <= 0x200A
    ||| u == 0x2028
    ||| u == 0x2029
    ||| u == 0x202F
    ||| u == 0x205F
    ||| u == 0x3000
}

/// Where the first line of `text` ends, searching from `from`: the index of the
/// first line feed at or after `from`, or the length of `text` if there is none.
pub open spec fn line_end(text: Seq<char>, from: int) -> int
    decreases text.len() - from,
{
    if 0 <= from < text.len() && text[from] != '\n' {
        line_end(text, from + 1)
    } else {
        from
    }
}

/// The first line of `text`: everything before its first line feed, the whole
/// text if it has none. A carriage return before the line feed stays in the
/// line; it is white space, so it is part of no word.
pub open spec fn first_line(text: Seq<char>) -> Seq<char> {
    text.take(line_end(text, 0))
}

/// Where the run of characters that starts at `from` ends. With `white` set the
/// run is one of white space, otherwise one of characters that are not. The
/// result is the first index at or after `from` whose character does not belong
/// to the run, or the length of `s`.
pub open spec fn run_end(s: Seq<char>, from: int, white: bool) -> int
    decreases s.len() - from,
{
    if 0 <= from < s.len() && is_whitespace(s[from]) == white {
        run_end(s, from + 1, white)
    } else {
        from
    }
}

/// The words of `s` that start at or after `from`, in order. A word is a maximal
/// run of characters that are not white space.
pub open spec fn words_from(s: Seq<char>, from: int) -> Seq<Seq<char>>
    decreases s.len() - from,
{
    let start = run_end(s, from, true);
    let end = run_end(s, start, false);
    if 0 <= from && start < s.len() {
        proof {
            run_end_bounds(s, from, true);
            run_end_bounds(s, start, false);
        }
        seq![s.subrange(start, end)] + words_from(s, end)
    } else {
        Seq::empty()
    }
}

/// The words of `s`: what splitting it at white space gives.
pub open spec fn words(s: Seq<char>) -> Seq<Seq<char>> {
    words_from(s, 0)
}

/// The path that the request `text` asks for: the second word of its first
/// line, and `/` where that line has fewer than two words.
pub open spec fn path_of(text: Seq<char>) -> Seq<char> {
    let line_words = words(first_line(text));
    if line_words.len() >= 2 {
        line_words[1]
    } else {
        default_path()
    }
}

/// A run ends at or after its start and within the sequence, every character
/// in it is of the run's kind, and the character after it, if any, is not.
pub proof fn run_end_bounds(s: Seq<char>, from: int, white: bool)
    requires
        0 <= from,
    ensures
        from <= run_end(s, from, white),
        from <= s.len() ==> run_end(s, from, white) <= s.len(),
        forall|i: int| from <= i < run_end(s, from, white) ==> is_whitespace(#[trigger] s[i]) == white,
        run_end(s, from, white) < s.len() ==> is_whitespace(s[run_end(s, from, white)]) != white,
        from < s.len() && is_whitespace(s[from]) == white ==> from < run_end(s, from, white),
    decreases s.len() - from,
{
    if from < s.len() && is_whitespace(s[from]) == white {
        run_end_bounds(s, from + 1, white);
    }
}

/// The first line ends at `end` if no character from `from` up to `end` is a
/// line feed and `end` is a line feed or the end of the text.
pub proof fn line_end_at(text: Seq<char>, from: int, end: int)
    requires
        0 <= from <= end <= text.len(),
        forall|i: int| from <= i < end ==> text[i] != '\n',
        end < text.len() ==> text[end] == '\n',
    ensures
        line_end(text, from) == end,
    decreases end - from,
{
    if from < end {
        line_end_at(text, from + 1, end);
    }
}

/// Every word is non-empty and holds no white space.
pub proof fn words_hold_no_whitespace(s: Seq<char>, from: int)
    requires
        0 <= from,
    ensures
        forall|k: int, i: int|
            0 <= k < words_from(s, from).len() && 0 <= i < words_from(s, from)[k].len()
                ==> !is_whitespace(#[trigger] words_from(s, from)[k][i]),
        forall|k: int| 0 <= k < words_from(s, from).len() ==> (#[trigger] words_from(s, from)[k]).len() > 0,
    decreases s.len() - from,
{
    let start = run_end(s, from, true);
    let end = run_end(s, start, false);
    run_end_bounds(s, from, true);
    run_end_bounds(s, start, false);
    if start < s.len() {
        words_hold_no_whitespace(s, end);
        let head = s.subrange(start, end);
        let tail = words_from(s, end);
        assert(words_from(s, from) == seq![head] + tail);
        assert forall|k: int, i: int|
            0 <= k < words_from(s, from).len() && 0 <= i < words_from(s, from)[k].len()
            implies !is_whitespace(#[trigger] words_from(s, from)[k][i]) by {
            if k == 0 {
                assert(head[i] == s[start + i]);
            } else {
                assert(words_from(s, from)[k] == tail[k - 1]);
            }
        }
        assert forall|k: int| 0 <= k < words_from(s, from).len()
            implies (#[trigger] words_from(s, from)[k]).len() > 0 by {
            if k > 0 {
                assert(words_from(s, from)[k] == tail[k - 1]);
            }
        }
    }
}

/// The path of a request is never empty, and holds neither white space nor a
/// line break.
pub proof fn path_is_one_word(text: Seq<char>)
    ensures
        path_of(text).len() > 0,
        forall|i: int| 0 <= i < path_of(text).len() ==> !is_whitespace(#[trigger] path_of(text)[i]),
{
    words_hold_no_whitespace(first_line(text), 0);
}

/// The path in terms of positions in the line: with the first word at
/// `a1..b1` and the second at `a2..b2`, the path is the second word if it
/// starts inside the line.
proof fn path_by_positions(line: Seq<char>) -> (p: (int, int))
    ensures
        ({
            let (a2, b2) = p;
            &&& a2 == run_end(line, run_end(line, run_end(line, 0, true), false), true)
            &&& b2 == run_end(line, a2, false)
            &&& 0 <= a2 <= b2 <= line.len()
            &&& a2 < line.len() ==> words(line).len() >= 2 && words(line)[1] == line.subrange(a2, b2)
            &&& a2 >= line.len() ==> words(line).len() < 2
        }),
{
    let a1 = run_end(line, 0, true);
    let b1 = run_end(line, a1, false);
    let a2 = run_end(line, b1, true);
    let b2 = run_end(line, a2, false);
    run_end_bounds(line, 0, true);
    run_end_bounds(line, a1, false);
    run_end_bounds(line, b1, true);
    run_end_bounds(line, a2, false);
    if a1 < line.len() {
        assert(words_from(line, 0) == seq![line.subrange(a1, b1)] + words_from(line, b1));
        if a2 < line.len() {
            assert(words_from(line, b1) == seq![line.subrange(a2, b2)] + words_from(line, b2));
        } else {
            assert(words_from(line, b1) == Seq::<Seq<char>>::empty());
        }
    } else {
        assert(words_from(line, 0) == Seq::<Seq<char>>::empty());
    }
    (a2, b2)
}

/// Whether `c` is white space.
pub fn whitespace(c: char) -> (white: bool)
    ensures
        white == is_whitespace(c),
{
    let u: u32 = c as u32;
    (0x09 <= u && u <= 0x0D) || u == 0x20 || u == 0x85 || u == 0xA0 || u == 0x1680 || (0x2000 <= u
        && u <= 0x200A) || u == 0x2028 || u == 0x2029 || u == 0x202F || u == 0x205F || u == 0x3000
}

/// The characters of the first line of `text`.
fn first_line_chars(text: &str) -> (line: Vec<char>)
    ensures
        line@ == first_line(text@),
        line.len() <= text@.len(),
        line@ == text@.take(line.len() as int),
{
    let mut line: Vec<char> = Vec::new();
    let mut rest = text.chars();
    loop
        invariant_except_break
            text@ == line@ + rest.remaining(),
        invariant
            rest.decrease() is Some,
            line.len() <= text@.len(),
            forall|i: int| 0 <= i < line.len() ==> line[i] != '\n' && line[i] == text@[i],
        ensures
            line.len() < text@.len() ==> text@[line.len() as int] == '\n',
        decreases rest.decrease()->0,
    {
        let ghost before = rest.remaining();
        match rest.next() {
            Some(c) => {
                assert(text@[line.len() as int] == before[0]);
                if c == '\n' {
                    break;
                }
                line.push(c);
                assert(line@ + rest.remaining() =~= text@);
            },
            None => {
                assert(line@ =~= text@);
                break;
            },
        }
    }
    proof {
        line_end_at(text@, 0, line.len() as int);
        assert(line@ =~= text@.take(line.len() as int));
    }
    line
}

/// Where the run that starts at `from` ends in `line`.
fn skip_run(line: &Vec<char>, from: usize, white: bool) -> (end: usize)
    requires
        from <= line.len(),
    ensures
        end == run_end(line@, from as int, white),
        from <= end <= line.len(),
{
    let mut i: usize = from;
    while i < line.len() && whitespace(line[i]) == white
        invariant
            from <= i <= line.len(),
            run_end(line@, from as int, white) == run_end(line@, i as int, white),
        decreases line.len() - i,
    {
        i = i + 1;
    }
    i
}

/// The path that the request `text` asks for.
///
/// The first line is split at white space and its second word is the path.
/// Where there is no second word, and so for an empty text, the path is `/`.
pub fn request_path(text: &str) -> (path: String)
    ensures
        path@ == path_of(text@),
{
    let line = first_line_chars(text);
    let first_start = skip_run(&line, 0, true);
    let first_end = skip_run(&line, first_start, false);
    let start = skip_run(&line, first_end, true);
    let end = skip_run(&line, start, false);
    proof {
        path_by_positions(line@);
    }
    if start < line.len() {
        let word = text.substring_char(start, end);
        assert(word@ =~= line@.subrange(start as int, end as int));
        word.to_owned()
    } else {
        proof {
            reveal_strlit("/");
        }
        assert("/"@ =~= default_path());
        "/".to_owned()
    }
}

} // verus!
