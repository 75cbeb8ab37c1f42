//! Character-level text handling: white space, words, rows and decimal numbers.

use vstd::prelude::*;

verus! {

/// The characters that separate words: those with the Unicode `White_Space` property.
pub open spec fn is_space(c: char) -> bool {
    let n = c as u32;
    ||| 0x09 <= n <= 0x0D
    ||| n == 0x20
    ||| n == 0x85
    ||| n == 0xA0
    ||| n == 0x1680
    ||| 0x2000 <= n <= 0x200A
    ||| n == 0x2028
    ||| n == 0x2029
    ||| n == 0x202F
    ||| n == 0x205F
    ||| n == 0x3000
}

/// Tells whether `c` separates words.
pub fn is_whitespace(c: char) -> (b: bool)
    ensures
        b == is_space(c),
{
    let n: u32 = c as u32;
    (0x09 <= n && n <= 0x0D) || n == 0x20 || n == 0x85 || n == 0xA0 || n == 0x1680 || (0x2000 <= n
        && n <= 0x200A) || n == 0x2028 || n == 0x2029 || n == 0x202F || n == 0x205F || n == 0x3000
}

/// `String::push` of the standard library appends exactly the given character.
pub assume_specification[ String::push ](s: &mut String, c: char)
    ensures
        final(s)@ == old(s)@.push(c),
;

/// The characters of `text`, in order.
pub fn chars_of(text: &str) -> (chars: Vec<char>)
    ensures
        chars@ == text@,
{
    let mut chars: Vec<char> = Vec::new();
    for c in it: text.chars()
        invariant
            chars@ == text@.take(it.index() as int),
            it.seq() == text@,
    {
        chars.push(c);
    }
    chars
}

/// The text made of `chars[from..to]`.
fn string_of(chars: &Vec<char>, from: usize, to: usize) -> (text: String)
    requires
        from <= to <= chars.len(),
    ensures
        text@ == chars@.subrange(from as int, to as int),
{
    let mut text = String::new();
    let mut i: usize = from;
    while i < to
        invariant
            from <= i <= to <= chars.len(),
            text@ == chars@.subrange(from as int, i as int),
        decreases to - i,
    {
        text.push(chars[i]);
        i += 1;
    }
    text
}

/// Where the run of non-space characters that begins at `i` stops: the index of the
/// first white space at or after `i`, or the length of `s` when there is none.
pub open spec fn word_end(s: Seq<char>, i: int) -> int
    decreases s.len() - i,
{
    if 0 <= i < s.len() && !is_space(s[i]) {
        word_end(s, i + 1)
    } else {
        i
    }
}

/// A run never stops before it begins, and a run that begins on a non-space
/// character holds at least that character.
pub proof fn lemma_word_end_bounds(s: Seq<char>, i: int)
    requires
        0 <= i <= s.len(),
    ensures
        i <= word_end(s, i) <= s.len(),
        i < s.len() && !is_space(s[i]) ==> i < word_end(s, i),
        word_end(s, i) < s.len() ==> is_space(s[word_end(s, i)]),
        forall|k: int| i <= k < word_end(s, i) ==> !is_space(#[trigger] s[k]),
    decreases s.len() - i,
{
    if i < s.len() && !is_space(s[i]) {
        lemma_word_end_bounds(s, i + 1);
    }
}

/// The words of `s` from index `i` on: its maximal runs of non-space characters, in order.
pub open spec fn words_from(s: Seq<char>, i: int) -> Seq<Seq<char>>
    decreases s.len() - i,
{
    if i < 0 || i >= s.len() {
        Seq::empty()
    } else if is_space(s[i]) {
        words_from(s, i + 1)
    } else {
        let end = word_end(s, i);
        proof {
            lemma_word_end_bounds(s, i);
        }
        seq![s.subrange(i, end)] + words_from(s, end)
    }
}

/// The words of `s`: what is left when `s` is cut at every stretch of white space.
pub open spec fn words(s: Seq<char>) -> Seq<Seq<char>> {
    words_from(s, 0)
}

/// Cuts `chars` into its words.
pub fn split_words(chars: &Vec<char>) -> (out: Vec<String>)
    ensures
        out.deep_view() == words(chars@),
{
    let n = chars.len();
    let mut out: Vec<String> = Vec::new();
    let mut i: usize = 0;
    while i < n
        invariant
            i <= n,
            n == chars.len(),
            words(chars@) == out.deep_view() + words_from(chars@, i as int),
        decreases n - i,
    {
        if is_whitespace(chars[i]) {
            i += 1;
        } else {
            let start = i;
            let mut j: usize = i + 1;
            while j < n && !is_whitespace(chars[j])
                invariant
                    start < j <= n,
                    n == chars.len(),
                    word_end(chars@, start as int) == word_end(chars@, j as int),
                decreases n - j,
            {
                j += 1;
            }
            let word = string_of(chars, start, j);
            out.push(word);
            i = j;
        }
    }
    out
}

/// Cuts `text` at every stretch of white space and returns the pieces between, in order.
pub fn split_whitespace(text: &str) -> (out: Vec<String>)
    ensures
        out.deep_view() == words(text@),
{
    let chars = chars_of(text);
    split_words(&chars)
}

/// Where the row that begins at `i` stops: the index of the first line feed at or
/// after `i`, or the length of `s` when there is none.
pub open spec fn row_end(s: Seq<char>, i: int) -> int
    decreases s.len() - i,
{
    if 0 <= i < s.len() && s[i] != '\n' {
        row_end(s, i + 1)
    } else {
        i
    }
}

/// A row stops inside the text and not before it begins; what stops it is a line feed.
pub proof fn lemma_row_end_bounds(s: Seq<char>, i: int)
    requires
        0 <= i <= s.len(),
    ensures
        i <= row_end(s, i) <= s.len(),
        row_end(s, i) < s.len() ==> s[row_end(s, i)] == '\n',
        forall|k: int| i <= k < row_end(s, i) ==> #[trigger] s[k] != '\n',
    decreases s.len() - i,
{
    if i < s.len() && s[i] != '\n' {
        lemma_row_end_bounds(s, i + 1);
    }
}

/// The rows of `s` from index `i` on. Each line feed closes a row; what follows the
/// last line feed is a row too, even when it is empty.
pub open spec fn rows_from(s: Seq<char>, i: int) -> Seq<Seq<char>>
    decreases s.len() - i,
{
    if i < 0 || i > s.len() {
        Seq::empty()
    } else {
        let end = row_end(s, i);
        proof {
            lemma_row_end_bounds(s, i);
        }
        if end < s.len() {
            seq![s.subrange(i, end)] + rows_from(s, end + 1)
        } else {
            seq![s.subrange(i, end)]
        }
    }
}

/// The rows of `s`: the pieces between its line feeds. A text without a line feed is one row.
pub open spec fn rows(s: Seq<char>) -> Seq<Seq<char>> {
    rows_from(s, 0)
}

/// Every text has a first row.
pub proof fn lemma_rows_nonempty(s: Seq<char>)
    ensures
        rows(s).len() >= 1,
{
    lemma_row_end_bounds(s, 0);
}

/// A copy of `chars[from..to]`.
fn slice_of(chars: &Vec<char>, from: usize, to: usize) -> (part: Vec<char>)
    requires
        from <= to <= chars.len(),
    ensures
        part@ == chars@.subrange(from as int, to as int),
{
    let mut part: Vec<char> = Vec::new();
    let mut i: usize = from;
    while i < to
        invariant
            from <= i <= to <= chars.len(),
            part@ == chars@.subrange(from as int, i as int),
        decreases to - i,
    {
        part.push(chars[i]);
        i += 1;
    }
    part
}

/// Cuts `chars` into its rows.
pub fn split_rows(chars: &Vec<char>) -> (out: Vec<Vec<char>>)
    ensures
        out.deep_view() == rows(chars@),
{
    let n = chars.len();
    let mut out: Vec<Vec<char>> = Vec::new();
    let mut start: usize = 0;
    let mut j: usize = 0;
    while j < n
        invariant
            start <= j <= n,
            n == chars.len(),
            row_end(chars@, start as int) == row_end(chars@, j as int),
            rows(chars@) == out.deep_view() + rows_from(chars@, start as int),
        decreases n - j,
    {
        if chars[j] == '\n' {
            let row = slice_of(chars, start, j);
            assert(row.deep_view() =~= row@);
            out.push(row);
            start = j + 1;
        }
        j += 1;
    }
    let row = slice_of(chars, start, n);
    assert(row.deep_view() =~= row@);
    out.push(row);
    out
}

/// `parts[i..]` written one after another, with `sep` between neighbours.
pub open spec fn joined_from(parts: Seq<Seq<char>>, sep: Seq<char>, i: int) -> Seq<char>
    decreases parts.len() - i,
{
    if i < 0 || i >= parts.len() {
        Seq::empty()
    } else if i + 1 == parts.len() {
        parts[i]
    } else {
        parts[i] + sep + joined_from(parts, sep, i + 1)
    }
}

/// Writes `parts[from..]` one after another, with `sep` between neighbours.
pub fn join_from(parts: &Vec<String>, from: usize, sep: &str) -> (text: String)
    ensures
        text@ == joined_from(parts.deep_view(), sep@, from as int),
{
    let mut text = String::new();
    if from >= parts.len() {
        return text;
    }
    let mut k: usize = from;
    while k + 1 < parts.len()
        invariant
            from <= k < parts.len(),
            joined_from(parts.deep_view(), sep@, from as int) == text@ + joined_from(
                parts.deep_view(),
                sep@,
                k as int,
            ),
        decreases parts.len() - k,
    {
        text.append(parts[k].as_str());
        text.append(sep);
        k += 1;
    }
    text.append(parts[k].as_str());
    text
}

/// The character that stands for the digit `d`.
pub open spec fn digit(d: int) -> char {
    seq!['0', '1', '2', '3', '4', '5', '6', '7', '8', '9'][d]
}

/// The decimal digits of `n`, most significant first, without leading zeros.
pub open spec fn digits(n: nat) -> Seq<char>
    decreases n,
{
    if n < 10 {
        seq![digit(n as int)]
    } else {
        digits(n / 10).push(digit((n % 10) as int))
    }
}

/// `n` in decimal: a minus sign where `n` is negative, then the digits of its magnitude.
pub open spec fn decimal(n: int) -> Seq<char> {
    if n < 0 {
        seq!['-'] + digits((-n) as nat)
    } else {
        digits(n as nat)
    }
}

fn digit_of(d: u8) -> (c: char)
    requires
        d < 10,
    ensures
        c == digit(d as int),
{
    (48u8 + d) as char
}

fn push_digits(out: &mut String, n: u64)
    ensures
        final(out)@ == old(out)@ + digits(n as nat),
    decreases n,
{
    if n >= 10 {
        push_digits(out, n / 10);
    }
    out.push(digit_of((n % 10) as u8));
}

/// Writes `n` in decimal.
pub fn decimal_text(n: i32) -> (text: String)
    ensures
        text@ == decimal(n as int),
{
    let mut text = String::new();
    let wide: i64 = n as i64;
    if wide < 0 {
        text.push('-');
        push_digits(&mut text, (-wide) as u64);
    } else {
        push_digits(&mut text, wide as u64);
    }
    text
}

} // verus!
