//! A guard over protocol source text, run before the text is handed to the
//! tx3 compiler. The compiler's grammar accepts hexadecimal and numeric
//! literals of any length, but building the syntax tree aborts on some of
//! them instead of reporting an error: the hex run of a
//! transaction-output reference `0x…#n` must have even length and its
//! index must fit 64 unsigned bits, a hex string must have even length,
//! and a number literal must fit 64 signed bits. The output-reference rule
//! is also not atomic, so the grammar admits whitespace and comments
//! between its tokens, and the tree builder aborts on any such trivia: the
//! slice it decodes then holds more than hex digits. The scan therefore
//! accepts `#` only as the joint of a fully adjacent, well-formed output
//! reference, and rejects an index run that would extend across trivia;
//! every other `#` outside comments and strings is rejected, which is
//! conservative only for text the compiler cannot parse anyway, since the
//! grammar uses `#` nowhere else. The scan bounds every literal of those
//! shapes, skipping comments, strings and identifiers the way the grammar
//! does, so text that passes cannot reach those aborts; text that fails is
//! reported as a compilation error instead of being compiled. One more
//! conservatism: a number literal is bounded by the positive range, since
//! whether a preceding minus sign belongs to the literal or is an operator
//! cannot be told from the text alone, so the one literal of the most
//! negative 64-bit value is rejected too.

use vstd::prelude::*;
use crate::parse::{digits_val, fits_i128, int_body, int_literal_value, is_ascii_digit,
    is_int_literal, parse_i128};

verus! {

/// True of the ASCII hexadecimal digits, both cases.
pub open spec fn is_hex_char(c: char) -> bool {
    is_ascii_digit(c) || (97 <= c as u32 <= 102) || (65 <= c as u32 <= 70)
}

/// True of the characters that can open an identifier.
pub open spec fn is_ident_start(c: char) -> bool {
    (97 <= c as u32 <= 122) || (65 <= c as u32 <= 90)
}

/// True of the characters that can continue an identifier.
pub open spec fn is_ident_char(c: char) -> bool {
    is_ident_start(c) || is_ascii_digit(c) || c == '_'
}

/// The character classes the scan advances over.
#[derive(Clone, Copy, Debug, PartialEq, Eq, Structural)]
pub enum CharClass {
    Digit,
    HexDigit,
    IdentChar,
    NotNewline,
    NotQuote,
}

/// The predicate of each character class.
pub open spec fn class_pred(k: CharClass) -> spec_fn(char) -> bool {
    match k {
        CharClass::Digit => |c: char| is_ascii_digit(c),
        CharClass::HexDigit => |c: char| is_hex_char(c),
        CharClass::IdentChar => |c: char| is_ident_char(c),
        CharClass::NotNewline => |c: char| c != '\n',
        CharClass::NotQuote => |c: char| c != '"',
    }
}

/// How many consecutive characters from position `i` satisfy `p`.
pub open spec fn count_while(s: Seq<char>, i: int, p: spec_fn(char) -> bool) -> nat
    decreases s.len() - i,
{
    if 0 <= i < s.len() && p(s[i]) {
        1 + count_while(s, i + 1, p)
    } else {
        0
    }
}

/// How many characters stand from position `i` to just past the closing
/// `*/` of a block comment, or to the end when it never closes.
pub open spec fn count_to_block_close(s: Seq<char>, i: int) -> nat
    decreases s.len() - i,
{
    if !(0 <= i < s.len()) {
        0
    } else if s[i] == '*' && i + 1 < s.len() && s[i + 1] == '/' {
        2
    } else {
        1 + count_to_block_close(s, i + 1)
    }
}

proof fn lemma_count_while_in_range(s: Seq<char>, i: int, p: spec_fn(char) -> bool)
    requires
        0 <= i <= s.len(),
    ensures
        i + count_while(s, i, p) <= s.len(),
    decreases s.len() - i,
{
    if i < s.len() && p(s[i]) {
        lemma_count_while_in_range(s, i + 1, p);
    }
}

/// A run's length is determined by its characters: every character before
/// the end satisfies the predicate and the end is the text's end or a
/// character that does not.
proof fn lemma_count_while_is(s: Seq<char>, i: int, p: spec_fn(char) -> bool, c: int)
    requires
        0 <= i,
        i + c <= s.len(),
        0 <= c,
        forall|j: int| i <= j < i + c ==> p(#[trigger] s[j]),
        i + c < s.len() ==> !p(s[i + c]),
    ensures
        count_while(s, i, p) == c,
    decreases c,
{
    if c > 0 {
        assert(p(s[i]));
        lemma_count_while_is(s, i + 1, p, c - 1);
    }
}

proof fn lemma_count_to_block_close_in_range(s: Seq<char>, i: int)
    requires
        0 <= i <= s.len(),
    ensures
        i + count_to_block_close(s, i) <= s.len(),
    decreases s.len() - i,
{
    if i < s.len() && !(s[i] == '*' && i + 1 < s.len() && s[i + 1] == '/') {
        lemma_count_to_block_close_in_range(s, i + 1);
    }
}

/// The position of the next character that is not whitespace or a
/// comment, from `i` on. A line of three slashes is not a comment to the
/// grammar (it is a doc line), so it does not count as trivia here
/// either.
pub open spec fn trivia_end(s: Seq<char>, i: int) -> int
    decreases s.len() - i,
    via trivia_end_decreases
{
    if !(0 <= i < s.len()) {
        i
    } else if s[i] == ' ' || s[i] == '\t' || s[i] == '\n' || s[i] == '\r' {
        trivia_end(s, i + 1)
    } else if s[i] == '/' && i + 1 < s.len() && s[i + 1] == '/' && !(i + 2 < s.len() && s[i + 2]
        == '/') {
        trivia_end(s, i + 2 + count_while(s, i + 2, class_pred(CharClass::NotNewline)))
    } else if s[i] == '/' && i + 1 < s.len() && s[i + 1] == '*' {
        trivia_end(s, i + 2 + count_to_block_close(s, i + 2))
    } else {
        i
    }
}

#[via_fn]
proof fn trivia_end_decreases(s: Seq<char>, i: int) {
    if 0 <= i < s.len() {
        if s[i] == '/' && i + 1 < s.len() && (s[i + 1] == '/' || s[i + 1] == '*') {
            lemma_count_while_in_range(s, i + 2, class_pred(CharClass::NotNewline));
            lemma_count_to_block_close_in_range(s, i + 2);
        }
    }
}

/// Finds the next character that is not whitespace or a comment.
fn skip_trivia(s: &str, n: usize, start: usize) -> (r: usize)
    requires
        start <= n,
        n == s@.len(),
    ensures
        start <= r <= n,
        r == trivia_end(s@, start as int),
{
    let mut j = start;
    while j < n
        invariant
            start <= j <= n,
            n == s@.len(),
            trivia_end(s@, start as int) == trivia_end(s@, j as int),
        decreases n - j,
    {
        let c = s.get_char(j);
        if c == ' ' || c == '\t' || c == '\n' || c == '\r' {
            j += 1;
        } else if c == '/' && n - j >= 2 && s.get_char(j + 1) == '/' && !(n - j >= 3 && s.get_char(
            j + 2,
        ) == '/') {
            j = scan_while(s, n, j + 2, CharClass::NotNewline);
        } else if c == '/' && n - j >= 2 && s.get_char(j + 1) == '*' {
            j = scan_block_close(s, n, j + 2);
        } else {
            return j;
        }
    }
    n
}

/// The bound the grammar's output index must meet: it is parsed into 64
/// unsigned bits.
pub open spec fn index_bound() -> int {
    u64::MAX as int
}

/// The bound a number literal must meet: it is parsed into 64 signed bits.
pub open spec fn number_bound() -> int {
    i64::MAX as int
}

/// The scan from position `i` on: comments, strings and identifiers are
/// skipped; a `0x` hex run must have even length, and when `#` and an
/// index follow (an output reference) the index must fit its bound; a
/// bare digit run must fit the number bound.
pub open spec fn literals_ok_from(s: Seq<char>, i: int) -> bool
    decreases s.len() - i,
    via literals_ok_from_decreases
{
    if !(0 <= i < s.len()) {
        true
    } else if s[i] == '/' && i + 1 < s.len() && s[i + 1] == '/' {
        literals_ok_from(s, i + 2 + count_while(s, i + 2, class_pred(CharClass::NotNewline)))
    } else if s[i] == '/' && i + 1 < s.len() && s[i + 1] == '*' {
        literals_ok_from(s, i + 2 + count_to_block_close(s, i + 2))
    } else if s[i] == '"' {
        let c = count_while(s, i + 1, class_pred(CharClass::NotQuote));
        if i + 1 + c < s.len() {
            literals_ok_from(s, i + 2 + c)
        } else {
            true
        }
    } else if is_ident_start(s[i]) {
        literals_ok_from(s, i + 1 + count_while(s, i + 1, class_pred(CharClass::IdentChar)))
    } else if s[i] == '0' && i + 2 < s.len() && s[i + 1] == 'x' && is_hex_char(s[i + 2]) {
        let h = i + 2 + count_while(s, i + 2, class_pred(CharClass::HexDigit));
        if (h - (i + 2)) % 2 != 0 {
            false
        } else if h + 1 < s.len() && s[h] == '#' && is_ascii_digit(s[h + 1]) {
            let d = h + 1 + count_while(s, h + 1, class_pred(CharClass::Digit));
            let q = trivia_end(s, d);
            digits_val(s.subrange(h + 1, d)) <= index_bound() && !(q < s.len() && is_ascii_digit(
                s[q],
            )) && literals_ok_from(s, d)
        } else {
            literals_ok_from(s, h)
        }
    } else if is_ascii_digit(s[i]) {
        let d = i + 1 + count_while(s, i + 1, class_pred(CharClass::Digit));
        digits_val(s.subrange(i, d)) <= number_bound() && literals_ok_from(s, d)
    } else if s[i] == '#' {
        false
    } else {
        literals_ok_from(s, i + 1)
    }
}

#[via_fn]
proof fn literals_ok_from_decreases(s: Seq<char>, i: int) {
    if 0 <= i < s.len() {
        if s[i] == '/' && i + 1 < s.len() && (s[i + 1] == '/' || s[i + 1] == '*') {
            lemma_count_while_in_range(s, i + 2, class_pred(CharClass::NotNewline));
            lemma_count_to_block_close_in_range(s, i + 2);
        } else if s[i] == '"' {
        } else if is_ident_start(s[i]) {
            lemma_count_while_in_range(s, i + 1, class_pred(CharClass::IdentChar));
        } else if s[i] == '0' && i + 2 < s.len() && s[i + 1] == 'x' && is_hex_char(s[i + 2]) {
            lemma_count_while_in_range(s, i + 2, class_pred(CharClass::HexDigit));
            let h = i + 2 + count_while(s, i + 2, class_pred(CharClass::HexDigit));
            if h + 1 < s.len() {
                lemma_count_while_in_range(s, h + 1, class_pred(CharClass::Digit));
            }
        } else if is_ascii_digit(s[i]) {
            lemma_count_while_in_range(s, i + 1, class_pred(CharClass::Digit));
        }
    }
}

/// True when every hex and numeric literal shape of the text is within
/// the bounds the compiler's syntax-tree construction demands.
pub open spec fn literals_bounded(s: Seq<char>) -> bool {
    literals_ok_from(s, 0)
}

/// Whether one character can open an identifier.
fn ident_start_test(c: char) -> (r: bool)
    ensures
        r == is_ident_start(c),
{
    let u = c as u32;
    (97 <= u && u <= 122) || (65 <= u && u <= 90)
}

/// Whether one character is in a class.
fn class_test(k: CharClass, c: char) -> (r: bool)
    ensures
        r == class_pred(k)(c),
{
    let u = c as u32;
    match k {
        CharClass::Digit => 48 <= u && u <= 57,
        CharClass::HexDigit => (48 <= u && u <= 57) || (97 <= u && u <= 102) || (65 <= u && u
            <= 70),
        CharClass::IdentChar => (97 <= u && u <= 122) || (65 <= u && u <= 90) || (48 <= u && u
            <= 57) || u == 95,
        CharClass::NotNewline => c != '\n',
        CharClass::NotQuote => c != '"',
    }
}

/// The end of the run of characters of a class, from `start` on.
fn scan_while(s: &str, n: usize, start: usize, k: CharClass) -> (r: usize)
    requires
        start <= n,
        n == s@.len(),
    ensures
        start <= r <= n,
        r - start == count_while(s@, start as int, class_pred(k)),
        forall|j: int| start <= j < r ==> class_pred(k)(#[trigger] s@[j]),
        r < n ==> !class_pred(k)(s@[r as int]),
    decreases n - start,
{
    let mut j = start;
    while j < n && class_test(k, s.get_char(j))
        invariant
            start <= j <= n,
            n == s@.len(),
            forall|l: int| start <= l < j ==> class_pred(k)(#[trigger] s@[l]),
        decreases n - j,
    {
        j += 1;
    }
    proof {
        lemma_count_while_is(s@, start as int, class_pred(k), j - start);
    }
    j
}

/// The position just past the closing `*/`, or the end of the text.
fn scan_block_close(s: &str, n: usize, start: usize) -> (r: usize)
    requires
        start <= n,
        n == s@.len(),
    ensures
        start <= r <= n,
        r - start == count_to_block_close(s@, start as int),
{
    let mut j = start;
    while j < n
        invariant
            start <= j <= n,
            n == s@.len(),
            count_to_block_close(s@, start as int) == (j - start) + count_to_block_close(
                s@,
                j as int,
            ),
        decreases n - j,
    {
        if s.get_char(j) == '*' && j + 1 < n && s.get_char(j + 1) == '/' {
            proof {
                assert(count_to_block_close(s@, j as int) == 2);
            }
            return j + 2;
        }
        j += 1;
    }
    n
}

/// A run of decimal digits read as an integer literal: it is well formed,
/// unsigned, and its value is the digit value.
proof fn lemma_digit_run_literal(run: Seq<char>)
    requires
        run.len() > 0,
        forall|j: int| 0 <= j < run.len() ==> is_ascii_digit(#[trigger] run[j]),
    ensures
        is_int_literal(run),
        int_literal_value(run) == digits_val(run),
        digits_val(run) >= 0,
{
    assert(is_ascii_digit(run[0]));
    assert(run[0] != '+' && run[0] != '-');
    assert(int_body(run) =~= run);
    crate::parse::lemma_digits_val_nonneg(run);
}

/// Whether the digits from `start` to `end` read as a value within
/// `bound`.
fn digit_run_within(s: &str, start: usize, end: usize, bound: i128) -> (r: bool)
    requires
        start < end <= s@.len(),
        forall|j: int| start <= j < end ==> is_ascii_digit(#[trigger] s@[j]),
    ensures
        r == (digits_val(s@.subrange(start as int, end as int)) <= bound),
{
    let run = s.substring_char(start, end);
    proof {
        lemma_digit_run_literal(run@);
    }
    match parse_i128(run) {
        Some(v) => v <= bound,
        None => {
            proof {
                assert(!fits_i128(digits_val(run@)));
            }
            false
        },
    }
}

/// Scans a protocol source text for hex and numeric literal shapes outside
/// the bounds the compiler demands of them.
pub fn source_literals_bounded(s: &str) -> (r: bool)
    ensures
        r == literals_bounded(s@),
{
    let n = s.unicode_len();
    let mut i: usize = 0;
    while i < n
        invariant
            i <= n,
            n == s@.len(),
            literals_bounded(s@) == literals_ok_from(s@, i as int),
        decreases n - i,
    {
        let c = s.get_char(i);
        if c == '/' && n - i >= 2 && s.get_char(i + 1) == '/' {
            i = scan_while(s, n, i + 2, CharClass::NotNewline);
        } else if c == '/' && n - i >= 2 && s.get_char(i + 1) == '*' {
            i = scan_block_close(s, n, i + 2);
        } else if c == '"' {
            let e = scan_while(s, n, i + 1, CharClass::NotQuote);
            if e < n {
                i = e + 1;
            } else {
                return true;
            }
        } else if ident_start_test(c) {
            i = scan_while(s, n, i + 1, CharClass::IdentChar);
        } else if c == '0' && n - i >= 3 && s.get_char(i + 1) == 'x' && class_test(
            CharClass::HexDigit,
            s.get_char(i + 2),
        ) {
            let h = scan_while(s, n, i + 2, CharClass::HexDigit);
            if (h - (i + 2)) % 2 != 0 {
                return false;
            }
            if n - h >= 2 && s.get_char(h) == '#' && class_test(
                CharClass::Digit,
                s.get_char(h + 1),
            ) {
                let d = scan_while(s, n, h + 1, CharClass::Digit);
                if !digit_run_within(s, h + 1, d, u64::MAX as i128) {
                    return false;
                }
                let q = skip_trivia(s, n, d);
                if q < n && class_test(CharClass::Digit, s.get_char(q)) {
                    return false;
                }
                i = d;
            } else {
                i = h;
            }
        } else if class_test(CharClass::Digit, c) {
            let d = scan_while(s, n, i + 1, CharClass::Digit);
            proof {
                assert(s@.subrange(i as int, d as int) =~= seq![s@[i as int]] + s@.subrange(
                    i + 1,
                    d as int,
                ));
            }
            if !digit_run_within(s, i, d, i64::MAX as i128) {
                return false;
            }
            i = d;
        } else if c == '#' {
            return false;
        } else {
            i = i + 1;
        }
    }
    true
}

} // verus!
