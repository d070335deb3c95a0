//! Which JSONPath expressions are handed to the evaluator.
//!
//! The evaluator ends the process on some expressions instead of reporting
//! an error. Its source shows where: a slice whose step is zero; inside a
//! filter, a list of keys, a union, a slice, a number that is not finite,
//! and an index or a path from the root where they leave its stack of terms
//! short; and, by running out of stack, an expression that nests too deep.
//!
//! An expression is read here character by character, split into tokens
//! exactly as the evaluator splits it, and refused where it could be one of
//! these. Everything else is handed on: the reader decides nothing about
//! what an expression means, and an expression it passes may still be one
//! that the evaluator reports as malformed.

use vstd::prelude::*;
use vstd::std_specs::iter::IteratorSpec;

verus! {

broadcast use vstd::string::group_string_axioms;

/// The most tokens that open a level of nesting in one expression: dots,
/// opening brackets and parentheses, `@`, `&` and `|`. The evaluator's parser
/// and its walk over the parsed expression recurse at most once for each of
/// them. The number is the depth that the JSON parser grants a document.
pub const MAX_PATH_DEPTH: usize = 128;

/// The most digits in a number inside a filter. A decimal number of so many
/// digits is below the largest finite `f64`.
pub const MAX_NUMBER_DIGITS: usize = 308;

/// Where the reader stands in the token it is in.
#[derive(Debug, Clone, Copy, PartialEq, Eq, Structural)]
pub enum Mode {
    /// Between two tokens.
    Between,
    /// In a key that began with an ordinary character.
    Key,
    /// In a token that began with `$`.
    DollarKey,
    /// In a quoted text.
    Quote,
}

/// Whether the key being read could be the number zero.
#[derive(Debug, Clone, Copy, PartialEq, Eq, Structural)]
pub enum ZeroStep {
    /// It cannot.
    No,
    /// It is a plus sign so far.
    Plus,
    /// It is zeros so far, after at most one plus sign.
    Zeros,
}

/// What the reader knows after some characters of an expression.
#[derive(Debug, Clone, Copy)]
pub struct Scan {
    pub mode: Mode,
    /// In a quoted text: the character that opened it.
    pub quote: char,
    /// In a quoted text: one escaped quote was passed already.
    pub escaped: bool,
    /// In a quoted text: the character before was a backslash.
    pub backslash: bool,
    /// Inside a filter: a `?` was read and its `]` was not.
    pub in_filter: bool,
    /// In a filter, inside a bracket of its own: 1 when a quoted key must
    /// follow, 2 when the key was read and `]` must follow, else 0.
    pub inner: u8,
    /// In a filter, reading a path from the root that is the left side of a
    /// comparison: 1 in the path, 2 behind its operator, else 0.
    pub root: u8,
    /// The token before was a dot.
    pub prev_dot: bool,
    /// The token before, white space apart, was part of a comparison
    /// operator.
    pub after_compare: bool,
    /// Colons since the last `[`, counted up to two.
    pub colons: u8,
    /// In a key behind two colons: whether it could be a step of zero.
    pub zero: ZeroStep,
    /// In a key inside a filter that is read as a number.
    pub numeric: bool,
    /// The digits of that number so far.
    pub digits: usize,
    /// The token before was such a number and ended just here.
    pub after_number: bool,
    /// The tokens before were such a number and a dot.
    pub after_number_dot: bool,
    /// Tokens read that open a level of nesting.
    pub depth: usize,
    /// The expression is refused.
    pub refused: bool,
}

/// Whether the evaluator skips `c` as white space: the characters with the
/// Unicode property `White_Space`, as `char::is_whitespace` tells them.
pub open spec fn is_space(c: char) -> bool {
    ||| ('\u{9}' <= c && c <= '\u{d}')
    ||| c == ' '
    ||| c == '\u{85}'
    ||| c == '\u{a0}'
    ||| c == '\u{1680}'
    ||| ('\u{2000}' <= c && c <= '\u{200a}')
    ||| c == '\u{2028}'
    ||| c == '\u{2029}'
    ||| c == '\u{202f}'
    ||| c == '\u{205f}'
    ||| c == '\u{3000}'
}

/// Whether `c` is a token of its own, or begins an operator, and so ends a
/// key that stands before it.
pub open spec fn is_mark(c: char) -> bool {
    ||| c == '.'
    ||| c == '*'
    ||| c == '['
    ||| c == ']'
    ||| c == '('
    ||| c == ')'
    ||| c == '@'
    ||| c == '?'
    ||| c == ','
    ||| c == ':'
    ||| c == '<'
    ||| c == '>'
    ||| c == '='
    ||| c == '&'
    ||| c == '|'
    ||| c == '!'
}

/// Whether `c` is an ASCII digit.
pub open spec fn is_digit(c: char) -> bool {
    '0' <= c && c <= '9'
}

/// Whether `c` opens a level of nesting.
pub open spec fn opens_level(c: char) -> bool {
    c == '.' || c == '[' || c == '(' || c == '@' || c == '&' || c == '|'
}

/// Whether `c` is part of a comparison operator.
pub open spec fn compares(c: char) -> bool {
    c == '=' || c == '<' || c == '>' || c == '!'
}

/// Whether the mark `c`, read inside a filter, is one that the evaluator
/// cannot take there. A filter holds no `?`, comma or colon. A bracket in it
/// holds one quoted key and nothing else, and does not follow a dot. A path
/// from the root on the left of a comparison holds keys and is compared with
/// another path, never with a literal.
pub open spec fn breaks_filter(s: Scan, c: char) -> bool {
    ||| c == '?'
    ||| c == ','
    ||| c == ':'
    ||| (c == '[' && (s.inner != 0 || s.prev_dot))
    ||| (c == ']' && s.inner == 1)
    ||| (s.inner != 0 && c != '[' && c != ']')
    ||| (s.root == 1 && !(c == '.' || c == '*' || c == '[' || c == ']' || compares(c)))
    ||| (s.root == 2 && !(compares(c) || c == '@'))
}

/// The reader before the first character.
pub open spec fn initial() -> Scan {
    Scan {
        mode: Mode::Between,
        quote: '\'',
        escaped: false,
        backslash: false,
        in_filter: false,
        inner: 0,
        root: 0,
        prev_dot: false,
        after_compare: false,
        colons: 0,
        zero: ZeroStep::No,
        numeric: false,
        digits: 0,
        after_number: false,
        after_number_dot: false,
        depth: 0,
        refused: false,
    }
}

/// The reader after a key has ended. A key behind two colons that reads as
/// zero is a step of zero, and refused.
pub open spec fn end_key(s: Scan) -> Scan {
    Scan {
        mode: Mode::Between,
        zero: ZeroStep::No,
        numeric: false,
        after_number: s.numeric,
        after_number_dot: false,
        refused: s.refused || s.zero == ZeroStep::Zeros,
        ..s
    }
}

/// The reader with what it knew of the token before forgotten.
pub open spec fn between(s: Scan) -> Scan {
    Scan {
        mode: Mode::Between,
        after_number: false,
        after_number_dot: false,
        prev_dot: false,
        ..s
    }
}

/// The reader after the quote `c` that opens a quoted text.
pub open spec fn begin_quote(s: Scan, c: char) -> Scan {
    Scan {
        mode: Mode::Quote,
        quote: c,
        escaped: false,
        backslash: false,
        after_compare: false,
        refused: s.refused || (s.in_filter && (s.inner == 2 || s.root == 2)),
        ..between(s)
    }
}

/// The reader after a `$` that begins a token.
pub open spec fn begin_root(s: Scan) -> Scan {
    Scan {
        mode: Mode::DollarKey,
        root: if s.in_filter && !s.after_compare {
            1
        } else {
            0
        },
        after_compare: false,
        refused: s.refused || (s.in_filter && s.inner != 0),
        ..between(s)
    }
}

/// Whether the reader is inside a filter after the mark `c`.
pub open spec fn filter_after(s: Scan, c: char) -> bool {
    if c == '?' {
        true
    } else if c == ']' && s.inner == 0 {
        false
    } else {
        s.in_filter
    }
}

/// The nesting after the mark `c`.
pub open spec fn depth_after(s: Scan, c: char) -> usize {
    if opens_level(c) {
        (s.depth + 1) as usize
    } else {
        s.depth
    }
}

/// The reader after the mark `c`.
pub open spec fn begin_mark(s: Scan, c: char) -> Scan {
    Scan {
        in_filter: filter_after(s, c),
        inner: if !filter_after(s, c) {
            0
        } else if c == '[' {
            1
        } else if c == ']' {
            0
        } else {
            s.inner
        },
        root: if !filter_after(s, c) {
            0
        } else if s.root == 1 && compares(c) {
            2
        } else if s.root == 2 && c == '@' {
            0
        } else {
            s.root
        },
        prev_dot: c == '.',
        after_compare: compares(c),
        colons: if c == '[' {
            0
        } else if c == ':' && s.colons < 2 {
            (s.colons + 1) as u8
        } else {
            s.colons
        },
        after_number_dot: c == '.' && s.after_number,
        depth: depth_after(s, c),
        refused: s.refused || (s.in_filter && breaks_filter(s, c)) || depth_after(s, c)
            > MAX_PATH_DEPTH,
        ..between(s)
    }
}

/// The reader after `c` that begins a key.
pub open spec fn begin_key(s: Scan, c: char) -> Scan {
    Scan {
        mode: Mode::Key,
        after_compare: false,
        zero: if s.colons < 2 {
            ZeroStep::No
        } else if c == '+' {
            ZeroStep::Plus
        } else if c == '0' {
            ZeroStep::Zeros
        } else {
            ZeroStep::No
        },
        numeric: s.in_filter && (c == '-' || is_digit(c) || s.after_number_dot),
        digits: if is_digit(c) {
            1
        } else {
            0
        },
        refused: s.refused || (s.in_filter && ((s.after_number_dot && !is_digit(c)) || s.inner != 0
            || s.root == 2)),
        ..between(s)
    }
}

/// The reader after `c` was read as the first character of a token.
pub open spec fn begin_token(s: Scan, c: char) -> Scan {
    if is_space(c) {
        between(s)
    } else if c == '\'' || c == '"' {
        begin_quote(s, c)
    } else if c == '$' {
        begin_root(s)
    } else if is_mark(c) {
        begin_mark(s, c)
    } else {
        begin_key(s, c)
    }
}

/// The reader after one more character of a key.
pub open spec fn in_key(s: Scan, c: char) -> Scan {
    let digits = if s.numeric && is_digit(c) {
        (s.digits + 1) as usize
    } else {
        s.digits
    };
    Scan {
        zero: if c == '0' && s.zero != ZeroStep::No {
            ZeroStep::Zeros
        } else {
            ZeroStep::No
        },
        digits,
        refused: s.refused || (s.numeric && (!is_digit(c) || digits > MAX_NUMBER_DIGITS)),
        ..s
    }
}

/// The reader after one more character. Once an expression is refused it
/// stays so.
pub open spec fn step(s: Scan, c: char) -> Scan {
    if s.refused {
        s
    } else {
        match s.mode {
            Mode::Between => begin_token(s, c),
            Mode::Quote => if c != s.quote {
                Scan { backslash: c == '\\', ..s }
            } else if s.backslash && !s.escaped {
                Scan { escaped: true, backslash: false, ..s }
            } else {
                Scan {
                    mode: Mode::Between,
                    inner: if s.inner == 1 {
                        2
                    } else {
                        s.inner
                    },
                    ..s
                }
            },
            Mode::Key => if is_mark(c) || c == '$' || is_space(c) {
                begin_token(end_key(s), c)
            } else {
                in_key(s, c)
            },
            Mode::DollarKey => if is_mark(c) || is_space(c) {
                begin_token(end_key(s), c)
            } else {
                in_key(s, c)
            },
        }
    }
}

/// The reader after the first `n` characters of `path`.
pub open spec fn scan(path: Seq<char>, n: int) -> Scan
    decreases n,
{
    if n <= 0 {
        initial()
    } else {
        step(scan(path, n - 1), path[n - 1])
    }
}

/// Whether an expression is handed to the evaluator: the reader, having read
/// all of it and ended its last key, has not refused it. It refuses, outside
/// quoted text,
/// - a key behind the second colon of a bracket that is zeros after at most
///   one plus sign: a step of zero;
/// - in a filter, that is between a `?` and the `]` that ends it: a `?`, a
///   comma or a colon; a bracket that holds anything but one quoted key, or
///   that follows a dot; a path from the root that is compared with a
///   literal on its right;
/// - in a filter, a key that begins with `-` or a digit, or that follows such
///   a key and a dot, if it holds anything but digits behind its first
///   character or more than `MAX_NUMBER_DIGITS` of them: a number that may
///   not be finite;
/// - more than `MAX_PATH_DEPTH` tokens that open a level of nesting.
pub open spec fn path_supported(path: Seq<char>) -> bool {
    let s = scan(path, path.len() as int);
    !s.refused && !(s.mode == Mode::Key && s.zero == ZeroStep::Zeros)
}

/// The characters of a text, one by one.
pub fn chars_of(text: &str) -> (r: Vec<char>)
    ensures
        r@ == text@,
{
    let mut out: Vec<char> = Vec::new();
    for c in it: text.chars()
        invariant
            out@ == it.seq().take(it.index() as int),
            it.seq() == text@,
    {
        out.push(c);
    }
    out
}

/// Decides `is_space`.
pub fn char_is_space(c: char) -> (r: bool)
    ensures
        r == is_space(c),
{
    ('\u{9}' <= c && c <= '\u{d}') || c == ' ' || c == '\u{85}' || c == '\u{a0}' || c == '\u{1680}'
        || ('\u{2000}' <= c && c <= '\u{200a}') || c == '\u{2028}' || c == '\u{2029}' || c
        == '\u{202f}' || c == '\u{205f}' || c == '\u{3000}'
}

fn char_is_mark(c: char) -> (r: bool)
    ensures
        r == is_mark(c),
{
    c == '.' || c == '*' || c == '[' || c == ']' || c == '(' || c == ')' || c == '@' || c == '?'
        || c == ',' || c == ':' || c == '<' || c == '>' || c == '=' || c == '&' || c == '|' || c
        == '!'
}

fn char_is_digit(c: char) -> (r: bool)
    ensures
        r == is_digit(c),
{
    '0' <= c && c <= '9'
}

fn do_end_key(s: Scan) -> (r: Scan)
    ensures
        r == end_key(s),
{
    let mut r = s;
    r.mode = Mode::Between;
    r.zero = ZeroStep::No;
    r.numeric = false;
    r.after_number = s.numeric;
    r.after_number_dot = false;
    r.refused = s.refused || s.zero == ZeroStep::Zeros;
    r
}

fn do_between(s: Scan) -> (r: Scan)
    ensures
        r == between(s),
{
    let mut r = s;
    r.mode = Mode::Between;
    r.after_number = false;
    r.after_number_dot = false;
    r.prev_dot = false;
    r
}

fn do_begin_quote(s: Scan, c: char) -> (r: Scan)
    ensures
        r == begin_quote(s, c),
{
    let mut r = do_between(s);
    r.mode = Mode::Quote;
    r.quote = c;
    r.escaped = false;
    r.backslash = false;
    r.after_compare = false;
    r.refused = s.refused || (s.in_filter && (s.inner == 2 || s.root == 2));
    r
}

fn do_begin_root(s: Scan) -> (r: Scan)
    ensures
        r == begin_root(s),
{
    let mut r = do_between(s);
    r.mode = Mode::DollarKey;
    r.root = if s.in_filter && !s.after_compare {
        1
    } else {
        0
    };
    r.after_compare = false;
    r.refused = s.refused || (s.in_filter && s.inner != 0);
    r
}

fn char_compares(c: char) -> (r: bool)
    ensures
        r == compares(c),
{
    c == '=' || c == '<' || c == '>' || c == '!'
}

fn mark_breaks_filter(s: Scan, c: char) -> (r: bool)
    ensures
        r == breaks_filter(s, c),
{
    let compare = char_compares(c);
    c == '?' || c == ',' || c == ':' || (c == '[' && (s.inner != 0 || s.prev_dot)) || (c == ']'
        && s.inner == 1) || (s.inner != 0 && c != '[' && c != ']') || (s.root == 1 && !(c == '.'
        || c == '*' || c == '[' || c == ']' || compare)) || (s.root == 2 && !(compare || c == '@'))
}

fn do_begin_mark(s: Scan, c: char) -> (r: Scan)
    requires
        s.depth <= MAX_PATH_DEPTH,
    ensures
        r == begin_mark(s, c),
{
    let compare = char_compares(c);
    let breaks = mark_breaks_filter(s, c);
    let in_filter = if c == '?' {
        true
    } else if c == ']' && s.inner == 0 {
        false
    } else {
        s.in_filter
    };
    let depth: usize = if c == '.' || c == '[' || c == '(' || c == '@' || c == '&' || c == '|' {
        s.depth + 1
    } else {
        s.depth
    };
    let mut r = do_between(s);
    r.in_filter = in_filter;
    r.inner = if !in_filter {
        0
    } else if c == '[' {
        1
    } else if c == ']' {
        0
    } else {
        s.inner
    };
    r.root = if !in_filter {
        0
    } else if s.root == 1 && compare {
        2
    } else if s.root == 2 && c == '@' {
        0
    } else {
        s.root
    };
    r.prev_dot = c == '.';
    r.after_compare = compare;
    r.colons = if c == '[' {
        0
    } else if c == ':' && s.colons < 2 {
        s.colons + 1
    } else {
        s.colons
    };
    r.after_number_dot = c == '.' && s.after_number;
    r.depth = depth;
    r.refused = s.refused || (s.in_filter && breaks) || depth > MAX_PATH_DEPTH;
    r
}

fn do_begin_key(s: Scan, c: char) -> (r: Scan)
    ensures
        r == begin_key(s, c),
{
    let digit = char_is_digit(c);
    let mut r = do_between(s);
    r.mode = Mode::Key;
    r.after_compare = false;
    r.zero = if s.colons < 2 {
        ZeroStep::No
    } else if c == '+' {
        ZeroStep::Plus
    } else if c == '0' {
        ZeroStep::Zeros
    } else {
        ZeroStep::No
    };
    r.numeric = s.in_filter && (c == '-' || digit || s.after_number_dot);
    r.digits = if digit {
        1
    } else {
        0
    };
    r.refused = s.refused || (s.in_filter && ((s.after_number_dot && !digit) || s.inner != 0
        || s.root == 2));
    r
}

fn do_begin_token(s: Scan, c: char) -> (r: Scan)
    requires
        s.depth <= MAX_PATH_DEPTH,
    ensures
        r == begin_token(s, c),
{
    if char_is_space(c) {
        do_between(s)
    } else if c == '\'' || c == '"' {
        do_begin_quote(s, c)
    } else if c == '$' {
        do_begin_root(s)
    } else if char_is_mark(c) {
        do_begin_mark(s, c)
    } else {
        do_begin_key(s, c)
    }
}

fn do_in_key(s: Scan, c: char) -> (r: Scan)
    requires
        s.digits <= MAX_NUMBER_DIGITS,
    ensures
        r == in_key(s, c),
{
    let digit = char_is_digit(c);
    let mut r = s;
    if s.numeric && digit {
        r.digits = s.digits + 1;
    }
    r.zero = if c == '0' && s.zero != ZeroStep::No {
        ZeroStep::Zeros
    } else {
        ZeroStep::No
    };
    r.refused = s.refused || (s.numeric && (!digit || r.digits > MAX_NUMBER_DIGITS));
    r
}

/// What stays within bounds while an expression is not refused.
pub open spec fn bounded(s: Scan) -> bool {
    !s.refused ==> s.depth <= MAX_PATH_DEPTH && s.digits <= MAX_NUMBER_DIGITS
}

fn do_step(s: Scan, c: char) -> (r: Scan)
    requires
        bounded(s),
    ensures
        r == step(s, c),
        bounded(r),
{
    if s.refused {
        return s;
    }
    match s.mode {
        Mode::Between => do_begin_token(s, c),
        Mode::Quote => {
            let mut r = s;
            if c != s.quote {
                r.backslash = c == '\\';
            } else if s.backslash && !s.escaped {
                r.escaped = true;
                r.backslash = false;
            } else {
                r.mode = Mode::Between;
                if s.inner == 1 {
                    r.inner = 2;
                }
            }
            r
        },
        Mode::Key => if char_is_mark(c) || c == '$' || char_is_space(c) {
            do_begin_token(do_end_key(s), c)
        } else {
            do_in_key(s, c)
        },
        Mode::DollarKey => if char_is_mark(c) || char_is_space(c) {
            do_begin_token(do_end_key(s), c)
        } else {
            do_in_key(s, c)
        },
    }
}

/// Decides whether an expression is handed to the evaluator.
pub fn path_is_supported(path: &str) -> (r: bool)
    ensures
        r == path_supported(path@),
{
    let chars = chars_of(path);
    let mut s = Scan {
        mode: Mode::Between,
        quote: '\'',
        escaped: false,
        backslash: false,
        in_filter: false,
        inner: 0,
        root: 0,
        prev_dot: false,
        after_compare: false,
        colons: 0,
        zero: ZeroStep::No,
        numeric: false,
        digits: 0,
        after_number: false,
        after_number_dot: false,
        depth: 0,
        refused: false,
    };
    let mut i: usize = 0;
    while i < chars.len()
        invariant
            i <= chars.len(),
            chars@ == path@,
            s == scan(path@, i as int),
            bounded(s),
        decreases chars.len() - i,
    {
        s = do_step(s, chars[i]);
        i = i + 1;
    }
    !s.refused && !(s.mode == Mode::Key && s.zero == ZeroStep::Zeros)
}

} // verus!
