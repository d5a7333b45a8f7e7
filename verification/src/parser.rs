//! The lexical layer: recognizers for whitespace, comments, literal tokens,
//! numbers and identifiers.
//!
//! Every recognizer takes the source text and a character position and, on a
//! match, returns the position just past what it consumed. Each one is proved
//! equal to a spec function over `Seq<char>`, so a caller knows exactly which
//! inputs match, what is consumed, and what value is produced. On failure
//! nothing is consumed: the caller retries an alternative from the same
//! position.

use vstd::prelude::*;
use vstd::string::StrSliceExecFns;

verus! {

/// Whether a non-ASCII character has the Unicode White_Space property; the
/// part of `char::is_whitespace` that only the Unicode tables can state.
pub uninterp spec fn is_space_beyond_ascii(c: char) -> bool;

/// Whether a non-ASCII character has the Unicode Alphabetic property; the
/// part of `char::is_alphabetic` that only the Unicode tables can state.
pub uninterp spec fn is_alpha_beyond_ascii(c: char) -> bool;

/// Whether a non-ASCII character has a numeric general category; the part of
/// `char::is_numeric` that only the Unicode tables can state.
pub uninterp spec fn is_numeric_beyond_ascii(c: char) -> bool;

/// Whether a character counts as whitespace. Among ASCII these are the
/// characters 0x09 to 0x0D (tab, line feed, vertical tab, form feed,
/// carriage return) and 0x20 (space).
#[verifier::opaque]
pub open spec fn is_space(c: char) -> bool {
    if (c as u32) < 128 {
        9 <= c as u32 <= 13 || c as u32 == 32
    } else {
        is_space_beyond_ascii(c)
    }
}

/// Whether a character is alphabetic. Among ASCII these are the letters
/// 'a' to 'z' and 'A' to 'Z'.
#[verifier::opaque]
pub open spec fn is_alpha(c: char) -> bool {
    if (c as u32) < 128 {
        97 <= c as u32 <= 122 || 65 <= c as u32 <= 90
    } else {
        is_alpha_beyond_ascii(c)
    }
}

/// Whether a character is alphanumeric: alphabetic, or of a numeric general
/// category. Among ASCII the numeric characters are the digits '0' to '9'.
#[verifier::opaque]
pub open spec fn is_alnum(c: char) -> bool {
    is_alpha(c) || (if (c as u32) < 128 {
        48 <= c as u32 <= 57
    } else {
        is_numeric_beyond_ascii(c)
    })
}

/// Relies on char::is_whitespace: true exactly on the code points with the
/// Unicode White_Space property; among ASCII these are the characters
/// 0x09 to 0x0D and 0x20.
#[verifier::external_body]
pub(crate) fn char_is_space(c: char) -> (r: bool)
    ensures
        r == is_space(c),
        (c as u32) >= 128 ==> r == is_space_beyond_ascii(c),
{
    c.is_whitespace()
}

/// Relies on char::is_alphabetic: true exactly on the code points with the
/// Unicode Alphabetic property; among ASCII these are the letters.
#[verifier::external_body]
pub(crate) fn char_is_alpha(c: char) -> (r: bool)
    ensures
        r == is_alpha(c),
        (c as u32) >= 128 ==> r == is_alpha_beyond_ascii(c),
{
    c.is_alphabetic()
}

/// Relies on char::is_alphanumeric: true exactly on code points that are
/// Alphabetic or have a numeric general category; among ASCII the numeric
/// ones are the digits '0' to '9'.
#[verifier::external_body]
pub(crate) fn char_is_alnum(c: char) -> (r: bool)
    ensures
        r == is_alnum(c),
        (c as u32) >= 128 ==> (r == (is_alpha_beyond_ascii(c) || is_numeric_beyond_ascii(c))),
{
    c.is_alphanumeric()
}

/// Whether a character is an ASCII digit.
pub open spec fn is_digit(c: char) -> bool {
    48 <= c as u32 <= 57
}

/// The numeric value of an ASCII digit.
pub open spec fn digit_val(c: char) -> int {
    c as u32 - 48
}

/// Whether a character may start an identifier.
pub open spec fn is_id_start(c: char) -> bool {
    is_alpha(c) || c == '_'
}

/// Whether a character may continue an identifier.
pub open spec fn is_id_cont(c: char) -> bool {
    is_alnum(c) || c == '_'
}

fn is_digit_exec(c: char) -> (r: bool)
    ensures
        r == is_digit(c),
{
    let u = c as u32;
    48 <= u && u <= 57
}

fn is_id_cont_exec(c: char) -> (r: bool)
    ensures
        r == is_id_cont(c),
{
    char_is_alnum(c) || c == '_'
}

/// The end of the maximal whitespace run starting at `pos`.
pub open spec fn ws_run_end(s: Seq<char>, pos: int) -> int
    decreases s.len() - pos,
{
    if 0 <= pos < s.len() && is_space(s[pos]) {
        ws_run_end(s, pos + 1)
    } else {
        pos
    }
}

/// What the whitespace recognizer returns: the position past a maximal run of
/// one or more whitespace characters, or no match if the first character is
/// not whitespace.
pub open spec fn spec_whitespace(s: Seq<char>, pos: int) -> Option<int> {
    if 0 <= pos < s.len() && is_space(s[pos]) {
        Some(ws_run_end(s, pos))
    } else {
        None
    }
}

/// The position just past the newline that ends a line comment's text, or the
/// end of the input if no newline follows.
pub open spec fn line_comment_end(s: Seq<char>, pos: int) -> int
    decreases s.len() - pos,
{
    if 0 <= pos < s.len() {
        if s[pos] == '\n' {
            pos + 1
        } else {
            line_comment_end(s, pos + 1)
        }
    } else {
        s.len() as int
    }
}

/// What the line-comment recognizer returns: on "//", everything through the
/// next newline (or to the end of the input) is consumed.
pub open spec fn spec_single_line_comment(s: Seq<char>, pos: int) -> Option<int> {
    if 0 <= pos && pos + 1 < s.len() && s[pos] == '/' && s[pos + 1] == '/' {
        Some(line_comment_end(s, pos + 2))
    } else {
        None
    }
}

/// The position just past the first closing "*/" at or after `pos`, if any.
pub open spec fn block_comment_close(s: Seq<char>, pos: int) -> Option<int>
    decreases s.len() - pos,
{
    if 0 <= pos && pos + 1 < s.len() {
        if s[pos] == '*' && s[pos + 1] == '/' {
            Some(pos + 2)
        } else {
            block_comment_close(s, pos + 1)
        }
    } else {
        None
    }
}

/// What the block-comment recognizer returns: on "/*", everything through the
/// matching "*/" is consumed; an unterminated block comment is no match at
/// all.
pub open spec fn spec_multi_line_comment(s: Seq<char>, pos: int) -> Option<int> {
    if 0 <= pos && pos + 1 < s.len() && s[pos] == '/' && s[pos + 1] == '*' {
        block_comment_close(s, pos + 2)
    } else {
        None
    }
}

/// What the comment recognizer returns: a line comment, or else a block
/// comment.
pub open spec fn spec_comments(s: Seq<char>, pos: int) -> Option<int> {
    match spec_single_line_comment(s, pos) {
        Some(p) => Some(p),
        None => spec_multi_line_comment(s, pos),
    }
}

/// One unit of ignorable content: whitespace, or else a comment.
pub open spec fn spec_ws_or_comment(s: Seq<char>, pos: int) -> Option<int> {
    match spec_whitespace(s, pos) {
        Some(p) => Some(p),
        None => spec_comments(s, pos),
    }
}

/// The position after all ignorable content (whitespace and comments)
/// starting at `pos`.
pub open spec fn ignored_end(s: Seq<char>, pos: int) -> int
    decreases s.len() - pos,
{
    if 0 <= pos <= s.len() {
        match spec_ws_or_comment(s, pos) {
            Some(p) => if pos < p <= s.len() {
                ignored_end(s, p)
            } else {
                pos
            },
            None => pos,
        }
    } else {
        pos
    }
}

/// What the ignored-content recognizer returns: it always succeeds, consuming
/// zero or more units of whitespace or comment.
pub open spec fn spec_ignored(s: Seq<char>, pos: int) -> Option<int> {
    Some(ignored_end(s, pos))
}

/// What the raw token recognizer returns: the literal `tok` as an exact
/// prefix at `pos`; with `boundary` set, the literal must be followed by
/// whitespace (which is consumed too) or by the end of the input.
pub open spec fn spec_token_base(s: Seq<char>, pos: int, tok: Seq<char>, boundary: bool) -> Option<
    int,
> {
    if 0 <= pos && pos + tok.len() <= s.len() && s.subrange(pos, pos + tok.len() as int) == tok {
        let e = pos + tok.len() as int;
        if !boundary {
            Some(e)
        } else if e == s.len() {
            Some(e)
        } else if is_space(s[e]) {
            Some(e + 1)
        } else {
            None
        }
    } else {
        None
    }
}

/// What the token recognizer returns: the raw token, then all following
/// ignorable content, consumed as one atomic step.
pub open spec fn spec_token(s: Seq<char>, pos: int, tok: Seq<char>, boundary: bool) -> Option<int> {
    match spec_token_base(s, pos, tok, boundary) {
        Some(e) => Some(ignored_end(s, e)),
        None => None,
    }
}

/// The end of the maximal digit run starting at `pos`.
pub open spec fn digits_end(s: Seq<char>, pos: int) -> int
    decreases s.len() - pos,
{
    if 0 <= pos < s.len() && is_digit(s[pos]) {
        digits_end(s, pos + 1)
    } else {
        pos
    }
}

/// The value of the digit run `s[pos..end]` read in base ten.
pub open spec fn digits_val(s: Seq<char>, pos: int, end: int) -> int
    decreases end - pos,
{
    if pos < end {
        digits_val(s, pos, end - 1) * 10 + digit_val(s[end - 1])
    } else {
        0
    }
}

/// What the raw number recognizer returns: the maximal digit run at `pos`, at
/// least one digit, read as a base-ten signed 64-bit value. A run whose value
/// exceeds `i64::MAX` is no match: overflow is rejected, never wrapped.
pub open spec fn spec_number_base(s: Seq<char>, pos: int) -> Option<(int, int)> {
    let e = digits_end(s, pos);
    if e == pos {
        None
    } else if digits_val(s, pos, e) > i64::MAX {
        None
    } else {
        Some((e, digits_val(s, pos, e)))
    }
}

/// What the number recognizer returns: a raw number, then all following
/// ignorable content. No word boundary is required: digits followed by
/// letters still yield the number, with the letters left unconsumed.
pub open spec fn spec_number(s: Seq<char>, pos: int) -> Option<(int, int)> {
    match spec_number_base(s, pos) {
        Some((e, v)) => Some((ignored_end(s, e), v)),
        None => None,
    }
}

/// The end of the maximal identifier-continuation run starting at `pos`.
pub open spec fn id_cont_end(s: Seq<char>, pos: int) -> int
    decreases s.len() - pos,
{
    if 0 <= pos < s.len() && is_id_cont(s[pos]) {
        id_cont_end(s, pos + 1)
    } else {
        pos
    }
}

/// What the raw identifier recognizer returns: an alphabetic character or
/// underscore, then a maximal run of alphanumeric characters or underscores;
/// the value is the identifier itself.
pub open spec fn spec_id_base(s: Seq<char>, pos: int) -> Option<(int, Seq<char>)> {
    if 0 <= pos < s.len() && is_id_start(s[pos]) {
        let e = id_cont_end(s, pos + 1);
        Some((e, s.subrange(pos, e)))
    } else {
        None
    }
}

/// What the identifier recognizer returns: a raw identifier, then all
/// following ignorable content.
pub open spec fn spec_id(s: Seq<char>, pos: int) -> Option<(int, Seq<char>)> {
    match spec_id_base(s, pos) {
        Some((e, name)) => Some((ignored_end(s, e), name)),
        None => None,
    }
}

/// Matches a maximal run of one or more whitespace characters.
pub fn whitespace(source: &str, pos: usize) -> (r: Option<usize>)
    requires
        pos <= source@.len(),
    ensures
        match r {
            Some(p) => spec_whitespace(source@, pos as int) == Some(p as int) && pos < p
                <= source@.len(),
            None => spec_whitespace(source@, pos as int) is None,
        },
{
    let len = source.unicode_len();
    if pos == len {
        return None;
    }
    if !char_is_space(source.get_char(pos)) {
        return None;
    }
    let mut i: usize = pos + 1;
    while i < len && char_is_space(source.get_char(i))
        invariant
            pos < i <= len,
            len == source@.len(),
            ws_run_end(source@, pos as int) == ws_run_end(source@, i as int),
        decreases len - i,
    {
        i += 1;
    }
    Some(i)
}

/// Matches a line comment: "//" through the next newline or the end of the
/// input.
pub fn single_line_comment(source: &str, pos: usize) -> (r: Option<usize>)
    requires
        pos <= source@.len(),
    ensures
        match r {
            Some(p) => spec_single_line_comment(source@, pos as int) == Some(p as int) && pos < p
                <= source@.len(),
            None => spec_single_line_comment(source@, pos as int) is None,
        },
{
    let len = source.unicode_len();
    if len - pos < 2 {
        return None;
    }
    if source.get_char(pos) != '/' || source.get_char(pos + 1) != '/' {
        return None;
    }
    let mut i: usize = pos + 2;
    while i < len && source.get_char(i) != '\n'
        invariant
            pos + 2 <= i <= len,
            len == source@.len(),
            line_comment_end(source@, pos + 2) == line_comment_end(source@, i as int),
        decreases len - i,
    {
        i += 1;
    }
    if i < len {
        Some(i + 1)
    } else {
        Some(i)
    }
}

/// Matches a block comment: "/*" through the matching "*/". An unterminated
/// block comment is no match.
pub fn multi_line_comment(source: &str, pos: usize) -> (r: Option<usize>)
    requires
        pos <= source@.len(),
    ensures
        match r {
            Some(p) => spec_multi_line_comment(source@, pos as int) == Some(p as int) && pos < p
                <= source@.len(),
            None => spec_multi_line_comment(source@, pos as int) is None,
        },
{
    let len = source.unicode_len();
    if len - pos < 2 {
        return None;
    }
    if source.get_char(pos) != '/' || source.get_char(pos + 1) != '*' {
        return None;
    }
    let mut i: usize = pos + 2;
    while i < len - 1 && !(source.get_char(i) == '*' && source.get_char(i + 1) == '/')
        invariant
            pos + 2 <= i <= len,
            len == source@.len(),
            block_comment_close(source@, pos + 2) == block_comment_close(source@, i as int),
        decreases len - i,
    {
        i += 1;
    }
    if i < len - 1 {
        Some(i + 2)
    } else {
        None
    }
}

/// Matches a comment of either kind.
pub fn comments(source: &str, pos: usize) -> (r: Option<usize>)
    requires
        pos <= source@.len(),
    ensures
        match r {
            Some(p) => spec_comments(source@, pos as int) == Some(p as int) && pos < p
                <= source@.len(),
            None => spec_comments(source@, pos as int) is None,
        },
{
    match single_line_comment(source, pos) {
        Some(p) => Some(p),
        None => multi_line_comment(source, pos),
    }
}

/// Matches one unit of ignorable content: whitespace or a comment.
pub fn ws_or_comment(source: &str, pos: usize) -> (r: Option<usize>)
    requires
        pos <= source@.len(),
    ensures
        match r {
            Some(p) => spec_ws_or_comment(source@, pos as int) == Some(p as int) && pos < p
                <= source@.len(),
            None => spec_ws_or_comment(source@, pos as int) is None,
        },
{
    match whitespace(source, pos) {
        Some(p) => Some(p),
        None => comments(source, pos),
    }
}

/// Consumes all ignorable content at `pos` and returns the position after it.
pub fn skip_ignored(source: &str, pos: usize) -> (r: usize)
    requires
        pos <= source@.len(),
    ensures
        r as int == ignored_end(source@, pos as int),
        pos <= r <= source@.len(),
{
    let mut i: usize = pos;
    loop
        invariant
            pos <= i <= source@.len(),
            ignored_end(source@, pos as int) == ignored_end(source@, i as int),
        decreases source@.len() - i,
    {
        match ws_or_comment(source, i) {
            Some(p) => {
                i = p;
            },
            None => {
                return i;
            },
        }
    }
}

/// Matches zero or more units of ignorable content; always succeeds.
pub fn ignored(source: &str, pos: usize) -> (r: Option<usize>)
    requires
        pos <= source@.len(),
    ensures
        match r {
            Some(p) => spec_ignored(source@, pos as int) == Some(p as int) && pos <= p
                <= source@.len(),
            None => false,
        },
{
    Some(skip_ignored(source, pos))
}

/// Matches the literal `tok` as an exact prefix at `pos`. With `boundary`
/// set, the literal must be followed by whitespace or the end of the input;
/// the whitespace character is consumed.
pub fn token_base(source: &str, pos: usize, tok: &str, boundary: bool) -> (r: Option<usize>)
    requires
        pos <= source@.len(),
    ensures
        match r {
            Some(p) => spec_token_base(source@, pos as int, tok@, boundary) == Some(p as int) && pos
                + tok@.len() <= p <= source@.len(),
            None => spec_token_base(source@, pos as int, tok@, boundary) is None,
        },
{
    let len = source.unicode_len();
    let tlen = tok.unicode_len();
    if tlen > len - pos {
        return None;
    }
    let mut j: usize = 0;
    while j < tlen && source.get_char(pos + j) == tok.get_char(j)
        invariant
            0 <= j <= tlen,
            tlen == tok@.len(),
            len == source@.len(),
            pos + tlen <= len,
            forall|k: int| 0 <= k < j ==> source@[pos + k] == tok@[k],
        decreases tlen - j,
    {
        j += 1;
    }
    if j < tlen {
        proof {
            let sub = source@.subrange(pos as int, pos + tok@.len() as int);
            assert(sub[j as int] == source@[pos + j]);
            assert(sub != tok@);
        }
        return None;
    }
    proof {
        assert(source@.subrange(pos as int, pos + tok@.len() as int) =~= tok@);
    }
    let e = pos + tlen;
    if !boundary {
        return Some(e);
    }
    if e == len {
        return Some(e);
    }
    if char_is_space(source.get_char(e)) {
        Some(e + 1)
    } else {
        None
    }
}

/// Matches the literal `tok` (with the boundary rule of `token_base`), then
/// consumes all following ignorable content as part of the same step.
pub fn token(source: &str, pos: usize, tok: &str, boundary: bool) -> (r: Option<usize>)
    requires
        pos <= source@.len(),
    ensures
        match r {
            Some(p) => spec_token(source@, pos as int, tok@, boundary) == Some(p as int) && pos
                + tok@.len() <= p <= source@.len(),
            None => spec_token(source@, pos as int, tok@, boundary) is None,
        },
{
    match token_base(source, pos, tok, boundary) {
        Some(e) => Some(skip_ignored(source, e)),
        None => None,
    }
}

/// Matches a number: a maximal nonempty digit run, then ignorable content.
/// The value is the run read in base ten; a value above `i64::MAX` is
/// rejected as no match.
pub fn number_base(source: &str, pos: usize) -> (r: Option<(usize, i64)>)
    requires
        pos <= source@.len(),
    ensures
        match r {
            Some((p, v)) => spec_number_base(source@, pos as int) == Some((p as int, v as int))
                && pos < p <= source@.len(),
            None => spec_number_base(source@, pos as int) is None,
        },
{
    let len = source.unicode_len();
    let mut i: usize = pos;
    let mut acc: u64 = 0;
    let mut over = false;
    while i < len && is_digit_exec(source.get_char(i))
        invariant
            pos <= i <= len,
            len == source@.len(),
            digits_end(source@, pos as int) == digits_end(source@, i as int),
            over ==> digits_val(source@, pos as int, i as int) > i64::MAX,
            !over ==> acc as int == digits_val(source@, pos as int, i as int) && acc <= i64::MAX
                as u64,
        decreases len - i,
    {
        let d = source.get_char(i) as u32 as u64 - 48;
        proof {
            assert(digits_val(source@, pos as int, i + 1) == digits_val(
                source@,
                pos as int,
                i as int,
            ) * 10 + digit_val(source@[i as int]));
            let v = digits_val(source@, pos as int, i as int);
            assert(v * 10 + digit_val(source@[i as int]) >= v) by (nonlinear_arith)
                requires
                    v >= 0,
                    digit_val(source@[i as int]) >= 0,
            ;
        }
        if over {
        } else if acc > 922337203685477580 || (acc == 922337203685477580 && d > 7) {
            over = true;
        } else {
            acc = acc * 10 + d;
        }
        i += 1;
    }
    if i == pos {
        return None;
    }
    if over || acc > 9223372036854775807 {
        return None;
    }
    Some((i, acc as i64))
}

/// Matches a number, then all following ignorable content.
pub fn number(source: &str, pos: usize) -> (r: Option<(usize, i64)>)
    requires
        pos <= source@.len(),
    ensures
        match r {
            Some((p, v)) => spec_number(source@, pos as int) == Some((p as int, v as int)) && pos
                < p <= source@.len(),
            None => spec_number(source@, pos as int) is None,
        },
{
    match number_base(source, pos) {
        Some((e, v)) => Some((skip_ignored(source, e), v)),
        None => None,
    }
}

/// Matches a raw identifier: an alphabetic character or underscore, then a
/// maximal run of alphanumeric characters or underscores. The value is the
/// identifier itself.
pub fn id_base<'a>(source: &'a str, pos: usize) -> (r: Option<(usize, &'a str)>)
    requires
        pos <= source@.len(),
    ensures
        match r {
            Some((p, name)) => spec_id_base(source@, pos as int) == Some((p as int, name@)) && pos
                < p <= source@.len(),
            None => spec_id_base(source@, pos as int) is None,
        },
{
    let len = source.unicode_len();
    if pos == len {
        return None;
    }
    let c = source.get_char(pos);
    if !(char_is_alpha(c) || c == '_') {
        return None;
    }
    let mut i: usize = pos + 1;
    while i < len && is_id_cont_exec(source.get_char(i))
        invariant
            pos < i <= len,
            len == source@.len(),
            id_cont_end(source@, pos + 1) == id_cont_end(source@, i as int),
        decreases len - i,
    {
        i += 1;
    }
    let name = source.substring_char(pos, i);
    Some((i, name))
}

/// Matches an identifier, then all following ignorable content.
pub fn id<'a>(source: &'a str, pos: usize) -> (r: Option<(usize, &'a str)>)
    requires
        pos <= source@.len(),
    ensures
        match r {
            Some((p, name)) => spec_id(source@, pos as int) == Some((p as int, name@)) && pos < p
                <= source@.len(),
            None => spec_id(source@, pos as int) is None,
        },
{
    match id_base(source, pos) {
        Some((e, name)) => Some((skip_ignored(source, e), name)),
        None => None,
    }
}

/// Matches the `function` keyword, which must stand at a word boundary.
pub fn function_t(source: &str, pos: usize) -> (r: Option<usize>)
    requires
        pos <= source@.len(),
    ensures
        match r {
            Some(p) => spec_token(source@, pos as int, "function"@, true) == Some(p as int) && pos
                < p <= source@.len(),
            None => spec_token(source@, pos as int, "function"@, true) is None,
        },
{
    proof {
        reveal_strlit("function");
    }
    token(source, pos, "function", true)
}

/// Matches the `if` keyword, which must stand at a word boundary.
pub fn if_t(source: &str, pos: usize) -> (r: Option<usize>)
    requires
        pos <= source@.len(),
    ensures
        match r {
            Some(p) => spec_token(source@, pos as int, "if"@, true) == Some(p as int) && pos
                < p <= source@.len(),
            None => spec_token(source@, pos as int, "if"@, true) is None,
        },
{
    proof {
        reveal_strlit("if");
    }
    token(source, pos, "if", true)
}

/// Matches the `else` keyword, which must stand at a word boundary.
pub fn else_t(source: &str, pos: usize) -> (r: Option<usize>)
    requires
        pos <= source@.len(),
    ensures
        match r {
            Some(p) => spec_token(source@, pos as int, "else"@, true) == Some(p as int) && pos
                < p <= source@.len(),
            None => spec_token(source@, pos as int, "else"@, true) is None,
        },
{
    proof {
        reveal_strlit("else");
    }
    token(source, pos, "else", true)
}

/// Matches the `return` keyword, which must stand at a word boundary.
pub fn return_t(source: &str, pos: usize) -> (r: Option<usize>)
    requires
        pos <= source@.len(),
    ensures
        match r {
            Some(p) => spec_token(source@, pos as int, "return"@, true) == Some(p as int) && pos
                < p <= source@.len(),
            None => spec_token(source@, pos as int, "return"@, true) is None,
        },
{
    proof {
        reveal_strlit("return");
    }
    token(source, pos, "return", true)
}

/// Matches the `var` keyword, which must stand at a word boundary.
pub fn var_t(source: &str, pos: usize) -> (r: Option<usize>)
    requires
        pos <= source@.len(),
    ensures
        match r {
            Some(p) => spec_token(source@, pos as int, "var"@, true) == Some(p as int) && pos
                < p <= source@.len(),
            None => spec_token(source@, pos as int, "var"@, true) is None,
        },
{
    proof {
        reveal_strlit("var");
    }
    token(source, pos, "var", true)
}

/// Matches the `while` keyword, which must stand at a word boundary.
pub fn while_t(source: &str, pos: usize) -> (r: Option<usize>)
    requires
        pos <= source@.len(),
    ensures
        match r {
            Some(p) => spec_token(source@, pos as int, "while"@, true) == Some(p as int) && pos
                < p <= source@.len(),
            None => spec_token(source@, pos as int, "while"@, true) is None,
        },
{
    proof {
        reveal_strlit("while");
    }
    token(source, pos, "while", true)
}

/// Matches a comma.
pub fn comma_t(source: &str, pos: usize) -> (r: Option<usize>)
    requires
        pos <= source@.len(),
    ensures
        match r {
            Some(p) => spec_token(source@, pos as int, ","@, false) == Some(p as int) && pos
                < p <= source@.len(),
            None => spec_token(source@, pos as int, ","@, false) is None,
        },
{
    proof {
        reveal_strlit(",");
    }
    token(source, pos, ",", false)
}

/// Matches a semicolon.
pub fn semicolon_t(source: &str, pos: usize) -> (r: Option<usize>)
    requires
        pos <= source@.len(),
    ensures
        match r {
            Some(p) => spec_token(source@, pos as int, ";"@, false) == Some(p as int) && pos
                < p <= source@.len(),
            None => spec_token(source@, pos as int, ";"@, false) is None,
        },
{
    proof {
        reveal_strlit(";");
    }
    token(source, pos, ";", false)
}

/// Matches a left parenthesis.
pub fn left_paren_t(source: &str, pos: usize) -> (r: Option<usize>)
    requires
        pos <= source@.len(),
    ensures
        match r {
            Some(p) => spec_token(source@, pos as int, "("@, false) == Some(p as int) && pos
                < p <= source@.len(),
            None => spec_token(source@, pos as int, "("@, false) is None,
        },
{
    proof {
        reveal_strlit("(");
    }
    token(source, pos, "(", false)
}

/// Matches a right parenthesis.
pub fn right_paren_t(source: &str, pos: usize) -> (r: Option<usize>)
    requires
        pos <= source@.len(),
    ensures
        match r {
            Some(p) => spec_token(source@, pos as int, ")"@, false) == Some(p as int) && pos
                < p <= source@.len(),
            None => spec_token(source@, pos as int, ")"@, false) is None,
        },
{
    proof {
        reveal_strlit(")");
    }
    token(source, pos, ")", false)
}

/// Matches a left brace.
pub fn left_brace_t(source: &str, pos: usize) -> (r: Option<usize>)
    requires
        pos <= source@.len(),
    ensures
        match r {
            Some(p) => spec_token(source@, pos as int, "{"@, false) == Some(p as int) && pos
                < p <= source@.len(),
            None => spec_token(source@, pos as int, "{"@, false) is None,
        },
{
    proof {
        reveal_strlit("{");
    }
    token(source, pos, "{", false)
}

/// Matches a right brace.
pub fn right_brace_t(source: &str, pos: usize) -> (r: Option<usize>)
    requires
        pos <= source@.len(),
    ensures
        match r {
            Some(p) => spec_token(source@, pos as int, "}"@, false) == Some(p as int) && pos
                < p <= source@.len(),
            None => spec_token(source@, pos as int, "}"@, false) is None,
        },
{
    proof {
        reveal_strlit("}");
    }
    token(source, pos, "}", false)
}

/// Matches the negation operator.
pub fn not_t(source: &str, pos: usize) -> (r: Option<usize>)
    requires
        pos <= source@.len(),
    ensures
        match r {
            Some(p) => spec_token(source@, pos as int, "!"@, false) == Some(p as int) && pos
                < p <= source@.len(),
            None => spec_token(source@, pos as int, "!"@, false) is None,
        },
{
    proof {
        reveal_strlit("!");
    }
    token(source, pos, "!", false)
}

/// Matches the equality operator.
pub fn equal_t(source: &str, pos: usize) -> (r: Option<usize>)
    requires
        pos <= source@.len(),
    ensures
        match r {
            Some(p) => spec_token(source@, pos as int, "=="@, false) == Some(p as int) && pos
                < p <= source@.len(),
            None => spec_token(source@, pos as int, "=="@, false) is None,
        },
{
    proof {
        reveal_strlit("==");
    }
    token(source, pos, "==", false)
}

/// Matches the inequality operator.
pub fn not_equal_t(source: &str, pos: usize) -> (r: Option<usize>)
    requires
        pos <= source@.len(),
    ensures
        match r {
            Some(p) => spec_token(source@, pos as int, "!="@, false) == Some(p as int) && pos
                < p <= source@.len(),
            None => spec_token(source@, pos as int, "!="@, false) is None,
        },
{
    proof {
        reveal_strlit("!=");
    }
    token(source, pos, "!=", false)
}

/// Matches the addition operator.
pub fn plus_t(source: &str, pos: usize) -> (r: Option<usize>)
    requires
        pos <= source@.len(),
    ensures
        match r {
            Some(p) => spec_token(source@, pos as int, "+"@, false) == Some(p as int) && pos
                < p <= source@.len(),
            None => spec_token(source@, pos as int, "+"@, false) is None,
        },
{
    proof {
        reveal_strlit("+");
    }
    token(source, pos, "+", false)
}

/// Matches the subtraction operator.
pub fn minus_t(source: &str, pos: usize) -> (r: Option<usize>)
    requires
        pos <= source@.len(),
    ensures
        match r {
            Some(p) => spec_token(source@, pos as int, "-"@, false) == Some(p as int) && pos
                < p <= source@.len(),
            None => spec_token(source@, pos as int, "-"@, false) is None,
        },
{
    proof {
        reveal_strlit("-");
    }
    token(source, pos, "-", false)
}

/// Matches the multiplication operator.
pub fn star_t(source: &str, pos: usize) -> (r: Option<usize>)
    requires
        pos <= source@.len(),
    ensures
        match r {
            Some(p) => spec_token(source@, pos as int, "*"@, false) == Some(p as int) && pos
                < p <= source@.len(),
            None => spec_token(source@, pos as int, "*"@, false) is None,
        },
{
    proof {
        reveal_strlit("*");
    }
    token(source, pos, "*", false)
}

/// Matches the division operator.
pub fn slash_t(source: &str, pos: usize) -> (r: Option<usize>)
    requires
        pos <= source@.len(),
    ensures
        match r {
            Some(p) => spec_token(source@, pos as int, "/"@, false) == Some(p as int) && pos
                < p <= source@.len(),
            None => spec_token(source@, pos as int, "/"@, false) is None,
        },
{
    proof {
        reveal_strlit("/");
    }
    token(source, pos, "/", false)
}

/// Matches the assignment operator.
pub fn assign_t(source: &str, pos: usize) -> (r: Option<usize>)
    requires
        pos <= source@.len(),
    ensures
        match r {
            Some(p) => spec_token(source@, pos as int, "="@, false) == Some(p as int) && pos
                < p <= source@.len(),
            None => spec_token(source@, pos as int, "="@, false) is None,
        },
{
    proof {
        reveal_strlit("=");
    }
    token(source, pos, "=", false)
}

} // verus!
