use vstd::prelude::*;

use crate::ast;
use crate::ops::push_char;
use crate::witness::{pick1, pick2, pick3, pick4};
use vstd::std_specs::iter::IteratorSpec;

verus! {

/// ASCII letters.
pub open spec fn is_alpha(c: char) -> bool {
    ('a' <= c && c <= 'z') || ('A' <= c && c <= 'Z')
}

pub open spec fn is_digit(c: char) -> bool {
    '0' <= c && c <= '9'
}

pub open spec fn is_alnum(c: char) -> bool {
    is_alpha(c) || is_digit(c)
}

/// Spaces and tabs.
pub open spec fn is_space(c: char) -> bool {
    c == ' ' || c == '\t'
}

/// Spaces, tabs and line breaks.
pub open spec fn is_multispace(c: char) -> bool {
    c == ' ' || c == '\t' || c == '\r' || c == '\n'
}

/// The words that cannot name a variable or a function.
pub open spec fn is_keyword(w: Seq<char>) -> bool {
    ||| w == "Include"@
    ||| w == "Global"@
    ||| w == "End"@
    ||| w == "If"@
    ||| w == "Else"@
    ||| w == "EndIf"@
    ||| w == "Then"@
    ||| w == "While"@
    ||| w == "Wend"@
    ||| w == "For"@
    ||| w == "Next"@
    ||| w == "Step"@
    ||| w == "Select"@
    ||| w == "Case"@
    ||| w == "True"@
    ||| w == "False"@
    ||| w == "And"@
    ||| w == "Not"@
}

/// The character classes that the lexer scans runs of.
pub enum CharClass {
    Space,
    Multispace,
    Alnum,
    Digit,
    CommentBody,
    StringBody,
}

/// Whether `c` is in class `k`; a comment's body is anything but `;` and
/// line breaks.
pub open spec fn in_class(k: CharClass, c: char) -> bool {
    match k {
        CharClass::Space => is_space(c),
        CharClass::Multispace => is_multispace(c),
        CharClass::Alnum => is_alnum(c),
        CharClass::Digit => is_digit(c),
        CharClass::CommentBody => c != ';' && c != '\r' && c != '\n',
        CharClass::StringBody => c != '"' && c != '\r' && c != '\n',
    }
}

/// The end of the longest run starting at `i` of characters in class `k`.
pub open spec fn run_end(s: Seq<char>, i: int, k: CharClass) -> int
    decreases s.len() - i,
{
    if i < 0 || i >= s.len() || !in_class(k, s[i]) {
        i
    } else {
        run_end(s, i + 1, k)
    }
}

/// The value of a run of decimal digits.
pub open spec fn digits_value(d: Seq<char>) -> int
    decreases d.len(),
{
    if d.len() == 0 {
        0
    } else {
        digits_value(d.drop_last()) * 10 + (d.last() as int - '0' as int)
    }
}

proof fn lemma_run_end_bounds(s: Seq<char>, i: int, p: CharClass)
    requires
        0 <= i <= s.len(),
    ensures
        i <= run_end(s, i, p) <= s.len(),
        forall|k: int| i <= k < run_end(s, i, p) ==> in_class(p, #[trigger] s[k]),
        run_end(s, i, p) < s.len() ==> !in_class(p, s[run_end(s, i, p)]),
    decreases s.len() - i,
{
    if i < s.len() && in_class(p, s[i]) {
        lemma_run_end_bounds(s, i + 1, p);
    }
}

fn in_class_exec(k: &CharClass, c: char) -> (b: bool)
    ensures
        b == in_class(*k, c),
{
    match k {
        CharClass::Space => c == ' ' || c == '\t',
        CharClass::Multispace => c == ' ' || c == '\t' || c == '\r' || c == '\n',
        CharClass::Alnum => ('a' <= c && c <= 'z') || ('A' <= c && c <= 'Z') || ('0' <= c && c <= '9'),
        CharClass::Digit => '0' <= c && c <= '9',
        CharClass::CommentBody => c != ';' && c != '\r' && c != '\n',
        CharClass::StringBody => c != '"' && c != '\r' && c != '\n',
    }
}

/// The end of the longest run of characters in class `k` from `i`.
fn scan(s: &Vec<char>, i: usize, k: CharClass) -> (j: usize)
    requires
        i <= s@.len(),
    ensures
        j == run_end(s@, i as int, k),
        i <= j <= s@.len(),
{
    let mut j = i;
    proof {
        lemma_run_end_bounds(s@, i as int, k);
    }
    while j < s.len()
        invariant
            i <= j <= s@.len(),
            run_end(s@, j as int, k) == run_end(s@, i as int, k),
        decreases s@.len() - j,
    {
        if !in_class_exec(&k, s[j]) {
            return j;
        }
        j = j + 1;
    }
    j
}

/// Whether `t` stands at position `i` of `s`.
pub open spec fn tag_at(s: Seq<char>, i: int, t: Seq<char>) -> bool {
    0 <= i && i + t.len() <= s.len() && s.subrange(i, i + t.len()) == t
}

/// Matches the literal text `t` at `i`.
fn tag(s: &Vec<char>, i: usize, t: &str) -> (r: Option<usize>)
    requires
        i <= s@.len(),
    ensures
        match r {
            Some(j) => tag_at(s@, i as int, t@) && j == i + t@.len(),
            None => !tag_at(s@, i as int, t@),
        },
{
    let n = t.unicode_len();
    let len = s.len();
    if n > len - i {
        return None;
    }
    let mut k: usize = 0;
    while k < n
        invariant
            n == t@.len(),
            i + n <= len,
            len == s@.len(),
            k <= n,
            forall|m: int| 0 <= m < k ==> s@[i + m] == t@[m],
        decreases n - k,
    {
        if s[i + k] != t.get_char(k) {
            proof {
                assert(s@.subrange(i as int, i + n)[k as int] != t@[k as int]);
            }
            return None;
        }
        k = k + 1;
    }
    proof {
        assert(s@.subrange(i as int, i + n) =~= t@);
    }
    Some(i + n)
}

/// The characters `s[i..j]` as a string.
fn substring(s: &Vec<char>, i: usize, j: usize) -> (r: String)
    requires
        i <= j <= s@.len(),
    ensures
        r@ == s@.subrange(i as int, j as int),
{
    let mut r = String::new();
    let mut k = i;
    while k < j
        invariant
            i <= k <= j <= s@.len(),
            r@ == s@.subrange(i as int, k as int),
        decreases j - k,
    {
        push_char(&mut r, s[k]);
        proof {
            assert(s@.subrange(i as int, k + 1) =~= s@.subrange(i as int, k as int).push(s@[k as int]));
        }
        k = k + 1;
    }
    r
}

/// One or more spaces or tabs.
fn space(s: &Vec<char>, i: usize) -> (r: Option<usize>)
    requires
        i <= s@.len(),
    ensures
        match r {
            Some(j) => i < j <= s@.len() && j == run_end(s@, i as int, CharClass::Space),
            None => run_end(s@, i as int, CharClass::Space) == i,
        },
{
    let j = scan(s, i, CharClass::Space);
    if j == i {
        None
    } else {
        Some(j)
    }
}

/// Optional spaces or tabs.
fn opt_space(s: &Vec<char>, i: usize) -> (j: usize)
    requires
        i <= s@.len(),
    ensures
        j == run_end(s@, i as int, CharClass::Space),
        i <= j <= s@.len(),
{
    proof {
        lemma_run_end_bounds(s@, i as int, CharClass::Space);
    }
    scan(s, i, CharClass::Space)
}

/// Whether a comment stands at `i` and ends at `j`: `;`, one or more
/// characters other than `;` and line breaks, then a line break.
pub open spec fn comment_at(s: Seq<char>, i: int, j: int) -> bool {
    let body_end = run_end(s, i + 1, CharClass::CommentBody);
    &&& 0 <= i < s.len()
    &&& s[i] == ';'
    &&& body_end > i + 1
    &&& ((tag_at(s, body_end, "\n"@) && j == body_end + 1) || (!tag_at(s, body_end, "\n"@)
        && tag_at(s, body_end, "\r\n"@) && j == body_end + 2))
}

/// Where the comment at `i` ends, if one stands there.
pub open spec fn comment_end(s: Seq<char>, i: int) -> Option<int> {
    let body_end = run_end(s, i + 1, CharClass::CommentBody);
    if 0 <= i < s.len() && s[i] == ';' && body_end > i + 1 {
        if tag_at(s, body_end, "\n"@) {
            Some(body_end + 1)
        } else if tag_at(s, body_end, "\r\n"@) {
            Some(body_end + 2)
        } else {
            None
        }
    } else {
        None
    }
}

/// One step of whitespace at `i`: the end of a run of spaces and line
/// breaks, or of a comment.
pub open spec fn ws_step(s: Seq<char>, i: int) -> Option<int> {
    if run_end(s, i, CharClass::Multispace) > i {
        Some(run_end(s, i, CharClass::Multispace))
    } else {
        comment_end(s, i)
    }
}

/// Where the whitespace from `i` ends: steps are taken as long as there are.
pub open spec fn ws_end(s: Seq<char>, i: int) -> int
    decreases s.len() - i,
{
    match ws_step(s, i) {
        Some(k) => if i < k <= s.len() {
            ws_end(s, k)
        } else {
            i
        },
        None => i,
    }
}

/// A comment running to the end of its line.
fn comment(s: &Vec<char>, i: usize) -> (r: Option<usize>)
    requires
        i <= s@.len(),
    ensures
        match r {
            Some(j) => comment_at(s@, i as int, j as int) && i < j <= s@.len(),
            None => forall|j: int| !comment_at(s@, i as int, j),
        },
        r is Some <==> comment_end(s@, i as int) is Some,
        r matches Some(j) ==> comment_end(s@, i as int) == Some(j as int),
{
    if i >= s.len() || s[i] != ';' {
        return None;
    }
    let k = scan(s, i + 1, CharClass::CommentBody);
    proof {
        reveal_strlit("\n");
        reveal_strlit("\r\n");
    }
    if k == i + 1 {
        return None;
    }
    match tag(s, k, "\n") {
        Some(j) => Some(j),
        None => match tag(s, k, "\r\n") {
            Some(j) => Some(j),
            None => None,
        },
    }
}

/// One step of whitespace: a run of spaces and line breaks, or a comment.
fn whitespace_step(s: &Vec<char>, i: usize) -> (r: Option<usize>)
    requires
        i <= s@.len(),
    ensures
        r is Some <==> ws_step(s@, i as int) is Some,
        r matches Some(j) ==> ws_step(s@, i as int) == Some(j as int),
        match r {
            Some(j) => i < j <= s@.len(),
            None => run_end(s@, i as int, CharClass::Multispace) == i && forall|j: int|
                !comment_at(s@, i as int, j),
        },
{
    let k = scan(s, i, CharClass::Multispace);
    if k > i {
        Some(k)
    } else {
        comment(s, i)
    }
}

/// One or more runs of spaces, line breaks and comments; the end of the
/// longest such run.
fn whitespace(s: &Vec<char>, i: usize) -> (r: Option<usize>)
    requires
        i <= s@.len(),
    ensures
        r is Some <==> ws_step(s@, i as int) is Some,
        r matches Some(j) ==> j == ws_end(s@, i as int),
        match r {
            Some(j) => i < j <= s@.len(),
            None => run_end(s@, i as int, CharClass::Multispace) == i && forall|j: int|
                !comment_at(s@, i as int, j),
        },
{
    let mut j = match whitespace_step(s, i) {
        Some(j) => j,
        None => {
            return None;
        },
    };
    loop
        invariant
            i < j <= s@.len(),
            ws_end(s@, j as int) == ws_end(s@, i as int),
        decreases s@.len() - j,
    {
        match whitespace_step(s, j) {
            Some(k) => {
                j = k;
            },
            None => {
                return Some(j);
            },
        }
    }
}

/// Optional whitespace.
fn opt_whitespace(s: &Vec<char>, i: usize) -> (j: usize)
    requires
        i <= s@.len(),
    ensures
        i <= j <= s@.len(),
        j == ws_end(s@, i as int),
{
    match whitespace(s, i) {
        Some(j) => j,
        None => i,
    }
}

/// Whether `w` is the text of `s` from `i` to `j`.
fn word_is(s: &Vec<char>, i: usize, j: usize, w: &str) -> (b: bool)
    requires
        i <= j <= s@.len(),
    ensures
        b == (s@.subrange(i as int, j as int) == w@),
{
    match tag(s, i, w) {
        Some(k) => {
            proof {
                if k != j {
                    assert(s@.subrange(i as int, j as int).len() != w@.len());
                }
            }
            k == j
        },
        None => {
            proof {
                if s@.subrange(i as int, j as int) == w@ {
                    assert(tag_at(s@, i as int, w@));
                }
            }
            false
        },
    }
}

/// Whether the text of `s` from `i` to `j` is a keyword.
fn is_keyword_at(s: &Vec<char>, i: usize, j: usize) -> (b: bool)
    requires
        i <= j <= s@.len(),
    ensures
        b == is_keyword(s@.subrange(i as int, j as int)),
{
    word_is(s, i, j, "Include") || word_is(s, i, j, "Global") || word_is(s, i, j, "End") || word_is(
        s,
        i,
        j,
        "If",
    ) || word_is(s, i, j, "Else") || word_is(s, i, j, "EndIf") || word_is(s, i, j, "Then")
        || word_is(s, i, j, "While") || word_is(s, i, j, "Wend") || word_is(s, i, j, "For")
        || word_is(s, i, j, "Next") || word_is(s, i, j, "Step") || word_is(s, i, j, "Select")
        || word_is(s, i, j, "Case") || word_is(s, i, j, "True") || word_is(s, i, j, "False")
        || word_is(s, i, j, "And") || word_is(s, i, j, "Not")
}

/// Whether an identifier starts at `i`: a letter followed by letters and
/// digits, as many as there are, not forming a keyword.
pub open spec fn identifier_at(s: Seq<char>, i: int) -> bool {
    &&& 0 <= i < s.len()
    &&& is_alpha(s[i])
    &&& !is_keyword(s.subrange(i, run_end(s, i, CharClass::Alnum)))
}

/// An identifier and the position after it.
fn identifier(s: &Vec<char>, i: usize) -> (r: Option<(String, usize)>)
    requires
        i <= s@.len(),
    ensures
        r is Some <==> identifier_at(s@, i as int),
        r matches Some((name, j)) ==> j == run_end(s@, i as int, CharClass::Alnum) && name@
            == s@.subrange(i as int, j as int) && i < j <= s@.len(),
{
    if i >= s.len() {
        return None;
    }
    let c = s[i];
    if !(('a' <= c && c <= 'z') || ('A' <= c && c <= 'Z')) {
        return None;
    }
    let j = scan(s, i, CharClass::Alnum);
    proof {
        lemma_run_end_bounds(s@, i as int, CharClass::Alnum);
        assert(in_class(CharClass::Alnum, s@[i as int]));
    }
    if is_keyword_at(s, i, j) {
        return None;
    }
    Some((substring(s, i, j), j))
}

/// The type a name's suffix gives it: `%`, `#` or `$`.
pub open spec fn type_specifier_of(c: char) -> Option<ast::TypeSpecifier> {
    if c == '%' {
        Some(ast::TypeSpecifier::Int)
    } else if c == '#' {
        Some(ast::TypeSpecifier::Float)
    } else if c == '$' {
        Some(ast::TypeSpecifier::String)
    } else {
        None
    }
}

/// A type suffix and the position after it.
fn type_specifier(s: &Vec<char>, i: usize) -> (r: Option<(ast::TypeSpecifier, usize)>)
    requires
        i <= s@.len(),
    ensures
        match r {
            Some((t, j)) => i < s@.len() && type_specifier_of(s@[i as int]) == Some(t) && j == i + 1,
            None => i == s@.len() || type_specifier_of(s@[i as int]) is None,
        },
{
    if i >= s.len() {
        return None;
    }
    let c = s[i];
    if c == '%' {
        Some((ast::TypeSpecifier::Int, i + 1))
    } else if c == '#' {
        Some((ast::TypeSpecifier::Float, i + 1))
    } else if c == '$' {
        Some((ast::TypeSpecifier::String, i + 1))
    } else {
        None
    }
}

/// An optional type suffix and the position after it.
fn opt_type_specifier(s: &Vec<char>, i: usize) -> (r: (Option<ast::TypeSpecifier>, usize))
    requires
        i <= s@.len(),
    ensures
        i <= r.1 <= s@.len(),
        r.0 is Some ==> r.1 == i + 1,
        r.0 is None ==> r.1 == i,
        match r.0 {
            Some(t) => i < s@.len() && type_specifier_of(s@[i as int]) == Some(t),
            None => i == s@.len() || type_specifier_of(s@[i as int]) is None,
        },
{
    match type_specifier(s, i) {
        Some((t, j)) => (Some(t), j),
        None => (None, i),
    }
}

/// Where the digits of an integer literal at `i` start: after a `-`, if any.
pub open spec fn int_digits_start(s: Seq<char>, i: int) -> int {
    if tag_at(s, i, "-"@) {
        i + 1
    } else {
        i
    }
}

/// The value of the integer literal at `i`, if one is there: an optional `-`
/// and one or more digits, as many as there are; the value must fit in
/// `i32`.
pub open spec fn int_literal_value(s: Seq<char>, i: int) -> Option<int> {
    let d = int_digits_start(s, i);
    let e = run_end(s, d, CharClass::Digit);
    let v = digits_value(s.subrange(d, e));
    let x = if d == i + 1 {
        -v
    } else {
        v
    };
    if e > d && i32::MIN <= x <= i32::MAX {
        Some(x)
    } else {
        None
    }
}

/// Where the integer literal at `i` ends.
pub open spec fn int_literal_end(s: Seq<char>, i: int) -> int {
    run_end(s, int_digits_start(s, i), CharClass::Digit)
}

proof fn lemma_digits_value_push(d: Seq<char>, c: char)
    requires
        is_digit(c),
        forall|k: int| 0 <= k < d.len() ==> is_digit(#[trigger] d[k]),
    ensures
        digits_value(d.push(c)) == digits_value(d) * 10 + (c as int - '0' as int),
        digits_value(d.push(c)) >= digits_value(d),
        digits_value(d) >= 0,
    decreases d.len(),
{
    assert(d.push(c).drop_last() =~= d);
    if d.len() > 0 {
        lemma_digits_value_push(d.drop_last(), d.last());
        assert(d.drop_last().push(d.last()) =~= d);
    }
}

/// An integer literal: its value and the position after it.
fn integer_literal(s: &Vec<char>, i: usize) -> (r: Option<(i32, usize)>)
    requires
        i <= s@.len(),
    ensures
        match r {
            Some((x, j)) => int_literal_value(s@, i as int) == Some(x as int) && j == int_literal_end(
                s@,
                i as int,
            ),
            None => int_literal_value(s@, i as int) is None,
        },
        r matches Some((_, j)) ==> i < j <= s@.len(),
{
    proof {
        reveal_strlit("-");
    }
    let negative = tag(s, i, "-").is_some();
    let d = if negative {
        i + 1
    } else {
        i
    };
    let e = scan(s, d, CharClass::Digit);
    proof {
        lemma_run_end_bounds(s@, d as int, CharClass::Digit);
    }
    if e == d {
        return None;
    }
    let mut value: i64 = 0;
    let mut k = d;
    while k < e
        invariant
            d <= k <= e,
            e == run_end(s@, d as int, CharClass::Digit),
            e <= s@.len(),
            forall|m: int| d <= m < e ==> is_digit(#[trigger] s@[m]),
            0 <= value <= 0x1_0000_0000,
            value < 0x1_0000_0000 ==> value == digits_value(s@.subrange(d as int, k as int)),
            value == 0x1_0000_0000 ==> digits_value(s@.subrange(d as int, k as int)) >= 0x1_0000_0000,
        decreases e - k,
    {
        let c = s[k];
        let digit: i64 = if c == '0' {
            0
        } else if c == '1' {
            1
        } else if c == '2' {
            2
        } else if c == '3' {
            3
        } else if c == '4' {
            4
        } else if c == '5' {
            5
        } else if c == '6' {
            6
        } else if c == '7' {
            7
        } else if c == '8' {
            8
        } else {
            9
        };
        proof {
            let sub = s@.subrange(d as int, k as int);
            assert(s@.subrange(d as int, k + 1) =~= sub.push(c));
            assert(forall|m: int| 0 <= m < sub.len() ==> is_digit(#[trigger] sub[m]) && sub[m] == s@[d + m]);
            lemma_digits_value_push(sub, c);
            assert(digit == c as int - '0' as int);
        }
        if value < 0x1_0000_0000 {
            let next = value * 10 + digit;
            value = if next >= 0x1_0000_0000 {
                0x1_0000_0000
            } else {
                next
            };
        }
        k = k + 1;
    }
    let x: i64 = if negative {
        -value
    } else {
        value
    };
    if x < i32::MIN as i64 || x > i32::MAX as i64 {
        return None;
    }
    Some((x as i32, e))
}

/// The end of the float literal at `i`, if one is there: an integer literal,
/// `.` and optionally another, or `.` and an integer literal; the part after
/// the point must not start with `-`.
pub open spec fn float_literal_end(s: Seq<char>, i: int) -> Option<int> {
    if int_literal_value(s, i) is Some && tag_at(s, int_literal_end(s, i), "."@) {
        let k = int_literal_end(s, i) + 1;
        let end = if int_literal_value(s, k) is Some {
            int_literal_end(s, k)
        } else {
            k
        };
        if end > k && s[k] == '-' {
            None
        } else {
            Some(end)
        }
    } else if int_literal_value(s, i) is None && tag_at(s, i, "."@) && int_literal_value(s, i + 1) is Some
        && s[i + 1] != '-' {
        Some(int_literal_end(s, i + 1))
    } else {
        None
    }
}

/// A float literal: its text and the position after it.
fn float_literal(s: &Vec<char>, i: usize) -> (r: Option<(String, usize)>)
    requires
        i <= s@.len(),
    ensures
        match float_literal_end(s@, i as int) {
            Some(e) => r matches Some((t, j)) && j == e && t@ == s@.subrange(i as int, e),
            None => r is None,
        },
        r matches Some((_, j)) ==> i < j <= s@.len(),
{
    proof {
        reveal_strlit(".");
    }
    match integer_literal(s, i) {
        Some((_, j)) => {
            if tag(s, j, ".").is_none() {
                return None;
            }
            let k = j + 1;
            let end = match integer_literal(s, k) {
                Some((_, m)) => m,
                None => k,
            };
            if end > k && s[k] == '-' {
                return None;
            }
            Some((substring(s, i, end), end))
        },
        None => {
            if tag(s, i, ".").is_none() {
                return None;
            }
            match integer_literal(s, i + 1) {
                Some((_, m)) => {
                    if s[i + 1] == '-' {
                        return None;
                    }
                    Some((substring(s, i, m), m))
                },
                None => None,
            }
        },
    }
}

/// Whether a string literal stands at `i`, ending at `j`: a double quote,
/// one or more characters other than quotes and line breaks, and a quote.
pub open spec fn string_literal_at(s: Seq<char>, i: int, j: int) -> bool {
    let body_end = run_end(s, i + 1, CharClass::StringBody);
    &&& 0 <= i < s.len()
    &&& s[i] == '"'
    &&& body_end > i + 1
    &&& body_end < s.len()
    &&& s[body_end] == '"'
    &&& j == body_end + 1
}

/// A string literal: its contents and the position after it.
fn string_literal(s: &Vec<char>, i: usize) -> (r: Option<(String, usize)>)
    requires
        i <= s@.len(),
    ensures
        r is Some <==> exists|j: int| string_literal_at(s@, i as int, j),
        r matches Some((t, j)) ==> string_literal_at(s@, i as int, j as int) && t@ == s@.subrange(
            i + 1,
            j - 1,
        ) && i < j <= s@.len(),
        match string_literal_end(s@, i as int) {
            Some(e) => r matches Some((_, j)) && j == e,
            None => r is None,
        },
{
    if i >= s.len() || s[i] != '"' {
        return None;
    }
    let e = scan(s, i + 1, CharClass::StringBody);
    if e == i + 1 || e >= s.len() || s[e] != '"' {
        return None;
    }
    proof {
        assert(string_literal_at(s@, i as int, e + 1));
    }
    Some((substring(s, i + 1, e), e + 1))
}

/// `True` or `False`.
fn bool_literal(s: &Vec<char>, i: usize) -> (r: Option<(bool, usize)>)
    requires
        i <= s@.len(),
    ensures
        match r {
            Some((b, j)) => if b {
                tag_at(s@, i as int, "True"@) && j == i + 4
            } else {
                !tag_at(s@, i as int, "True"@) && tag_at(s@, i as int, "False"@) && j == i + 5
            },
            None => !tag_at(s@, i as int, "True"@) && !tag_at(s@, i as int, "False"@),
        },
{
    proof {
        reveal_strlit("True");
        reveal_strlit("False");
    }
    match tag(s, i, "True") {
        Some(j) => Some((true, j)),
        None => match tag(s, i, "False") {
            Some(j) => Some((false, j)),
            None => None,
        },
    }
}

/// `e` under the unary operators `ops`, the first outermost.
pub open spec fn un_op_chain(ops: Seq<ast::Op>, e: ast::Expr) -> ast::Expr
    decreases ops.len(),
{
    if ops.len() == 0 {
        e
    } else {
        ast::Expr::UnOp(ast::UnOp { op: ops[0], expr: Box::new(un_op_chain(ops.drop_first(), e)) })
    }
}

/// `lhs` followed by operator-operand pairs, grouped to the right:
/// `a - b - c` is `a - (b - c)`.
pub open spec fn bin_op_chain(lhs: ast::Expr, rhss: Seq<(ast::Op, Box<ast::Expr>)>) -> ast::Expr
    decreases rhss.len(),
{
    if rhss.len() == 0 {
        lhs
    } else {
        ast::Expr::BinOp(
            ast::BinOp {
                op: rhss[0].0,
                lhs: Box::new(lhs),
                rhs: Box::new(bin_op_chain(*rhss[0].1, rhss.drop_first())),
            },
        )
    }
}

/// Applies the unary operators `ops[index..]` to `expr`, the first
/// outermost.
pub fn reduce_un_op_expr(ops: &Vec<ast::Op>, expr: Box<ast::Expr>, index: usize) -> (r: Box<ast::Expr>)
    requires
        index <= ops@.len(),
    ensures
        *r == un_op_chain(ops@.skip(index as int), *expr),
    decreases ops@.len() - index,
{
    if index >= ops.len() {
        proof {
            assert(ops@.skip(index as int) =~= Seq::<ast::Op>::empty());
        }
        expr
    } else {
        let inner = reduce_un_op_expr(ops, expr, index + 1);
        proof {
            assert(ops@.skip(index as int).drop_first() =~= ops@.skip(index + 1));
        }
        Box::new(ast::Expr::UnOp(ast::UnOp { op: ops[index], expr: inner }))
    }
}

/// Joins `lhs` and the operator-operand pairs `rhss[index..]` into one
/// expression, grouped to the right. The pairs used are taken out of `rhss`.
pub fn reduce_bin_op_expr(lhs: Box<ast::Expr>, rhss: Vec<(ast::Op, Box<ast::Expr>)>, index: usize) -> (r: Box<
    ast::Expr,
>)
    requires
        index <= rhss@.len(),
    ensures
        *r == bin_op_chain(*lhs, rhss@.skip(index as int)),
    decreases rhss@.len() - index,
{
    let mut rhss = rhss;
    if index >= rhss.len() {
        proof {
            assert(rhss@.skip(index as int) =~= Seq::<(ast::Op, Box<ast::Expr>)>::empty());
        }
        lhs
    } else {
        let ghost before = rhss@;
        let (op, rhs) = rhss.remove(index);
        proof {
            assert(rhss@.skip(index as int) =~= before.skip(index as int).drop_first());
        }
        let rest = reduce_bin_op_expr(rhs, rhss, index);
        Box::new(ast::Expr::BinOp(ast::BinOp { op, lhs, rhs: rest }))
    }
}

/// `s` from `i` to `j` is the text `t` with the spaces and tabs around it.
pub open spec fn padded_at(s: Seq<char>, i: int, t: Seq<char>, j: int) -> bool {
    let k = run_end(s, i, CharClass::Space);
    tag_at(s, k, t) && j == run_end(s, k + t.len(), CharClass::Space)
}

/// Where `n` padded copies of `t` from `i` end.
pub open spec fn repeat_end(s: Seq<char>, i: int, t: Seq<char>, n: nat) -> int
    decreases n,
{
    if n == 0 {
        i
    } else {
        let k = repeat_end(s, i, t, (n - 1) as nat);
        run_end(s, run_end(s, k, CharClass::Space) + t.len(), CharClass::Space)
    }
}

/// Whether `n` padded copies of `t` stand one after the other from `i`.
pub open spec fn repeated(s: Seq<char>, i: int, t: Seq<char>, n: nat) -> bool
    decreases n,
{
    n == 0 || (repeated(s, i, t, (n - 1) as nat) && tag_at(
        s,
        run_end(s, repeat_end(s, i, t, (n - 1) as nat), CharClass::Space),
        t,
    ))
}

/// How a binary operator is written.
pub open spec fn bin_op_text(op: ast::Op) -> Seq<char> {
    match op {
        ast::Op::And => "And"@,
        ast::Op::Or => "Or"@,
        ast::Op::Xor => "Xor"@,
        ast::Op::Eq => "="@,
        ast::Op::Lt => "<"@,
        ast::Op::Gt => ">"@,
        ast::Op::Add => "+"@,
        ast::Op::Sub => "-"@,
        ast::Op::Shl => "Shl"@,
        ast::Op::Shr => "Shr"@,
        ast::Op::Sar => "Sar"@,
        ast::Op::Mul => "*"@,
        ast::Op::Div => "/"@,
        _ => Seq::empty(),
    }
}

/// The binary operator read at a place is the one whose name is written
/// there: where the text after the spaces is `Shl`, the operator read is
/// `Shl`; where it is `Shr`, `Shr`; and so on for each operator.
pub proof fn operator_read_is_operator_written(s: Seq<char>, i: int, j: int, op: ast::Op)
    requires
        1 <= bin_op_level(op) <= 5,
        padded_at(s, i, bin_op_text(op), j),
    ensures
        tag_at(s, run_end(s, i, CharClass::Space), "And"@) ==> op == ast::Op::And,
        tag_at(s, run_end(s, i, CharClass::Space), "Or"@) ==> op == ast::Op::Or,
        tag_at(s, run_end(s, i, CharClass::Space), "Xor"@) ==> op == ast::Op::Xor,
        tag_at(s, run_end(s, i, CharClass::Space), "="@) ==> op == ast::Op::Eq,
        tag_at(s, run_end(s, i, CharClass::Space), "<"@) ==> op == ast::Op::Lt,
        tag_at(s, run_end(s, i, CharClass::Space), ">"@) ==> op == ast::Op::Gt,
        tag_at(s, run_end(s, i, CharClass::Space), "+"@) ==> op == ast::Op::Add,
        tag_at(s, run_end(s, i, CharClass::Space), "-"@) ==> op == ast::Op::Sub,
        tag_at(s, run_end(s, i, CharClass::Space), "Shl"@) ==> op == ast::Op::Shl,
        tag_at(s, run_end(s, i, CharClass::Space), "Shr"@) ==> op == ast::Op::Shr,
        tag_at(s, run_end(s, i, CharClass::Space), "Sar"@) ==> op == ast::Op::Sar,
        tag_at(s, run_end(s, i, CharClass::Space), "*"@) ==> op == ast::Op::Mul,
        tag_at(s, run_end(s, i, CharClass::Space), "/"@) ==> op == ast::Op::Div,
{
    reveal_strlit("And");
    reveal_strlit("Or");
    reveal_strlit("Xor");
    reveal_strlit("=");
    reveal_strlit("<");
    reveal_strlit(">");
    reveal_strlit("+");
    reveal_strlit("-");
    reveal_strlit("Shl");
    reveal_strlit("Shr");
    reveal_strlit("Sar");
    reveal_strlit("*");
    reveal_strlit("/");
    let k = run_end(s, i, CharClass::Space);
    let t = bin_op_text(op);
    assert(s.subrange(k, k + t.len()) == t);
    assert forall|w: Seq<char>| #[trigger] tag_at(s, k, w) implies {
        &&& w.len() > 0 ==> w[0] == s[k]
        &&& w.len() > 1 ==> w[1] == s[k + 1]
        &&& w.len() > 2 ==> w[2] == s[k + 2]
    } by {
        let u = s.subrange(k, k + w.len());
        if w.len() > 0 {
            assert(u[0] == s[k]);
        }
        if w.len() > 1 {
            assert(u[1] == s[k + 1]);
        }
        if w.len() > 2 {
            assert(u[2] == s[k + 2]);
        }
    }
    assert(tag_at(s, k, t));
}

/// The precedence level of a binary operator, 1 binding tightest; 0 for the
/// operators that are not binary.
pub open spec fn bin_op_level(op: ast::Op) -> int {
    match op {
        ast::Op::And | ast::Op::Or | ast::Op::Xor => 5,
        ast::Op::Eq | ast::Op::Lt | ast::Op::Gt => 4,
        ast::Op::Add | ast::Op::Sub => 3,
        ast::Op::Shl | ast::Op::Shr | ast::Op::Sar => 2,
        ast::Op::Mul | ast::Op::Div => 1,
        _ => 0,
    }
}

/// The unary operator `op` repeated `n` times.
pub open spec fn ops_of(n: nat, op: ast::Op) -> Seq<ast::Op> {
    Seq::new(n, |q: int| op)
}

/// Where the name at `i` ends, with its type suffix if it has one.
pub open spec fn name_end(s: Seq<char>, i: int, ts: Option<ast::TypeSpecifier>) -> int {
    run_end(s, i, CharClass::Alnum) + if ts is Some {
        1int
    } else {
        0int
    }
}

/// Whether the identifier `name` stands at `i`, followed by the type suffix
/// `ts`, or by no suffix character when `ts` is `None`.
pub open spec fn named_at(s: Seq<char>, i: int, name: String, ts: Option<ast::TypeSpecifier>) -> bool {
    let n = run_end(s, i, CharClass::Alnum);
    &&& identifier_at(s, i)
    &&& name@ == s.subrange(i, n)
    &&& match ts {
        Some(t) => n < s.len() && type_specifier_of(s[n]) == Some(t),
        None => n == s.len() || type_specifier_of(s[n]) is None,
    }
}

/// `s` from `i` to `j` is the expression `e`: as many `Not`s as stand
/// there, before a chain of operators of level 5.
pub open spec fn expr_at(s: Seq<char>, i: int, j: int, e: ast::Expr) -> bool
    decreases j - i, 15int,
{
    exists|n: nat, b: ast::Expr|
        #![trigger pick2(n, b)]
        {
            let k = repeat_end(s, i, "Not"@, n);
            &&& expr_end(s, i) == Some(j)
            &&& repeated(s, i, "Not"@, n)
            &&& k == greedy_end(s, i, "Not"@)
            &&& i <= k <= j
            &&& level_at(s, k, j, 5, b)
            &&& e == un_op_chain(ops_of(n, ast::Op::Not), b)
        }
}

/// `s` from `i` to `j` is an operand of `level` followed by operators of
/// `level` and their operands, grouped to the right.
pub open spec fn level_at(s: Seq<char>, i: int, j: int, level: int, e: ast::Expr) -> bool
    decreases j - i, 2 * level + 4,
{
    &&& 1 <= level <= 5
    &&& level_end(s, i, level) == Some(j)
    &&& exists|m: int, lhs: ast::Expr, rhss: Seq<(ast::Op, Box<ast::Expr>)>|
        #![trigger pick3(m, lhs, rhss)]
        {
            &&& i <= m <= j
            &&& operand_at(s, i, m, level, lhs)
            &&& chain_at(s, m, j, level, rhss)
            &&& e == bin_op_chain(lhs, rhss)
        }
}

/// `s` from `i` to `j` is operator-operand pairs of `level`, one after the
/// other.
pub open spec fn chain_at(s: Seq<char>, i: int, j: int, level: int, rhss: Seq<(ast::Op, Box<ast::Expr>)>) -> bool
    decreases j - i, 2 * level + 2,
{
    if rhss.len() == 0 {
        j == i
    } else {
        exists|k: int, m: int|
            #![trigger pick2(k, m)]
            {
                &&& i <= k < m <= j
                &&& chain_at(s, i, k, level, rhss.drop_last())
                &&& bin_op_level(rhss.last().0) == level
                &&& padded_at(s, k, bin_op_text(rhss.last().0), m)
                &&& operand_at(s, m, j, level, *rhss.last().1)
            }
    }
}

/// `s` from `i` to `j` is an operand of the operators of `level`.
pub open spec fn operand_at(s: Seq<char>, i: int, j: int, level: int, e: ast::Expr) -> bool
    decreases j - i, 2 * level + 3,
{
    if level == 1 {
        unary_at(s, i, j, e)
    } else if 2 <= level <= 5 {
        level_at(s, i, j, level - 1, e)
    } else {
        false
    }
}

/// `s` from `i` to `j` is as many `-`s as stand there, before an atomic
/// value.
pub open spec fn unary_at(s: Seq<char>, i: int, j: int, e: ast::Expr) -> bool
    decreases j - i, 3int,
{
    exists|n: nat, a: ast::Expr|
        #![trigger pick2(n, a)]
        {
            let k = repeat_end(s, i, "-"@, n);
            &&& repeated(s, i, "-"@, n)
            &&& k == greedy_end(s, i, "-"@)
            &&& i <= k <= j
            &&& atomic_at(s, k, j, a)
            &&& e == un_op_chain(ops_of(n, ast::Op::Neg), a)
        }
}

/// `s` from `i` to `j` is a literal, a call or element, or a variable, with
/// the spaces around it.
pub open spec fn atomic_at(s: Seq<char>, i: int, j: int, e: ast::Expr) -> bool
    decreases j - i, 2int,
{
    exists|m: int|
        #![trigger pick1(m)]
        {
            let k = run_end(s, i, CharClass::Space);
            &&& i <= k <= m <= j
            &&& value_at(s, k, m, e)
            &&& j == run_end(s, m, CharClass::Space)
        }
}

/// Whether no float, integer or boolean literal stands at `i`.
pub open spec fn no_literal_at(s: Seq<char>, i: int) -> bool {
    &&& float_literal_end(s, i) is None
    &&& int_literal_value(s, i) is None
    &&& !tag_at(s, i, "True"@)
    &&& !tag_at(s, i, "False"@)
}

/// `s` from `i` to `j` is the literal, call or element, or variable `e`,
/// with nothing around it; the forms are tried in this order: float,
/// integer, boolean, string, call or element, variable.
pub open spec fn value_at(s: Seq<char>, i: int, j: int, e: ast::Expr) -> bool
    decreases j - i, 1int,
{
    match e {
        ast::Expr::FloatLiteral(t) => float_literal_end(s, i) == Some(j) && t@ == s.subrange(i, j),
        ast::Expr::IntegerLiteral(x) => {
            &&& float_literal_end(s, i) is None
            &&& int_literal_value(s, i) == Some(x as int)
            &&& j == int_literal_end(s, i)
        },
        ast::Expr::BoolLiteral(b) => {
            &&& float_literal_end(s, i) is None
            &&& int_literal_value(s, i) is None
            &&& if b {
                tag_at(s, i, "True"@) && j == i + 4
            } else {
                !tag_at(s, i, "True"@) && tag_at(s, i, "False"@) && j == i + 5
            }
        },
        ast::Expr::StringLiteral(t) => {
            &&& no_literal_at(s, i)
            &&& string_literal_at(s, i, j)
            &&& t@ == s.subrange(i + 1, j - 1)
        },
        ast::Expr::FunctionCallOrArrayElemRef(c) => {
            &&& no_literal_at(s, i)
            &&& string_literal_end(s, i) is None
            &&& call_form_at(s, i, j, c)
        },
        ast::Expr::VariableRef(v) => {
            &&& no_literal_at(s, i)
            &&& string_literal_end(s, i) is None
            &&& call_end(s, i) is None
            &&& variable_form_at(s, i, j, v)
        },
        _ => false,
    }
}

/// `s` from `i` to `j` is the call or element `c`: a name, `(`, the
/// arguments and `)`.
pub open spec fn call_form_at(s: Seq<char>, i: int, j: int, c: ast::FunctionCallOrArrayElemRef) -> bool
    decreases j - i, 0int,
{
    let p = name_end(s, i, c.type_specifier);
    &&& named_at(s, i, c.function_name, c.type_specifier)
    &&& i < p
    &&& p + 1 <= j - 1
    &&& tag_at(s, p, "("@)
    &&& list_end(s, p + 1) == j - 1
    &&& list_at(s, p + 1, j - 1, c.arguments@)
    &&& tag_at(s, j - 1, ")"@)
}

/// `s` from `i` to `j` is the variable `v`: a name and its type suffix, if
/// any.
pub open spec fn variable_form_at(s: Seq<char>, i: int, j: int, v: ast::VariableRef) -> bool {
    &&& named_at(s, i, v.name, v.type_specifier)
    &&& j == name_end(s, i, v.type_specifier)
}

/// `s` from `i` to `j` is the expressions `es` separated by commas.
pub open spec fn list_at(s: Seq<char>, i: int, j: int, es: Seq<Box<ast::Expr>>) -> bool
    decreases j - i, 16int,
{
    if es.len() == 0 {
        j == i
    } else if es.len() == 1 {
        expr_at(s, i, j, *es[0])
    } else {
        exists|k: int|
            #![trigger pick1(k)]
            {
                &&& i < k
                &&& k + 1 <= j
                &&& list_at(s, i, k, es.drop_last())
                &&& tag_at(s, k, ","@)
                &&& expr_at(s, k + 1, j, *es.last())
            }
    }
}

/// Where the text `t` with the spaces and tabs around it ends, if `t`
/// stands at `i` after optional spaces.
pub open spec fn padded_end(s: Seq<char>, i: int, t: Seq<char>) -> Option<int> {
    let k = run_end(s, i, CharClass::Space);
    if tag_at(s, k, t) {
        Some(run_end(s, k + t.len(), CharClass::Space))
    } else {
        None
    }
}

/// Where a run of padded copies of `t` from `i` ends, taking as many as
/// there are.
pub open spec fn greedy_end(s: Seq<char>, i: int, t: Seq<char>) -> int
    decreases s.len() - i,
{
    match padded_end(s, i, t) {
        Some(e) => if i < e <= s.len() {
            greedy_end(s, e, t)
        } else {
            i
        },
        None => i,
    }
}

/// `a` if it is `Some`, else `b`.
pub open spec fn or_else(a: Option<int>, b: Option<int>) -> Option<int> {
    if a is Some {
        a
    } else {
        b
    }
}

/// Where the first binary operator of `level` that stands at `i` ends, the
/// operators of a level tried in the order `bin_op_at` names them.
pub open spec fn bin_op_end(s: Seq<char>, i: int, level: int) -> Option<int> {
    if level == 5 {
        or_else(padded_end(s, i, "And"@), or_else(padded_end(s, i, "Or"@), padded_end(s, i, "Xor"@)))
    } else if level == 4 {
        or_else(padded_end(s, i, "="@), or_else(padded_end(s, i, "<"@), padded_end(s, i, ">"@)))
    } else if level == 3 {
        or_else(padded_end(s, i, "+"@), padded_end(s, i, "-"@))
    } else if level == 2 {
        or_else(padded_end(s, i, "Shl"@), or_else(padded_end(s, i, "Shr"@), padded_end(s, i, "Sar"@)))
    } else {
        or_else(padded_end(s, i, "*"@), padded_end(s, i, "/"@))
    }
}

/// Where the string literal at `i` ends, if one stands there.
pub open spec fn string_literal_end(s: Seq<char>, i: int) -> Option<int> {
    let body_end = run_end(s, i + 1, CharClass::StringBody);
    if 0 <= i < s.len() && s[i] == '"' && body_end > i + 1 && body_end < s.len() && s[body_end] == '"' {
        Some(body_end + 1)
    } else {
        None
    }
}

/// The length of the type suffix at `n`: 1 if a suffix character stands
/// there, else 0.
pub open spec fn suffix_len(s: Seq<char>, n: int) -> int {
    if 0 <= n < s.len() && type_specifier_of(s[n]) is Some {
        1
    } else {
        0
    }
}

/// Where the name at `i` ends, with its type suffix if one follows.
pub open spec fn name_with_suffix_end(s: Seq<char>, i: int) -> int {
    run_end(s, i, CharClass::Alnum) + suffix_len(s, run_end(s, i, CharClass::Alnum))
}

/// Where `expr` stops when it reads an expression at `i`; `None` when it
/// reads none. `Not`s are taken as long as there are, then a chain of
/// level 5.
pub open spec fn expr_end(s: Seq<char>, i: int) -> Option<int>
    decreases s.len() - i, 15int,
{
    let g = greedy_end(s, i, "Not"@);
    if 0 <= i <= g <= s.len() {
        level_end(s, g, 5)
    } else {
        None
    }
}

/// Where a chain of `level` read at `i` ends: an operand, then operators
/// and operands as long as both can be read.
pub open spec fn level_end(s: Seq<char>, i: int, level: int) -> Option<int>
    decreases s.len() - i, 2 * level + 4,
{
    if 1 <= level <= 5 && 0 <= i <= s.len() {
        match operand_end(s, i, level) {
            Some(j) => if i <= j <= s.len() {
                Some(chain_end(s, j, level))
            } else {
                None
            },
            None => None,
        }
    } else {
        None
    }
}

/// Where the operator-operand pairs of `level` from `j` end.
pub open spec fn chain_end(s: Seq<char>, j: int, level: int) -> int
    decreases s.len() - j, 2 * level + 2,
{
    if 1 <= level <= 5 && 0 <= j <= s.len() {
        match bin_op_end(s, j, level) {
            Some(k) => if j < k <= s.len() {
                match operand_end(s, k, level) {
                    Some(m) => if k < m <= s.len() {
                        chain_end(s, m, level)
                    } else {
                        j
                    },
                    None => j,
                }
            } else {
                j
            },
            None => j,
        }
    } else {
        j
    }
}

/// Where an operand of `level` read at `i` ends.
pub open spec fn operand_end(s: Seq<char>, i: int, level: int) -> Option<int>
    decreases s.len() - i, 2 * level + 3,
{
    if level == 1 {
        unary_end(s, i)
    } else if 2 <= level <= 5 {
        level_end(s, i, level - 1)
    } else {
        None
    }
}

/// Where `-`s, as many as there are, and an atomic value read at `i` end.
pub open spec fn unary_end(s: Seq<char>, i: int) -> Option<int>
    decreases s.len() - i, 3int,
{
    let g = greedy_end(s, i, "-"@);
    if 0 <= i <= g <= s.len() {
        atomic_end(s, g)
    } else {
        None
    }
}

/// Where an atomic value read at `i`, with the spaces around it, ends.
pub open spec fn atomic_end(s: Seq<char>, i: int) -> Option<int>
    decreases s.len() - i, 2int,
{
    let k = run_end(s, i, CharClass::Space);
    if 0 <= i <= k <= s.len() {
        match value_end(s, k) {
            Some(m) => Some(run_end(s, m, CharClass::Space)),
            None => None,
        }
    } else {
        None
    }
}

/// Where the first of a float, integer, boolean or string literal, a call
/// or element, or a variable that stands at `k` ends, tried in that order.
pub open spec fn value_end(s: Seq<char>, k: int) -> Option<int>
    decreases s.len() - k, 1int,
{
    if float_literal_end(s, k) is Some {
        float_literal_end(s, k)
    } else if int_literal_value(s, k) is Some {
        Some(int_literal_end(s, k))
    } else if tag_at(s, k, "True"@) {
        Some(k + 4)
    } else if tag_at(s, k, "False"@) {
        Some(k + 5)
    } else if string_literal_end(s, k) is Some {
        string_literal_end(s, k)
    } else if call_end(s, k) is Some {
        call_end(s, k)
    } else if identifier_at(s, k) {
        Some(name_with_suffix_end(s, k))
    } else {
        None
    }
}

/// Where the call or element at `k` ends: a name, `(`, the arguments and
/// `)`.
pub open spec fn call_end(s: Seq<char>, k: int) -> Option<int>
    decreases s.len() - k, 0int,
{
    let p = name_with_suffix_end(s, k);
    if identifier_at(s, k) && 0 <= k < p && p < s.len() && tag_at(s, p, "("@) {
        let q = list_end(s, p + 1);
        if tag_at(s, q, ")"@) {
            Some(q + 1)
        } else {
            None
        }
    } else {
        None
    }
}

/// Where the expressions separated by commas that `expr_list` reads at `i`
/// end; `i` when there is none.
pub open spec fn list_end(s: Seq<char>, i: int) -> int
    decreases s.len() - i, 16int,
{
    if 0 <= i <= s.len() {
        match expr_end(s, i) {
            Some(j) => if i < j <= s.len() {
                list_more_end(s, j)
            } else {
                i
            },
            None => i,
        }
    } else {
        i
    }
}

/// Where more `, expr` after `j` end, as long as they can be read.
pub open spec fn list_more_end(s: Seq<char>, j: int) -> int
    decreases s.len() - j, 16int,
{
    if 0 <= j < s.len() && tag_at(s, j, ","@) {
        match expr_end(s, j + 1) {
            Some(m) => if j < m <= s.len() {
                list_more_end(s, m)
            } else {
                j
            },
            None => j,
        }
    } else {
        j
    }
}

/// `opt(space) t opt(space)`: the position after, if `t` is there.
fn padded_tag(s: &Vec<char>, i: usize, t: &str) -> (r: Option<usize>)
    requires
        i <= s@.len(),
    ensures
        r matches Some(j) ==> i < j <= s@.len() || (t@.len() == 0 && i <= j <= s@.len()),
        match r {
            Some(j) => padded_at(s@, i as int, t@, j as int),
            None => !tag_at(s@, run_end(s@, i as int, CharClass::Space), t@),
        },
        match padded_end(s@, i as int, t@) {
            Some(e) => r matches Some(j) && j == e,
            None => r is None,
        },
{
    let k = opt_space(s, i);
    match tag(s, k, t) {
        Some(m) => Some(opt_space(s, m)),
        None => None,
    }
}

/// The binary operator at `i` of the given precedence level, with the spaces
/// around it: 5 `And Or Xor`, 4 `= < >`, 3 `+ -`, 2 `Shl Shr Sar`, 1 `* /`.
fn bin_op_at(s: &Vec<char>, i: usize, level: u8) -> (r: Option<(ast::Op, usize)>)
    requires
        i <= s@.len(),
        1 <= level <= 5,
    ensures
        r matches Some((_, j)) ==> i < j <= s@.len(),
        r matches Some((op, j)) ==> bin_op_level(op) == level && padded_at(s@, i as int, bin_op_text(op), j as int),
        match bin_op_end(s@, i as int, level as int) {
            Some(e) => r matches Some((_, j)) && j == e,
            None => r is None,
        },
{
    proof {
        reveal_strlit("And");
        reveal_strlit("Or");
        reveal_strlit("Xor");
        reveal_strlit("=");
        reveal_strlit("<");
        reveal_strlit(">");
        reveal_strlit("+");
        reveal_strlit("-");
        reveal_strlit("Shl");
        reveal_strlit("Shr");
        reveal_strlit("Sar");
        reveal_strlit("*");
        reveal_strlit("/");
    }
    if level == 5 {
        if let Some(j) = padded_tag(s, i, "And") {
            return Some((ast::Op::And, j));
        }
        if let Some(j) = padded_tag(s, i, "Or") {
            return Some((ast::Op::Or, j));
        }
        if let Some(j) = padded_tag(s, i, "Xor") {
            return Some((ast::Op::Xor, j));
        }
    } else if level == 4 {
        if let Some(j) = padded_tag(s, i, "=") {
            return Some((ast::Op::Eq, j));
        }
        if let Some(j) = padded_tag(s, i, "<") {
            return Some((ast::Op::Lt, j));
        }
        if let Some(j) = padded_tag(s, i, ">") {
            return Some((ast::Op::Gt, j));
        }
    } else if level == 3 {
        if let Some(j) = padded_tag(s, i, "+") {
            return Some((ast::Op::Add, j));
        }
        if let Some(j) = padded_tag(s, i, "-") {
            return Some((ast::Op::Sub, j));
        }
    } else if level == 2 {
        if let Some(j) = padded_tag(s, i, "Shl") {
            return Some((ast::Op::Shl, j));
        }
        if let Some(j) = padded_tag(s, i, "Shr") {
            return Some((ast::Op::Shr, j));
        }
        if let Some(j) = padded_tag(s, i, "Sar") {
            return Some((ast::Op::Sar, j));
        }
    } else {
        if let Some(j) = padded_tag(s, i, "*") {
            return Some((ast::Op::Mul, j));
        }
        if let Some(j) = padded_tag(s, i, "/") {
            return Some((ast::Op::Div, j));
        }
    }
    None
}

/// An expression: any number of `Not`s before a chain of binary operators.
fn expr(s: &Vec<char>, i: usize) -> (r: Option<(Box<ast::Expr>, usize)>)
    requires
        i <= s@.len(),
    ensures
        r matches Some((_, j)) ==> i < j <= s@.len(),
        r matches Some((e, j)) ==> expr_at(s@, i as int, j as int, *e),
        match expr_end(s@, i as int) {
            Some(e) => r matches Some((_, j)) && j == e,
            None => r is None,
        },
    decreases s@.len() - i, 14int,
{
    proof {
        reveal_strlit("Not");
    }
    let mut ops: Vec<ast::Op> = Vec::new();
    let mut j = i;
    loop
        invariant
            i <= j <= s@.len(),
            ops@ == ops_of(ops@.len(), ast::Op::Not),
            repeated(s@, i as int, "Not"@, ops@.len()),
            j == repeat_end(s@, i as int, "Not"@, ops@.len()),
            greedy_end(s@, j as int, "Not"@) == greedy_end(s@, i as int, "Not"@),
        ensures
            greedy_end(s@, j as int, "Not"@) == j,
        decreases s@.len() - j,
    {
        proof {
            reveal_strlit("Not");
        }
        match padded_tag(s, j, "Not") {
            Some(k) => {
                ops.push(ast::Op::Not);
                proof {
                    assert(ops@ =~= ops_of(ops@.len(), ast::Op::Not));
                }
                j = k;
            },
            None => {
                break;
            },
        }
    }
    match binary_level(s, j, 5) {
        Some((e, k)) => {
            let ghost b = *e;
            let r = reduce_un_op_expr(&ops, e, 0);
            proof {
                assert(ops@.skip(0) =~= ops@);
                assert(pick2(ops@.len(), b));
            }
            Some((r, k))
        },
        None => None,
    }
}

/// A chain of operands of the next level joined by operators of `level`.
fn binary_level(s: &Vec<char>, i: usize, level: u8) -> (r: Option<(Box<ast::Expr>, usize)>)
    requires
        i <= s@.len(),
        1 <= level <= 5,
    ensures
        r matches Some((_, j)) ==> i < j <= s@.len(),
        r matches Some((e, j)) ==> level_at(s@, i as int, j as int, level as int, *e),
        match level_end(s@, i as int, level as int) {
            Some(e) => r matches Some((_, j)) && j == e,
            None => r is None,
        },
    decreases s@.len() - i, 2 * level + 3,
{
    let (lhs, mut j) = match operand(s, i, level) {
        Some(x) => x,
        None => {
            return None;
        },
    };
    let ghost m0 = j as int;
    let mut rhss: Vec<(ast::Op, Box<ast::Expr>)> = Vec::new();
    loop
        invariant
            i < m0 <= j <= s@.len(),
            1 <= level <= 5,
            chain_at(s@, m0, j as int, level as int, rhss@),
            level_end(s@, i as int, level as int) == Some(chain_end(s@, m0, level as int)),
            chain_end(s@, j as int, level as int) == chain_end(s@, m0, level as int),
        ensures
            chain_end(s@, j as int, level as int) == j,
        decreases s@.len() - j,
    {
        let (op, k) = match bin_op_at(s, j, level) {
            Some(x) => x,
            None => {
                break;
            },
        };
        match operand(s, k, level) {
            Some((rhs, m)) => {
                let ghost before = rhss@;
                let ghost j0 = j as int;
                rhss.push((op, rhs));
                proof {
                    assert(rhss@.drop_last() =~= before);
                    assert(pick2(j0, k as int));
                }
                j = m;
            },
            None => {
                break;
            },
        }
    }
    let ghost l = *lhs;
    let ghost rs = rhss@;
    let r = reduce_bin_op_expr(lhs, rhss, 0);
    proof {
        assert(rs.skip(0) =~= rs);
        assert(pick3(m0, l, rs));
    }
    Some((r, j))
}

/// An operand of the operators of `level`.
fn operand(s: &Vec<char>, i: usize, level: u8) -> (r: Option<(Box<ast::Expr>, usize)>)
    requires
        i <= s@.len(),
        1 <= level <= 5,
    ensures
        r matches Some((_, j)) ==> i < j <= s@.len(),
        r matches Some((e, j)) ==> operand_at(s@, i as int, j as int, level as int, *e),
        match operand_end(s@, i as int, level as int) {
            Some(e) => r matches Some((_, j)) && j == e,
            None => r is None,
        },
    decreases s@.len() - i, 2 * level + 2,
{
    if level == 1 {
        unary_expr(s, i)
    } else {
        binary_level(s, i, level - 1)
    }
}

/// Any number of `-` before an atomic value.
fn unary_expr(s: &Vec<char>, i: usize) -> (r: Option<(Box<ast::Expr>, usize)>)
    requires
        i <= s@.len(),
    ensures
        r matches Some((_, j)) ==> i < j <= s@.len(),
        r matches Some((e, j)) ==> unary_at(s@, i as int, j as int, *e),
        match unary_end(s@, i as int) {
            Some(e) => r matches Some((_, j)) && j == e,
            None => r is None,
        },
    decreases s@.len() - i, 2int,
{
    proof {
        reveal_strlit("-");
    }
    let mut ops: Vec<ast::Op> = Vec::new();
    let mut j = i;
    loop
        invariant
            i <= j <= s@.len(),
            ops@ == ops_of(ops@.len(), ast::Op::Neg),
            repeated(s@, i as int, "-"@, ops@.len()),
            j == repeat_end(s@, i as int, "-"@, ops@.len()),
            greedy_end(s@, j as int, "-"@) == greedy_end(s@, i as int, "-"@),
        ensures
            greedy_end(s@, j as int, "-"@) == j,
        decreases s@.len() - j,
    {
        proof {
            reveal_strlit("-");
        }
        match padded_tag(s, j, "-") {
            Some(k) => {
                ops.push(ast::Op::Neg);
                proof {
                    assert(ops@ =~= ops_of(ops@.len(), ast::Op::Neg));
                }
                j = k;
            },
            None => {
                break;
            },
        }
    }
    match atomic_value(s, j) {
        Some((e, k)) => {
            let ghost a = *e;
            let r = reduce_un_op_expr(&ops, e, 0);
            proof {
                assert(ops@.skip(0) =~= ops@);
                assert(pick2(ops@.len(), a));
            }
            Some((r, k))
        },
        None => None,
    }
}

/// A literal, a call or array element, or a variable, with the spaces
/// around it.
fn atomic_value(s: &Vec<char>, i: usize) -> (r: Option<(Box<ast::Expr>, usize)>)
    requires
        i <= s@.len(),
    ensures
        r matches Some((_, j)) ==> i < j <= s@.len(),
        r matches Some((e, j)) ==> atomic_at(s@, i as int, j as int, *e),
        match atomic_end(s@, i as int) {
            Some(e) => r matches Some((_, j)) && j == e,
            None => r is None,
        },
    decreases s@.len() - i, 1int,
{
    let k = opt_space(s, i);
    let (e, j) = if let Some((text, j)) = float_literal(s, k) {
        (ast::Expr::FloatLiteral(text), j)
    } else if let Some((x, j)) = integer_literal(s, k) {
        (ast::Expr::IntegerLiteral(x), j)
    } else if let Some((b, j)) = bool_literal(s, k) {
        (ast::Expr::BoolLiteral(b), j)
    } else if let Some((t, j)) = string_literal(s, k) {
        (ast::Expr::StringLiteral(t), j)
    } else if let Some((c, j)) = call_or_element(s, k) {
        (ast::Expr::FunctionCallOrArrayElemRef(c), j)
    } else if let Some((v, j)) = variable_ref(s, k) {
        (ast::Expr::VariableRef(v), j)
    } else {
        return None;
    };
    proof {
        reveal_strlit("True");
        reveal_strlit("False");
        assert(value_at(s@, k as int, j as int, e));
        assert(pick1(j as int));
    }
    Some((Box::new(e), opt_space(s, j)))
}

/// `name(arguments)`, a function call or an array element.
fn call_or_element(s: &Vec<char>, i: usize) -> (r: Option<(ast::FunctionCallOrArrayElemRef, usize)>)
    requires
        i <= s@.len(),
    ensures
        r matches Some((_, j)) ==> i < j <= s@.len(),
        r matches Some((c, j)) ==> call_form_at(s@, i as int, j as int, c),
        match call_end(s@, i as int) {
            Some(e) => r matches Some((_, j)) && j == e,
            None => r is None,
        },
    decreases s@.len() - i, 0int,
{
    proof {
        reveal_strlit("(");
        reveal_strlit(")");
    }
    let (name, j) = match identifier(s, i) {
        Some(x) => x,
        None => {
            return None;
        },
    };
    let (type_specifier, j) = opt_type_specifier(s, j);
    let j = match tag(s, j, "(") {
        Some(j) => j,
        None => {
            return None;
        },
    };
    let (arguments, j) = expr_list(s, j);
    match tag(s, j, ")") {
        Some(j) => Some((ast::FunctionCallOrArrayElemRef { function_name: name, type_specifier, arguments }, j)),
        None => None,
    }
}

/// Expressions separated by commas, possibly none.
fn expr_list(s: &Vec<char>, i: usize) -> (r: (Vec<Box<ast::Expr>>, usize))
    requires
        i <= s@.len(),
    ensures
        i <= r.1 <= s@.len(),
        list_at(s@, i as int, r.1 as int, r.0@),
        r.1 == list_end(s@, i as int),
        r.0@.len() > 0 <==> expr_end(s@, i as int) is Some,
    decreases s@.len() - i, 15int,
{
    proof {
        reveal_strlit(",");
    }
    let mut items: Vec<Box<ast::Expr>> = Vec::new();
    let mut j = match expr(s, i) {
        Some((e, j)) => {
            items.push(e);
            j
        },
        None => {
            return (items, i);
        },
    };
    loop
        invariant
            i < j <= s@.len(),
            items@.len() >= 1,
            list_at(s@, i as int, j as int, items@),
            expr_end(s@, i as int) is Some,
            list_more_end(s@, j as int) == list_end(s@, i as int),
        ensures
            list_more_end(s@, j as int) == j,
        decreases s@.len() - j,
    {
        proof {
            reveal_strlit(",");
        }
        let k = match tag(s, j, ",") {
            Some(k) => k,
            None => {
                break;
            },
        };
        match expr(s, k) {
            Some((e, m)) => {
                let ghost before = items@;
                let ghost j0 = j as int;
                items.push(e);
                proof {
                    assert(items@.drop_last() =~= before);
                    assert(pick1(j0));
                }
                j = m;
            },
            None => {
                break;
            },
        }
    }
    (items, j)
}

/// A variable name with an optional type suffix.
fn variable_ref(s: &Vec<char>, i: usize) -> (r: Option<(ast::VariableRef, usize)>)
    requires
        i <= s@.len(),
    ensures
        r matches Some((_, j)) ==> i < j <= s@.len(),
        r matches Some((v, j)) ==> variable_form_at(s@, i as int, j as int, v),
        r is Some <==> identifier_at(s@, i as int),
        r matches Some((_, j)) ==> j == name_with_suffix_end(s@, i as int),
{
    let (name, j) = match identifier(s, i) {
        Some(x) => x,
        None => {
            return None;
        },
    };
    let (type_specifier, j) = opt_type_specifier(s, j);
    Some((ast::VariableRef { name, type_specifier }, j))
}

/// `s` has the keyword `w` at `i` followed by one or more spaces, which end
/// at `j`.
pub open spec fn keyword_at(s: Seq<char>, i: int, w: Seq<char>, j: int) -> bool {
    &&& tag_at(s, i, w)
    &&& run_end(s, i + w.len(), CharClass::Space) > i + w.len()
    &&& j == run_end(s, i + w.len(), CharClass::Space)
}

/// `s` from `i` to `j` is the assignment `a` of an expression to a variable:
/// `name = expr`.
pub open spec fn assignment_at(s: Seq<char>, i: int, j: int, a: ast::Assignment) -> bool {
    match a.l_value {
        ast::LValue::VariableRef(v) => {
            let k = name_end(s, i, v.type_specifier);
            let m = run_end(s, run_end(s, k, CharClass::Space) + 1, CharClass::Space);
            &&& variable_form_at(s, i, k, v)
            &&& padded_at(s, k, "="@, m)
            &&& expr_at(s, m, j, *a.expr)
        },
        ast::LValue::ArrayElemRef(_) => false,
    }
}

/// `s` from `i` to `j` is the call statement `c`: the name, then the
/// arguments in parentheses when the parentheses close, else the arguments
/// separated by commas without them when one can be read, else none.
pub open spec fn call_statement_at(s: Seq<char>, i: int, j: int, c: ast::FunctionCallOrArrayElemRef) -> bool {
    let p = name_end(s, i, c.type_specifier);
    &&& named_at(s, i, c.function_name, c.type_specifier)
    &&& if tag_at(s, p, "("@) && tag_at(s, list_end(s, p + 1), ")"@) {
        &&& p + 1 <= j - 1
        &&& j - 1 == list_end(s, p + 1)
        &&& list_at(s, p + 1, j - 1, c.arguments@)
        &&& tag_at(s, j - 1, ")"@)
    } else if expr_end(s, p) is Some {
        &&& c.arguments@.len() > 0
        &&& j == list_end(s, p)
        &&& list_at(s, p, j, c.arguments@)
    } else {
        c.arguments@.len() == 0 && j == p
    }
}

/// `s` from `i` to `j` is the statements `ss`, each after optional
/// whitespace.
pub open spec fn stmts_at(s: Seq<char>, i: int, j: int, ss: Seq<ast::Statement>) -> bool
    decreases j - i, 3int,
{
    if ss.len() == 0 {
        j == i
    } else {
        exists|k: int|
            #![trigger pick1(k)]
            {
                &&& i <= k <= ws_end(s, k) < j
                &&& stmts_at(s, i, k, ss.drop_last())
                &&& stmt_at(s, ws_end(s, k), j, ss.last())
            }
    }
}

/// `s` from `i` to `j` is statements separated by `:` on one line.
pub open spec fn line_stmts_at(s: Seq<char>, i: int, j: int, ss: Seq<ast::Statement>) -> bool
    decreases j - i, 3int,
{
    if ss.len() == 0 {
        false
    } else if ss.len() == 1 {
        stmt_at(s, i, j, ss[0])
    } else {
        exists|k: int|
            #![trigger pick1(k)]
            {
                let c = run_end(s, k, CharClass::Space);
                &&& i < k <= c
                &&& c + 1 < j
                &&& line_stmts_at(s, i, k, ss.drop_last())
                &&& tag_at(s, c, ":"@)
                &&& stmt_at(s, c + 1, j, ss.last())
            }
    }
}

/// `s` from `i` to `j` is the statement `st`, the forms tried in this
/// order: `If`, `While`, `For`, `Select`, assignment, call.
pub open spec fn stmt_at(s: Seq<char>, i: int, j: int, st: ast::Statement) -> bool
    decreases j - i, 2int,
{
    &&& stmt_end(s, i) == Some(j)
    &&& match st {
        ast::Statement::If(x) => if_at(s, i, j, x),
        ast::Statement::While(w) => if_end(s, i) is None && while_at(s, i, j, w),
        ast::Statement::For(f) => {
            &&& if_end(s, i) is None
            &&& while_end(s, i) is None
            &&& for_at(s, i, j, f)
        },
        ast::Statement::Select(x) => {
            &&& if_end(s, i) is None
            &&& while_end(s, i) is None
            &&& for_end(s, i) is None
            &&& select_at(s, i, j, x)
        },
        ast::Statement::Assignment(a) => {
            &&& if_end(s, i) is None
            &&& while_end(s, i) is None
            &&& for_end(s, i) is None
            &&& select_end(s, i) is None
            &&& assignment_at(s, i, j, a)
        },
        ast::Statement::FunctionCall(c) => {
            &&& if_end(s, i) is None
            &&& while_end(s, i) is None
            &&& for_end(s, i) is None
            &&& select_end(s, i) is None
            &&& assignment_end(s, i) is None
            &&& call_statement_at(s, i, j, c)
        },
        _ => false,
    }
}

/// Where the block form of an `If` whose statements start at `b` looks for
/// its `EndIf`: after the statements, the whitespace, the else branch if
/// one can be read, and the whitespace again.
pub open spec fn if_close_at(s: Seq<char>, b: int) -> int {
    let e = ws_end(s, stmts_end(s, b));
    ws_end(
        s,
        match else_end(s, e) {
            Some(q) => q,
            None => e,
        },
    )
}

/// `s` from `i` to `j` is an `If`: `If condition`, the statements, an
/// optional `Else` branch and `EndIf`; or, only where that `EndIf` is not
/// found, `If condition Then` and statements separated by `:`. Each list of
/// statements runs as far as statements can be read.
pub open spec fn if_at(s: Seq<char>, i: int, j: int, x: ast::If) -> bool
    decreases j - i, 1int,
{
    let c = run_end(s, i + 2, CharClass::Space);
    &&& keyword_at(s, i, "If"@, c)
    &&& i < c <= j
    &&& exists|b: int, m: int, q: int|
        #![trigger pick3(b, m, q)]
        {
            let e = ws_end(s, m);
            let f = ws_end(s, q);
            ||| {
                &&& c <= b <= m <= e <= q <= f
                &&& f + 5 == j
                &&& expr_at(s, c, b, *x.condition)
                &&& m == stmts_end(s, b)
                &&& stmts_at(s, b, m, x.body@)
                &&& else_at(s, e, q, x.else_clause)
                &&& tag_at(s, f, "EndIf"@)
            }
            ||| {
                let t = run_end(s, b + 4, CharClass::Space);
                &&& c <= b < t <= j
                &&& x.else_clause is None
                &&& expr_at(s, c, b, *x.condition)
                &&& !tag_at(s, if_close_at(s, b), "EndIf"@)
                &&& keyword_at(s, b, "Then"@, t)
                &&& line_stmts_at(s, t, j, x.body@)
            }
        }
}

/// `s` from `i` to `j` is the else branch `ec`: nothing when none can be
/// read, else `Else`, whitespace and the statements.
pub open spec fn else_at(s: Seq<char>, i: int, j: int, ec: Option<ast::ElseClause>) -> bool
    decreases j - i, 0int,
{
    match ec {
        None => j == i && else_end(s, i) is None,
        Some(e) => {
            let k = ws_end(s, i + 4);
            &&& else_end(s, i) == Some(j)
            &&& tag_at(s, i, "Else"@)
            &&& ws_step(s, i + 4) is Some
            &&& i < k <= j
            &&& stmts_at(s, k, j, e.body@)
        },
    }
}

/// `s` from `i` to `j` is `While condition`, the statements and `Wend`.
pub open spec fn while_at(s: Seq<char>, i: int, j: int, w: ast::While) -> bool
    decreases j - i, 1int,
{
    let c = run_end(s, i + 5, CharClass::Space);
    &&& keyword_at(s, i, "While"@, c)
    &&& exists|b: int, m: int|
        #![trigger pick2(b, m)]
        {
            let e = ws_end(s, m);
            &&& i < c <= b <= m <= e
            &&& e + 4 == j
            &&& expr_at(s, c, b, *w.condition)
            &&& m == stmts_end(s, b)
            &&& stmts_at(s, b, m, w.body@)
            &&& tag_at(s, e, "Wend"@)
        }
}

/// `s` from `i` to `j` is `For` and an assignment, `To` and a value,
/// `Step` and a value when they can be read, the statements and `Next`.
pub open spec fn for_at(s: Seq<char>, i: int, j: int, f: ast::For) -> bool
    decreases j - i, 1int,
{
    let c = run_end(s, i + 3, CharClass::Space);
    &&& keyword_at(s, i, "For"@, c)
    &&& exists|d: int, u: int, w: int, m: int|
        #![trigger pick4(d, u, w, m)]
        {
            let t = run_end(s, d + 2, CharClass::Space);
            let e = ws_end(s, m);
            &&& i < c <= d < t <= u <= w <= m <= e
            &&& e + 4 == j
            &&& assignment_at(s, c, d, f.initialization)
            &&& keyword_at(s, d, "To"@, t)
            &&& atomic_at(s, t, u, *f.to)
            &&& match f.step {
                Some(st) => {
                    let v = run_end(s, u + 4, CharClass::Space);
                    keyword_at(s, u, "Step"@, v) && atomic_at(s, v, w, *st)
                },
                None => {
                    &&& w == u
                    &&& match keyword_end(s, u, "Step"@) {
                        Some(v) => atomic_end(s, v) is None,
                        None => true,
                    }
                },
            }
            &&& m == stmts_end(s, w)
            &&& stmts_at(s, w, m, f.body@)
            &&& tag_at(s, e, "Next"@)
        }
}

/// `s` from `i` to `j` is `Select expr`, the `Case` arms and `End Select`.
pub open spec fn select_at(s: Seq<char>, i: int, j: int, x: ast::Select) -> bool
    decreases j - i, 1int,
{
    let c = run_end(s, i + 6, CharClass::Space);
    &&& keyword_at(s, i, "Select"@, c)
    &&& exists|b: int, k: int|
        #![trigger pick2(b, k)]
        {
            let m = ws_end(s, k);
            let q = run_end(s, m + 3, CharClass::Space);
            &&& i < c <= b <= k <= m < q
            &&& q + 6 == j
            &&& expr_at(s, c, b, *x.expr)
            &&& k == arms_end(s, b)
            &&& arms_at(s, b, k, x.arms@)
            &&& keyword_at(s, m, "End"@, q)
            &&& tag_at(s, q, "Select"@)
        }
}

/// `s` from `i` to `j` is the arms `arms`, each after optional whitespace.
pub open spec fn arms_at(s: Seq<char>, i: int, j: int, arms: Seq<ast::CaseArm>) -> bool
    decreases j - i, 3int,
{
    if arms.len() == 0 {
        j == i
    } else {
        exists|k: int|
            #![trigger pick1(k)]
            {
                &&& i <= k <= ws_end(s, k) < j
                &&& arms_at(s, i, k, arms.drop_last())
                &&& arm_at(s, ws_end(s, k), j, arms.last())
            }
    }
}

/// `s` from `i` to `j` is `Case value` and the statements of the arm.
pub open spec fn arm_at(s: Seq<char>, i: int, j: int, a: ast::CaseArm) -> bool
    decreases j - i, 2int,
{
    let c = run_end(s, i + 4, CharClass::Space);
    &&& keyword_at(s, i, "Case"@, c)
    &&& exists|v: int|
        #![trigger pick1(v)]
        {
            &&& i < c <= v <= j
            &&& atomic_at(s, c, v, *a.value)
            &&& j == stmts_end(s, v)
            &&& stmts_at(s, v, j, a.body@)
        }
}

/// `s` from `i` to `j` is `Global name`, with `= expr` when it can be read.
pub open spec fn global_at(s: Seq<char>, i: int, j: int, d: ast::VariableDecl) -> bool {
    let c = run_end(s, i + 6, CharClass::Space);
    let p = name_end(s, c, d.type_specifier);
    &&& keyword_at(s, i, "Global"@, c)
    &&& named_at(s, c, d.name, d.type_specifier)
    &&& match d.init_expr {
        Some(e) => {
            let q = run_end(s, run_end(s, p, CharClass::Space) + 1, CharClass::Space);
            padded_at(s, p, "="@, q) && expr_at(s, q, j, *e)
        },
        None => {
            &&& j == p
            &&& match padded_end(s, p, "="@) {
                Some(q) => expr_end(s, q) is None,
                None => true,
            }
        },
    }
}

/// `s` from `i` to `j` is the top-level node `n` with the whitespace around
/// it; the forms are tried in this order: `Include`, `Global`, statement.
pub open spec fn node_at(s: Seq<char>, i: int, j: int, n: ast::Node) -> bool {
    let k = ws_end(s, i);
    exists|m: int|
        #![trigger pick1(m)]
        {
            &&& node_end(s, i) == Some(j)
            &&& j == ws_end(s, m)
            &&& match n {
                ast::Node::Include(file) => {
                    let c = run_end(s, k + 7, CharClass::Space);
                    keyword_at(s, k, "Include"@, c) && string_literal_at(s, c, m) && file@ == s.subrange(
                        c + 1,
                        m - 1,
                    )
                },
                ast::Node::GlobalVariableDecl(d) => include_end(s, k) is None && global_at(s, k, m, d),
                ast::Node::Statement(st) => {
                    &&& include_end(s, k) is None
                    &&& global_end(s, k) is None
                    &&& stmt_at(s, k, m, st)
                },
                _ => false,
            }
        }
}

/// `s` from `i` to `j` is the nodes `ns`, one after the other.
pub open spec fn nodes_at(s: Seq<char>, i: int, j: int, ns: Seq<ast::Node>) -> bool
    decreases ns.len(),
{
    if ns.len() == 0 {
        j == i
    } else {
        exists|k: int| #![trigger pick1(k)] nodes_at(s, i, k, ns.drop_last()) && node_at(s, k, j, ns.last())
    }
}

/// Where the keyword `w` at `i` and the spaces after it end, if `w` stands
/// at `i` followed by one or more spaces.
pub open spec fn keyword_end(s: Seq<char>, i: int, w: Seq<char>) -> Option<int> {
    let e = run_end(s, i + w.len(), CharClass::Space);
    if tag_at(s, i, w) && e > i + w.len() {
        Some(e)
    } else {
        None
    }
}

/// Where the assignment `name = expr` read at `i` ends.
pub open spec fn assignment_end(s: Seq<char>, i: int) -> Option<int> {
    if identifier_at(s, i) {
        match padded_end(s, name_with_suffix_end(s, i), "="@) {
            Some(m) => expr_end(s, m),
            None => None,
        }
    } else {
        None
    }
}

/// Where the call statement read at `i` ends: the arguments in parentheses
/// when they close, else the arguments without them, else the name alone.
pub open spec fn call_statement_end(s: Seq<char>, i: int) -> Option<int> {
    let p = name_with_suffix_end(s, i);
    if identifier_at(s, i) {
        if tag_at(s, p, "("@) && tag_at(s, list_end(s, p + 1), ")"@) {
            Some(list_end(s, p + 1) + 1)
        } else if expr_end(s, p) is Some {
            Some(list_end(s, p))
        } else {
            Some(p)
        }
    } else {
        None
    }
}

/// Where the statements that `statement_list` reads from `j` end.
pub open spec fn stmts_end(s: Seq<char>, j: int) -> int
    decreases s.len() - j, 3int,
{
    let k = ws_end(s, j);
    if 0 <= j <= k <= s.len() {
        match stmt_end(s, k) {
            Some(m) => if k < m <= s.len() {
                stmts_end(s, m)
            } else {
                j
            },
            None => j,
        }
    } else {
        j
    }
}

/// Where the first of an `If`, `While`, `For`, `Select`, assignment or call
/// statement read at `i` ends, tried in that order.
pub open spec fn stmt_end(s: Seq<char>, i: int) -> Option<int>
    decreases s.len() - i, 2int,
{
    or_else(
        if_end(s, i),
        or_else(
            while_end(s, i),
            or_else(
                for_end(s, i),
                or_else(select_end(s, i), or_else(assignment_end(s, i), call_statement_end(s, i))),
            ),
        ),
    )
}

/// Where an `If` read at `i` ends: the block form when its `EndIf` is
/// found, else the one-line form.
pub open spec fn if_end(s: Seq<char>, i: int) -> Option<int>
    decreases s.len() - i, 1int,
{
    match keyword_end(s, i, "If"@) {
        Some(j) => if 0 <= i < j <= s.len() {
            match expr_end(s, j) {
                Some(k) => if j < k <= s.len() {
                    let m = stmts_end(s, k);
                    let e = ws_end(s, m);
                    if k <= m <= e <= s.len() {
                        let q = match else_end(s, e) {
                            Some(q) => q,
                            None => e,
                        };
                        let f = ws_end(s, q);
                        if tag_at(s, f, "EndIf"@) {
                            Some(f + 5)
                        } else {
                            if_line_end(s, k)
                        }
                    } else {
                        None
                    }
                } else {
                    None
                },
                None => None,
            }
        } else {
            None
        },
        None => None,
    }
}

/// Where `Then` and statements separated by `:` read at `k` end.
pub open spec fn if_line_end(s: Seq<char>, k: int) -> Option<int>
    decreases s.len() - k, 0int,
{
    match keyword_end(s, k, "Then"@) {
        Some(t) => if 0 <= k < t <= s.len() {
            match stmt_end(s, t) {
                Some(m) => if t < m <= s.len() {
                    Some(line_more_end(s, m))
                } else {
                    None
                },
                None => None,
            }
        } else {
            None
        },
        None => None,
    }
}

/// Where more `: statement` after `k` end, as long as they can be read.
pub open spec fn line_more_end(s: Seq<char>, k: int) -> int
    decreases s.len() - k, 0int,
{
    let c = run_end(s, k, CharClass::Space);
    if 0 <= k <= c < s.len() && tag_at(s, c, ":"@) {
        match stmt_end(s, c + 1) {
            Some(m) => if c + 1 < m <= s.len() {
                line_more_end(s, m)
            } else {
                k
            },
            None => k,
        }
    } else {
        k
    }
}

/// Where an else branch read at `i` ends: `Else`, whitespace and the
/// statements.
pub open spec fn else_end(s: Seq<char>, i: int) -> Option<int>
    decreases s.len() - i, 0int,
{
    let k = ws_end(s, i + 4);
    if tag_at(s, i, "Else"@) && ws_step(s, i + 4) is Some && 0 <= i < k <= s.len() {
        Some(stmts_end(s, k))
    } else {
        None
    }
}

/// Where a `While` read at `i` ends.
pub open spec fn while_end(s: Seq<char>, i: int) -> Option<int>
    decreases s.len() - i, 1int,
{
    match keyword_end(s, i, "While"@) {
        Some(j) => if 0 <= i < j <= s.len() {
            match expr_end(s, j) {
                Some(k) => if j < k <= s.len() {
                    let e = ws_end(s, stmts_end(s, k));
                    if tag_at(s, e, "Wend"@) {
                        Some(e + 4)
                    } else {
                        None
                    }
                } else {
                    None
                },
                None => None,
            }
        } else {
            None
        },
        None => None,
    }
}

/// Where a `For` read at `i` ends.
pub open spec fn for_end(s: Seq<char>, i: int) -> Option<int>
    decreases s.len() - i, 1int,
{
    match keyword_end(s, i, "For"@) {
        Some(j) => if 0 <= i < j <= s.len() {
            match assignment_end(s, j) {
                Some(d) => match keyword_end(s, d, "To"@) {
                    Some(t) => match atomic_end(s, t) {
                        Some(u) => {
                            let w = match keyword_end(s, u, "Step"@) {
                                Some(v) => match atomic_end(s, v) {
                                    Some(w) => w,
                                    None => u,
                                },
                                None => u,
                            };
                            if j < w <= s.len() {
                                let e = ws_end(s, stmts_end(s, w));
                                if tag_at(s, e, "Next"@) {
                                    Some(e + 4)
                                } else {
                                    None
                                }
                            } else {
                                None
                            }
                        },
                        None => None,
                    },
                    None => None,
                },
                None => None,
            }
        } else {
            None
        },
        None => None,
    }
}

/// Where a `Select` read at `i` ends.
pub open spec fn select_end(s: Seq<char>, i: int) -> Option<int>
    decreases s.len() - i, 1int,
{
    match keyword_end(s, i, "Select"@) {
        Some(j) => if 0 <= i < j <= s.len() {
            match expr_end(s, j) {
                Some(b) => if j < b <= s.len() {
                    let m = ws_end(s, arms_end(s, b));
                    match keyword_end(s, m, "End"@) {
                        Some(q) => if tag_at(s, q, "Select"@) {
                            Some(q + 6)
                        } else {
                            None
                        },
                        None => None,
                    }
                } else {
                    None
                },
                None => None,
            }
        } else {
            None
        },
        None => None,
    }
}

/// Where the `Case` arms read from `k` end.
pub open spec fn arms_end(s: Seq<char>, k: int) -> int
    decreases s.len() - k, 3int,
{
    let c = ws_end(s, k);
    if 0 <= k <= c <= s.len() {
        match arm_end(s, c) {
            Some(m) => if c < m <= s.len() {
                arms_end(s, m)
            } else {
                k
            },
            None => k,
        }
    } else {
        k
    }
}

/// Where a `Case` arm read at `i` ends.
pub open spec fn arm_end(s: Seq<char>, i: int) -> Option<int>
    decreases s.len() - i, 2int,
{
    match keyword_end(s, i, "Case"@) {
        Some(j) => if 0 <= i < j <= s.len() {
            match atomic_end(s, j) {
                Some(k) => if j < k <= s.len() {
                    Some(stmts_end(s, k))
                } else {
                    None
                },
                None => None,
            }
        } else {
            None
        },
        None => None,
    }
}

/// Where an `Include "file"` read at `i` ends.
pub open spec fn include_end(s: Seq<char>, i: int) -> Option<int> {
    match keyword_end(s, i, "Include"@) {
        Some(j) => string_literal_end(s, j),
        None => None,
    }
}

/// Where a `Global` declaration read at `i` ends: with its initial value
/// when `= expr` can be read, else after the name.
pub open spec fn global_end(s: Seq<char>, i: int) -> Option<int> {
    match keyword_end(s, i, "Global"@) {
        Some(j) => if identifier_at(s, j) {
            let p = name_with_suffix_end(s, j);
            match padded_end(s, p, "="@) {
                Some(k) => match expr_end(s, k) {
                    Some(m) => Some(m),
                    None => Some(p),
                },
                None => Some(p),
            }
        } else {
            None
        },
        None => None,
    }
}

/// Where a top-level node read at `i`, with the whitespace around it, ends:
/// an `Include`, a `Global` or a statement, tried in that order.
pub open spec fn node_end(s: Seq<char>, i: int) -> Option<int> {
    let k = ws_end(s, i);
    match or_else(include_end(s, k), or_else(global_end(s, k), stmt_end(s, k))) {
        Some(m) => Some(ws_end(s, m)),
        None => None,
    }
}

/// Statements, each after optional whitespace, as many as there are.
fn statement_list(s: &Vec<char>, i: usize) -> (r: (Vec<ast::Statement>, usize))
    requires
        i <= s@.len(),
    ensures
        i <= r.1 <= s@.len(),
        stmts_at(s@, i as int, r.1 as int, r.0@),
        r.1 == stmts_end(s@, i as int),
    decreases s@.len() - i, 2int,
{
    let mut body: Vec<ast::Statement> = Vec::new();
    let mut j = i;
    loop
        invariant
            i <= j <= s@.len(),
            stmts_at(s@, i as int, j as int, body@),
            stmts_end(s@, j as int) == stmts_end(s@, i as int),
        ensures
            stmts_end(s@, j as int) == j,
        decreases s@.len() - j,
    {
        let k = opt_whitespace(s, j);
        match statement(s, k) {
            Some((st, m)) => {
                let ghost before = body@;
                let ghost j0 = j as int;
                body.push(st);
                proof {
                    assert(body@.drop_last() =~= before);
                    assert(pick1(j0));
                }
                j = m;
            },
            None => {
                break;
            },
        }
    }
    (body, j)
}

/// A statement: `If`, `While`, `For`, `Select`, an assignment or a call.
fn statement(s: &Vec<char>, i: usize) -> (r: Option<(ast::Statement, usize)>)
    requires
        i <= s@.len(),
    ensures
        r matches Some((_, j)) ==> i < j <= s@.len(),
        r matches Some((st, j)) ==> stmt_at(s@, i as int, j as int, st),
        match stmt_end(s@, i as int) {
            Some(e) => r matches Some((_, j)) && j == e,
            None => r is None,
        },
    decreases s@.len() - i, 1int,
{
    if let Some((x, j)) = if_statement(s, i) {
        return Some((ast::Statement::If(x), j));
    }
    if let Some((x, j)) = while_statement(s, i) {
        return Some((ast::Statement::While(x), j));
    }
    if let Some((x, j)) = for_statement(s, i) {
        return Some((ast::Statement::For(x), j));
    }
    if let Some((x, j)) = select(s, i) {
        return Some((ast::Statement::Select(x), j));
    }
    if let Some((x, j)) = variable_assignment(s, i) {
        return Some((ast::Statement::Assignment(x), j));
    }
    if let Some((x, j)) = function_call_statement(s, i) {
        return Some((ast::Statement::FunctionCall(x), j));
    }
    None
}

/// A keyword followed by one or more spaces.
fn keyword_space(s: &Vec<char>, i: usize, w: &str) -> (r: Option<usize>)
    requires
        i <= s@.len(),
    ensures
        r matches Some(j) ==> i < j <= s@.len(),
        r matches Some(j) ==> keyword_at(s@, i as int, w@, j as int),
        match keyword_end(s@, i as int, w@) {
            Some(e) => r matches Some(j) && j == e,
            None => r is None,
        },
{
    match tag(s, i, w) {
        Some(j) => space(s, j),
        None => None,
    }
}

/// `If condition ... [Else ...] EndIf`, or `If condition Then s1 : s2 ...`
/// on one line.
fn if_statement(s: &Vec<char>, i: usize) -> (r: Option<(ast::If, usize)>)
    requires
        i <= s@.len(),
    ensures
        r matches Some((_, j)) ==> i < j <= s@.len(),
        r matches Some((x, j)) ==> if_at(s@, i as int, j as int, x),
        match if_end(s@, i as int) {
            Some(e) => r matches Some((_, j)) && j == e,
            None => r is None,
        },
    decreases s@.len() - i, 0int,
{
    proof {
        reveal_strlit("If");
        reveal_strlit("EndIf");
        reveal_strlit("Then");
        reveal_strlit(":");
    }
    let j = match keyword_space(s, i, "If") {
        Some(j) => j,
        None => {
            return None;
        },
    };
    let (condition, k) = match expr(s, j) {
        Some(x) => x,
        None => {
            return None;
        },
    };
    let (body, m) = statement_list(s, k);
    let e = opt_whitespace(s, m);
    let (else_clause, q) = match else_clause(s, e) {
        Some((x, q)) => (Some(x), q),
        None => (None, e),
    };
    let f = opt_whitespace(s, q);
    if let Some(end) = tag(s, f, "EndIf") {
        let x = ast::If { condition, body, else_clause };
        proof {
            assert(pick3(k as int, m as int, q as int));
        }
        return Some((x, end));
    }
    let (condition, b) = match expr(s, j) {
        Some(x) => x,
        None => {
            return None;
        },
    };
    let t = match keyword_space(s, b, "Then") {
        Some(t) => t,
        None => {
            return None;
        },
    };
    let (first, mut k) = match statement(s, t) {
        Some(x) => x,
        None => {
            return None;
        },
    };
    let ghost k1 = k as int;
    let mut body: Vec<ast::Statement> = Vec::new();
    body.push(first);
    loop
        invariant
            i < t < k <= s@.len(),
            body@.len() >= 1,
            line_stmts_at(s@, t as int, k as int, body@),
            line_more_end(s@, k as int) == line_more_end(s@, k1),
        ensures
            line_more_end(s@, k as int) == k,
        decreases s@.len() - k,
    {
        proof {
            reveal_strlit(":");
        }
        let c = opt_space(s, k);
        let c = match tag(s, c, ":") {
            Some(c) => c,
            None => {
                break;
            },
        };
        match statement(s, c) {
            Some((st, m)) => {
                let ghost before = body@;
                let ghost k0 = k as int;
                body.push(st);
                proof {
                    assert(body@.drop_last() =~= before);
                    assert(pick1(k0));
                }
                k = m;
            },
            None => {
                break;
            },
        }
    }
    let x = ast::If { condition, body, else_clause: None };
    proof {
        assert(pick3(b as int, b as int, b as int));
    }
    Some((x, k))
}

/// `Else`, whitespace and the statements of the else branch.
fn else_clause(s: &Vec<char>, i: usize) -> (r: Option<(ast::ElseClause, usize)>)
    requires
        i <= s@.len(),
    ensures
        r matches Some((_, j)) ==> i < j <= s@.len(),
        r matches Some((x, j)) ==> else_at(s@, i as int, j as int, Some(x)),
        match else_end(s@, i as int) {
            Some(e) => r matches Some((_, j)) && j == e,
            None => r is None,
        },
    decreases s@.len() - i, 0int,
{
    proof {
        reveal_strlit("Else");
    }
    let j = match tag(s, i, "Else") {
        Some(j) => j,
        None => {
            return None;
        },
    };
    let j = match whitespace(s, j) {
        Some(j) => j,
        None => {
            return None;
        },
    };
    let (body, k) = statement_list(s, j);
    Some((ast::ElseClause { body }, k))
}

/// `While condition ... Wend`.
fn while_statement(s: &Vec<char>, i: usize) -> (r: Option<(ast::While, usize)>)
    requires
        i <= s@.len(),
    ensures
        r matches Some((_, j)) ==> i < j <= s@.len(),
        r matches Some((w, j)) ==> while_at(s@, i as int, j as int, w),
        match while_end(s@, i as int) {
            Some(e) => r matches Some((_, j)) && j == e,
            None => r is None,
        },
    decreases s@.len() - i, 0int,
{
    proof {
        reveal_strlit("While");
        reveal_strlit("Wend");
    }
    let j = match keyword_space(s, i, "While") {
        Some(j) => j,
        None => {
            return None;
        },
    };
    let (condition, k) = match expr(s, j) {
        Some(x) => x,
        None => {
            return None;
        },
    };
    let (body, m) = statement_list(s, k);
    let e = opt_whitespace(s, m);
    match tag(s, e, "Wend") {
        Some(end) => {
            proof {
                assert(pick2(k as int, m as int));
            }
            Some((ast::While { condition, body }, end))
        },
        None => None,
    }
}

/// `For v = start To to [Step step] ... Next`.
fn for_statement(s: &Vec<char>, i: usize) -> (r: Option<(ast::For, usize)>)
    requires
        i <= s@.len(),
    ensures
        r matches Some((_, j)) ==> i < j <= s@.len(),
        r matches Some((f, j)) ==> for_at(s@, i as int, j as int, f),
        match for_end(s@, i as int) {
            Some(e) => r matches Some((_, j)) && j == e,
            None => r is None,
        },
    decreases s@.len() - i, 0int,
{
    proof {
        reveal_strlit("For");
        reveal_strlit("To");
        reveal_strlit("Step");
        reveal_strlit("Next");
    }
    let j = match keyword_space(s, i, "For") {
        Some(j) => j,
        None => {
            return None;
        },
    };
    let (initialization, d) = match variable_assignment(s, j) {
        Some(x) => x,
        None => {
            return None;
        },
    };
    let t = match keyword_space(s, d, "To") {
        Some(t) => t,
        None => {
            return None;
        },
    };
    let (to, u) = match atomic_value(s, t) {
        Some(x) => x,
        None => {
            return None;
        },
    };
    let mut k = u;
    let mut step: Option<Box<ast::Expr>> = None;
    if let Some(v) = keyword_space(s, u, "Step") {
        if let Some((value, w)) = atomic_value(s, v) {
            step = Some(value);
            k = w;
        }
    }
    let (body, m) = statement_list(s, k);
    let e = opt_whitespace(s, m);
    match tag(s, e, "Next") {
        Some(end) => {
            proof {
                assert(pick4(d as int, u as int, k as int, m as int));
            }
            Some((ast::For { initialization, to, step, body }, end))
        },
        None => None,
    }
}

/// `Select expr`, `Case` arms, `End Select`.
fn select(s: &Vec<char>, i: usize) -> (r: Option<(ast::Select, usize)>)
    requires
        i <= s@.len(),
    ensures
        r matches Some((_, j)) ==> i < j <= s@.len(),
        r matches Some((x, j)) ==> select_at(s@, i as int, j as int, x),
        match select_end(s@, i as int) {
            Some(e) => r matches Some((_, j)) && j == e,
            None => r is None,
        },
    decreases s@.len() - i, 0int,
{
    proof {
        reveal_strlit("Select");
        reveal_strlit("End");
    }
    let j = match keyword_space(s, i, "Select") {
        Some(j) => j,
        None => {
            return None;
        },
    };
    let (e, b) = match expr(s, j) {
        Some(x) => x,
        None => {
            return None;
        },
    };
    let mut k = b;
    let mut arms: Vec<ast::CaseArm> = Vec::new();
    loop
        invariant
            i < j < b <= k <= s@.len(),
            arms_at(s@, b as int, k as int, arms@),
            arms_end(s@, k as int) == arms_end(s@, b as int),
        ensures
            arms_end(s@, k as int) == k,
        decreases s@.len() - k,
    {
        let c = opt_whitespace(s, k);
        match case_arm(s, c) {
            Some((arm, m)) => {
                let ghost before = arms@;
                let ghost k0 = k as int;
                arms.push(arm);
                proof {
                    assert(arms@.drop_last() =~= before);
                    assert(pick1(k0));
                }
                k = m;
            },
            None => {
                break;
            },
        }
    }
    let m = opt_whitespace(s, k);
    let q = match keyword_space(s, m, "End") {
        Some(q) => q,
        None => {
            return None;
        },
    };
    match tag(s, q, "Select") {
        Some(end) => {
            proof {
                assert(pick2(b as int, k as int));
            }
            Some((ast::Select { expr: e, arms }, end))
        },
        None => None,
    }
}

/// `Case value` and the statements of the arm.
fn case_arm(s: &Vec<char>, i: usize) -> (r: Option<(ast::CaseArm, usize)>)
    requires
        i <= s@.len(),
    ensures
        r matches Some((_, j)) ==> i < j <= s@.len(),
        r matches Some((a, j)) ==> arm_at(s@, i as int, j as int, a),
        match arm_end(s@, i as int) {
            Some(e) => r matches Some((_, j)) && j == e,
            None => r is None,
        },
    decreases s@.len() - i, 0int,
{
    proof {
        reveal_strlit("Case");
    }
    let j = match keyword_space(s, i, "Case") {
        Some(j) => j,
        None => {
            return None;
        },
    };
    let (value, k) = match atomic_value(s, j) {
        Some(x) => x,
        None => {
            return None;
        },
    };
    let (body, m) = statement_list(s, k);
    proof {
        assert(pick1(k as int));
    }
    Some((ast::CaseArm { value, body }, m))
}

/// `name = expr`.
fn variable_assignment(s: &Vec<char>, i: usize) -> (r: Option<(ast::Assignment, usize)>)
    requires
        i <= s@.len(),
    ensures
        r matches Some((_, j)) ==> i < j <= s@.len(),
        r matches Some((a, j)) ==> assignment_at(s@, i as int, j as int, a),
        match assignment_end(s@, i as int) {
            Some(e) => r matches Some((_, j)) && j == e,
            None => r is None,
        },
{
    proof {
        reveal_strlit("=");
    }
    let (variable, j) = match variable_ref(s, i) {
        Some(x) => x,
        None => {
            return None;
        },
    };
    let j = match padded_tag(s, j, "=") {
        Some(j) => j,
        None => {
            return None;
        },
    };
    match expr(s, j) {
        Some((e, k)) => Some((ast::Assignment { l_value: ast::LValue::VariableRef(variable), expr: e }, k)),
        None => None,
    }
}

/// A call statement: the name, then its arguments in parentheses, or
/// separated by commas without them, or none.
fn function_call_statement(s: &Vec<char>, i: usize) -> (r: Option<(ast::FunctionCallOrArrayElemRef, usize)>)
    requires
        i <= s@.len(),
    ensures
        r matches Some((_, j)) ==> i < j <= s@.len(),
        r matches Some((c, j)) ==> call_statement_at(s@, i as int, j as int, c),
        match call_statement_end(s@, i as int) {
            Some(e) => r matches Some((_, j)) && j == e,
            None => r is None,
        },
{
    proof {
        reveal_strlit("(");
        reveal_strlit(")");
    }
    let (function_name, j) = match identifier(s, i) {
        Some(x) => x,
        None => {
            return None;
        },
    };
    let (type_specifier, j) = opt_type_specifier(s, j);
    if let Some(k) = tag(s, j, "(") {
        let (arguments, m) = expr_list(s, k);
        if let Some(end) = tag(s, m, ")") {
            return Some((ast::FunctionCallOrArrayElemRef { function_name, type_specifier, arguments }, end));
        }
    }
    let (arguments, m) = expr_list(s, j);
    if arguments.len() > 0 {
        return Some((ast::FunctionCallOrArrayElemRef { function_name, type_specifier, arguments }, m));
    }
    Some((ast::FunctionCallOrArrayElemRef { function_name, type_specifier, arguments: Vec::new() }, j))
}

/// `Include "file"`.
fn include_directive(s: &Vec<char>, i: usize) -> (r: Option<(String, usize)>)
    requires
        i <= s@.len(),
    ensures
        r matches Some((_, j)) ==> i < j <= s@.len(),
        r matches Some((f, j)) ==> {
            let c = run_end(s@, i + 7, CharClass::Space);
            keyword_at(s@, i as int, "Include"@, c) && string_literal_at(s@, c, j as int) && f@ == s@.subrange(
                c + 1,
                j - 1,
            )
        },
        match include_end(s@, i as int) {
            Some(e) => r matches Some((_, j)) && j == e,
            None => r is None,
        },
{
    proof {
        reveal_strlit("Include");
    }
    let j = match keyword_space(s, i, "Include") {
        Some(j) => j,
        None => {
            return None;
        },
    };
    string_literal(s, j)
}

/// `Global name [= expr]`.
fn global_decl(s: &Vec<char>, i: usize) -> (r: Option<(ast::VariableDecl, usize)>)
    requires
        i <= s@.len(),
    ensures
        r matches Some((_, j)) ==> i < j <= s@.len(),
        r matches Some((d, j)) ==> global_at(s@, i as int, j as int, d),
        match global_end(s@, i as int) {
            Some(e) => r matches Some((_, j)) && j == e,
            None => r is None,
        },
{
    proof {
        reveal_strlit("Global");
        reveal_strlit("=");
    }
    let j = match keyword_space(s, i, "Global") {
        Some(j) => j,
        None => {
            return None;
        },
    };
    let (name, j) = match identifier(s, j) {
        Some(x) => x,
        None => {
            return None;
        },
    };
    let (type_specifier, j) = opt_type_specifier(s, j);
    if let Some(k) = padded_tag(s, j, "=") {
        if let Some((e, m)) = expr(s, k) {
            return Some((ast::VariableDecl { name, type_specifier, init_expr: Some(e) }, m));
        }
    }
    Some((ast::VariableDecl { name, type_specifier, init_expr: None }, j))
}

/// A top-level node with the whitespace around it.
fn node(s: &Vec<char>, i: usize) -> (r: Option<(ast::Node, usize)>)
    requires
        i <= s@.len(),
    ensures
        r matches Some((_, j)) ==> i < j <= s@.len(),
        r matches Some((n, j)) ==> node_at(s@, i as int, j as int, n),
        match node_end(s@, i as int) {
            Some(e) => r matches Some((_, j)) && j == e,
            None => r is None,
        },
{
    let k = opt_whitespace(s, i);
    let (n, m) = if let Some((file, m)) = include_directive(s, k) {
        (ast::Node::Include(file), m)
    } else if let Some((decl, m)) = global_decl(s, k) {
        (ast::Node::GlobalVariableDecl(decl), m)
    } else if let Some((st, m)) = statement(s, k) {
        (ast::Node::Statement(st), m)
    } else {
        return None;
    };
    proof {
        assert(pick1(m as int));
    }
    Some((n, opt_whitespace(s, m)))
}

/// The characters of a string.
fn chars_of(text: &String) -> (r: Vec<char>)
    ensures
        r@ == text@,
{
    broadcast use vstd::string::group_string_axioms;

    let mut r: Vec<char> = Vec::new();
    let mut chars = text.as_str().chars();
    assert(chars.remaining() == text@);
    loop
        invariant
            r@ + chars.remaining() == text@,
            chars.obeys_prophetic_iter_laws(),
            chars.decrease() is Some,
        ensures
            r@ == text@,
        decreases chars.decrease()->0,
    {
        let ghost before = chars.remaining();
        match chars.next() {
            Some(c) => {
                assert(r@.push(c) + chars.remaining() =~= r@ + before);
                r.push(c);
            },
            None => {
                assert(r@ =~= text@);
                break;
            },
        }
    }
    r
}

/// Whether the nodes `ns` are read one after the other from the start of
/// `s`, up to a position where no further node can be read.
pub open spec fn program_prefix_at(s: Seq<char>, ns: Seq<ast::Node>) -> bool {
    exists|j: int|
        #![trigger nodes_at(s, 0, j, ns)]
        0 <= j <= s.len() && nodes_at(s, 0, j, ns) && node_end(s, j) is None
}

/// Parses a program: as many top-level nodes as can be read from the start
/// of the text, in order. Reading stops at the first place where no node
/// can be read; what follows is not looked at. Parsing never fails.
pub fn parse(source: &String) -> (r: Result<ast::Root, String>)
    ensures
        r is Ok,
        r matches Ok(root) && program_prefix_at(source@, root.nodes@),
{
    let s = chars_of(source);
    let mut nodes: Vec<ast::Node> = Vec::new();
    let mut j: usize = 0;
    loop
        invariant
            j <= s@.len(),
            nodes_at(s@, 0, j as int, nodes@),
        ensures
            j <= s@.len(),
            nodes_at(s@, 0, j as int, nodes@),
            node_end(s@, j as int) is None,
        decreases s@.len() - j,
    {
        match node(&s, j) {
            Some((n, k)) => {
                let ghost before = nodes@;
                let ghost j0 = j as int;
                nodes.push(n);
                proof {
                    assert(nodes@.drop_last() =~= before);
                    assert(pick1(j0));
                }
                j = k;
            },
            None => {
                break;
            },
        }
    }
    let root = ast::Root { nodes };
    proof {
        assert(s@ == source@);
        assert(nodes_at(source@, 0, j as int, root.nodes@));
        assert(program_prefix_at(source@, root.nodes@));
    }
    Ok(root)
}

} // verus!
