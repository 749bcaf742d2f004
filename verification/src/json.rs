//! Syntactic validation of a request body as JSON text.
//!
//! Submission validates the body before any network activity, so the
//! validity of a candidate body is part of the core's decision logic. The
//! grammar below is stated over the character sequence; each parsing
//! function returns the position just past the construct it recognised, or
//! nothing when the construct is absent.

use vstd::prelude::*;

verus! {

/// Insignificant whitespace between JSON tokens.
pub open spec fn is_ws_char(c: char) -> bool {
    c == ' ' || c == '\t' || c == '\n' || c == '\r'
}

/// A decimal digit.
pub open spec fn is_digit_char(c: char) -> bool {
    48 <= c as u32 && c as u32 <= 57
}

/// A hexadecimal digit, either case.
pub open spec fn is_hex_char(c: char) -> bool {
    is_digit_char(c) || (97 <= c as u32 && c as u32 <= 102) || (65 <= c as u32 && c as u32 <= 70)
}

/// A character that may follow a backslash in a string, other than the
/// four-digit unicode escape.
pub open spec fn is_simple_escape(c: char) -> bool {
    c == '"' || c == '\\' || c == '/' || c == 'b' || c == 'f' || c == 'n' || c == 'r' || c == 't'
}

/// First position at or after `i` holding no whitespace.
pub open spec fn skip_ws(s: Seq<char>, i: int) -> int
    decreases s.len() - i,
{
    if 0 <= i && i < s.len() && is_ws_char(s[i]) {
        skip_ws(s, i + 1)
    } else {
        i
    }
}

/// First position at or after `i` holding no digit.
pub open spec fn skip_digits(s: Seq<char>, i: int) -> int
    decreases s.len() - i,
{
    if 0 <= i && i < s.len() && is_digit_char(s[i]) {
        skip_digits(s, i + 1)
    } else {
        i
    }
}

/// The literal `null` starting at `i`.
pub open spec fn parse_null(s: Seq<char>, i: int) -> Option<int> {
    if 0 <= i && i + 4 <= s.len() && s[i] == 'n' && s[i + 1] == 'u' && s[i + 2] == 'l' && s[i + 3]
        == 'l' {
        Some(i + 4)
    } else {
        None
    }
}

/// The literal `true` starting at `i`.
pub open spec fn parse_true(s: Seq<char>, i: int) -> Option<int> {
    if 0 <= i && i + 4 <= s.len() && s[i] == 't' && s[i + 1] == 'r' && s[i + 2] == 'u' && s[i + 3]
        == 'e' {
        Some(i + 4)
    } else {
        None
    }
}

/// The literal `false` starting at `i`.
pub open spec fn parse_false(s: Seq<char>, i: int) -> Option<int> {
    if 0 <= i && i + 5 <= s.len() && s[i] == 'f' && s[i + 1] == 'a' && s[i + 2] == 'l' && s[i + 3]
        == 's' && s[i + 4] == 'e' {
        Some(i + 5)
    } else {
        None
    }
}

/// The remainder of a string after its opening quote: escape sequences and
/// unescaped characters above the control range, up to and including the
/// closing quote.
pub open spec fn parse_string_body(s: Seq<char>, i: int) -> Option<int>
    decreases s.len() - i,
{
    if i < 0 || i >= s.len() {
        None
    } else if s[i] == '"' {
        Some(i + 1)
    } else if s[i] == '\\' {
        if i + 2 <= s.len() && is_simple_escape(s[i + 1]) {
            parse_string_body(s, i + 2)
        } else if i + 6 <= s.len() && s[i + 1] == 'u' && is_hex_char(s[i + 2]) && is_hex_char(
            s[i + 3],
        ) && is_hex_char(s[i + 4]) && is_hex_char(s[i + 5]) {
            parse_string_body(s, i + 6)
        } else {
            None
        }
    } else if (s[i] as u32) < 32 {
        None
    } else {
        parse_string_body(s, i + 1)
    }
}

/// The exponent part of a number, if present, starting at `k`.
pub open spec fn parse_exp(s: Seq<char>, k: int) -> Option<int> {
    if 0 <= k && k < s.len() && (s[k] == 'e' || s[k] == 'E') {
        let e = if k + 1 < s.len() && (s[k + 1] == '+' || s[k + 1] == '-') {
            k + 2
        } else {
            k + 1
        };
        if e < s.len() && is_digit_char(s[e]) {
            Some(skip_digits(s, e))
        } else {
            None
        }
    } else {
        Some(k)
    }
}

/// The fractional and exponent parts of a number, if present, starting at
/// `k`.
pub open spec fn parse_frac(s: Seq<char>, k: int) -> Option<int> {
    if 0 <= k && k < s.len() && s[k] == '.' {
        if k + 2 <= s.len() && is_digit_char(s[k + 1]) {
            parse_exp(s, skip_digits(s, k + 1))
        } else {
            None
        }
    } else {
        parse_exp(s, k)
    }
}

/// A number starting at `i`: optional minus sign, an integer part with no
/// leading zero, then optional fraction and exponent.
pub open spec fn parse_number(s: Seq<char>, i: int) -> Option<int> {
    let j = if 0 <= i && i < s.len() && s[i] == '-' {
        i + 1
    } else {
        i
    };
    if !(0 <= j && j < s.len() && is_digit_char(s[j])) {
        None
    } else {
        let k = if s[j] == '0' {
            j + 1
        } else {
            skip_digits(s, j)
        };
        parse_frac(s, k)
    }
}

/// Any JSON value starting exactly at `i`.
///
/// The guards that send a non-advancing or out-of-range intermediate
/// position to `None` can never fire — every sub-parser moves strictly
/// forward and stays within the text — but they make the mutual recursion
/// visibly well founded.
pub open spec fn parse_value(s: Seq<char>, i: int) -> Option<int>
    decreases s.len() - i, 0int,
{
    if i < 0 || i >= s.len() {
        None
    } else if s[i] == '{' {
        parse_object_body(s, i + 1)
    } else if s[i] == '[' {
        parse_array_body(s, i + 1)
    } else if s[i] == '"' {
        parse_string_body(s, i + 1)
    } else if s[i] == 'n' {
        parse_null(s, i)
    } else if s[i] == 't' {
        parse_true(s, i)
    } else if s[i] == 'f' {
        parse_false(s, i)
    } else {
        parse_number(s, i)
    }
}

/// The remainder of an array after its opening bracket: either the closing
/// bracket at once, or a first element followed by the element list.
pub open spec fn parse_array_body(s: Seq<char>, i: int) -> Option<int>
    decreases s.len() - i, 1int,
{
    let j = skip_ws(s, i);
    if j < i || j > s.len() {
        None
    } else if j < s.len() && s[j] == ']' {
        Some(j + 1)
    } else {
        match parse_value(s, j) {
            Some(k) => if j < k && k <= s.len() {
                parse_array_items(s, k)
            } else {
                None
            },
            None => None,
        }
    }
}

/// The remainder of an array after an element: a comma and a further
/// element, repeated, up to the closing bracket.
pub open spec fn parse_array_items(s: Seq<char>, i: int) -> Option<int>
    decreases s.len() - i, 1int,
{
    let j = skip_ws(s, i);
    if j < i || j > s.len() {
        None
    } else if j < s.len() && s[j] == ']' {
        Some(j + 1)
    } else if j < s.len() && s[j] == ',' {
        let j2 = skip_ws(s, j + 1);
        if j2 < j + 1 || j2 > s.len() {
            None
        } else {
            match parse_value(s, j2) {
                Some(k) => if j2 < k && k <= s.len() {
                    parse_array_items(s, k)
                } else {
                    None
                },
                None => None,
            }
        }
    } else {
        None
    }
}

/// One object member starting exactly at `i`: a string key, a colon and a
/// value, with whitespace between the tokens.
pub open spec fn parse_member(s: Seq<char>, i: int) -> Option<int>
    decreases s.len() - i, 2int,
{
    if i < 0 || i >= s.len() || s[i] != '"' {
        None
    } else {
        match parse_string_body(s, i + 1) {
            Some(k) => if k <= i || k > s.len() {
                None
            } else {
                let j = skip_ws(s, k);
                if j < k || j > s.len() {
                    None
                } else if j < s.len() && s[j] == ':' {
                    let j2 = skip_ws(s, j + 1);
                    if j2 < j + 1 || j2 > s.len() {
                        None
                    } else {
                        parse_value(s, j2)
                    }
                } else {
                    None
                }
            },
            None => None,
        }
    }
}

/// The remainder of an object after its opening brace: either the closing
/// brace at once, or a first member followed by the member list.
pub open spec fn parse_object_body(s: Seq<char>, i: int) -> Option<int>
    decreases s.len() - i, 3int,
{
    let j = skip_ws(s, i);
    if j < i || j > s.len() {
        None
    } else if j < s.len() && s[j] == '}' {
        Some(j + 1)
    } else {
        match parse_member(s, j) {
            Some(m) => if j < m && m <= s.len() {
                parse_object_items(s, m)
            } else {
                None
            },
            None => None,
        }
    }
}

/// The remainder of an object after a member: a comma and a further member,
/// repeated, up to the closing brace.
pub open spec fn parse_object_items(s: Seq<char>, i: int) -> Option<int>
    decreases s.len() - i, 3int,
{
    let j = skip_ws(s, i);
    if j < i || j > s.len() {
        None
    } else if j < s.len() && s[j] == '}' {
        Some(j + 1)
    } else if j < s.len() && s[j] == ',' {
        let j2 = skip_ws(s, j + 1);
        if j2 < j + 1 || j2 > s.len() {
            None
        } else {
            match parse_member(s, j2) {
                Some(m) => if j2 < m && m <= s.len() {
                    parse_object_items(s, m)
                } else {
                    None
                },
                None => None,
            }
        }
    } else {
        None
    }
}

/// `s` is one complete JSON value, possibly surrounded by whitespace and by
/// nothing else.
pub open spec fn is_json(s: Seq<char>) -> bool {
    let i = skip_ws(s, 0);
    match parse_value(s, i) {
        Some(k) => skip_ws(s, k) == s.len(),
        None => false,
    }
}

/// The positions of an executable parse result, as the specification's
/// integer positions.
pub open spec fn as_int_pos(r: Option<usize>) -> Option<int> {
    match r {
        Some(k) => Some(k as int),
        None => None,
    }
}

fn is_ws_exec(c: char) -> (b: bool)
    ensures
        b == is_ws_char(c),
{
    c == ' ' || c == '\t' || c == '\n' || c == '\r'
}

fn is_digit_exec(c: char) -> (b: bool)
    ensures
        b == is_digit_char(c),
{
    let u = c as u32;
    48 <= u && u <= 57
}

fn is_hex_exec(c: char) -> (b: bool)
    ensures
        b == is_hex_char(c),
{
    let u = c as u32;
    (48 <= u && u <= 57) || (97 <= u && u <= 102) || (65 <= u && u <= 70)
}

fn is_simple_escape_exec(c: char) -> (b: bool)
    ensures
        b == is_simple_escape(c),
{
    c == '"' || c == '\\' || c == '/' || c == 'b' || c == 'f' || c == 'n' || c == 'r' || c == 't'
}

fn skip_ws_exec(s: &Vec<char>, i: usize) -> (r: usize)
    requires
        i <= s@.len(),
    ensures
        r == skip_ws(s@, i as int),
        i <= r <= s@.len(),
{
    let mut j = i;
    while j < s.len() && is_ws_exec(s[j])
        invariant
            i <= j <= s@.len(),
            skip_ws(s@, j as int) == skip_ws(s@, i as int),
        decreases s@.len() - j,
    {
        j = j + 1;
    }
    j
}

fn skip_digits_exec(s: &Vec<char>, i: usize) -> (r: usize)
    requires
        i <= s@.len(),
    ensures
        r == skip_digits(s@, i as int),
        i <= r <= s@.len(),
{
    let mut j = i;
    while j < s.len() && is_digit_exec(s[j])
        invariant
            i <= j <= s@.len(),
            skip_digits(s@, j as int) == skip_digits(s@, i as int),
        decreases s@.len() - j,
    {
        j = j + 1;
    }
    j
}

fn parse_string_body_exec(s: &Vec<char>, i: usize) -> (r: Option<usize>)
    requires
        i <= s@.len(),
    ensures
        as_int_pos(r) == parse_string_body(s@, i as int),
        r matches Some(k) ==> k <= s@.len(),
{
    let mut j = i;
    while j < s.len()
        invariant
            i <= j <= s@.len(),
            parse_string_body(s@, j as int) == parse_string_body(s@, i as int),
        decreases s@.len() - j,
    {
        let c = s[j];
        if c == '"' {
            return Some(j + 1);
        } else if c == '\\' {
            if s.len() - j >= 2 && is_simple_escape_exec(s[j + 1]) {
                j = j + 2;
            } else if s.len() - j >= 6 && s[j + 1] == 'u' && is_hex_exec(s[j + 2]) && is_hex_exec(
                s[j + 3],
            ) && is_hex_exec(s[j + 4]) && is_hex_exec(s[j + 5]) {
                j = j + 6;
            } else {
                return None;
            }
        } else if (c as u32) < 32 {
            return None;
        } else {
            j = j + 1;
        }
    }
    None
}

fn parse_null_exec(s: &Vec<char>, i: usize) -> (r: Option<usize>)
    requires
        i <= s@.len(),
    ensures
        as_int_pos(r) == parse_null(s@, i as int),
        r matches Some(k) ==> k <= s@.len(),
{
    if s.len() - i >= 4 && s[i] == 'n' && s[i + 1] == 'u' && s[i + 2] == 'l' && s[i + 3] == 'l' {
        Some(i + 4)
    } else {
        None
    }
}

fn parse_true_exec(s: &Vec<char>, i: usize) -> (r: Option<usize>)
    requires
        i <= s@.len(),
    ensures
        as_int_pos(r) == parse_true(s@, i as int),
        r matches Some(k) ==> k <= s@.len(),
{
    if s.len() - i >= 4 && s[i] == 't' && s[i + 1] == 'r' && s[i + 2] == 'u' && s[i + 3] == 'e' {
        Some(i + 4)
    } else {
        None
    }
}

fn parse_false_exec(s: &Vec<char>, i: usize) -> (r: Option<usize>)
    requires
        i <= s@.len(),
    ensures
        as_int_pos(r) == parse_false(s@, i as int),
        r matches Some(k) ==> k <= s@.len(),
{
    if s.len() - i >= 5 && s[i] == 'f' && s[i + 1] == 'a' && s[i + 2] == 'l' && s[i + 3] == 's'
        && s[i + 4] == 'e' {
        Some(i + 5)
    } else {
        None
    }
}

fn parse_number_exec(s: &Vec<char>, i: usize) -> (r: Option<usize>)
    requires
        i <= s@.len(),
    ensures
        as_int_pos(r) == parse_number(s@, i as int),
        r matches Some(k) ==> k <= s@.len(),
{
    let j = if i < s.len() && s[i] == '-' {
        i + 1
    } else {
        i
    };
    if !(j < s.len() && is_digit_exec(s[j])) {
        return None;
    }
    let k = if s[j] == '0' {
        j + 1
    } else {
        skip_digits_exec(s, j)
    };
    // fraction
    let k2 = if k < s.len() && s[k] == '.' {
        if s.len() - k >= 2 && is_digit_exec(s[k + 1]) {
            skip_digits_exec(s, k + 1)
        } else {
            return None;
        }
    } else {
        k
    };
    // exponent
    if k2 < s.len() && (s[k2] == 'e' || s[k2] == 'E') {
        let e = if k2 + 1 < s.len() && (s[k2 + 1] == '+' || s[k2 + 1] == '-') {
            k2 + 2
        } else {
            k2 + 1
        };
        if e < s.len() && is_digit_exec(s[e]) {
            Some(skip_digits_exec(s, e))
        } else {
            None
        }
    } else {
        Some(k2)
    }
}

fn parse_value_exec(s: &Vec<char>, i: usize) -> (r: Option<usize>)
    requires
        i <= s@.len(),
    ensures
        as_int_pos(r) == parse_value(s@, i as int),
        r matches Some(k) ==> k <= s@.len(),
    decreases s@.len() - i, 0int,
{
    if i >= s.len() {
        None
    } else if s[i] == '{' {
        parse_object_body_exec(s, i + 1)
    } else if s[i] == '[' {
        parse_array_body_exec(s, i + 1)
    } else if s[i] == '"' {
        parse_string_body_exec(s, i + 1)
    } else if s[i] == 'n' {
        parse_null_exec(s, i)
    } else if s[i] == 't' {
        parse_true_exec(s, i)
    } else if s[i] == 'f' {
        parse_false_exec(s, i)
    } else {
        parse_number_exec(s, i)
    }
}

fn parse_array_body_exec(s: &Vec<char>, i: usize) -> (r: Option<usize>)
    requires
        i <= s@.len(),
    ensures
        as_int_pos(r) == parse_array_body(s@, i as int),
        r matches Some(k) ==> k <= s@.len(),
    decreases s@.len() - i, 1int,
{
    let j = skip_ws_exec(s, i);
    if j < s.len() && s[j] == ']' {
        Some(j + 1)
    } else {
        match parse_value_exec(s, j) {
            Some(k) => if j < k {
                parse_array_items_exec(s, k)
            } else {
                None
            },
            None => None,
        }
    }
}

fn parse_array_items_exec(s: &Vec<char>, i: usize) -> (r: Option<usize>)
    requires
        i <= s@.len(),
    ensures
        as_int_pos(r) == parse_array_items(s@, i as int),
        r matches Some(k) ==> k <= s@.len(),
    decreases s@.len() - i, 1int,
{
    let j = skip_ws_exec(s, i);
    if j < s.len() && s[j] == ']' {
        Some(j + 1)
    } else if j < s.len() && s[j] == ',' {
        let j2 = skip_ws_exec(s, j + 1);
        match parse_value_exec(s, j2) {
            Some(k) => if j2 < k {
                parse_array_items_exec(s, k)
            } else {
                None
            },
            None => None,
        }
    } else {
        None
    }
}

fn parse_member_exec(s: &Vec<char>, i: usize) -> (r: Option<usize>)
    requires
        i <= s@.len(),
    ensures
        as_int_pos(r) == parse_member(s@, i as int),
        r matches Some(k) ==> k <= s@.len(),
    decreases s@.len() - i, 2int,
{
    if i >= s.len() || s[i] != '"' {
        return None;
    }
    match parse_string_body_exec(s, i + 1) {
        Some(k) => {
            if k <= i {
                return None;
            }
            let j = skip_ws_exec(s, k);
            if j < s.len() && s[j] == ':' {
                let j2 = skip_ws_exec(s, j + 1);
                parse_value_exec(s, j2)
            } else {
                None
            }
        },
        None => None,
    }
}

fn parse_object_body_exec(s: &Vec<char>, i: usize) -> (r: Option<usize>)
    requires
        i <= s@.len(),
    ensures
        as_int_pos(r) == parse_object_body(s@, i as int),
        r matches Some(k) ==> k <= s@.len(),
    decreases s@.len() - i, 3int,
{
    let j = skip_ws_exec(s, i);
    if j < s.len() && s[j] == '}' {
        Some(j + 1)
    } else {
        match parse_member_exec(s, j) {
            Some(m) => if j < m {
                parse_object_items_exec(s, m)
            } else {
                None
            },
            None => None,
        }
    }
}

fn parse_object_items_exec(s: &Vec<char>, i: usize) -> (r: Option<usize>)
    requires
        i <= s@.len(),
    ensures
        as_int_pos(r) == parse_object_items(s@, i as int),
        r matches Some(k) ==> k <= s@.len(),
    decreases s@.len() - i, 3int,
{
    let j = skip_ws_exec(s, i);
    if j < s.len() && s[j] == '}' {
        Some(j + 1)
    } else if j < s.len() && s[j] == ',' {
        let j2 = skip_ws_exec(s, j + 1);
        match parse_member_exec(s, j2) {
            Some(m) => if j2 < m {
                parse_object_items_exec(s, m)
            } else {
                None
            },
            None => None,
        }
    } else {
        None
    }
}

/// Decide whether `s` is one complete JSON value, possibly surrounded by
/// whitespace.
pub fn check_json(s: &Vec<char>) -> (b: bool)
    ensures
        b == is_json(s@),
{
    let i = skip_ws_exec(s, 0);
    match parse_value_exec(s, i) {
        Some(k) => {
            let e = skip_ws_exec(s, k);
            e == s.len()
        },
        None => false,
    }
}

} // verus!
