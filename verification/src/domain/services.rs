//! Domain services: parameter parsing, schema formatting, tool matching,
//! resolution of environment references, and the retry policy.

use vstd::prelude::*;
use vstd::arithmetic::power2::{lemma_pow2_strictly_increases, lemma_pow2_unfold, pow2};
use crate::domain::entities::Tool;
use crate::domain::errors::{ErrorCode, MCPError};
use crate::domain::value_objects::{ParamInfo, ParamInfoView};
use crate::json::{as_text, entries_model, lookup, object_get, Json, JsonValue};
use crate::strmap::StrMap;
use crate::text::{
    append_str, ascii_lower, chars_eq, chars_of, contains, debug_quoted, debug_str, decimal, digit_char,
    is_white_space, join, signed_decimal,
    join_strings, lowercase, str_eq,
    string_from_chars, substring, to_lowercase, views,
};

verus! {

// ---------------------------------------------------------------------------
// Character classes and small text facts
// ---------------------------------------------------------------------------

/// The position of the first occurrence of `c` in `s`.
#[verifier::opaque]
pub open spec fn first_index(s: Seq<char>, c: char) -> Option<int> {
    if exists|i: int| 0 <= i < s.len() && s[i] == c {
        Some(choose|i: int| 0 <= i < s.len() && s[i] == c && forall|j: int| 0 <= j < i ==> s[j] != c)
    } else {
        None
    }
}

/// The position of the first occurrence of `c`.
pub fn find_char(s: &Vec<char>, c: char) -> (r: Option<usize>)
    ensures
        match r {
            Some(i) => first_index(s@, c) == Some(i as int) && i < s@.len() && s@[i as int] == c,
            None => first_index(s@, c) is None,
        },
{
    reveal(first_index);
    let mut i: usize = 0;
    while i < s.len()
        invariant
            i <= s@.len(),
            forall|j: int| 0 <= j < i ==> s@[j] != c,
        decreases s@.len() - i,
    {
        if s[i] == c {
            proof {
                reveal(first_index);
                let k = choose|k: int| 0 <= k < s@.len() && s@[k] == c && forall|j: int| 0 <= j < k ==> s@[j] != c;
                assert(k == i) by {
                    if k < i { assert(s@[k] != c); }
                    if k > i { assert(s@[i as int] != c); }
                }
            }
            return Some(i);
        }
        i = i + 1;
    }
    None
}

/// An ASCII decimal digit.
pub open spec fn is_digit(c: char) -> bool {
    '0' <= c && c <= '9'
}

/// Every character is an ASCII decimal digit.
pub open spec fn all_digits(s: Seq<char>) -> bool {
    forall|i: int| 0 <= i < s.len() ==> is_digit(#[trigger] s[i])
}

/// The value of a sequence of decimal digits.
pub open spec fn digits_value(s: Seq<char>) -> nat
    decreases s.len(),
{
    if s.len() == 0 {
        0
    } else {
        digits_value(s.drop_last()) * 10 + ((s.last() as int) - ('0' as int)) as nat
    }
}

/// The text after an optional leading `+` or `-`.
pub open spec fn unsigned_part(s: Seq<char>) -> Seq<char> {
    if s.len() > 0 && (s[0] == '+' || s[0] == '-') { s.skip(1) } else { s }
}

/// The integer that `i64::from_str` reads from a text: an optional sign and
/// at least one decimal digit, within the range of `i64`.
pub open spec fn i64_literal(s: Seq<char>) -> Option<int> {
    let digits = unsigned_part(s);
    if digits.len() > 0 && all_digits(digits) {
        let v: int = if s[0] == '-' { -(digits_value(digits) as int) } else { digits_value(digits) as int };
        if i64::MIN <= v && v <= i64::MAX { Some(v) } else { None }
    } else {
        None
    }
}

/// `a` equals the lowercase text `b` when ASCII letters are compared without
/// regard to case.
pub open spec fn eq_ignore_ascii_case(a: Seq<char>, b: Seq<char>) -> bool {
    a.len() == b.len() && forall|i: int| 0 <= i < a.len() ==> ascii_lower(#[trigger] a[i]) == b[i]
}

/// The mantissa of a decimal float: digits with at most one `.`, and at least
/// one digit.
pub open spec fn float_mantissa(m: Seq<char>) -> bool {
    &&& forall|i: int| 0 <= i < m.len() ==> is_digit(#[trigger] m[i]) || m[i] == '.'
    &&& forall|i: int, j: int| 0 <= i < m.len() && 0 <= j < m.len() && m[i] == '.' && m[j] == '.' ==> i == j
    &&& exists|i: int| 0 <= i < m.len() && is_digit(#[trigger] m[i])
}

/// The exponent of a decimal float after the `e`: an optional sign and at
/// least one digit.
pub open spec fn float_exponent(x: Seq<char>) -> bool {
    unsigned_part(x).len() > 0 && all_digits(unsigned_part(x))
}

/// The position of the first `e` or `E`.
pub open spec fn first_exp_mark(s: Seq<char>) -> Option<int> {
    if exists|i: int| 0 <= i < s.len() && (s[i] == 'e' || s[i] == 'E') {
        Some(choose|i: int| 0 <= i < s.len() && (s[i] == 'e' || s[i] == 'E')
            && forall|j: int| 0 <= j < i ==> s[j] != 'e' && s[j] != 'E')
    } else {
        None
    }
}

/// A decimal number as `f64::from_str` reads it:
/// `(Digit+ | Digit+ '.' Digit* | Digit* '.' Digit+) (('e' | 'E') Sign? Digit+)?`.
pub open spec fn decimal_number(b: Seq<char>) -> bool {
    match first_exp_mark(b) {
        Some(e) => float_mantissa(b.take(e)) && float_exponent(b.skip(e + 1)),
        None => float_mantissa(b),
    }
}

/// A text that `f64::from_str` accepts: an optional sign, then `inf`,
/// `infinity` or `nan` in any ASCII case, or a decimal number.
pub open spec fn float_literal(s: Seq<char>) -> bool {
    let b = unsigned_part(s);
    eq_ignore_ascii_case(b, "inf"@) || eq_ignore_ascii_case(b, "infinity"@)
        || eq_ignore_ascii_case(b, "nan"@) || decimal_number(b)
}

/// The message of `f64::from_str` when it refuses a text.
pub open spec fn float_error_text(s: Seq<char>) -> Seq<char> {
    if s.len() == 0 { "cannot parse float from empty string"@ } else { "invalid float literal"@ }
}

/// The first mark is found where one stands and none stands before.
proof fn lemma_first_exp_mark(s: Seq<char>, i: int)
    requires
        0 <= i < s.len(),
        s[i] == 'e' || s[i] == 'E',
        forall|j: int| 0 <= j < i ==> s[j] != 'e' && s[j] != 'E',
    ensures
        first_exp_mark(s) == Some(i),
{
    let k = choose|k: int| 0 <= k < s.len() && (s[k] == 'e' || s[k] == 'E')
        && forall|j: int| 0 <= j < k ==> s[j] != 'e' && s[j] != 'E';
    assert(k == i) by {
        if k < i { assert(s[k] != 'e' && s[k] != 'E'); }
        if k > i { assert(s[i] != 'e' && s[i] != 'E'); }
    }
}

proof fn lemma_digits_value_prefix(s: Seq<char>, k: int)
    requires
        all_digits(s),
        0 <= k <= s.len(),
    ensures
        digits_value(s.take(k)) <= digits_value(s),
    decreases s.len() - k,
{
    if k < s.len() {
        lemma_digits_value_prefix(s, k + 1);
        assert(s.take(k + 1).drop_last() =~= s.take(k));
        assert(is_digit(s[k]));
    } else {
        assert(s.take(k) =~= s);
    }
}

/// The value of an ASCII digit.
fn digit_value(c: char) -> (d: u32)
    requires
        is_digit(c),
    ensures
        d == (c as int) - ('0' as int),
        d < 10,
{
    (c as u32) - ('0' as u32)
}

/// Whether a character is an ASCII digit.
fn char_is_digit(c: char) -> (r: bool)
    ensures
        r == is_digit(c),
{
    '0' <= c && c <= '9'
}

/// `i64::from_str` on the given characters.
pub fn parse_i64(s: &Vec<char>) -> (r: Option<i64>)
    ensures
        match r {
            Some(n) => i64_literal(s@) == Some(n as int),
            None => i64_literal(s@) is None,
        },
{
    let n = s.len();
    let start: usize = if n > 0 && (s[0] == '+' || s[0] == '-') { 1 } else { 0 };
    let ghost digits = unsigned_part(s@);
    assert(digits =~= s@.skip(start as int));
    if start >= n {
        return None;
    }
    let limit: u128 = 9223372036854775808u128;
    let mut mag: u128 = 0;
    let mut i: usize = start;
    while i < n
        invariant
            n == s@.len(),
            start <= i <= n,
            limit == 9223372036854775808u128,
            digits == unsigned_part(s@),
            digits =~= s@.skip(start as int),
            all_digits(s@.subrange(start as int, i as int)),
            mag == digits_value(s@.subrange(start as int, i as int)),
            mag <= limit,
        decreases n - i,
    {
        let c = s[i];
        if !char_is_digit(c) {
            assert(digits[i - start] == c);
            assert(!is_digit(digits[i - start]));
            return None;
        }
        let d = digit_value(c);
        proof {
            assert(s@.subrange(start as int, i + 1).drop_last() =~= s@.subrange(start as int, i as int));
        }
        assert(mag * 10 <= 92233720368547758080) by (nonlinear_arith)
            requires
                mag <= 9223372036854775808,
        ;
        mag = mag * 10 + d as u128;
        if mag > limit {
            proof {
                if all_digits(digits) {
                    assert(digits.take(i + 1 - start) =~= s@.subrange(start as int, i + 1));
                    lemma_digits_value_prefix(digits, i + 1 - start);
                }
            }
            return None;
        }
        i = i + 1;
    }
    assert(s@.subrange(start as int, n as int) =~= digits);
    if s[0] == '-' {
        if mag == limit {
            Some(i64::MIN)
        } else {
            Some(-(mag as i64))
        }
    } else {
        if mag > 9223372036854775807u128 {
            None
        } else {
            Some(mag as i64)
        }
    }
}

/// Whether `a` equals the lowercase ASCII text `b`, ignoring ASCII case.
fn chars_eq_ignore_ascii_case(a: &Vec<char>, from: usize, b: &str) -> (r: bool)
    requires
        from <= a@.len(),
    ensures
        r == eq_ignore_ascii_case(a@.skip(from as int), b@),
{
    let bv = chars_of(b);
    let alen = a.len();
    if alen - from != bv.len() {
        return false;
    }
    let mut i: usize = 0;
    while i < bv.len()
        invariant
            alen == a@.len(),
            from <= a@.len(),
            a@.len() - from == bv@.len(),
            i <= bv@.len(),
            bv@ == b@,
            forall|k: int| 0 <= k < i ==> ascii_lower(#[trigger] a@.skip(from as int)[k]) == bv@[k],
        decreases bv@.len() - i,
    {
        let c = a[from + i];
        let lc = if 'A' <= c && c <= 'Z' { ascii_lowercase_char(c) } else { c };
        assert(a@.skip(from as int)[i as int] == c);
        if lc != bv[i] {
            return false;
        }
        i = i + 1;
    }
    true
}

/// The ASCII lowercase of an uppercase ASCII letter.
fn ascii_lowercase_char(c: char) -> (r: char)
    requires
        'A' <= c && c <= 'Z',
    ensures
        r == ascii_lower(c),
{
    let code: u32 = (c as u32) + 32;
    let r = if code == 97 { 'a' } else if code == 98 { 'b' } else if code == 99 { 'c' } else if code == 100 { 'd' }
        else if code == 101 { 'e' } else if code == 102 { 'f' } else if code == 103 { 'g' } else if code == 104 { 'h' }
        else if code == 105 { 'i' } else if code == 106 { 'j' } else if code == 107 { 'k' } else if code == 108 { 'l' }
        else if code == 109 { 'm' } else if code == 110 { 'n' } else if code == 111 { 'o' } else if code == 112 { 'p' }
        else if code == 113 { 'q' } else if code == 114 { 'r' } else if code == 115 { 's' } else if code == 116 { 't' }
        else if code == 117 { 'u' } else if code == 118 { 'v' } else if code == 119 { 'w' } else if code == 120 { 'x' }
        else if code == 121 { 'y' } else { 'z' };
    r
}

/// Whether `s[from..to]` is a float mantissa.
fn check_mantissa(s: &Vec<char>, from: usize, to: usize) -> (r: bool)
    requires
        from <= to <= s@.len(),
    ensures
        r == float_mantissa(s@.subrange(from as int, to as int)),
{
    let ghost m = s@.subrange(from as int, to as int);
    let mut dot: Option<usize> = None;
    let mut digit_seen = false;
    let mut i: usize = from;
    while i < to
        invariant
            from <= i <= to <= s@.len(),
            m == s@.subrange(from as int, to as int),
            forall|k: int| 0 <= k < i - from ==> is_digit(#[trigger] m[k]) || m[k] == '.',
            match dot {
                Some(p) => from <= p < i && m[p - from] == '.' && forall|k: int| 0 <= k < i - from && m[k] == '.' ==> k == p - from,
                None => forall|k: int| 0 <= k < i - from ==> m[k] != '.',
            },
            digit_seen == exists|k: int| 0 <= k < i - from && is_digit(#[trigger] m[k]),
        decreases to - i,
    {
        let c = s[i];
        assert(m[i - from] == c);
        if char_is_digit(c) {
            digit_seen = true;
        } else if c == '.' {
            if dot.is_some() {
                let p = dot.unwrap();
                assert(m[p - from] == '.' && m[i - from] == '.');
                return false;
            }
            dot = Some(i);
        } else {
            return false;
        }
        i = i + 1;
    }
    digit_seen
}

/// Whether `s[from..]` is a float exponent.
fn check_exponent(s: &Vec<char>, from: usize) -> (r: bool)
    requires
        from <= s@.len(),
    ensures
        r == float_exponent(s@.skip(from as int)),
{
    let ghost x = s@.skip(from as int);
    let n = s.len();
    let start: usize = if from < n && (s[from] == '+' || s[from] == '-') { from + 1 } else { from };
    assert(unsigned_part(x) =~= s@.skip(start as int));
    if start >= n {
        return false;
    }
    let mut i: usize = start;
    while i < n
        invariant
            n == s@.len(),
            start <= i <= n,
            x == s@.skip(from as int),
            unsigned_part(x) =~= s@.skip(start as int),
            forall|k: int| start <= k < i ==> is_digit(#[trigger] s@[k]),
        decreases n - i,
    {
        if !char_is_digit(s[i]) {
            assert(unsigned_part(x)[i - start] == s@[i as int]);
            return false;
        }
        i = i + 1;
    }
    assert forall|k: int| 0 <= k < unsigned_part(x).len() implies is_digit(#[trigger] unsigned_part(x)[k]) by {
        assert(unsigned_part(x)[k] == s@[start + k]);
    }
    true
}

/// Whether `f64::from_str` accepts the given characters.
pub fn is_float_literal(s: &Vec<char>) -> (r: bool)
    ensures
        r == float_literal(s@),
{
    let n = s.len();
    let start: usize = if n > 0 && (s[0] == '+' || s[0] == '-') { 1 } else { 0 };
    let ghost b = unsigned_part(s@);
    assert(b =~= s@.skip(start as int));
    if chars_eq_ignore_ascii_case(s, start, "inf") || chars_eq_ignore_ascii_case(s, start, "infinity")
        || chars_eq_ignore_ascii_case(s, start, "nan") {
        return true;
    }
    // the first exponent mark
    let mut e: usize = start;
    while e < n
        invariant
            n == s@.len(),
            start <= e <= n,
            b == s@.skip(start as int),
            forall|k: int| start <= k < e ==> s@[k] != 'e' && s@[k] != 'E',
        ensures
            start <= e <= n,
            b == s@.skip(start as int),
            forall|k: int| start <= k < e ==> s@[k] != 'e' && s@[k] != 'E',
            e < n ==> (s@[e as int] == 'e' || s@[e as int] == 'E'),
        decreases n - e,
    {
        if s[e] == 'e' || s[e] == 'E' {
            break;
        }
        e = e + 1;
    }
    if e < n {
        proof {
            let i = e - start;
            assert(b[i] == s@[e as int]);
            assert forall|j: int| 0 <= j < i implies b[j] != 'e' && b[j] != 'E' by {
                assert(b[j] == s@[start + j]);
            }
            lemma_first_exp_mark(b, i);
            assert(b.take(i) =~= s@.subrange(start as int, e as int));
            assert(b.skip(i + 1) =~= s@.skip(e + 1));
        }
        check_mantissa(s, start, e) && check_exponent(s, e + 1)
    } else {
        proof {
            assert forall|k: int| 0 <= k < b.len() implies !(b[k] == 'e' || b[k] == 'E') by {
                assert(b[k] == s@[start + k]);
            }
            assert(s@.subrange(start as int, n as int) =~= b);
        }
        check_mantissa(s, start, n)
    }
}

// ---------------------------------------------------------------------------
// Parameter parsing
// ---------------------------------------------------------------------------

/// The message of an empty argument key.
pub open spec fn empty_key_message() -> Seq<char> {
    "argument key cannot be empty"@
}

/// The type names that an argument may carry.
pub open spec fn valid_type_name(t: Seq<char>) -> bool {
    t == "string"@ || t == "number"@ || t == "int"@ || t == "float"@ || t == "bool"@ || t == "boolean"@
}

/// The message of an argument without `=`.
pub open spec fn format_error_message(arg: Seq<char>) -> Seq<char> {
    "invalid argument format: "@ + debug_quoted(arg) + " (expected key=value or key:type=value)"@
}

/// The message of an argument with an unsupported type.
pub open spec fn unsupported_type_message(key: Seq<char>, ty: Seq<char>) -> Seq<char> {
    "argument "@ + debug_quoted(key) + " uses unsupported type "@ + debug_quoted(ty)
        + ", supported types: string, number, int, float, bool"@
}

/// The message of a value that cannot be converted to its type.
pub open spec fn conversion_error_message(key: Seq<char>, val: Seq<char>, ty: Seq<char>, reason: Seq<char>) -> Seq<char> {
    "argument "@ + debug_quoted(key) + " value "@ + debug_quoted(val) + " cannot be converted to type "@
        + debug_quoted(ty) + ": "@ + reason
}

/// The key and type of the part of an argument before `=`: `key` (a string)
/// or `key:type`, with a non-empty key and a supported type.
pub open spec fn key_with_type(kp: Seq<char>) -> Result<(Seq<char>, Seq<char>), Seq<char>> {
    match first_index(kp, ':') {
        Some(c) => {
            let key = kp.take(c);
            let ty = kp.skip(c + 1);
            if key.len() == 0 {
                Err(empty_key_message())
            } else if !valid_type_name(ty) {
                Err(unsupported_type_message(key, ty))
            } else {
                Ok((key, ty))
            }
        },
        None => if kp.len() == 0 { Err(empty_key_message()) } else { Ok((kp, "string"@)) },
    }
}

/// A boolean argument is true when its lowercased value is "true", "1" or "yes".
pub open spec fn truthy(val: Seq<char>) -> bool {
    let lower = lowercase(val);
    lower == "true"@ || lower == "1"@ || lower == "yes"@
}

/// The JSON value of a text under a type name, or the reason it has none:
/// a number tries `i64` first and then `f64`.
pub open spec fn converted_value(val: Seq<char>, ty: Seq<char>) -> Result<Json, Seq<char>> {
    if ty == "string"@ {
        Ok(Json::Str(val))
    } else if ty == "number"@ || ty == "int"@ {
        match i64_literal(val) {
            Some(n) => Ok(Json::Int(n)),
            None => if float_literal(val) { Ok(Json::Float(val)) } else { Err(float_error_text(val)) },
        }
    } else if ty == "float"@ {
        if float_literal(val) { Ok(Json::Float(val)) } else { Err(float_error_text(val)) }
    } else if ty == "bool"@ || ty == "boolean"@ {
        Ok(Json::Bool(truthy(val)))
    } else {
        Ok(Json::Str(val))
    }
}

/// The key and value of one `key=value` or `key:type=value` argument, or the
/// message of its error.
pub open spec fn kv_argument(arg: Seq<char>) -> Result<(Seq<char>, Json), Seq<char>> {
    match first_index(arg, '=') {
        None => Err(format_error_message(arg)),
        Some(p) => {
            let val = arg.skip(p + 1);
            match key_with_type(arg.take(p)) {
                Err(e) => Err(e),
                Ok((key, ty)) => match converted_value(val, ty) {
                    Ok(v) => Ok((key, v)),
                    Err(reason) => Err(conversion_error_message(key, val, ty, reason)),
                },
            }
        },
    }
}

/// The parameters of a list of arguments, read in order, a later key
/// replacing an earlier one; or the message of the first error.
pub open spec fn kv_parameters(args: Seq<Seq<char>>) -> Result<Map<Seq<char>, Json>, Seq<char>>
    decreases args.len(),
{
    if args.len() == 0 {
        Ok(Map::empty())
    } else {
        match kv_parameters(args.drop_last()) {
            Err(e) => Err(e),
            Ok(m) => match kv_argument(args.last()) {
                Err(e) => Err(e),
                Ok((k, v)) => Ok(m.insert(k, v)),
            },
        }
    }
}

/// The JSON model of a map of values.
pub open spec fn json_map(m: StrMap<JsonValue>) -> Map<Seq<char>, Json> {
    m.model().map_values(|v: JsonValue| v.model())
}

/// An error of invalid parameters with the given message.
pub open spec fn is_param_error(e: MCPError, message: Seq<char>) -> bool {
    e.code == ErrorCode::ParamInvalid && e.message@ == message && e.details is None
}

/// The text of a list of strings.
pub open spec fn string_views(v: Seq<String>) -> Seq<Seq<char>> {
    Seq::new(v.len(), |i: int| v[i]@)
}

/// Parameter parsing service.
pub struct ParamParser;

impl ParamParser {
    /// Parse `key=value` and `key:type=value` arguments. The types are
    /// string (the default), number and int (an `i64`, else a float), float,
    /// and bool and boolean (true for "true", "1" or "yes" in any case). A later
    /// argument for a key replaces an earlier one; the first bad argument
    /// gives a parameter error.
    pub fn parse_kv_args(args: &[String]) -> (r: Result<StrMap<JsonValue>, MCPError>)
        ensures
            match r {
                Ok(m) => kv_parameters(string_views(args@)) == Ok::<Map<Seq<char>, Json>, Seq<char>>(json_map(m)),
                Err(e) => kv_parameters(string_views(args@)) is Err
                    && is_param_error(e, kv_parameters(string_views(args@))->Err_0),
            },
    {
        let mut result: StrMap<JsonValue> = StrMap::new();
        let mut i: usize = 0;
        assert(json_map(result) =~= Map::<Seq<char>, Json>::empty());
        while i < args.len()
            invariant
                i <= args@.len(),
                kv_parameters(string_views(args@).take(i as int)) == Ok::<Map<Seq<char>, Json>, Seq<char>>(json_map(result)),
            decreases args@.len() - i,
        {
            proof {
                assert(string_views(args@)[i as int] == args@[i as int]@);
            }
            match Self::parse_argument(&args[i]) {
                Ok((key, value)) => {
                    let ghost before = json_map(result);
                    let ghost vm = value.model();
                    let ghost k = key@;
                    result.insert(key, value);
                    proof {
                        lemma_json_map_insert(before, json_map(result), result.model(), k, vm);
                        lemma_kv_step(string_views(args@), i as int, before, k, vm);
                    }
                },
                Err(e) => {
                    proof {
                        let full = string_views(args@);
                        lemma_kv_error_persists(full, i + 1);
                    }
                    return Err(e);
                },
            }
            i = i + 1;
        }
        assert(string_views(args@).take(i as int) =~= string_views(args@));
        Ok(result)
    }

    /// One argument: its key and value.
    fn parse_argument(arg: &String) -> (r: Result<(String, JsonValue), MCPError>)
        ensures
            match r {
                Ok((k, v)) => kv_argument(arg@) == Ok::<(Seq<char>, Json), Seq<char>>((k@, v.model())),
                Err(e) => kv_argument(arg@) is Err && is_param_error(e, kv_argument(arg@)->Err_0),
            },
    {
        let chars = chars_of(arg.as_str());
        match find_char(&chars, '=') {
            None => {
                let mut m = "invalid argument format: ".to_owned();
                append_str(&mut m, debug_str(arg.as_str()).as_str());
                append_str(&mut m, " (expected key=value or key:type=value)");
                Err(MCPError::param_invalid(m.as_str()))
            },
            Some(p) => {
                let n = chars.len();
                let key_part = substring(&chars, 0, p);
                let val = substring(&chars, p + 1, n);
                assert(key_part@ =~= arg@.take(p as int));
                assert(val@ =~= arg@.skip(p + 1));
                let (key, ty) = Self::parse_key_with_type(key_part.as_str())?;
                match Self::convert_value(val.as_str(), ty.as_str()) {
                    Ok(v) => Ok((key, v)),
                    Err(reason) => {
                        let mut m = "argument ".to_owned();
                        append_str(&mut m, debug_str(key.as_str()).as_str());
                        append_str(&mut m, " value ");
                        append_str(&mut m, debug_str(val.as_str()).as_str());
                        append_str(&mut m, " cannot be converted to type ");
                        append_str(&mut m, debug_str(ty.as_str()).as_str());
                        append_str(&mut m, ": ");
                        append_str(&mut m, reason.as_str());
                        Err(MCPError::param_invalid(m.as_str()))
                    },
                }
            },
        }
    }

    /// Parse "key" or "key:type".
    fn parse_key_with_type(key_part: &str) -> (r: Result<(String, String), MCPError>)
        ensures
            match r {
                Ok((k, t)) => key_with_type(key_part@) == Ok::<(Seq<char>, Seq<char>), Seq<char>>((k@, t@)),
                Err(e) => key_with_type(key_part@) is Err && is_param_error(e, key_with_type(key_part@)->Err_0),
            },
    {
        let chars = chars_of(key_part);
        match find_char(&chars, ':') {
            Some(c) => {
                let n = chars.len();
                let key = substring(&chars, 0, c);
                let type_hint = substring(&chars, c + 1, n);
                assert(key@ =~= key_part@.take(c as int));
                assert(type_hint@ =~= key_part@.skip(c + 1));
                if key.as_str().is_empty() {
                    return Err(MCPError::param_invalid("argument key cannot be empty"));
                }
                let t = type_hint.as_str();
                if !(str_eq(t, "string") || str_eq(t, "number") || str_eq(t, "int") || str_eq(t, "float")
                    || str_eq(t, "bool") || str_eq(t, "boolean")) {
                    let mut m = "argument ".to_owned();
                    append_str(&mut m, debug_str(key.as_str()).as_str());
                    append_str(&mut m, " uses unsupported type ");
                    append_str(&mut m, debug_str(t).as_str());
                    append_str(&mut m, ", supported types: string, number, int, float, bool");
                    return Err(MCPError::param_invalid(m.as_str()));
                }
                Ok((key, type_hint))
            },
            None => {
                if key_part.is_empty() {
                    return Err(MCPError::param_invalid("argument key cannot be empty"));
                }
                Ok((key_part.to_owned(), "string".to_owned()))
            },
        }
    }

    /// Convert a text according to a type name; the error is the reason.
    fn convert_value(val_str: &str, type_hint: &str) -> (r: Result<JsonValue, String>)
        ensures
            match r {
                Ok(v) => converted_value(val_str@, type_hint@) == Ok::<Json, Seq<char>>(v.model()),
                Err(e) => converted_value(val_str@, type_hint@) == Err::<Json, Seq<char>>(e@),
            },
    {
        if str_eq(type_hint, "string") {
            Ok(JsonValue::Str(val_str.to_owned()))
        } else if str_eq(type_hint, "number") || str_eq(type_hint, "int") {
            let chars = chars_of(val_str);
            match parse_i64(&chars) {
                Some(n) => Ok(JsonValue::Int(n)),
                None => Self::float_value(val_str),
            }
        } else if str_eq(type_hint, "float") {
            Self::float_value(val_str)
        } else if str_eq(type_hint, "bool") || str_eq(type_hint, "boolean") {
            let lower = to_lowercase(val_str);
            let l = lower.as_str();
            Ok(JsonValue::Bool(str_eq(l, "true") || str_eq(l, "1") || str_eq(l, "yes")))
        } else {
            Ok(JsonValue::Str(val_str.to_owned()))
        }
    }

    /// A float value, or the reason `f64::from_str` refuses the text.
    fn float_value(val_str: &str) -> (r: Result<JsonValue, String>)
        ensures
            match r {
                Ok(v) => float_literal(val_str@) && v.model() == Json::Float(val_str@),
                Err(e) => !float_literal(val_str@) && e@ == float_error_text(val_str@),
            },
    {
        let chars = chars_of(val_str);
        if is_float_literal(&chars) {
            Ok(JsonValue::Float(val_str.to_owned()))
        } else if val_str.is_empty() {
            Err("cannot parse float from empty string".to_owned())
        } else {
            Err("invalid float literal".to_owned())
        }
    }
}

/// Reading one more good argument inserts its key and value.
proof fn lemma_kv_step(args: Seq<Seq<char>>, i: int, m: Map<Seq<char>, Json>, k: Seq<char>, v: Json)
    requires
        0 <= i < args.len(),
        kv_parameters(args.take(i)) == Ok::<Map<Seq<char>, Json>, Seq<char>>(m),
        kv_argument(args[i]) == Ok::<(Seq<char>, Json), Seq<char>>((k, v)),
    ensures
        kv_parameters(args.take(i + 1)) == Ok::<Map<Seq<char>, Json>, Seq<char>>(m.insert(k, v)),
{
    assert(args.take(i + 1).drop_last() =~= args.take(i));
    assert(args.take(i + 1).last() == args[i]);
}

/// The JSON model of a map after an insertion.
proof fn lemma_json_map_insert(
    before: Map<Seq<char>, Json>,
    after: Map<Seq<char>, Json>,
    model: Map<Seq<char>, JsonValue>,
    k: Seq<char>,
    vm: Json,
)
    requires
        after == model.map_values(|x: JsonValue| x.model()),
        exists|old_model: Map<Seq<char>, JsonValue>, value: JsonValue|
            before == old_model.map_values(|x: JsonValue| x.model()) && model == old_model.insert(k, value) && value.model() == vm,
    ensures
        after == before.insert(k, vm),
{
    let (old_model, value) = choose|old_model: Map<Seq<char>, JsonValue>, value: JsonValue|
        before == old_model.map_values(|x: JsonValue| x.model()) && model == old_model.insert(k, value) && value.model() == vm;
    assert(after =~= before.insert(k, vm));
}

/// Once an argument fails, the whole list fails with the same message.
proof fn lemma_kv_error_persists(args: Seq<Seq<char>>, n: int)
    requires
        1 <= n <= args.len(),
        kv_parameters(args.take(n - 1)) is Ok,
        kv_argument(args[n - 1]) is Err,
    ensures
        kv_parameters(args) == Err::<Map<Seq<char>, Json>, Seq<char>>(kv_argument(args[n - 1])->Err_0),
    decreases args.len() - n,
{
    assert(args.take(n).drop_last() =~= args.take(n - 1));
    assert(args.take(n).last() == args[n - 1]);
    if n < args.len() {
        lemma_kv_error_persists_step(args, n);
    } else {
        assert(args.take(n) =~= args);
    }
}

/// An error of a prefix stays the error of every longer prefix.
proof fn lemma_kv_error_persists_step(args: Seq<Seq<char>>, n: int)
    requires
        1 <= n <= args.len(),
        kv_parameters(args.take(n)) is Err,
    ensures
        kv_parameters(args) == kv_parameters(args.take(n)),
    decreases args.len() - n,
{
    if n < args.len() {
        assert(args.take(n + 1).drop_last() =~= args.take(n));
        lemma_kv_error_persists_step(args, n + 1);
    } else {
        assert(args.take(n) =~= args);
    }
}

} // verus!

verus! {

// ---------------------------------------------------------------------------
// Schema formatting
// ---------------------------------------------------------------------------

/// The type hint shown for a JSON schema type.
pub open spec fn type_hint_of(t: Seq<char>) -> Seq<char> {
    if t == "number"@ {
        "number"@
    } else if t == "integer"@ {
        "int"@
    } else if t == "boolean"@ {
        "bool"@
    } else if t == "array"@ {
        "array"@
    } else if t == "object"@ {
        "object"@
    } else {
        "string"@
    }
}

/// The JSON type of a property: its "type" text, "string" when there is none.
pub open spec fn property_type(p: Seq<(Seq<char>, Json)>) -> Seq<char> {
    match as_text(lookup(p, "type"@)) {
        Some(t) => t,
        None => "string"@,
    }
}

/// The description text of a property.
pub open spec fn property_description(p: Seq<(Seq<char>, Json)>) -> Option<Seq<char>> {
    as_text(lookup(p, "description"@))
}

/// The line that shows a property: `key:type={value}`, followed by
/// ` // description` when the property has a description.
pub open spec fn param_line(key: Seq<char>, p: Seq<(Seq<char>, Json)>) -> Seq<char> {
    key + ":"@ + type_hint_of(property_type(p)) + "={value}"@ + match property_description(p) {
        Some(d) => " // "@ + d,
        None => Seq::empty(),
    }
}

/// The entries of the "properties" object of an object schema.
pub open spec fn schema_properties(schema: Json) -> Option<Seq<(Seq<char>, Json)>> {
    match schema {
        Json::Object(m) => match lookup(m, "properties"@) {
            Some(Json::Object(props)) => Some(props),
            _ => None,
        },
        _ => None,
    }
}

/// The lines of a list of properties; none if some property is not an object.
pub open spec fn property_lines(props: Seq<(Seq<char>, Json)>) -> Option<Seq<Seq<char>>>
    decreases props.len(),
{
    if props.len() == 0 {
        Some(Seq::empty())
    } else {
        match property_lines(props.drop_last()) {
            None => None,
            Some(lines) => match props.last().1 {
                Json::Object(p) => Some(lines.push(param_line(props.last().0, p))),
                _ => None,
            },
        }
    }
}

/// The lines that show the parameters of a schema.
pub open spec fn formatted_schema(schema: Json) -> Option<Seq<Seq<char>>> {
    match schema_properties(schema) {
        Some(props) => property_lines(props),
        None => None,
    }
}

/// The string items of a list, in order.
pub open spec fn strings_in(items: Seq<Json>) -> Seq<Seq<char>>
    decreases items.len(),
{
    if items.len() == 0 {
        Seq::empty()
    } else {
        match items.last() {
            Json::Str(s) => strings_in(items.drop_last()).push(s),
            _ => strings_in(items.drop_last()),
        }
    }
}

/// The names in the "required" list of an object schema.
pub open spec fn required_names(schema: Json) -> Seq<Seq<char>> {
    match schema {
        Json::Object(m) => match lookup(m, "required"@) {
            Some(Json::Array(items)) => strings_in(items),
            _ => Seq::empty(),
        },
        _ => Seq::empty(),
    }
}

/// The parameter descriptions of a list of properties; properties that are
/// not objects are left out.
pub open spec fn infos_of(props: Seq<(Seq<char>, Json)>, required: Seq<Seq<char>>) -> Seq<ParamInfoView>
    decreases props.len(),
{
    if props.len() == 0 {
        Seq::empty()
    } else {
        let rest = infos_of(props.drop_last(), required);
        match props.last().1 {
            Json::Object(p) => rest.push(ParamInfoView {
                name: props.last().0,
                param_type: type_hint_of(property_type(p)),
                required: required.contains(props.last().0),
                description: property_description(p),
            }),
            _ => rest,
        }
    }
}

/// The parameter descriptions of a schema.
pub open spec fn schema_param_infos(schema: Json) -> Seq<ParamInfoView> {
    match schema_properties(schema) {
        Some(props) => infos_of(props, required_names(schema)),
        None => Seq::empty(),
    }
}

/// The views of a list of parameter descriptions.
pub open spec fn info_views(v: Seq<ParamInfo>) -> Seq<ParamInfoView> {
    Seq::new(v.len(), |i: int| v[i]@)
}

/// The call example of one parameter: `name:type={value}`.
pub open spec fn example_part(p: ParamInfoView) -> Seq<char> {
    p.name + ":"@ + p.param_type + "={value}"@
}

/// The call examples of the parameters, joined by spaces.
pub open spec fn call_example(params: Seq<ParamInfoView>) -> Seq<char> {
    join(Seq::new(params.len(), |i: int| example_part(params[i])), " "@)
}

/// Whether a list of texts holds `key`.
pub fn strings_contain(v: &Vec<String>, key: &str) -> (r: bool)
    ensures
        r == views(v@).contains(key@),
{
    let mut i: usize = 0;
    while i < v.len()
        invariant
            i <= v@.len(),
            forall|j: int| 0 <= j < i ==> v@[j]@ != key@,
        decreases v@.len() - i,
    {
        if str_eq(v[i].as_str(), key) {
            assert(views(v@)[i as int] == key@);
            return true;
        }
        i = i + 1;
    }
    assert forall|j: int| 0 <= j < views(v@).len() implies views(v@)[j] != key@ by {
        assert(views(v@)[j] == v@[j]@);
    }
    false
}

/// Schema formatting service.
pub struct SchemaFormatter;

impl SchemaFormatter {
    /// The lines that show the parameters of an input schema, one per
    /// property: `key:type={value}`, followed by ` // description` when the
    /// property has one. `None` when the schema is not an object with a
    /// "properties" object, or when a property is not an object.
    pub fn format_input_schema(schema: &JsonValue) -> (r: Option<Vec<String>>)
        ensures
            match r {
                Some(lines) => formatted_schema(schema.model()) == Some(views(lines@)),
                None => formatted_schema(schema.model()) is None,
            },
    {
        let schema_map = schema.as_object()?;
        let props_value = object_get(schema_map, "properties")?;
        let properties = props_value.as_object()?;
        let ghost props = entries_model(properties@);
        let mut result: Vec<String> = Vec::new();
        let mut i: usize = 0;
        while i < properties.len()
            invariant
                i <= properties@.len(),
                props == entries_model(properties@),
                schema_properties(schema.model()) == Some(props),
                property_lines(props.take(i as int)) == Some(views(result@)),
            decreases properties@.len() - i,
        {
            assert(props.take(i + 1).drop_last() =~= props.take(i as int));
            assert(props.take(i + 1).last() == props[i as int]);
            let (key, prop) = (&properties[i].0, &properties[i].1);
            let prop_map = match prop.as_object() {
                Some(m) => m,
                None => {
                    proof {
                        lemma_property_lines_none(props, i as int + 1);
                    }
                    return None;
                },
            };
            let json_type: &str = match object_get(prop_map, "type") {
                Some(t) => match t.as_str() {
                    Some(t) => t.as_str(),
                    None => "string",
                },
                None => "string",
            };
            let type_hint = Self::json_type_to_type_hint(json_type);
            let mut line = key.clone();
            append_str(&mut line, ":");
            append_str(&mut line, type_hint);
            append_str(&mut line, "={value}");
            let ghost pm = entries_model(prop_map@);
            assert(json_type@ == property_type(pm));
            match object_get(prop_map, "description") {
                Some(d) => match d.as_str() {
                    Some(desc) => {
                        append_str(&mut line, " // ");
                        append_str(&mut line, desc.as_str());
                        assert(line@ =~= param_line(key@, pm));
                    },
                    None => {
                        assert(line@ =~= param_line(key@, pm));
                    },
                },
                None => {
                    assert(line@ =~= param_line(key@, pm));
                },
            }
            assert(props[i as int] == (key@, Json::Object(pm)));
            let ghost r0 = result@;
            result.push(line);
            assert(views(result@) =~= views(r0).push(line@));
            i = i + 1;
        }
        assert(props.take(i as int) =~= props);
        Some(result)
    }

    /// The type hint shown for a JSON schema type.
    pub fn json_type_to_type_hint(json_type: &str) -> (r: &'static str)
        ensures
            r@ == type_hint_of(json_type@),
    {
        if str_eq(json_type, "number") {
            "number"
        } else if str_eq(json_type, "integer") {
            "int"
        } else if str_eq(json_type, "boolean") {
            "bool"
        } else if str_eq(json_type, "array") {
            "array"
        } else if str_eq(json_type, "object") {
            "object"
        } else {
            "string"
        }
    }

    /// The names in the "required" list of the schema (its string items, in
    /// order); empty when there is none.
    pub fn get_required_params(schema: &JsonValue) -> (r: Vec<String>)
        ensures
            views(r@) == required_names(schema.model()),
    {
        let mut r: Vec<String> = Vec::new();
        let schema_map = match schema.as_object() {
            Some(m) => m,
            None => return r,
        };
        let items = match object_get(schema_map, "required") {
            Some(v) => match v.as_array() {
                Some(a) => a,
                None => return r,
            },
            None => return r,
        };
        let ghost model = Seq::new(items@.len(), |k: int| items@[k].model());
        let mut i: usize = 0;
        while i < items.len()
            invariant
                i <= items@.len(),
                model == Seq::new(items@.len(), |k: int| items@[k].model()),
                views(r@) == strings_in(model.take(i as int)),
            decreases items@.len() - i,
        {
            assert(model.take(i + 1).drop_last() =~= model.take(i as int));
            assert(model.take(i + 1).last() == items@[i as int].model());
            match items[i].as_str() {
                Some(s) => {
                    let ghost r0 = r@;
                    r.push(s.clone());
                    assert(views(r@) =~= views(r0).push(s@));
                },
                None => {},
            }
            i = i + 1;
        }
        assert(model.take(i as int) =~= model);
        r
    }

    /// The parameter descriptions of the schema, one per property that is an
    /// object: its key, type hint, whether "required" names it, and its
    /// description. Empty when the schema has no "properties" object.
    pub fn get_param_info_list(schema: &JsonValue) -> (r: Vec<ParamInfo>)
        ensures
            info_views(r@) == schema_param_infos(schema.model()),
    {
        let mut result: Vec<ParamInfo> = Vec::new();
        let schema_map = match schema.as_object() {
            Some(m) => m,
            None => return result,
        };
        let properties = match object_get(schema_map, "properties") {
            Some(p) => match p.as_object() {
                Some(p) => p,
                None => return result,
            },
            None => return result,
        };
        let required = Self::get_required_params(schema);
        let ghost props = entries_model(properties@);
        let ghost req = required_names(schema.model());
        let mut i: usize = 0;
        while i < properties.len()
            invariant
                i <= properties@.len(),
                props == entries_model(properties@),
                views(required@) == req,
                info_views(result@) == infos_of(props.take(i as int), req),
            decreases properties@.len() - i,
        {
            assert(props.take(i + 1).drop_last() =~= props.take(i as int));
            assert(props.take(i + 1).last() == props[i as int]);
            let key = &properties[i].0;
            match properties[i].1.as_object() {
                Some(prop_map) => {
                    let json_type: &str = match object_get(prop_map, "type") {
                        Some(t) => match t.as_str() {
                            Some(t) => t.as_str(),
                            None => "string",
                        },
                        None => "string",
                    };
                    let mut info = ParamInfo::new(key.as_str(), Self::json_type_to_type_hint(json_type))
                        .with_required(strings_contain(&required, key.as_str()));
                    match object_get(prop_map, "description") {
                        Some(d) => match d.as_str() {
                            Some(desc) => {
                                info = info.with_description(desc.as_str());
                            },
                            None => {},
                        },
                        None => {},
                    }
                    let ghost r0 = result@;
                    result.push(info);
                    assert(info_views(result@) =~= info_views(r0).push(info@));
                },
                None => {},
            }
            i = i + 1;
        }
        assert(props.take(i as int) =~= props);
        result
    }

    /// The call example of the parameters: `name:type={value}` for each,
    /// joined by spaces; empty when there are none.
    pub fn build_call_example(params: &[ParamInfo]) -> (r: String)
        ensures
            r@ == call_example(info_views(params@)),
    {
        let mut parts: Vec<String> = Vec::new();
        let ghost full = Seq::new(params@.len(), |k: int| example_part(params@[k]@));
        let mut i: usize = 0;
        while i < params.len()
            invariant
                i <= params@.len(),
                full == Seq::new(params@.len(), |k: int| example_part(params@[k]@)),
                views(parts@) == full.take(i as int),
            decreases params@.len() - i,
        {
            let mut part = params[i].name.clone();
            append_str(&mut part, ":");
            append_str(&mut part, params[i].param_type.as_str());
            append_str(&mut part, "={value}");
            let ghost p0 = parts@;
            parts.push(part);
            assert(views(parts@) =~= full.take(i + 1)) by {
                assert(views(parts@) =~= views(p0).push(part@));
            }
            i = i + 1;
        }
        assert(full.take(i as int) =~= full);
        assert(Seq::new(info_views(params@).len(), |k: int| example_part(info_views(params@)[k])) =~= full);
        join_strings(&parts, " ")
    }
}

/// Once a property is not an object, no lines are shown.
proof fn lemma_property_lines_none(props: Seq<(Seq<char>, Json)>, n: int)
    requires
        1 <= n <= props.len(),
        !(props[n - 1].1 is Object),
    ensures
        property_lines(props) is None,
    decreases props.len() - n,
{
    if n < props.len() {
        lemma_property_lines_none(props.drop_last(), n);
        assert(props.drop_last()[n - 1] == props[n - 1]);
    } else {
        assert(props.last() == props[n - 1]);
    }
}

} // verus!

verus! {

// ---------------------------------------------------------------------------
// Tool matching
// ---------------------------------------------------------------------------

/// A tool matches a lowercased query when its lowercased name or
/// description holds the query.
pub open spec fn tool_matches(t: Tool, query_lower: Seq<char>) -> bool {
    contains(lowercase(t.name@), query_lower) || match t.description {
        Some(d) => contains(lowercase(d@), query_lower),
        None => false,
    }
}

/// The tools that match a lowercased query, in order.
pub open spec fn search_hits(tools: Seq<Tool>, query_lower: Seq<char>) -> Seq<Tool>
    decreases tools.len(),
{
    if tools.len() == 0 {
        Seq::empty()
    } else {
        let rest = search_hits(tools.drop_last(), query_lower);
        if tool_matches(tools.last(), query_lower) { rest.push(tools.last()) } else { rest }
    }
}

/// The position of the first tool with the given name.
pub open spec fn first_named(tools: Seq<Tool>, name: Seq<char>) -> Option<int> {
    if exists|i: int| 0 <= i < tools.len() && tools[i].name@ == name {
        Some(choose|i: int| 0 <= i < tools.len() && tools[i].name@ == name
            && forall|j: int| 0 <= j < i ==> tools[j].name@ != name)
    } else {
        None
    }
}

/// The words of a text: the maximal runs of characters that are not white
/// space, as `str::split_whitespace` gives them. The first component is the
/// words completed so far, the second the word being read.
pub open spec fn word_fold(s: Seq<char>) -> (Seq<Seq<char>>, Seq<char>)
    decreases s.len(),
{
    if s.len() == 0 {
        (Seq::empty(), Seq::empty())
    } else {
        let (words, cur) = word_fold(s.drop_last());
        if is_white_space(s.last()) {
            if cur.len() > 0 { (words.push(cur), Seq::empty()) } else { (words, Seq::empty()) }
        } else {
            (words, cur.push(s.last()))
        }
    }
}

/// The words of a text, split at white space.
pub open spec fn split_words(s: Seq<char>) -> Seq<Seq<char>> {
    let (words, cur) = word_fold(s);
    if cur.len() > 0 { words.push(cur) } else { words }
}

/// The number of bytes of a character in UTF-8.
pub open spec fn utf8_width(c: char) -> nat {
    if (c as u32) < 0x80 { 1 } else if (c as u32) < 0x800 { 2 } else if (c as u32) < 0x10000 { 3 } else { 4 }
}

/// The number of bytes of a text in UTF-8.
pub open spec fn utf8_len(s: Seq<char>) -> nat
    decreases s.len(),
{
    if s.len() == 0 { 0 } else { utf8_len(s.drop_last()) + utf8_width(s.last()) }
}

/// The words of a list that are at least three bytes long, in order.
pub open spec fn long_words(words: Seq<Seq<char>>) -> Seq<Seq<char>>
    decreases words.len(),
{
    if words.len() == 0 {
        Seq::empty()
    } else {
        let rest = long_words(words.drop_last());
        if utf8_len(words.last()) >= 3 { rest.push(words.last()) } else { rest }
    }
}

/// The keywords of a task: the words of its lowercase form that are at least
/// three bytes long.
pub open spec fn task_keywords(task: Seq<char>) -> Seq<Seq<char>> {
    long_words(split_words(lowercase(task)))
}

/// The lowercased description of a tool, empty when it has none.
pub open spec fn lower_description(t: Tool) -> Seq<char> {
    match t.description {
        Some(d) => lowercase(d@),
        None => Seq::empty(),
    }
}

/// The keywords that a tool's lowercased name or description holds, in order.
pub open spec fn matched_keywords(words: Seq<Seq<char>>, name_lower: Seq<char>, desc_lower: Seq<char>) -> Seq<Seq<char>>
    decreases words.len(),
{
    if words.len() == 0 {
        Seq::empty()
    } else {
        let rest = matched_keywords(words.drop_last(), name_lower, desc_lower);
        if contains(name_lower, words.last()) || contains(desc_lower, words.last()) {
            rest.push(words.last())
        } else {
            rest
        }
    }
}

/// The tools that some keyword matches, in order, each with the keywords that
/// match it.
pub open spec fn suggestions(tools: Seq<Tool>, words: Seq<Seq<char>>) -> Seq<(Tool, Seq<Seq<char>>)>
    decreases tools.len(),
{
    if tools.len() == 0 {
        Seq::empty()
    } else {
        let rest = suggestions(tools.drop_last(), words);
        let t = tools.last();
        let m = matched_keywords(words, lowercase(t.name@), lower_description(t));
        if m.len() > 0 { rest.push((t, m)) } else { rest }
    }
}

/// The words of a text, split at white space.
pub fn split_whitespace(s: &str) -> (r: Vec<String>)
    ensures
        views(r@) == split_words(s@),
{
    let chars = chars_of(s);
    let mut words: Vec<String> = Vec::new();
    let mut cur: Vec<char> = Vec::new();
    let mut i: usize = 0;
    while i < chars.len()
        invariant
            i <= chars@.len(),
            chars@ == s@,
            (views(words@), cur@) == word_fold(chars@.take(i as int)),
        decreases chars@.len() - i,
    {
        assert(chars@.take(i + 1).drop_last() =~= chars@.take(i as int));
        assert(chars@.take(i + 1).last() == chars@[i as int]);
        let c = chars[i];
        if crate::text::char_is_whitespace(c) {
            if cur.len() > 0 {
                let w = string_from_chars(&cur);
                let ghost w0 = words@;
                words.push(w);
                assert(views(words@) =~= views(w0).push(cur@));
                cur = Vec::new();
            } else {
                cur = Vec::new();
            }
            assert(cur@ =~= Seq::<char>::empty());
        } else {
            cur.push(c);
        }
        i = i + 1;
    }
    assert(chars@.take(i as int) =~= chars@);
    if cur.len() > 0 {
        let w = string_from_chars(&cur);
        let ghost w0 = words@;
        words.push(w);
        assert(views(words@) =~= views(w0).push(cur@));
    }
    words
}

/// Whether a text is at least three bytes long in UTF-8.
fn at_least_three_bytes(w: &str) -> (r: bool)
    ensures
        r == (utf8_len(w@) >= 3),
{
    let chars = chars_of(w);
    let mut total: u64 = 0;
    let mut i: usize = 0;
    while i < chars.len()
        invariant
            i <= chars@.len(),
            chars@ == w@,
            total == utf8_len(chars@.take(i as int)),
            total < 3,
        decreases chars@.len() - i,
    {
        assert(chars@.take(i + 1).drop_last() =~= chars@.take(i as int));
        let code = chars[i] as u32;
        let width: u64 = if code < 0x80 { 1 } else if code < 0x800 { 2 } else if code < 0x10000 { 3 } else { 4 };
        total = total + width;
        if total >= 3 {
            proof {
                lemma_utf8_len_prefix(chars@, i + 1);
            }
            return true;
        }
        i = i + 1;
    }
    assert(chars@.take(i as int) =~= chars@);
    false
}

/// The UTF-8 length of a prefix is at most that of the whole text.
proof fn lemma_utf8_len_prefix(s: Seq<char>, k: int)
    requires
        0 <= k <= s.len(),
    ensures
        utf8_len(s.take(k)) <= utf8_len(s),
    decreases s.len() - k,
{
    if k < s.len() {
        lemma_utf8_len_prefix(s, k + 1);
        assert(s.take(k + 1).drop_last() =~= s.take(k));
    } else {
        assert(s.take(k) =~= s);
    }
}

/// The lowercased description of a tool, empty when it has none.
fn tool_lower_description(t: &Tool) -> (r: String)
    ensures
        r@ == lower_description(*t),
{
    match &t.description {
        Some(d) => to_lowercase(d.as_str()),
        None => String::new(),
    }
}

/// Tool matching service.
pub struct ToolMatcher;

impl ToolMatcher {
    /// The first tool with the given name.
    pub fn find_tool_by_name<'a>(tools: &'a [Tool], name: &str) -> (r: Option<&'a Tool>)
        ensures
            match r {
                Some(t) => first_named(tools@, name@) matches Some(i) && *t == tools@[i],
                None => first_named(tools@, name@) is None,
            },
    {
        let mut i: usize = 0;
        while i < tools.len()
            invariant
                i <= tools@.len(),
                forall|j: int| 0 <= j < i ==> tools@[j].name@ != name@,
            decreases tools@.len() - i,
        {
            if str_eq(tools[i].name.as_str(), name) {
                proof {
                    let k = choose|k: int| 0 <= k < tools@.len() && tools@[k].name@ == name@
                        && forall|j: int| 0 <= j < k ==> tools@[j].name@ != name@;
                    assert(k == i) by {
                        if k < i { assert(tools@[k].name@ != name@); }
                        if k > i { assert(tools@[i as int].name@ != name@); }
                    }
                }
                return Some(&tools[i]);
            }
            i = i + 1;
        }
        None
    }

    /// The tools whose lowercased name or description holds the lowercased
    /// query, in order.
    pub fn search_tools<'a>(tools: &'a [Tool], query: &str) -> (r: Vec<&'a Tool>)
        ensures
            r@.len() == search_hits(tools@, lowercase(query@)).len(),
            forall|i: int| 0 <= i < r@.len() ==> *r@[i] == search_hits(tools@, lowercase(query@))[i],
    {
        let query_lower = to_lowercase(query);
        let ghost ql = query_lower@;
        let mut r: Vec<&'a Tool> = Vec::new();
        let mut i: usize = 0;
        while i < tools.len()
            invariant
                i <= tools@.len(),
                ql == query_lower@,
                r@.len() == search_hits(tools@.take(i as int), ql).len(),
                forall|j: int| 0 <= j < r@.len() ==> *r@[j] == search_hits(tools@.take(i as int), ql)[j],
            decreases tools@.len() - i,
        {
            assert(tools@.take(i + 1).drop_last() =~= tools@.take(i as int));
            assert(tools@.take(i + 1).last() == tools@[i as int]);
            let t = &tools[i];
            let name_lower = to_lowercase(t.name.as_str());
            let name_match = crate::text::str_contains(name_lower.as_str(), query_lower.as_str());
            let desc_match = match &t.description {
                Some(d) => {
                    let dl = to_lowercase(d.as_str());
                    crate::text::str_contains(dl.as_str(), query_lower.as_str())
                },
                None => false,
            };
            if name_match || desc_match {
                r.push(t);
            }
            i = i + 1;
        }
        assert(tools@.take(i as int) =~= tools@);
        r
    }

    /// The tools that some keyword of the task matches, each with the
    /// keywords that match it; the keywords are the words of the lowercased
    /// task that are at least three bytes long.
    pub fn suggest_tools<'a>(tools: &'a [Tool], task: &str) -> (r: Vec<(&'a Tool, Vec<String>)>)
        ensures
            r@.len() == suggestions(tools@, task_keywords(task@)).len(),
            forall|i: int| 0 <= i < r@.len() ==> *r@[i].0 == suggestions(tools@, task_keywords(task@))[i].0
                && views(r@[i].1@) == suggestions(tools@, task_keywords(task@))[i].1,
    {
        let task_lower = to_lowercase(task);
        let all_words = split_whitespace(task_lower.as_str());
        let mut task_words: Vec<String> = Vec::new();
        let mut w: usize = 0;
        while w < all_words.len()
            invariant
                w <= all_words@.len(),
                views(task_words@) == long_words(views(all_words@).take(w as int)),
            decreases all_words@.len() - w,
        {
            assert(views(all_words@).take(w + 1).drop_last() =~= views(all_words@).take(w as int));
            assert(views(all_words@).take(w + 1).last() == all_words@[w as int]@);
            if at_least_three_bytes(all_words[w].as_str()) {
                let ghost t0 = task_words@;
                task_words.push(all_words[w].clone());
                assert(views(task_words@) =~= views(t0).push(all_words@[w as int]@));
            }
            w = w + 1;
        }
        assert(views(all_words@).take(w as int) =~= views(all_words@));
        let ghost words = views(task_words@);
        let mut results: Vec<(&'a Tool, Vec<String>)> = Vec::new();
        let mut i: usize = 0;
        while i < tools.len()
            invariant
                i <= tools@.len(),
                words == views(task_words@),
                words == task_keywords(task@),
                results@.len() == suggestions(tools@.take(i as int), words).len(),
                forall|j: int| 0 <= j < results@.len() ==> *results@[j].0 == suggestions(tools@.take(i as int), words)[j].0
                    && views(results@[j].1@) == suggestions(tools@.take(i as int), words)[j].1,
            decreases tools@.len() - i,
        {
            assert(tools@.take(i + 1).drop_last() =~= tools@.take(i as int));
            assert(tools@.take(i + 1).last() == tools@[i as int]);
            let tool = &tools[i];
            let name_lower = to_lowercase(tool.name.as_str());
            let desc_lower = tool_lower_description(tool);
            let mut matched: Vec<String> = Vec::new();
            let mut k: usize = 0;
            while k < task_words.len()
                invariant
                    k <= task_words@.len(),
                    words == views(task_words@),
                    views(matched@) == matched_keywords(words.take(k as int), name_lower@, desc_lower@),
                decreases task_words@.len() - k,
            {
                assert(words.take(k + 1).drop_last() =~= words.take(k as int));
                assert(words.take(k + 1).last() == task_words@[k as int]@);
                let word = task_words[k].as_str();
                if crate::text::str_contains(name_lower.as_str(), word)
                    || crate::text::str_contains(desc_lower.as_str(), word) {
                    let ghost m0 = matched@;
                    matched.push(task_words[k].clone());
                    assert(views(matched@) =~= views(m0).push(task_words@[k as int]@));
                }
                k = k + 1;
            }
            assert(words.take(k as int) =~= words);
            if matched.len() > 0 {
                let ghost r0 = results@;
                results.push((tool, matched));
                proof {
                    assert forall|j: int| 0 <= j < results@.len() implies *results@[j].0 == suggestions(tools@.take(i + 1), words)[j].0
                        && views(results@[j].1@) == suggestions(tools@.take(i + 1), words)[j].1 by {
                        if j < r0.len() {
                            assert(results@[j] == r0[j]);
                        }
                    }
                }
            }
            i = i + 1;
        }
        assert(tools@.take(i as int) =~= tools@);
        results
    }
}

} // verus!

verus! {

// ---------------------------------------------------------------------------
// Environment references
// ---------------------------------------------------------------------------

/// A character that may start a variable name.
pub open spec fn is_name_start(c: char) -> bool {
    ('A' <= c && c <= 'Z') || ('a' <= c && c <= 'z') || c == '_'
}

/// A character that may continue a variable name.
pub open spec fn is_name_char(c: char) -> bool {
    is_name_start(c) || is_digit(c)
}

/// The length of the run of name characters at the start of a text.
pub open spec fn name_run(s: Seq<char>) -> nat
    decreases s.len(),
{
    if s.len() > 0 && is_name_char(s[0]) { 1 + name_run(s.drop_first()) } else { 0 }
}

/// A `${NAME}` reference at the start of a text that begins with `${`: the
/// name runs to the first `}` and is not empty.
pub open spec fn brace_reference(s: Seq<char>) -> Option<(int, Seq<char>)> {
    match first_index(s.skip(2), '}') {
        Some(k) => if k >= 1 { Some((k + 3, s.subrange(2, k + 2))) } else { None },
        None => None,
    }
}

/// A `$NAME` reference at the start of a text whose second character starts
/// a name: the name runs over letters, digits and `_` as far as it can.
pub open spec fn name_reference(s: Seq<char>) -> (int, Seq<char>) {
    let n = name_run(s.skip(1)) as int;
    (n + 1, s.subrange(1, n + 1))
}

/// The environment reference at the start of a text, as its length and the
/// variable name: `${NAME}` where that form applies, else `$NAME`.
pub open spec fn env_reference(s: Seq<char>) -> Option<(int, Seq<char>)> {
    if s.len() >= 2 && s[0] == '$' {
        if s[1] == '{' && brace_reference(s) is Some {
            brace_reference(s)
        } else if is_name_start(s[1]) {
            Some(name_reference(s))
        } else {
            None
        }
    } else {
        None
    }
}

/// A text with each environment reference, read left to right, replaced by
/// the variable's value; a reference to an unknown variable stays as written.
pub open spec fn resolve_refs(s: Seq<char>, env: Map<Seq<char>, Seq<char>>) -> Seq<char>
    decreases s.len(),
{
    if s.len() == 0 {
        Seq::empty()
    } else {
        match env_reference(s) {
            Some((n, name)) => if 1 <= n <= s.len() {
                (if env.contains_key(name) { env[name] } else { s.take(n) }) + resolve_refs(s.skip(n), env)
            } else {
                seq![s[0]] + resolve_refs(s.skip(1), env)
            },
            None => seq![s[0]] + resolve_refs(s.skip(1), env),
        }
    }
}

/// The texts of an environment.
pub open spec fn env_texts(env: StrMap<String>) -> Map<Seq<char>, Seq<char>> {
    env.model().map_values(|v: String| v@)
}

proof fn lemma_name_run(t: Seq<char>, m: int)
    requires
        0 <= m <= t.len(),
        forall|j: int| 0 <= j < m ==> is_name_char(#[trigger] t[j]),
        m == t.len() || !is_name_char(t[m]),
    ensures
        name_run(t) == m,
    decreases m,
{
    if m > 0 {
        assert forall|j: int| 0 <= j < m - 1 implies is_name_char(#[trigger] t.drop_first()[j]) by {
            assert(t.drop_first()[j] == t[j + 1]);
        }
        if m < t.len() {
            assert(t.drop_first()[m - 1] == t[m]);
        }
        lemma_name_run(t.drop_first(), m - 1);
    }
}

/// Whether a character may start a variable name.
fn name_start(c: char) -> (r: bool)
    ensures
        r == is_name_start(c),
{
    ('A' <= c && c <= 'Z') || ('a' <= c && c <= 'z') || c == '_'
}

/// Whether a character may continue a variable name.
fn name_char(c: char) -> (r: bool)
    ensures
        r == is_name_char(c),
{
    name_start(c) || ('0' <= c && c <= '9')
}

/// The position of the first `}` at or after `from`, if any.
fn find_closing_brace(s: &Vec<char>, from: usize) -> (r: Option<usize>)
    requires
        from <= s@.len(),
    ensures
        match r {
            Some(j) => from <= j < s@.len() && first_index(s@.skip(from as int), '}') == Some(j - from),
            None => first_index(s@.skip(from as int), '}') is None,
        },
{
    reveal(first_index);
    let len = s.len();
    let ghost u = s@.skip(from as int);
    let mut j: usize = from;
    while j < len
        invariant
            len == s@.len(),
            from <= j <= len,
            u == s@.skip(from as int),
            forall|k: int| from <= k < j ==> s@[k] != '}',
        decreases len - j,
    {
        if s[j] == '}' {
            proof {
                reveal(first_index);
                let k = choose|k: int| 0 <= k < u.len() && u[k] == '}' && forall|x: int| 0 <= x < k ==> u[x] != '}';
                assert(u[j - from] == s@[j as int]);
                assert(k == j - from) by {
                    if k < j - from { assert(u[k] == s@[from + k]); }
                    if k > j - from { assert(u[j - from] == '}'); }
                }
            }
            return Some(j);
        }
        j = j + 1;
    }
    proof {
        reveal(first_index);
        assert forall|x: int| 0 <= x < u.len() implies u[x] != '}' by {
            assert(u[x] == s@[from + x]);
        }
    }
    None
}

/// The end of the run of name characters that starts at `from`.
fn name_end(s: &Vec<char>, from: usize) -> (r: usize)
    requires
        from <= s@.len(),
    ensures
        from <= r <= s@.len(),
        name_run(s@.skip(from as int)) == r - from,
{
    let len = s.len();
    let mut j: usize = from;
    while j < len && name_char(s[j])
        invariant
            len == s@.len(),
            from <= j <= len,
            forall|k: int| from <= k < j ==> is_name_char(s@[k]),
        decreases len - j,
    {
        j = j + 1;
    }
    proof {
        let v = s@.skip(from as int);
        assert forall|x: int| 0 <= x < j - from implies is_name_char(#[trigger] v[x]) by {
            assert(v[x] == s@[from + x]);
        }
        if j < len {
            assert(v[j - from] == s@[j as int]);
        }
        lemma_name_run(v, j - from);
    }
    j
}

/// The `${NAME}` reference at position `i`, where `s[i..]` begins with `${`.
fn brace_reference_at(s: &Vec<char>, i: usize) -> (r: Option<(usize, String)>)
    requires
        i + 2 <= s@.len(),
    ensures
        match r {
            Some((n, name)) => brace_reference(s@.skip(i as int)) == Some((n as int, name@)) && 2 <= n
                && i + n <= s@.len(),
            None => brace_reference(s@.skip(i as int)) is None,
        },
{
    let len = s.len();
    let ghost t = s@.skip(i as int);
    assert(t.skip(2) =~= s@.skip(i + 2));
    match find_closing_brace(s, i + 2) {
        Some(j) => {
            if j > i + 2 {
                let name = substring(s, i + 2, j);
                assert(name@ =~= t.subrange(2, (j - i - 2) + 2));
                Some((j - i + 1, name))
            } else {
                None
            }
        },
        None => None,
    }
}

/// The `$NAME` reference at position `i`, where `s[i + 1]` starts a name.
fn name_reference_at(s: &Vec<char>, i: usize) -> (r: (usize, String))
    requires
        i + 2 <= s@.len(),
        is_name_start(s@[i + 1]),
    ensures
        name_reference(s@.skip(i as int)) == (r.0 as int, r.1@),
        2 <= r.0,
        i + r.0 <= s@.len(),
{
    let len = s.len();
    let ghost t = s@.skip(i as int);
    assert(t.skip(1) =~= s@.skip(i + 1));
    let j = name_end(s, i + 1);
    assert(j > i + 1) by {
        assert(s@.skip(i + 1)[0] == s@[i + 1]);
    }
    let name = substring(s, i + 1, j);
    assert(name@ =~= t.subrange(1, (j - i - 1) + 1));
    (j - i, name)
}

/// The environment reference at position `i`.
fn reference_at(s: &Vec<char>, i: usize) -> (r: Option<(usize, String)>)
    requires
        i < s@.len(),
    ensures
        match r {
            Some((n, name)) => env_reference(s@.skip(i as int)) == Some((n as int, name@)) && 2 <= n
                && i + n <= s@.len(),
            None => env_reference(s@.skip(i as int)) is None,
        },
{
    let len = s.len();
    let ghost t = s@.skip(i as int);
    if i + 1 >= len || s[i] != '$' {
        return None;
    }
    assert(t[0] == s@[i as int] && t[1] == s@[i + 1]);
    if s[i + 1] == '{' {
        let b = brace_reference_at(s, i);
        if b.is_some() {
            return b;
        }
    }
    if name_start(s[i + 1]) {
        let (n, name) = name_reference_at(s, i);
        return Some((n, name));
    }
    None
}

/// Environment variable resolver.
pub struct EnvResolver;

impl EnvResolver {
    /// Replace each `${VAR}` and `$VAR` reference by the value of the
    /// variable in `env`; a reference to a variable that `env` lacks stays as
    /// written.
    pub fn resolve(input: &str, env: &StrMap<String>) -> (r: String)
        ensures
            r@ == resolve_refs(input@, env_texts(*env)),
    {
        let s = chars_of(input);
        let ghost e = env_texts(*env);
        let mut out = String::new();
        let mut i: usize = 0;
        assert(s@.skip(0) =~= s@);
        while i < s.len()
            invariant
                i <= s@.len(),
                s@ == input@,
                e == env_texts(*env),
                resolve_refs(s@, e) == out@ + resolve_refs(s@.skip(i as int), e),
            decreases s@.len() - i,
        {
            let ghost t = s@.skip(i as int);
            let ghost out0 = out@;
            match reference_at(&s, i) {
                Some((n, name)) => {
                    match env.get(name.as_str()) {
                        Some(v) => {
                            append_str(&mut out, v.as_str());
                        },
                        None => {
                            let written = substring(&s, i, i + n);
                            assert(written@ =~= t.take(n as int));
                            append_str(&mut out, written.as_str());
                        },
                    }
                    assert(t.skip(n as int) =~= s@.skip(i + n));
                    assert(out@ + resolve_refs(s@.skip(i + n), e) =~= out0 + resolve_refs(t, e));
                    i = i + n;
                },
                None => {
                    crate::text::push_char(&mut out, s[i]);
                    assert(t.skip(1) =~= s@.skip(i + 1));
                    assert(t[0] == s@[i as int]);
                    assert(out@ + resolve_refs(s@.skip(i + 1), e) =~= out0 + resolve_refs(t, e));
                    i = i + 1;
                },
            }
        }
        assert(s@.skip(i as int) =~= Seq::<char>::empty());
        assert(out@ + Seq::<char>::empty() =~= out@);
        out
    }

    /// The headers with the environment references in each value resolved.
    pub fn resolve_headers(headers: &StrMap<String>, env: &StrMap<String>) -> (r: StrMap<String>)
        ensures
            r.model().dom() == headers.model().dom(),
            forall|k: Seq<char>| #[trigger] r.model().contains_key(k)
                ==> r.model()[k]@ == resolve_refs(headers.model()[k]@, env_texts(*env)),
    {
        headers.check_distinct();
        proof {
            crate::strmap::lemma_map_of(headers.entries());
        }
        let ghost hs = headers.entries();
        let mut r: StrMap<String> = StrMap::new();
        let mut i: usize = 0;
        while i < headers.len()
            invariant
                i <= hs.len(),
                hs == headers.entries(),
                crate::strmap::distinct_keys(hs),
                forall|k: Seq<char>| #[trigger] r.model().contains_key(k) <==> exists|j: int| 0 <= j < i && hs[j].0@ == k,
                forall|j: int| 0 <= j < i ==> #[trigger] r.model()[hs[j].0@]@ == resolve_refs(hs[j].1@, env_texts(*env)),
            decreases hs.len() - i,
        {
            let (k, v) = headers.entry_at(i);
            let resolved = Self::resolve(v.as_str(), env);
            let ghost before = r.model();
            r.insert(k.clone(), resolved);
            proof {
                assert forall|kk: Seq<char>| #[trigger] r.model().contains_key(kk) <==> exists|j: int| 0 <= j < i + 1 && hs[j].0@ == kk by {
                    if kk == hs[i as int].0@ {
                        assert(hs[i as int].0@ == kk);
                    } else if r.model().contains_key(kk) {
                        assert(before.contains_key(kk));
                    }
                }
                assert forall|j: int| 0 <= j < i + 1 implies #[trigger] r.model()[hs[j].0@]@ == resolve_refs(hs[j].1@, env_texts(*env)) by {
                    if j < i {
                        assert(hs[j].0@ != hs[i as int].0@);
                    }
                }
            }
            i = i + 1;
        }
        proof {
            assert(r.model().dom() =~= headers.model().dom()) by {
                assert forall|k: Seq<char>| #[trigger] r.model().dom().contains(k) <==> headers.model().dom().contains(k) by {
                    if r.model().contains_key(k) {
                        let j = choose|j: int| 0 <= j < i && hs[j].0@ == k;
                        assert(headers.model().contains_key(hs[j].0@));
                    }
                    if headers.model().contains_key(k) {
                        let j = choose|j: int| 0 <= j < hs.len() && hs[j].0@ == k;
                        assert(r.model().contains_key(hs[j].0@));
                    }
                }
            }
            assert forall|k: Seq<char>| #[trigger] r.model().contains_key(k)
                implies r.model()[k]@ == resolve_refs(headers.model()[k]@, env_texts(*env)) by {
                let j = choose|j: int| 0 <= j < i && hs[j].0@ == k;
                assert(headers.model()[hs[j].0@] == hs[j].1);
            }
        }
        r
    }
}

// ---------------------------------------------------------------------------
// Retry policy
// ---------------------------------------------------------------------------

/// What to do after a failed attempt.
#[derive(Debug)]
pub enum RetryDecision {
    /// Give up and report this error.
    GiveUp(MCPError),
    /// Wait this long, then make the next attempt.
    RetryAfter { delay_ms: u64, next_attempt: u32 },
}

/// Retry with exponential backoff.
#[derive(Debug)]
pub struct RetryService {
    max_retries: u32,
    base_delay_ms: u64,
}

impl RetryService {
    /// A policy of at most `max_retries` attempts, waiting `base_delay_ms`
    /// after the first failed attempt and twice as long after each further one.
    pub fn new(max_retries: u32, base_delay_ms: u64) -> (r: Self)
        ensures
            r.max_retries() == max_retries,
            r.base_delay_ms() == base_delay_ms,
    {
        RetryService { max_retries, base_delay_ms }
    }

    /// The most attempts.
    pub closed spec fn max_retries(&self) -> u32 {
        self.max_retries
    }

    /// The delay unit.
    pub closed spec fn base_delay_ms(&self) -> u64 {
        self.base_delay_ms
    }

    /// The number of the first attempt; `None` when no attempt is allowed.
    pub fn first_attempt(&self) -> (r: Option<u32>)
        ensures
            r == if self.max_retries() >= 1 { Some(1u32) } else { None },
    {
        if self.max_retries >= 1 { Some(1) } else { None }
    }

    /// The error when the policy allows no attempt at all.
    pub fn exhausted(&self) -> (r: MCPError)
        ensures
            r.code == ErrorCode::InternalError,
            r.message@ == "Retry loop exited without result or error"@,
            r.details is None,
    {
        MCPError::internal_error("Retry loop exited without result or error")
    }

    /// The wait after failed attempt `attempt`: `base_delay_ms`, doubled for
    /// each attempt before it (exponential backoff).
    pub fn backoff_delay(&self, attempt: u32) -> (d: u64)
        requires
            1 <= attempt,
            self.base_delay_ms() * pow2((attempt - 1) as nat) <= u64::MAX,
        ensures
            d == self.base_delay_ms() * pow2((attempt - 1) as nat),
    {
        let ghost base = self.base_delay_ms as int;
        let mut d: u64 = self.base_delay_ms;
        let mut k: u32 = 1;
        proof {
            assert(pow2(0) == 1) by {
                vstd::arithmetic::power::lemma_pow0(2);
            }
            assert(base * pow2(0) == base);
            assert(((k - 1) as nat) == 0);
        }
        while k < attempt
            invariant
                1 <= k <= attempt,
                base == self.base_delay_ms(),
                d == base * pow2((k - 1) as nat),
                base * pow2((attempt - 1) as nat) <= u64::MAX,
            decreases attempt - k,
        {
            proof {
                let pk = pow2(k as nat);
                let pk1 = pow2((k - 1) as nat);
                let pa = pow2((attempt - 1) as nat);
                lemma_pow2_unfold(k as nat);
                if (k as nat) < ((attempt - 1) as nat) {
                    lemma_pow2_strictly_increases(k as nat, (attempt - 1) as nat);
                }
                assert(pk <= pa);
                assert(base * pk <= base * pa) by (nonlinear_arith)
                    requires pk <= pa, base >= 0;
                assert(base * pk == 2 * (base * pk1)) by (nonlinear_arith)
                    requires pk == 2 * pk1;
            }
            d = d * 2;
            k = k + 1;
        }
        d
    }

    /// The decision after attempt `attempt` failed with `error`: give up when
    /// the error is not retryable or this was the last attempt, else wait the
    /// backoff delay, `base_delay_ms * 2^(attempt - 1)`, and try again.
    pub fn after_failure(&self, attempt: u32, error: MCPError) -> (r: RetryDecision)
        requires
            1 <= attempt <= self.max_retries(),
            self.base_delay_ms() * pow2((attempt - 1) as nat) <= u64::MAX,
        ensures
            match r {
                RetryDecision::GiveUp(e) => e == error
                    && (!crate::domain::errors::is_retryable_error(error.code, error.message@)
                        || attempt == self.max_retries()),
                RetryDecision::RetryAfter { delay_ms, next_attempt } =>
                    crate::domain::errors::is_retryable_error(error.code, error.message@)
                    && attempt < self.max_retries()
                    && next_attempt == attempt + 1
                    && delay_ms == self.base_delay_ms() * pow2((attempt - 1) as nat),
            },
    {
        if !error.is_retryable() || attempt == self.max_retries {
            RetryDecision::GiveUp(error)
        } else {
            let delay_ms = self.backoff_delay(attempt);
            RetryDecision::RetryAfter { delay_ms, next_attempt: attempt + 1 }
        }
    }
}

// ---------------------------------------------------------------------------
// YAML input
// ---------------------------------------------------------------------------

/// A text without its leading white space.
pub open spec fn trim_start(s: Seq<char>) -> Seq<char>
    decreases s.len(),
{
    if s.len() > 0 && is_white_space(s[0]) { trim_start(s.drop_first()) } else { s }
}

/// A text without its trailing white space.
pub open spec fn trim_end(s: Seq<char>) -> Seq<char>
    decreases s.len(),
{
    if s.len() > 0 && is_white_space(s.last()) { trim_end(s.drop_last()) } else { s }
}

/// A text without leading and trailing white space, as `str::trim` gives it.
pub open spec fn trimmed(s: Seq<char>) -> Seq<char> {
    trim_end(trim_start(s))
}

/// A text without leading and trailing white space.
pub fn trim(s: &str) -> (r: String)
    ensures
        r@ == trimmed(s@),
{
    let chars = chars_of(s);
    let n = chars.len();
    let mut a: usize = 0;
    assert(chars@.skip(0) =~= chars@);
    while a < n && crate::text::char_is_whitespace(chars[a])
        invariant
            n == chars@.len(),
            a <= n,
            trim_start(chars@) == trim_start(chars@.skip(a as int)),
        decreases n - a,
    {
        assert(chars@.skip(a as int).drop_first() =~= chars@.skip(a + 1));
        a = a + 1;
    }
    let ghost front = chars@.skip(a as int);
    assert(trim_start(front) == front) by {
        if front.len() > 0 {
            assert(front[0] == chars@[a as int]);
        }
    }
    let mut b: usize = n;
    assert(front.take(n - a) =~= front);
    while b > a && crate::text::char_is_whitespace(chars[b - 1])
        invariant
            n == chars@.len(),
            a <= b <= n,
            front == chars@.skip(a as int),
            trim_end(front) == trim_end(front.take(b - a)),
        decreases b,
    {
        assert(front.take(b - a).drop_last() =~= front.take(b - a - 1));
        assert(front.take(b - a).last() == chars@[b - 1]);
        b = b - 1;
    }
    let ghost kept = front.take(b - a);
    assert(trim_end(kept) == kept) by {
        if kept.len() > 0 {
            assert(kept.last() == chars@[b - 1]);
        }
    }
    let r = substring(&chars, a, b);
    assert(r@ =~= kept);
    r
}

/// The message of empty YAML input.
pub open spec fn empty_yaml_message() -> Seq<char> {
    "empty YAML input"@
}

impl ParamParser {
    /// The YAML text to parse: the input without surrounding white space; a
    /// parameter error when nothing is left.
    pub fn yaml_source(yaml_str: &str) -> (r: Result<String, MCPError>)
        ensures
            match r {
                Ok(t) => t@ == trimmed(yaml_str@) && t@.len() > 0,
                Err(e) => trimmed(yaml_str@).len() == 0 && is_param_error(e, empty_yaml_message()),
            },
    {
        let t = trim(yaml_str);
        if t.as_str().is_empty() {
            Err(MCPError::param_invalid("empty YAML input"))
        } else {
            Ok(t)
        }
    }

    /// The parameters from what the YAML parser made of the text: its error
    /// becomes a parameter error "invalid YAML: ..."; an empty mapping is a
    /// parameter error too.
    pub fn yaml_parameters(parsed: Result<StrMap<JsonValue>, String>) -> (r: Result<StrMap<JsonValue>, MCPError>)
        ensures
            match parsed {
                Ok(m) => if m.model().dom().len() == 0 {
                    r matches Err(e) && is_param_error(e, empty_yaml_message())
                } else {
                    r matches Ok(m2) && m2 == m
                },
                Err(msg) => r matches Err(e) && is_param_error(e, "invalid YAML: "@ + msg@),
            },
    {
        match parsed {
            Ok(m) => {
                m.check_distinct();
                proof {
                    crate::strmap::lemma_map_of(m.entries());
                }
                if m.len() == 0 {
                    Err(MCPError::param_invalid("empty YAML input"))
                } else {
                    Ok(m)
                }
            },
            Err(msg) => {
                let mut text = "invalid YAML: ".to_owned();
                append_str(&mut text, msg.as_str());
                Err(MCPError::param_invalid(text.as_str()))
            },
        }
    }
}


/// Names what the `serde_yaml` parser makes of a text read as a mapping from
/// names to JSON values: the mapping, or the text of its error.
pub uninterp spec fn yaml_params_of(text: Seq<char>) -> Result<Map<Seq<char>, Json>, Seq<char>>;

/// A JSON value of the `serde_json` crate.
#[verifier::external_type_specification]
#[verifier::external_body]
pub struct ExSerdeJsonValue(serde_json::Value);

/// Converts a `serde_json` value node for node into a `JsonValue`: a number
/// that is an `i64` becomes an integer, any other number its decimal text.
#[verifier::external_body]
fn json_of_serde(v: &serde_json::Value) -> (r: JsonValue) {
    match v {
        serde_json::Value::Null => JsonValue::Null,
        serde_json::Value::Bool(b) => JsonValue::Bool(*b),
        serde_json::Value::Number(n) => match n.as_i64() {
            Some(i) => JsonValue::Int(i),
            None => JsonValue::Float(n.to_string()),
        },
        serde_json::Value::String(t) => JsonValue::Str(t.clone()),
        serde_json::Value::Array(a) => JsonValue::Array(a.iter().map(json_of_serde).collect()),
        serde_json::Value::Object(m) => JsonValue::Object(m.iter().map(|(k, x)| (k.clone(), json_of_serde(x))).collect()),
    }
}

/// `serde_yaml::from_str` into a map from names to `serde_json` values, with
/// the values converted to `JsonValue` and the error to its text. The result
/// is claimed only through the name `yaml_params_of`.
#[verifier::external_body]
fn yaml_mapping(text: &str) -> (r: Result<StrMap<JsonValue>, String>)
    ensures
        match r {
            Ok(m) => yaml_params_of(text@) == Ok::<Map<Seq<char>, Json>, Seq<char>>(json_map(m)),
            Err(e) => yaml_params_of(text@) == Err::<Map<Seq<char>, Json>, Seq<char>>(e@),
        },
{
    match serde_yaml::from_str::<std::collections::HashMap<String, serde_json::Value>>(text) {
        Ok(m) => {
            let mut out = StrMap::new();
            for (k, v) in m.iter() {
                out.insert(k.clone(), json_of_serde(v));
            }
            Ok(out)
        },
        Err(e) => Err(e.to_string()),
    }
}

/// The parameters that YAML text gives: an error "empty YAML input" for a
/// text that is only white space; else, from the text without surrounding
/// white space, an error "invalid YAML: ..." when it does not parse as a
/// mapping, "empty YAML input" for an empty mapping, and the mapping
/// otherwise.
pub open spec fn yaml_outcome(s: Seq<char>) -> Result<Map<Seq<char>, Json>, Seq<char>> {
    let t = trimmed(s);
    if t.len() == 0 {
        Err(empty_yaml_message())
    } else {
        match yaml_params_of(t) {
            Err(e) => Err("invalid YAML: "@ + e),
            Ok(m) => if m.dom().len() == 0 { Err(empty_yaml_message()) } else { Ok(m) },
        }
    }
}

impl ParamParser {
    /// The parameters of YAML text, as `yaml_outcome` describes them.
    pub fn parse_yaml(yaml_str: &str) -> (r: Result<StrMap<JsonValue>, MCPError>)
        ensures
            match r {
                Ok(m) => yaml_outcome(yaml_str@) == Ok::<Map<Seq<char>, Json>, Seq<char>>(json_map(m)),
                Err(e) => yaml_outcome(yaml_str@) is Err && is_param_error(e, yaml_outcome(yaml_str@)->Err_0),
            },
    {
        let t = match Self::yaml_source(yaml_str) {
            Ok(t) => t,
            Err(e) => return Err(e),
        };
        let parsed = yaml_mapping(t.as_str());
        proof {
            if parsed is Ok {
                assert(json_map(parsed->Ok_0).dom() == parsed->Ok_0.model().dom());
            }
        }
        Self::yaml_parameters(parsed)
    }
}

} // verus!

verus! {

// ---------------------------------------------------------------------------
// Laws
// ---------------------------------------------------------------------------

proof fn lemma_decimal_digits(n: nat)
    ensures
        decimal(n).len() > 0,
        all_digits(decimal(n)),
        digits_value(decimal(n)) == n,
    decreases n,
{
    assert((digit_char(n % 10) as int) - ('0' as int) == n % 10);
    if n < 10 {
        assert(decimal(n) =~= seq![digit_char(n)]);
        assert(seq![digit_char(n)].drop_last() =~= Seq::<char>::empty());
        assert(n % 10 == n);
        assert(digits_value(Seq::<char>::empty()) == 0);
        assert(digits_value(decimal(n)) == n);
    }
    if n >= 10 {
        lemma_decimal_digits(n / 10);
        let s = decimal(n / 10).push(digit_char(n % 10));
        assert(s.drop_last() =~= decimal(n / 10));
        assert((n / 10) * 10 + n % 10 == n);
        assert(decimal(n) == s);
        assert(s.last() == digit_char(n % 10));
        assert(digits_value(s) == digits_value(decimal(n / 10)) * 10 + ((digit_char(n % 10) as int) - ('0' as int)) as nat);
        assert(digits_value(s) == (n / 10) * 10 + n % 10);
        assert forall|i: int| 0 <= i < s.len() implies is_digit(#[trigger] s[i]) by {
            if i < s.len() - 1 {
                assert(s[i] == decimal(n / 10)[i]);
            }
        }
    }
}

/// The decimal rendering of every `i64` is read back as the same integer
/// by `i64::from_str`.
pub proof fn law_i64_decimal_round_trip(n: i64)
    ensures
        i64_literal(signed_decimal(n as int)) == Some(n as int),
{
    if n < 0 {
        let m = (-(n as int)) as nat;
        lemma_decimal_digits(m);
        let s = seq!['-'] + decimal(m);
        assert(s[0] == '-');
        assert(unsigned_part(s) =~= decimal(m));
    } else {
        lemma_decimal_digits(n as nat);
        let s = decimal(n as nat);
        assert(is_digit(s[0]));
        assert(unsigned_part(s) =~= s);
    }
}

/// A number argument given as the decimal rendering of an `i64` is that
/// integer.
pub proof fn law_number_argument_of_integer(n: i64)
    ensures
        converted_value(signed_decimal(n as int), "number"@) == Ok::<Json, Seq<char>>(Json::Int(n as int)),
        converted_value(signed_decimal(n as int), "int"@) == Ok::<Json, Seq<char>>(Json::Int(n as int)),
{
    law_i64_decimal_round_trip(n);
    reveal_strlit("number");
    reveal_strlit("int");
    reveal_strlit("string");
    assert("number"@ != "string"@) by {
        assert("number"@[0] != "string"@[0]);
    }
    assert("int"@ != "string"@) by {
        assert("int"@.len() != "string"@.len());
    }
    assert("int"@ != "number"@) by {
        assert("int"@.len() != "number"@.len());
    }
}

/// The first `c` of a text stands where `c` stands and none stands before.
proof fn lemma_first_index_at(s: Seq<char>, c: char, k: int)
    requires
        0 <= k < s.len(),
        s[k] == c,
        forall|j: int| 0 <= j < k ==> s[j] != c,
    ensures
        first_index(s, c) == Some(k),
{
    reveal(first_index);
    let m = choose|m: int| 0 <= m < s.len() && s[m] == c && forall|j: int| 0 <= j < m ==> s[j] != c;
    assert(m == k) by {
        if m < k {
            assert(s[m] != c);
        }
        if m > k {
            assert(s[k] != c);
        }
    }
}

/// A text without `c` has no first `c`.
proof fn lemma_first_index_none(s: Seq<char>, c: char)
    requires
        forall|j: int| 0 <= j < s.len() ==> s[j] != c,
    ensures
        first_index(s, c) is None,
{
    reveal(first_index);
}

/// An argument `key:bool=value` or `key:boolean=value`, with a non-empty key
/// that holds neither `=` nor `:`, is that key with `true` exactly when the
/// value is "true", "1" or "yes" in any case of letters, and `false` for every
/// other value.
pub proof fn law_bool_argument(key: Seq<char>, ty: Seq<char>, value: Seq<char>)
    requires
        key.len() > 0,
        forall|i: int| 0 <= i < key.len() ==> key[i] != '=' && key[i] != ':',
        ty == "bool"@ || ty == "boolean"@,
    ensures
        kv_argument(key + seq![':'] + ty + seq!['='] + value) == Ok::<(Seq<char>, Json), Seq<char>>((key, Json::Bool(
            lowercase(value) == "true"@ || lowercase(value) == "1"@ || lowercase(value) == "yes"@,
        ))),
{
    reveal_strlit("bool");
    reveal_strlit("boolean");
    reveal_strlit("string");
    reveal_strlit("number");
    reveal_strlit("int");
    reveal_strlit("float");
    let kp = key + seq![':'] + ty;
    let arg = kp + seq!['='] + value;
    assert(arg =~= key + seq![':'] + ty + seq!['='] + value);
    let n = key.len() as int;
    let p = kp.len() as int;
    assert forall|j: int| 0 <= j < p implies arg[j] != '=' by {
        if j < n {
            assert(arg[j] == key[j]);
        } else if j > n {
            assert(arg[j] == ty[j - n - 1]);
        }
    }
    assert(arg[p] == '=');
    lemma_first_index_at(arg, '=', p);
    assert(arg.take(p) =~= kp);
    assert(arg.skip(p + 1) =~= value);
    assert forall|j: int| 0 <= j < n implies kp[j] != ':' by {
        assert(kp[j] == key[j]);
    }
    assert(kp[n] == ':');
    lemma_first_index_at(kp, ':', n);
    assert(kp.take(n) =~= key);
    assert(kp.skip(n + 1) =~= ty);
    assert(valid_type_name(ty));
    assert(ty != "string"@ && ty != "number"@ && ty != "int"@ && ty != "float"@);
}

/// Searching ignores case on both sides: a single tool is a hit exactly when
/// the lowercase form of its name, or of its description, holds the
/// lowercase form of the query.
pub proof fn law_search_single_tool(t: Tool, query: Seq<char>)
    ensures
        search_hits(seq![t], lowercase(query)) == (if contains(lowercase(t.name@), lowercase(query))
            || (t.description matches Some(d) && contains(lowercase(d@), lowercase(query))) {
            seq![t]
        } else {
            Seq::empty()
        }),
{
    let q = lowercase(query);
    let one = seq![t];
    assert(one.drop_last() =~= Seq::<Tool>::empty());
    assert(one.last() == t);
    assert(search_hits(Seq::<Tool>::empty(), q) == Seq::<Tool>::empty());
    assert(search_hits(one.drop_last(), q) == Seq::<Tool>::empty());
    assert(Seq::<Tool>::empty().push(t) =~= one);
}

/// Searching a list with one more tool gives the hits of the list, then the
/// hits of that tool: the hits keep the order of the tools.
pub proof fn law_search_extend(tools: Seq<Tool>, t: Tool, query: Seq<char>)
    ensures
        search_hits(tools.push(t), lowercase(query))
            == search_hits(tools, lowercase(query)) + search_hits(seq![t], lowercase(query)),
{
    let q = lowercase(query);
    let one = seq![t];
    assert(tools.push(t).drop_last() =~= tools);
    assert(tools.push(t).last() == t);
    assert(one.drop_last() =~= Seq::<Tool>::empty());
    assert(one.last() == t);
    assert(search_hits(Seq::<Tool>::empty(), q) == Seq::<Tool>::empty());
    assert(search_hits(one.drop_last(), q) == Seq::<Tool>::empty());
    if tool_matches(t, q) {
        assert(search_hits(tools, q).push(t) =~= search_hits(tools, q) + seq![t]);
        assert(Seq::<Tool>::empty().push(t) =~= one);
    } else {
        assert(search_hits(tools, q) =~= search_hits(tools, q) + Seq::<Tool>::empty());
    }
}

/// A character that may start a bare variable name: an ASCII letter of
/// either case or `_`.
pub open spec fn bare_name_start(c: char) -> bool {
    ('A' <= c && c <= 'Z') || ('a' <= c && c <= 'z') || c == '_'
}

/// A character that may continue a bare variable name: an ASCII letter, a
/// digit or `_`.
pub open spec fn bare_name_char(c: char) -> bool {
    bare_name_start(c) || ('0' <= c && c <= '9')
}

/// `$NAME`, for a name of the form `[A-Za-z_][A-Za-z0-9_]*` that the
/// environment holds and that nothing of the same form continues, is replaced
/// by the variable's value; the text after it is resolved in turn.
pub proof fn law_resolve_bare_variable(name: Seq<char>, rest: Seq<char>, env: Map<Seq<char>, Seq<char>>)
    requires
        name.len() > 0,
        bare_name_start(name[0]),
        forall|i: int| 0 <= i < name.len() ==> bare_name_char(#[trigger] name[i]),
        rest.len() == 0 || !bare_name_char(rest[0]),
        env.contains_key(name),
    ensures
        resolve_refs(seq!['$'] + name + rest, env) == env[name] + resolve_refs(rest, env),
{
    let s = seq!['$'] + name + rest;
    let t = name + rest;
    let n = name.len() as int;
    assert(s.len() >= 2);
    assert(s[0] == '$');
    assert(s[1] == name[0]);
    assert(s[1] != '{');
    assert(is_name_start(s[1]));
    assert(s.skip(1) =~= t);
    assert forall|j: int| 0 <= j < n implies is_name_char(#[trigger] t[j]) by {
        assert(t[j] == name[j]);
        assert(bare_name_char(name[j]));
    }
    if n < t.len() {
        assert(t[n] == rest[0]);
    }
    lemma_name_run(t, n);
    assert(s.subrange(1, n + 1) =~= name);
    assert(s.skip(n + 1) =~= rest);
}

/// A property object without a text "type" entry is shown as a string:
/// its line is `key:string={value}`, followed by ` // description` when it
/// has a text description, and its parameter type is "string".
pub proof fn law_untyped_property_is_string(key: Seq<char>, p: Seq<(Seq<char>, Json)>, required: Seq<Seq<char>>)
    requires
        as_text(lookup(p, "type"@)) is None,
    ensures
        property_lines(seq![(key, Json::Object(p))]) == Some(seq![key + ":string={value}"@
            + match as_text(lookup(p, "description"@)) { Some(d) => " // "@ + d, None => Seq::empty() }]),
        infos_of(seq![(key, Json::Object(p))], required).len() == 1,
        infos_of(seq![(key, Json::Object(p))], required)[0].param_type == "string"@,
{
    reveal_strlit("string");
    reveal_strlit("number");
    reveal_strlit("integer");
    reveal_strlit("boolean");
    reveal_strlit("array");
    reveal_strlit("object");
    reveal_strlit(":");
    reveal_strlit("={value}");
    reveal_strlit(":string={value}");
    let one = seq![(key, Json::Object(p))];
    let e = Seq::<(Seq<char>, Json)>::empty();
    assert(one.drop_last() =~= e);
    assert(one.last() == (key, Json::Object(p)));
    assert(property_lines(e) == Some(Seq::<Seq<char>>::empty()));
    assert(property_lines(one.drop_last()) == Some(Seq::<Seq<char>>::empty()));
    assert(infos_of(e, required) == Seq::<ParamInfoView>::empty());
    assert(infos_of(one.drop_last(), required) == Seq::<ParamInfoView>::empty());
    assert(property_type(p) == "string"@);
    assert(type_hint_of("string"@) == "string"@);
    assert(key + ":"@ + "string"@ + "={value}"@ =~= key + ":string={value}"@);
    let tail = match property_description(p) { Some(d) => " // "@ + d, None => Seq::<char>::empty() };
    assert(param_line(key, p) == key + ":string={value}"@ + tail);
    assert(Seq::<Seq<char>>::empty().push(param_line(key, p)) =~= seq![param_line(key, p)]);
}

/// A property object with a text "type" is shown with the type hint that
/// `key:type=value` arguments use: "integer" as "int", "boolean" as "bool",
/// "number", "array" and "object" as themselves, and any other type as
/// "string".
pub proof fn law_typed_property_hint(key: Seq<char>, p: Seq<(Seq<char>, Json)>, t: Seq<char>)
    requires
        as_text(lookup(p, "type"@)) == Some(t),
    ensures
        ({
            let hint = if t == "integer"@ { "int"@ } else if t == "boolean"@ { "bool"@ }
                else if t == "number"@ || t == "array"@ || t == "object"@ { t } else { "string"@ };
            property_lines(seq![(key, Json::Object(p))]) == Some(seq![key + ":"@ + hint + "={value}"@
                + match as_text(lookup(p, "description"@)) { Some(d) => " // "@ + d, None => Seq::empty() }])
        }),
{
    reveal_strlit("number");
    reveal_strlit("integer");
    reveal_strlit("boolean");
    reveal_strlit("array");
    reveal_strlit("object");
    assert(property_type(p) == t);
    let one = seq![(key, Json::Object(p))];
    let e = Seq::<(Seq<char>, Json)>::empty();
    assert(one.drop_last() =~= e);
    assert(one.last() == (key, Json::Object(p)));
    assert(property_lines(e) == Some(Seq::<Seq<char>>::empty()));
    assert(property_lines(one.drop_last()) == Some(Seq::<Seq<char>>::empty()));
    assert(Seq::<Seq<char>>::empty().push(param_line(key, p)) =~= seq![param_line(key, p)]);
}

/// An argument written as `key=value`, with a non-empty key that holds
/// neither `=` nor `:`, reads back as that key with the value as text.
pub proof fn law_kv_argument_round_trip(key: Seq<char>, value: Seq<char>)
    requires
        key.len() > 0,
        forall|i: int| 0 <= i < key.len() ==> key[i] != '=' && key[i] != ':',
    ensures
        kv_argument(key + seq!['='] + value) == Ok::<(Seq<char>, Json), Seq<char>>((key, Json::Str(value))),
{
    let arg = key + seq!['='] + value;
    let n = key.len() as int;
    reveal(first_index);
    assert(arg[n] == '=');
    assert forall|j: int| 0 <= j < n implies arg[j] != '=' by {
        assert(arg[j] == key[j]);
    }
    let k = choose|k: int| 0 <= k < arg.len() && arg[k] == '=' && forall|j: int| 0 <= j < k ==> arg[j] != '=';
    assert(k == n) by {
        if k < n {
            assert(arg[k] == key[k]);
        }
    }
    assert(first_index(arg, '=') == Some(n));
    assert(arg.take(n) =~= key);
    assert(arg.skip(n + 1) =~= value);
    assert(first_index(key, ':') is None) by {
        if exists|i: int| 0 <= i < key.len() && key[i] == ':' {
            let i = choose|i: int| 0 <= i < key.len() && key[i] == ':';
            assert(key[i] != ':');
        }
    }
}

/// Each further failed attempt doubles the wait of the one before: the
/// delay after attempt `attempt + 1` is twice the delay after `attempt`.
pub proof fn law_backoff_doubles(base: u64, attempt: nat)
    requires
        attempt >= 1,
    ensures
        base * pow2(attempt) == 2 * (base * pow2((attempt - 1) as nat)),
{
    lemma_pow2_unfold(attempt);
    let p = pow2(attempt);
    let q = pow2((attempt - 1) as nat);
    assert(base * p == 2 * (base * q)) by (nonlinear_arith)
        requires p == 2 * q;
}

/// Every text is taken as it stands under the type "string".
pub proof fn law_string_argument(val: Seq<char>)
    ensures
        converted_value(val, "string"@) == Ok::<Json, Seq<char>>(Json::Str(val)),
{
}

/// Reading one more argument that parses inserts its key and value into the
/// parameters read so far, replacing an earlier value for the same key.
pub proof fn law_later_argument_replaces(args: Seq<Seq<char>>, arg: Seq<char>)
    requires
        kv_parameters(args) is Ok,
        kv_argument(arg) is Ok,
    ensures
        kv_parameters(args.push(arg)) == Ok::<Map<Seq<char>, Json>, Seq<char>>(
            kv_parameters(args)->Ok_0.insert(kv_argument(arg)->Ok_0.0, kv_argument(arg)->Ok_0.1),
        ),
{
    assert(args.push(arg).drop_last() =~= args);
}

/// A text without `$` holds no environment reference and is left as it is.
pub proof fn law_resolve_leaves_plain_text(s: Seq<char>, env: Map<Seq<char>, Seq<char>>)
    requires
        forall|i: int| 0 <= i < s.len() ==> s[i] != '$',
    ensures
        resolve_refs(s, env) == s,
    decreases s.len(),
{
    if s.len() > 0 {
        assert(env_reference(s) is None);
        let t = s.skip(1);
        assert forall|i: int| 0 <= i < t.len() implies t[i] != '$' by {
            assert(t[i] == s[i + 1]);
        }
        law_resolve_leaves_plain_text(t, env);
        assert(seq![s[0]] + t =~= s);
    }
}

/// With no variables known, resolving leaves every text unchanged: an
/// unknown reference stays as written.
pub proof fn law_resolve_without_variables(s: Seq<char>)
    ensures
        resolve_refs(s, Map::empty()) == s,
    decreases s.len(),
{
    if s.len() > 0 {
        match env_reference(s) {
            Some((n, name)) => {
                if 1 <= n <= s.len() {
                    law_resolve_without_variables(s.skip(n));
                    assert(s.take(n) + s.skip(n) =~= s);
                } else {
                    law_resolve_without_variables(s.skip(1));
                    assert(seq![s[0]] + s.skip(1) =~= s);
                }
            },
            None => {
                law_resolve_without_variables(s.skip(1));
                assert(seq![s[0]] + s.skip(1) =~= s);
            },
        }
    }
}

/// A `${NAME}` reference to a known variable is replaced by its value.
pub proof fn law_resolve_braced_variable(name: Seq<char>, value: Seq<char>)
    requires
        name.len() > 0,
        forall|i: int| 0 <= i < name.len() ==> name[i] != '}',
    ensures
        resolve_refs(seq!['$', '{'] + name + seq!['}'], Map::empty().insert(name, value)) == value,
{
    let s = seq!['$', '{'] + name + seq!['}'];
    let u = s.skip(2);
    assert(u =~= name + seq!['}']);
    reveal(first_index);
    assert(u[name.len() as int] == '}');
    let k = choose|k: int| 0 <= k < u.len() && u[k] == '}' && forall|x: int| 0 <= x < k ==> u[x] != '}';
    assert(k == name.len()) by {
        if k < name.len() { assert(u[k] == name[k]); }
        if k > name.len() { assert(u[name.len() as int] == '}'); }
    }
    assert(s.subrange(2, name.len() as int + 2) =~= name);
    assert(first_index(u, '}') == Some(name.len() as int));
    assert(brace_reference(s) == Some((name.len() as int + 3, name)));
    assert(s[0] == '$' && s[1] == '{');
    assert(env_reference(s) == Some((name.len() as int + 3, name)));
    assert(s.skip(name.len() as int + 3) =~= Seq::<char>::empty());
    assert(resolve_refs(Seq::<char>::empty(), Map::empty().insert(name, value)) == Seq::<char>::empty());
    assert(value + Seq::<char>::empty() =~= value);
}

} // verus!
