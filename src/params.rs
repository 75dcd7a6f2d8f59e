use iron::Plugin;
use iron::Request;
use std::collections::HashMap;
use urlencoded::{UrlDecodingError, UrlEncodedQuery};
use vstd::prelude::*;
use vstd::string::*;

verus! {

#[verifier::external_type_specification]
#[verifier::external_body]
pub struct ExUrlDecodingError(UrlDecodingError);

#[verifier::external_type_specification]
#[verifier::external_body]
pub struct ExRequest<'a, 'b: 'a>(Request<'a, 'b>);

/// The query string of a request: absent or empty, decoded into a map from
/// name to values, or malformed.
pub enum Query<'a> {
    Missing,
    Decoded(&'a HashMap<String, Vec<String>>),
    Malformed(UrlDecodingError),
}

/// Relies on urlencoded's `UrlEncodedQuery` plugin, reached through
/// `Plugin::get_ref`: the request's query string decoded into a map from name
/// to values, its `EmptyQuery` error when the request has no query string or
/// an empty one, or another error when the query cannot be decoded.
#[verifier::external_body]
fn decoded_query<'r, 'a, 'b>(req: &'r mut Request<'a, 'b>) -> (r: Query<'r>) {
    match req.get_ref::<UrlEncodedQuery>() {
        Ok(q) => Query::Decoded(q),
        Err(UrlDecodingError::EmptyQuery) => Query::Missing,
        Err(e) => Query::Malformed(e),
    }
}

/// A requested resize. Both dimensions are strictly positive.
#[derive(Debug, PartialEq, Eq, Structural)]
pub struct ImageTransformation {
    pub width: u32,
    pub height: u32,
}

/// The value of a decimal digit character.
pub open spec fn digit_value(c: char) -> int {
    c as int - '0' as int
}

pub open spec fn is_digit(c: char) -> bool {
    '0' <= c && c <= '9'
}

/// The number that a non-empty run of decimal digits denotes.
pub open spec fn digits_value(s: Seq<char>) -> int
    decreases s.len(),
{
    if s.len() == 0 {
        0
    } else {
        digits_value(s.drop_last()) * 10 + digit_value(s.last())
    }
}

pub open spec fn all_digits(s: Seq<char>) -> bool {
    s.len() > 0 && forall|i: int| 0 <= i < s.len() ==> is_digit(#[trigger] s[i])
}

/// The integer that base-10 text denotes: an optional `+` or `-` followed by
/// one or more digits, nothing else.
pub open spec fn decimal_value(s: Seq<char>) -> Option<int> {
    if s.len() > 0 && s[0] == '-' && all_digits(s.drop_first()) {
        Some(-digits_value(s.drop_first()))
    } else if s.len() > 0 && s[0] == '+' && all_digits(s.drop_first()) {
        Some(digits_value(s.drop_first()))
    } else if all_digits(s) {
        Some(digits_value(s))
    } else {
        None
    }
}

/// The `i32` that the text denotes, if it is base-10 text in range.
pub open spec fn parse_i32_spec(s: Seq<char>) -> Option<i32> {
    match decimal_value(s) {
        Some(v) => if i32::MIN <= v <= i32::MAX {
            Some(v as i32)
        } else {
            None
        },
        None => None,
    }
}

/// Relies on `<i32 as FromStr>::from_str`: it accepts an optional sign and one or
/// more decimal digits whose value fits in `i32`, and rejects all else.
#[verifier::external_body]
fn parse_i32(s: &str) -> (r: Option<i32>)
    ensures
        r == parse_i32_spec(s@),
{
    s.parse::<i32>().ok()
}

/// Whether the query has a parameter with this name.
pub open spec fn has_param(q: Map<String, Vec<String>>, name: Seq<char>) -> bool {
    exists|k: String| q.contains_key(k) && k@ == name
}

/// The values of the parameter with this name.
pub open spec fn param_values(q: Map<String, Vec<String>>, name: Seq<char>) -> Seq<String> {
    q[choose|k: String| q.contains_key(k) && k@ == name]@
}

/// Relies on `HashMap::get` with a `&str` key: it finds the entry whose `String`
/// key has the same text, if there is one.
#[verifier::external_body]
fn values_of<'a>(q: &'a HashMap<String, Vec<String>>, name: &str) -> (r: Option<&'a Vec<String>>)
    ensures
        r is Some == has_param(q@, name@),
        r matches Some(v) ==> v@ == param_values(q@, name@),
{
    q.get(name)
}

/// The integer value of a parameter: its first value parsed as base-10 `i32`,
/// or `-1` when it is missing, has no value, or does not parse.
pub open spec fn param_int(q: Map<String, Vec<String>>, name: Seq<char>) -> i32 {
    if has_param(q, name) && param_values(q, name).len() > 0 {
        match parse_i32_spec(param_values(q, name)[0]@) {
            Some(v) => v,
            None => -1i32,
        }
    } else {
        -1i32
    }
}

/// The transformation that a decoded query asks for: present only when both
/// `w` and `h` are strictly positive integers.
pub open spec fn transformation_of(q: Map<String, Vec<String>>) -> Option<(u32, u32)> {
    let w = param_int(q, "w"@);
    let h = param_int(q, "h"@);
    if w > 0 && h > 0 {
        Some((w as u32, h as u32))
    } else {
        None
    }
}

pub open spec fn transformation_view(t: Option<ImageTransformation>) -> Option<(u32, u32)> {
    match t {
        Some(t) => Some((t.width, t.height)),
        None => None,
    }
}

/// The decimal digits of `n`, most significant first, without leading zeros.
pub open spec fn decimal_text(n: nat) -> Seq<char>
    decreases n,
{
    if n < 10 {
        seq![digit_char(n)]
    } else {
        decimal_text(n / 10).push(digit_char(n % 10))
    }
}

pub open spec fn digit_char(d: nat) -> char {
    if d == 0 { '0' } else if d == 1 { '1' } else if d == 2 { '2' } else if d == 3 { '3' }
    else if d == 4 { '4' } else if d == 5 { '5' } else if d == 6 { '6' } else if d == 7 { '7' }
    else if d == 8 { '8' } else { '9' }
}

/// Relies on `<u32 as ToString>::to_string`, which writes the number in base 10
/// with no sign, padding or leading zeros.
#[verifier::external_body]
fn decimal(n: u32) -> (r: String)
    ensures
        r@ == decimal_text(n as nat),
{
    n.to_string()
}

/// The text form of a transformation.
pub open spec fn transformation_text(width: u32, height: u32) -> Seq<char> {
    "[width:"@ + decimal_text(width as nat) + ",height:"@ + decimal_text(height as nat) + "]"@
}

impl ImageTransformation {
    /// The transformation as text, `[width:W,height:H]`.
    pub fn to_text(&self) -> (r: String)
        ensures
            r@ == transformation_text(self.width, self.height),
    {
        let mut r = String::from_str("[width:");
        let w = decimal(self.width);
        r.append(w.as_str());
        r.append(",height:");
        let h = decimal(self.height);
        r.append(h.as_str());
        r.append("]");
        proof {
            assert(r@ =~= transformation_text(self.width, self.height));
        }
        r
    }

    /// Reads the transformation from the query string of a request: none
    /// without a query string, the decoding error for a malformed one. Whatever
    /// the query holds, a transformation that comes back has positive
    /// dimensions.
    pub fn from_request(req: &mut Request) -> (r: Result<Option<ImageTransformation>, UrlDecodingError>)
        ensures
            r matches Ok(Some(t)) ==> t.width > 0 && t.height > 0,
    {
        from_query(decoded_query(req))
    }
}

/// Reads the transformation from a request's query: none when there is no
/// query string, the decoding error when it is malformed, and otherwise what
/// the decoded parameters ask for.
pub fn from_query(query: Query) -> (r: Result<Option<ImageTransformation>, UrlDecodingError>)
    ensures
        match query {
            Query::Missing => r == Ok::<Option<ImageTransformation>, UrlDecodingError>(None),
            Query::Decoded(q) => r matches Ok(t) && transformation_view(t) == transformation_of(q@),
            Query::Malformed(e) => r == Err::<Option<ImageTransformation>, UrlDecodingError>(e),
        },
{
    match query {
        Query::Missing => Ok(None),
        Query::Decoded(q) => from_params(Ok(q)),
        Query::Malformed(e) => Err(e),
    }
}

/// Reads the transformation from a decoded query. A decoding error is handed
/// back unchanged; missing or invalid dimensions mean no transformation.
pub fn from_params(params: Result<&HashMap<String, Vec<String>>, UrlDecodingError>) -> (r: Result<
    Option<ImageTransformation>,
    UrlDecodingError,
>)
    ensures
        match params {
            Ok(q) => r matches Ok(t) && transformation_view(t) == transformation_of(q@),
            Err(e) => r == Err::<Option<ImageTransformation>, UrlDecodingError>(e),
        },
{
    match params {
        Ok(q) => {
            let width = int_param(q, "w");
            let height = int_param(q, "h");
            if width > 0 && height > 0 {
                Ok(Some(ImageTransformation { width: width as u32, height: height as u32 }))
            } else {
                Ok(None)
            }
        },
        Err(e) => Err(e),
    }
}

/// The first value of the parameter `param` as an `i32`, or `-1`.
pub fn int_param(params: &HashMap<String, Vec<String>>, param: &str) -> (r: i32)
    ensures
        r == param_int(params@, param@),
{
    match values_of(params, param) {
        Some(vals) => {
            if vals.len() > 0 {
                match parse_i32(vals[0].as_str()) {
                    Some(v) => v,
                    None => -1,
                }
            } else {
                -1
            }
        },
        None => -1,
    }
}

/// The first value of a parameter parsed as `i32`, if the parameter is present,
/// has a value, and that value parses.
pub open spec fn first_int(q: Map<String, Vec<String>>, name: Seq<char>) -> Option<i32> {
    if has_param(q, name) && param_values(q, name).len() > 0 {
        parse_i32_spec(param_values(q, name)[0]@)
    } else {
        None
    }
}

/// When `w` or `h` is missing, not numeric, zero or negative, the query asks
/// for no transformation.
pub proof fn lemma_invalid_dimension_means_none(q: Map<String, Vec<String>>)
    requires
        !(first_int(q, "w"@) matches Some(w) && w > 0) || !(first_int(q, "h"@) matches Some(h)
            && h > 0),
    ensures
        transformation_of(q) is None,
{
}

/// When both `w` and `h` parse to positive integers, the transformation has
/// exactly those dimensions.
pub proof fn lemma_valid_dimensions_kept(q: Map<String, Vec<String>>, w: i32, h: i32)
    requires
        first_int(q, "w"@) == Some(w),
        first_int(q, "h"@) == Some(h),
        w > 0,
        h > 0,
    ensures
        transformation_of(q) == Some((w as u32, h as u32)),
        w as u32 as int == w as int,
        h as u32 as int == h as int,
{
}

} // verus!
