//! What an answer of the API means: the classification of its status line,
//! its headers and the errors that it reports in its body.

use crate::artifacts::{index_of, listing, Artifact, Artifacts};
use crate::text::{bytes_eq, str_eq};
use crate::time::Duration;
use vstd::prelude::*;
use vstd::string::*;

verus! {

/// `http::HeaderMap`, the headers of an answer as the transport hands them
/// over. What it holds is known through `header_values` alone.
#[verifier::external_type_specification]
#[verifier::external_body]
#[verifier::reject_recursive_types(T)]
pub struct ExHeaderMap<T>(http::HeaderMap<T>);

/// `http::HeaderValue`, the value of one header: nothing is known of it but
/// the bytes that `first_header_value` reads.
#[verifier::external_type_specification]
#[verifier::external_body]
pub struct ExHeaderValue(http::HeaderValue);

/// What a map of headers holds: for each header name that has a value, in
/// lower case as the map keeps its names, the bytes of its first value.
pub uninterp spec fn header_values(headers: http::HeaderMap) -> Map<Seq<char>, Seq<u8>>;

/// Whether `name` is made of lower-case letters, digits and hyphens alone,
/// and of at least one: a header name that a map of headers keeps as it is.
pub open spec fn is_plain_header_name(name: Seq<char>) -> bool {
    &&& name.len() > 0
    &&& forall|i: int|
        0 <= i < name.len() ==> {
            let c = #[trigger] name[i];
            'a' <= c <= 'z' || '0' <= c <= '9' || c == '-'
        }
}

/// The first value of the header `name`, where the headers hold one.
pub open spec fn header_value(headers: Map<Seq<char>, Seq<u8>>, name: Seq<char>) -> Option<
    Seq<u8>,
> {
    if headers.dom().contains(name) {
        Some(headers[name])
    } else {
        None
    }
}

/// The bytes of an optional byte string.
pub open spec fn option_bytes(value: Option<Vec<u8>>) -> Option<Seq<u8>> {
    match value {
        Some(bytes) => Some(bytes@),
        None => None,
    }
}

/// `http::HeaderMap::get` with a name given as text, and `as_bytes` of the
/// value found: the first value that the map holds under the name, where it
/// holds one. The map finds a name whatever its case; the contract speaks of
/// names that are in lower case already.
#[verifier::external_body]
fn first_header_value(headers: &http::HeaderMap, name: &str) -> (value: Option<Vec<u8>>)
    ensures
        is_plain_header_name(name@) ==> option_bytes(value) == header_value(
            header_values(*headers),
            name@,
        ),
{
    headers.get(name).map(|value| value.as_bytes().to_vec())
}

/// Whether every byte is an ASCII decimal digit.
pub open spec fn is_digits(bytes: Seq<u8>) -> bool {
    forall|i: int| 0 <= i < bytes.len() ==> 0x30 <= #[trigger] bytes[i] <= 0x39
}

/// The number that decimal digits spell.
pub open spec fn decimal_value(digits: Seq<u8>) -> nat
    decreases digits.len(),
{
    if digits.len() == 0 {
        0
    } else {
        (decimal_value(digits.drop_last()) * 10 + (digits.last() - 0x30)) as nat
    }
}

/// The bytes without the plus sign that may stand in front of them.
pub open spec fn unsigned_part(bytes: Seq<u8>) -> Seq<u8> {
    if bytes.len() > 0 && bytes[0] == 0x2b {
        bytes.drop_first()
    } else {
        bytes
    }
}

/// The count of seconds that `bytes` spell: decimal digits, at least one,
/// with at most a plus sign in front, and a value that 64 bits hold.
pub open spec fn parsed_seconds(bytes: Seq<u8>) -> Option<u64> {
    let digits = unsigned_part(bytes);
    if digits.len() > 0 && is_digits(digits) && decimal_value(digits) <= u64::MAX {
        Some(decimal_value(digits) as u64)
    } else {
        None
    }
}

/// Digits added at the end never make the number smaller.
proof fn lemma_decimal_value_grows(digits: Seq<u8>, n: int)
    requires
        is_digits(digits),
        0 <= n <= digits.len(),
    ensures
        decimal_value(digits.take(n)) <= decimal_value(digits),
    decreases digits.len() - n,
{
    if n < digits.len() {
        lemma_decimal_value_grows(digits, n + 1);
        assert(digits.take(n + 1).drop_last() =~= digits.take(n));
        assert(digits.take(n + 1).last() == digits[n]);
    } else {
        assert(digits.take(n) =~= digits);
    }
}

/// Reads a count of seconds as `parsed_seconds` describes it.
pub fn parse_seconds(bytes: &[u8]) -> (secs: Option<u64>)
    ensures
        secs == parsed_seconds(bytes@),
{
    let start: usize = if bytes.len() > 0 && bytes[0] == 0x2b {
        1
    } else {
        0
    };
    let ghost digits = unsigned_part(bytes@);
    proof {
        assert(digits =~= bytes@.subrange(start as int, bytes.len() as int));
    }
    if start == bytes.len() {
        return None;
    }
    let mut value: u64 = 0;
    let mut i: usize = start;
    while i < bytes.len()
        invariant
            start <= i <= bytes.len(),
            digits == unsigned_part(bytes@),
            digits == bytes@.subrange(start as int, bytes.len() as int),
            is_digits(digits.take(i - start)),
            value == decimal_value(digits.take(i - start)),
        decreases bytes.len() - i,
    {
        let byte = bytes[i];
        let ghost next = digits.take(i - start + 1);
        proof {
            assert(next.drop_last() =~= digits.take(i - start));
            assert(next.last() == byte);
        }
        if byte < 0x30 || byte > 0x39 {
            proof {
                assert(digits[i - start] == byte);
            }
            return None;
        }
        let digit: u64 = (byte - 0x30) as u64;
        let grown = match value.checked_mul(10) {
            Some(tens) => tens.checked_add(digit),
            None => None,
        };
        match grown {
            Some(sum) => {
                value = sum;
            },
            None => {
                proof {
                    assert(decimal_value(next) > u64::MAX);
                    if is_digits(digits) {
                        lemma_decimal_value_grows(digits, i - start + 1);
                    }
                }
                return None;
            },
        }
        i += 1;
    }
    proof {
        assert(digits.take(i - start) =~= digits);
    }
    Some(value)
}

/// What the API answered, where the answer is no transport failure.
#[derive(Debug)]
pub enum GhApiRet<T> {
    /// The quota of requests is used up. `retry_after` is the span after
    /// which the API says it will answer again, where it says so.
    ReachedRateLimit { retry_after: Option<Duration> },
    /// What was asked for does not exist.
    NotFound,
    /// The answer.
    Success(T),
    /// The credential was refused.
    Unauthorized,
}

/// The name of the header that holds how many requests are left.
pub open spec fn remaining_header() -> Seq<char> {
    "x-ratelimit-remaining"@
}

/// The name of the header that holds after how many seconds requests are
/// taken again.
pub open spec fn reset_header() -> Seq<char> {
    "x-ratelimit-reset"@
}

/// The bytes that spell `0`, the count of requests that are left once the
/// quota is used up.
pub open spec fn no_request_left() -> Seq<u8> {
    seq![0x30u8]
}

/// What the status of an answer decides by itself, if anything, given the
/// values of the headers `x-ratelimit-remaining` and `x-ratelimit-reset` where
/// the answer has them.
///
/// 403 with no request left is a reached rate limit, with the span that the
/// reset header spells where it spells a count of seconds; 401 is a refused
/// credential; 404 is a missing resource. Every other answer has to be read.
pub open spec fn outcome_of_status<T>(
    status: u16,
    remaining: Option<Seq<u8>>,
    reset: Option<Seq<u8>>,
) -> Option<GhApiRet<T>> {
    if status == 403 && remaining == Some(no_request_left()) {
        Some(
            GhApiRet::ReachedRateLimit {
                retry_after: match reset {
                    Some(bytes) => match parsed_seconds(bytes) {
                        Some(secs) => Some(Duration { secs }),
                        None => None,
                    },
                    None => None,
                },
            },
        )
    } else if status == 401 {
        Some(GhApiRet::Unauthorized)
    } else if status == 404 {
        Some(GhApiRet::NotFound)
    } else {
        None
    }
}

/// What the status of an answer with the headers `headers` decides by
/// itself, if anything.
pub open spec fn status_outcome<T>(status: u16, headers: Map<Seq<char>, Seq<u8>>) -> Option<
    GhApiRet<T>,
> {
    outcome_of_status(
        status,
        header_value(headers, remaining_header()),
        header_value(headers, reset_header()),
    )
}

proof fn lemma_header_names_are_plain()
    ensures
        is_plain_header_name(remaining_header()),
        is_plain_header_name(reset_header()),
{
    reveal_strlit("x-ratelimit-remaining");
    reveal_strlit("x-ratelimit-reset");
}

/// Classifies an answer by its status code and the values of the two headers
/// that tell of the rate limit.
pub fn classify_status<T>(
    status: u16,
    remaining: &Option<Vec<u8>>,
    reset: &Option<Vec<u8>>,
) -> (outcome: Option<GhApiRet<T>>)
    ensures
        outcome == outcome_of_status::<T>(status, option_bytes(*remaining), option_bytes(*reset)),
{
    if status == 403 {
        let limited = match remaining {
            Some(left) => {
                let zero: [u8; 1] = [0x30];
                proof {
                    assert(zero@ =~= no_request_left());
                }
                bytes_eq(left.as_slice(), zero.as_slice())
            },
            None => false,
        };
        if limited {
            let retry_after = match reset {
                Some(bytes) => match parse_seconds(bytes.as_slice()) {
                    Some(secs) => Some(Duration::from_secs(secs)),
                    None => None,
                },
                None => None,
            };
            return Some(GhApiRet::ReachedRateLimit { retry_after });
        }
    }
    if status == 401 {
        Some(GhApiRet::Unauthorized)
    } else if status == 404 {
        Some(GhApiRet::NotFound)
    } else {
        None
    }
}

/// Classifies an answer by its status code and its headers, where these
/// decide by themselves.
pub fn check_for_status<T>(status: u16, headers: &http::HeaderMap) -> (outcome: Option<GhApiRet<T>>)
    ensures
        outcome == status_outcome::<T>(status, header_values(*headers)),
{
    proof {
        lemma_header_names_are_plain();
    }
    let remaining = first_header_value(headers, "x-ratelimit-remaining");
    let reset = first_header_value(headers, "x-ratelimit-reset");
    classify_status(status, &remaining, &reset)
}

/// What is to be done with an answer once its status and headers are there.
#[derive(Debug)]
pub enum Head<T> {
    /// The status has decided: this is the outcome.
    Outcome(GhApiRet<T>),
    /// The status reports no success and decides nothing: the request has
    /// failed.
    Failed,
    /// The status reports success: the body has to be read.
    ReadBody,
}

/// Whether a status code reports success.
pub open spec fn is_success(status: u16) -> bool {
    200 <= status < 300
}

/// What is to be done with an answer that has the status `status` and the
/// headers `headers`.
pub open spec fn head_of<T>(status: u16, headers: Map<Seq<char>, Seq<u8>>) -> Head<T> {
    match status_outcome::<T>(status, headers) {
        Some(outcome) => Head::Outcome(outcome),
        None => if is_success(status) {
            Head::ReadBody
        } else {
            Head::Failed
        },
    }
}

/// Says what is to be done with an answer once its status and headers are
/// there: a reached rate limit, a refused credential and a missing resource
/// are outcomes; any other status that reports no success is a failure; and
/// the body of every other answer is to be read.
pub fn classify_head<T>(status: u16, headers: &http::HeaderMap) -> (head: Head<T>)
    ensures
        head == head_of::<T>(status, header_values(*headers)),
{
    match check_for_status(status, headers) {
        Some(outcome) => Head::Outcome(outcome),
        None => if 200 <= status && status < 300 {
            Head::ReadBody
        } else {
            Head::Failed
        },
    }
}

/// The kind of an error that the API reports in the body of its answer.
#[derive(Debug)]
pub enum GraphQLErrorType {
    /// The account has used up its quota of requests.
    RateLimited,
    /// Any other kind, under the name that the API gave it.
    Other(String),
}

/// The name under which the API reports a used-up quota.
pub open spec fn rate_limited_name() -> Seq<char> {
    "RATE_LIMITED"@
}

impl GraphQLErrorType {
    /// The kind that the API names `name`.
    pub fn from_name(name: &str) -> (kind: Self)
        ensures
            name@ == rate_limited_name() ==> kind is RateLimited,
            name@ != rate_limited_name() ==> (kind matches GraphQLErrorType::Other(other)
                && other@ == name@),
    {
        if str_eq(name, "RATE_LIMITED") {
            GraphQLErrorType::RateLimited
        } else {
            GraphQLErrorType::Other(String::from_str(name))
        }
    }
}

/// One error that the API reports in the body of its answer.
#[derive(Debug)]
pub struct GraphQLError {
    pub message: String,
    pub error_type: GraphQLErrorType,
}

/// The errors that the API reports in the body of one answer.
#[derive(Debug)]
pub struct GhGraphQLErrors {
    pub errors: Vec<GraphQLError>,
}

/// Whether one of the errors says that the quota of requests is used up.
pub open spec fn reports_rate_limit(errors: Seq<GraphQLError>) -> bool {
    exists|i: int| 0 <= i < errors.len() && (#[trigger] errors[i]).error_type is RateLimited
}

impl GhGraphQLErrors {
    /// Whether one of the errors says that the quota of requests is used up.
    pub fn is_rate_limited(&self) -> (limited: bool)
        ensures
            limited == reports_rate_limit(self.errors@),
    {
        let mut i: usize = 0;
        while i < self.errors.len()
            invariant
                i <= self.errors.len(),
                forall|j: int| 0 <= j < i ==> !((#[trigger] self.errors@[j]).error_type
                    is RateLimited),
            decreases self.errors.len() - i,
        {
            match &self.errors[i].error_type {
                GraphQLErrorType::RateLimited => {
                    return true;
                },
                GraphQLErrorType::Other(_) => {},
            }
            i += 1;
        }
        false
    }
}

/// Why no answer of the API could be had or read.
#[derive(Debug)]
pub enum GhApiError {
    /// The request failed on its way, the answer had an unexpected status, or
    /// its body could not be read. The text says what the transport reported.
    Transport(String),
    /// The API answered with errors that are no reached rate limit.
    GraphQLErrors(GhGraphQLErrors),
}

/// The body of an answer to a GraphQL query: the data asked for, or errors.
#[derive(Debug)]
pub enum GraphQLResponse<T> {
    Data(T),
    Errors(GhGraphQLErrors),
}

/// What a GraphQL query gave: the data, or an outcome that needs no data.
#[derive(Debug)]
pub enum GraphQLResult<T, U> {
    Data(T),
    Else(GhApiRet<U>),
}

/// What the body of an answer means: data is handed on, errors that report a
/// used-up quota are a reached rate limit without a span, and any other
/// errors are a failure.
pub open spec fn body_outcome<T, U>(response: GraphQLResponse<T>) -> Result<
    GraphQLResult<T, U>,
    GhApiError,
> {
    match response {
        GraphQLResponse::Data(data) => Ok(GraphQLResult::Data(data)),
        GraphQLResponse::Errors(errors) => if reports_rate_limit(errors.errors@) {
            Ok(GraphQLResult::Else(GhApiRet::ReachedRateLimit { retry_after: None }))
        } else {
            Err(GhApiError::GraphQLErrors(errors))
        },
    }
}

impl<T> GraphQLResponse<T> {
    /// Classifies the body of an answer whose status decided nothing.
    pub fn into_result<U>(self) -> (result: Result<GraphQLResult<T, U>, GhApiError>)
        ensures
            result == body_outcome::<T, U>(self),
    {
        match self {
            GraphQLResponse::Data(data) => Ok(GraphQLResult::Data(data)),
            GraphQLResponse::Errors(errors) => {
                if errors.is_rate_limited() {
                    Ok(GraphQLResult::Else(GhApiRet::ReachedRateLimit { retry_after: None }))
                } else {
                    Err(GhApiError::GraphQLErrors(errors))
                }
            },
        }
    }
}

/// The address to which GraphQL queries are sent.
pub fn get_graphql_endpoint() -> (endpoint: &'static str)
    ensures
        endpoint@ == "https://api.github.com/graphql"@,
{
    "https://api.github.com/graphql"
}

/// What a query for the artifacts of a release gave: the index of the
/// artifacts listed, or the outcome that came in place of a list.
pub fn release_artifacts(result: GraphQLResult<Vec<Artifact>, Artifacts>) -> (outcome: GhApiRet<
    Artifacts,
>)
    ensures
        match result {
            GraphQLResult::Data(listed) => outcome matches GhApiRet::Success(index) && index@
                == index_of(listing(listed@)),
            GraphQLResult::Else(other) => outcome == other,
        },
{
    match result {
        GraphQLResult::Data(listed) => GhApiRet::Success(Artifacts::new(listed)),
        GraphQLResult::Else(other) => other,
    }
}

} // verus!
