use crate::request_sender::pairs_text;
use crate::text::{decimal, decimal_string};
use vstd::prelude::*;
use vstd::string::*;

verus! {

/// The parameters `params` followed by the pair of `key` and `value`.
pub fn with_param(params: Vec<(String, String)>, key: &str, value: String) -> (extended: Vec<
    (String, String),
>)
    ensures
        pairs_text(extended@) == pairs_text(params@).push((key@, value@)),
{
    let mut extended = params;
    extended.push((String::from_str(key), value));
    assert(pairs_text(extended@) =~= pairs_text(params@).push((key@, value@)));
    extended
}

/// The rule of the page size.
///
/// A size from 1 to `largest` adds the parameter `page[size]` with the size
/// as a decimal numeral. Any other size adds nothing: the request stays as
/// it was and can still be sent.
pub open spec fn page_size_rule(
    params: Seq<(Seq<char>, Seq<char>)>,
    page_size: int,
    largest: nat,
) -> Seq<(Seq<char>, Seq<char>)> {
    if 1 <= page_size <= largest {
        params.push(("page[size]"@, decimal(page_size as nat)))
    } else {
        params
    }
}

/// Applies the rule of the page size to `params`, for an endpoint whose
/// largest page has `largest` items.
pub fn with_page_size(params: Vec<(String, String)>, page_size: i32, largest: u32) -> (extended:
    Vec<(String, String)>)
    ensures
        pairs_text(extended@) == page_size_rule(
            pairs_text(params@),
            page_size as int,
            largest as nat,
        ),
{
    if page_size > 0 && page_size as u32 <= largest {
        with_param(params, "page[size]", decimal_string(page_size as u32))
    } else {
        params
    }
}

/// Warnings as text, in the order in which they were recorded.
pub open spec fn texts(warnings: Seq<String>) -> Seq<Seq<char>> {
    warnings.map_values(|warning: String| warning@)
}

/// What is said of a page size that an endpoint does not take.
pub open spec fn page_size_warning(largest: nat) -> Seq<char> {
    "Page size has to be between 1 and "@ + decimal(largest) + "."@
}

/// The warnings after a page size was asked for: one more where the size
/// was dropped, and the same where it was taken.
pub open spec fn page_size_warnings(
    warnings: Seq<Seq<char>>,
    page_size: int,
    largest: nat,
) -> Seq<Seq<char>> {
    if 1 <= page_size <= largest {
        warnings
    } else {
        warnings.push(page_size_warning(largest))
    }
}

/// Records the warning for a page size that is dropped. Asking for a size
/// that the endpoint does not take is no failure: the caller can read what
/// was dropped, and why, from the warnings.
pub fn note_page_size(warnings: Vec<String>, page_size: i32, largest: u32) -> (noted: Vec<String>)
    ensures
        texts(noted@) == page_size_warnings(texts(warnings@), page_size as int, largest as nat),
{
    if page_size > 0 && page_size as u32 <= largest {
        warnings
    } else {
        let mut warning = String::from_str("Page size has to be between 1 and ");
        warning.append(decimal_string(largest).as_str());
        warning.append(".");
        let mut noted = warnings;
        noted.push(warning);
        assert(texts(noted@) =~= texts(warnings@).push(page_size_warning(largest as nat)));
        noted
    }
}

/// How a plain GET came out, before its body is looked at.
#[derive(Debug, Clone, Copy, PartialEq, Eq)]
pub enum Arrival {
    /// A response arrived, with this status.
    Status(u16),
    /// The transport failed; `status` is the HTTP status that the failure
    /// carries, where it carries one.
    Failed { status: Option<u16> },
}

/// The status to fail with where a plain GET is not to be decoded: the
/// status of a response that is not 200, the status that a transport failure
/// carries, and 400 for a transport failure that carries none. A response
/// with status 200 goes on to be decoded.
pub open spec fn refusal_of(arrival: Arrival) -> Option<u16> {
    match arrival {
        Arrival::Status(status) => if status == 200 {
            None
        } else {
            Some(status)
        },
        Arrival::Failed { status: Some(status) } => Some(status),
        Arrival::Failed { status: None } => Some(400u16),
    }
}

/// Decides whether a plain GET ends before decoding, and with which status.
pub fn refusal(arrival: Arrival) -> (status: Option<u16>)
    ensures
        status == refusal_of(arrival),
{
    match arrival {
        Arrival::Status(status) => if status == 200 {
            None
        } else {
            Some(status)
        },
        Arrival::Failed { status: Some(status) } => Some(status),
        Arrival::Failed { status: None } => Some(400),
    }
}

/// The result of a plain GET whose body went to the decoder: the decoded
/// value, or status 400 where the body could not be decoded.
pub fn build<T>(content: Result<T, String>) -> (built: Result<T, u16>)
    ensures
        built == match content {
            Ok(value) => Ok::<T, u16>(value),
            Err(_) => Err::<T, u16>(400u16),
        },
{
    match content {
        Ok(value) => Ok(value),
        Err(_) => Err(400),
    }
}

} // verus!
