//! The query of a list call, built from the raw texts of the command line.

use vstd::prelude::*;
use vstd::string::*;
use crate::json::{decode_value, json_text, json_value, string_of};
use crate::state::{state_from_wire_name, state_named, State};
use crate::task::text_of;

verus! {

/// The largest page size that a request can carry.
pub const MAX_PAGE_SIZE: u32 = 2147483647;

/// The filters and the paging of one list call. An absent field puts no
/// condition on the tasks. The two tag filters are carried for the request's
/// shape and are never set.
#[derive(Clone, Debug, PartialEq, Eq)]
pub struct ListQuery {
    pub name_prefix: Option<String>,
    pub state: Option<State>,
    pub tag_key: Option<Vec<String>>,
    pub tag_value: Option<Vec<String>>,
    pub page_size: Option<u32>,
    pub page_token: Option<String>,
    pub view: Option<String>,
}

/// Why no query could be built.
#[derive(Clone, Copy, Debug, PartialEq, Eq, Structural)]
pub enum QueryError {
    /// The state filter names no state.
    InvalidFilter,
    /// The page size is no non-negative integer that a request can carry.
    InvalidPagination,
}

impl ListQuery {
    /// The query that filters nothing and leaves the paging to the backend.
    pub open spec fn unfiltered(&self) -> bool {
        &&& self.name_prefix is None
        &&& self.state is None
        &&& self.tag_key is None
        &&& self.tag_value is None
        &&& self.page_size is None
        &&& self.page_token is None
        &&& self.view is None
    }

    /// Whether no field of the query is set.
    pub fn is_unfiltered(&self) -> (unset: bool)
        ensures
            unset == self.unfiltered(),
    {
        self.name_prefix.is_none() && self.state.is_none() && self.tag_key.is_none()
            && self.tag_value.is_none() && self.page_size.is_none() && self.page_token.is_none()
            && self.view.is_none()
    }
}

/// Whether the character is one of the ten decimal digits.
pub open spec fn is_digit(c: char) -> bool {
    48 <= c as u32 && c as u32 <= 57
}

/// The number that a digit stands for; 0 for any other character.
pub open spec fn digit_value(c: char) -> nat {
    if is_digit(c) {
        (c as u32 - 48) as nat
    } else {
        0
    }
}

/// Whether the text holds decimal digits only.
pub open spec fn all_digits(text: Seq<char>) -> bool {
    forall|i: int| 0 <= i < text.len() ==> is_digit(#[trigger] text[i])
}

/// The number that a text of decimal digits writes, most significant digit
/// first.
pub open spec fn decimal_value(text: Seq<char>) -> nat
    decreases text.len(),
{
    if text.len() == 0 {
        0
    } else {
        decimal_value(text.drop_last()) * 10 + digit_value(text.last())
    }
}

/// Whether the text starts with a plus or a minus sign.
pub open spec fn has_sign(text: Seq<char>) -> bool {
    text.len() > 0 && (text[0] == '+' || text[0] == '-')
}

/// The text without its sign.
pub open spec fn unsigned_part(text: Seq<char>) -> Seq<char> {
    if has_sign(text) {
        text.subrange(1, text.len() as int)
    } else {
        text
    }
}

/// The page size that a text writes: an optional sign, then one decimal
/// digit or more, with a value that is not negative and not above
/// `MAX_PAGE_SIZE`. Under a minus sign only zero is such a value.
pub open spec fn page_size_of(text: Seq<char>) -> Option<u32> {
    let digits = unsigned_part(text);
    if digits.len() == 0 || !all_digits(digits) {
        None
    } else if text[0] == '-' {
        if decimal_value(digits) == 0 {
            Some(0u32)
        } else {
            None
        }
    } else if decimal_value(digits) <= MAX_PAGE_SIZE {
        Some(decimal_value(digits) as u32)
    } else {
        None
    }
}

/// The value of a text is at least the value of each of its prefixes.
pub proof fn lemma_decimal_value_grows(text: Seq<char>, k: int)
    requires
        0 <= k <= text.len(),
    ensures
        decimal_value(text.take(k)) <= decimal_value(text),
    decreases text.len(),
{
    if k == text.len() {
        assert(text.take(k) =~= text);
    } else {
        assert(text.drop_last().take(k) =~= text.take(k));
        lemma_decimal_value_grows(text.drop_last(), k);
    }
}

/// Reads a page size from its text.
pub fn parse_page_size(text: &str) -> (size: Option<u32>)
    ensures
        size == page_size_of(text@),
{
    let n: usize = text.unicode_len();
    if n == 0 {
        return None;
    }
    let first: char = text.get_char(0);
    let negative: bool = first == '-';
    let start: usize = if first == '+' || first == '-' {
        1
    } else {
        0
    };
    let ghost digits: Seq<char> = unsigned_part(text@);
    if start == n {
        return None;
    }
    proof {
        assert(digits =~= text@.subrange(start as int, n as int));
    }
    let mut value: u64 = 0;
    let mut i: usize = start;
    proof {
        assert(digits.take(0) =~= Seq::<char>::empty());
    }
    while i < n
        invariant
            start <= i <= n,
            n == text@.len(),
            digits == unsigned_part(text@),
            digits == text@.subrange(start as int, n as int),
            digits.len() == n - start,
            all_digits(digits.take(i - start)),
            value == decimal_value(digits.take(i - start)),
            value <= MAX_PAGE_SIZE,
        decreases n - i,
    {
        let c: char = text.get_char(i);
        let code: u32 = c as u32;
        if code < 48 || code > 57 {
            proof {
                assert(digits[i - start] == c);
                assert(!is_digit(digits[i - start]));
            }
            return None;
        }
        let ghost before: Seq<char> = digits.take(i - start);
        let ghost after: Seq<char> = digits.take(i + 1 - start);
        proof {
            assert(after.drop_last() =~= before);
            assert(after.last() == c);
            assert forall|j: int| 0 <= j < after.len() implies is_digit(#[trigger] after[j]) by {
                if j < before.len() {
                    assert(after[j] == before[j]);
                }
            }
        }
        value = value * 10 + (code - 48) as u64;
        if value > MAX_PAGE_SIZE as u64 {
            proof {
                lemma_decimal_value_grows(digits, i + 1 - start);
            }
            return None;
        }
        i = i + 1;
    }
    proof {
        assert(digits.take(n - start) =~= digits);
    }
    if negative {
        if value == 0 {
            Some(0)
        } else {
            None
        }
    } else {
        Some(value as u32)
    }
}

/// The text of a filter that is written as one JSON string; nothing where
/// the filter is no JSON or another kind of JSON value.
pub open spec fn json_string_value(text: Seq<char>) -> Option<Seq<char>> {
    match json_value(text) {
        Some(value) => json_text(value),
        None => None,
    }
}

/// Decodes a filter that is written as one JSON string.
fn decode_json_string(text: &str) -> (decoded: Option<String>)
    ensures
        text_of(decoded) == json_string_value(text@),
{
    match decode_value(text) {
        Some(value) => match string_of(&value) {
            Some(found) => Some(String::from_str(found)),
            None => None,
        },
        None => None,
    }
}

/// The state that a decoded filter names: none where nothing was decoded or
/// the name is no state's wire name.
pub open spec fn state_filter_of(decoded: Option<Seq<char>>) -> Option<State> {
    match decoded {
        Some(name) => state_named(name),
        None => None,
    }
}

/// Finds the state for a decoded filter.
pub fn state_from_decoded(decoded: &Option<String>) -> (state: Option<State>)
    ensures
        state == state_filter_of(text_of(*decoded)),
{
    match decoded {
        Some(name) => state_from_wire_name(name.as_str()),
        None => None,
    }
}

/// The decoded form of an optional raw state filter: absent where the filter
/// is; else what the JSON decoder made of it.
pub open spec fn decoded_filter(state: Option<String>) -> Option<Option<Seq<char>>> {
    match state {
        Some(raw) => Some(json_string_value(raw@)),
        None => None,
    }
}

/// The query for the given inputs, with the state filter already decoded.
/// A state filter that names no state is refused first, then a page size that
/// is none. Otherwise every input stands in its field, and the tag filters
/// are unset.
pub open spec fn list_query_of(
    name_prefix: Option<String>,
    state_name: Option<Option<Seq<char>>>,
    page_size: Option<Seq<char>>,
    page_token: Option<String>,
    view: Option<String>,
) -> Result<ListQuery, QueryError> {
    if state_name is Some && state_filter_of(state_name->0) is None {
        Err(QueryError::InvalidFilter)
    } else if page_size is Some && page_size_of(page_size->0) is None {
        Err(QueryError::InvalidPagination)
    } else {
        Ok(
            ListQuery {
                name_prefix,
                state: if state_name is Some {
                    state_filter_of(state_name->0)
                } else {
                    None
                },
                tag_key: None,
                tag_value: None,
                page_size: if page_size is Some {
                    page_size_of(page_size->0)
                } else {
                    None
                },
                page_token,
                view,
            },
        )
    }
}

/// With every input absent the query is the unfiltered one. A page size that
/// is no usable number always fails the build: with `InvalidPagination`,
/// unless a state filter was refused before it.
pub proof fn lemma_list_query_of(
    name_prefix: Option<String>,
    state_name: Option<Option<Seq<char>>>,
    page_size: Option<Seq<char>>,
    page_token: Option<String>,
    view: Option<String>,
)
    ensures
        name_prefix is None && state_name is None && page_size is None && page_token is None
            && view is None ==> list_query_of(name_prefix, state_name, page_size, page_token, view)
            is Ok && list_query_of(
            name_prefix,
            state_name,
            page_size,
            page_token,
            view,
        )->Ok_0.unfiltered(),
        page_size is Some && page_size_of(page_size->0) is None ==> list_query_of(
            name_prefix,
            state_name,
            page_size,
            page_token,
            view,
        ) is Err,
        page_size is Some && page_size_of(page_size->0) is None && state_name is None
            ==> list_query_of(name_prefix, state_name, page_size, page_token, view) == Err::<
            ListQuery,
            QueryError,
        >(QueryError::InvalidPagination),
{
}

/// Builds the query from inputs whose state filter has been decoded:
/// `state_name` is absent where no filter was given, and holds what the
/// decoder returned where one was.
pub fn assemble_list_query(
    name_prefix: Option<String>,
    state_name: Option<Option<String>>,
    page_size: Option<String>,
    page_token: Option<String>,
    view: Option<String>,
) -> (query: Result<ListQuery, QueryError>)
    ensures
        query == list_query_of(
            name_prefix,
            match state_name {
                Some(decoded) => Some(text_of(decoded)),
                None => None,
            },
            text_of(page_size),
            page_token,
            view,
        ),
{
    let state: Option<State> = match &state_name {
        Some(decoded) => {
            let found: Option<State> = state_from_decoded(decoded);
            if found.is_none() {
                return Err(QueryError::InvalidFilter);
            }
            found
        },
        None => None,
    };
    let size: Option<u32> = match &page_size {
        Some(raw) => {
            let parsed: Option<u32> = parse_page_size(raw.as_str());
            if parsed.is_none() {
                return Err(QueryError::InvalidPagination);
            }
            parsed
        },
        None => None,
    };
    Ok(
        ListQuery {
            name_prefix,
            state,
            tag_key: None,
            tag_value: None,
            page_size: size,
            page_token,
            view,
        },
    )
}

/// Builds the query of a list call from the raw inputs, each of which may be
/// absent. The state filter is a JSON string that holds a state's wire name;
/// the page size is a decimal number. The name prefix, the page token and the
/// view are taken as they are. With no input at all the query is unfiltered.
pub fn build_list_query(
    name_prefix: Option<String>,
    state: Option<String>,
    page_size: Option<String>,
    page_token: Option<String>,
    view: Option<String>,
) -> (query: Result<ListQuery, QueryError>)
    ensures
        query == list_query_of(
            name_prefix,
            decoded_filter(state),
            text_of(page_size),
            page_token,
            view,
        ),
        name_prefix is None && state is None && page_size is None && page_token is None
            && view is None ==> query is Ok && query->Ok_0.unfiltered(),
{
    let state_name: Option<Option<String>> = match &state {
        Some(raw) => Some(decode_json_string(raw.as_str())),
        None => None,
    };
    assemble_list_query(name_prefix, state_name, page_size, page_token, view)
}

} // verus!
