//! Pages of a listing: which page, how many records on it, and how many
//! records lie before it.

use vstd::prelude::*;

verus! {

/// The page that a listing shows where the request names none.
pub const DEFAULT_PAGE: i64 = 1;

/// The number of records on a page where the request names none.
pub const DEFAULT_LIMIT: i64 = 3;

/// The integer that `text` denotes in decimal, with an optional sign, where
/// it denotes one that fits in 64 bits.
pub uninterp spec fn parsed_integer(text: Seq<char>) -> Option<i64>;

/// `str::parse` to an `i64`. The result depends on the text alone; a text
/// that is no integer of that size gives `None`.
#[verifier::external_body]
fn parse_integer(text: &str) -> (value: Option<i64>)
    ensures
        value == parsed_integer(text@),
{
    text.parse::<i64>().ok()
}

/// The page of a listing that a request asks for.
#[derive(Debug, Clone, Copy, PartialEq, Eq, Structural)]
pub struct Paging {
    pub page: i64,
    pub limit: i64,
}

/// The integer that a query parameter denotes, where it is there and denotes one.
pub open spec fn parameter(text: Option<Seq<char>>) -> Option<i64> {
    match text {
        Some(given) => parsed_integer(given),
        None => None,
    }
}

/// The text of a query parameter, where it is there.
pub open spec fn parameter_text(text: Option<&str>) -> Option<Seq<char>> {
    match text {
        Some(given) => Some(given@),
        None => None,
    }
}

impl Paging {
    /// The paging that two parsed parameters ask for: where one is missing
    /// or no integer, the default takes its place.
    pub open spec fn of(page: Option<i64>, limit: Option<i64>) -> Paging {
        Paging {
            page: match page {
                Some(number) => number,
                None => DEFAULT_PAGE,
            },
            limit: match limit {
                Some(number) => number,
                None => DEFAULT_LIMIT,
            },
        }
    }

    /// The number of records that lie before the page.
    pub open spec fn skipped(self) -> int {
        (self.page - 1) * self.limit
    }

    /// The paging that two parsed parameters ask for.
    pub fn from_parsed(page: Option<i64>, limit: Option<i64>) -> (paging: Paging)
        ensures
            paging == Paging::of(page, limit),
    {
        Paging {
            page: match page {
                Some(number) => number,
                None => DEFAULT_PAGE,
            },
            limit: match limit {
                Some(number) => number,
                None => DEFAULT_LIMIT,
            },
        }
    }

    /// The paging that the query parameters `page` and `limit` ask for.
    pub fn from_query(page: Option<&str>, limit: Option<&str>) -> (paging: Paging)
        ensures
            paging == Paging::of(parameter(parameter_text(page)), parameter(parameter_text(limit))),
    {
        let page = match page {
            Some(text) => parse_integer(text),
            None => None,
        };
        let limit = match limit {
            Some(text) => parse_integer(text),
            None => None,
        };
        Paging::from_parsed(page, limit)
    }

    /// The number of records that lie before the page: the pages before it
    /// times the records on a page. `None` where that number does not fit
    /// in 64 bits.
    pub fn offset(&self) -> (offset: Option<i64>)
        ensures
            match offset {
                Some(records) => records == self.skipped(),
                None => self.skipped() < i64::MIN || self.skipped() > i64::MAX,
            },
    {
        match self.page.checked_sub(1) {
            None => {
                proof {
                    lemma_first_page_overflows(self.limit);
                }
                if self.limit == 0 {
                    Some(0)
                } else {
                    None
                }
            },
            Some(before) => before.checked_mul(self.limit),
        }
    }
}

/// The page before the least page lies far enough out that only a limit of
/// zero brings the product back.
proof fn lemma_first_page_overflows(limit: i64)
    ensures
        limit != 0 ==> (i64::MIN - 1) * limit < i64::MIN || (i64::MIN - 1) * limit > i64::MAX,
        limit == 0 ==> (i64::MIN - 1) * limit == 0,
{
    assert(limit != 0 ==> (i64::MIN - 1) * limit < i64::MIN || (i64::MIN - 1) * limit > i64::MAX)
        by (nonlinear_arith);
    assert(limit == 0 ==> (i64::MIN - 1) * limit == 0) by (nonlinear_arith);
}

/// A page begins where the page before it ends: each page skips `limit`
/// records more than the one before.
pub proof fn pages_follow_each_other(page: i64, limit: i64)
    requires
        page < i64::MAX,
    ensures
        (Paging { page: (page + 1) as i64, limit }).skipped() == (Paging { page, limit }).skipped() + limit,
        (Paging { page: 1, limit }).skipped() == 0,
{
    assert((page + 1 - 1) * limit == (page - 1) * limit + limit) by (nonlinear_arith);
    assert((1 - 1) * limit == 0) by (nonlinear_arith);
}

} // verus!
