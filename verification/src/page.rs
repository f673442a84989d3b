use vstd::prelude::*;
use crate::text::{is_blank, is_blank_str, str_equals, trim, trimmed, CharClass};
use crate::validate::{is_admin, Actor};

verus! {

/// A page of a listing.
#[derive(Debug)]
pub struct Page<T> {
    pub items: Vec<T>,
    pub total: i64,
    pub page: i64,
    pub page_size: i64,
}

impl<T> Page<T> {
    /// A listing that fits on one page: all `items`, page 1, a page size of
    /// the item count (at least 1).
    pub fn all(items: Vec<T>) -> (p: Page<T>)
        requires
            items@.len() <= i64::MAX,
        ensures
            p.items@ == items@,
            p.total == items@.len(),
            p.page == 1,
            p.page_size == if items@.len() == 0 {
                1
            } else {
                items@.len() as int
            },
    {
        let total = items.len() as i64;
        let page_size = if total < 1 {
            1
        } else {
            total
        };
        Page { items, total, page: 1, page_size }
    }
}

/// The filters and paging of an application listing.
#[derive(Debug)]
pub struct AppQuery {
    pub page: Option<i64>,
    pub page_size: Option<i64>,
    pub name: Option<String>,
    pub status: Option<String>,
    pub owner_id: Option<u128>,
}

/// What an application listing selects.
#[derive(Debug)]
pub struct AppListParams {
    pub page: i64,
    pub page_size: i64,
    pub offset: i64,
    /// Only applications of this status (`active` or `deleted`).
    pub status: Option<String>,
    /// A case-insensitive `LIKE` pattern on the name.
    pub name_pattern: Option<String>,
    /// Only applications of this owner.
    pub owner: Option<u128>,
}

/// The page asked for: 1 by default, at least 1.
pub open spec fn requested_page(query: AppQuery) -> int {
    let p = match query.page {
        Some(p) => p as int,
        None => 1,
    };
    if p < 1 {
        1
    } else {
        p
    }
}

/// The page size asked for: 20 by default, within 1 to 100.
pub open spec fn requested_page_size(query: AppQuery) -> int {
    let s = match query.page_size {
        Some(s) => s as int,
        None => 20,
    };
    if s < 1 {
        1
    } else if s > 100 {
        100
    } else {
        s
    }
}

fn page_of(query: &AppQuery) -> (p: i64)
    ensures
        p == requested_page(*query),
{
    match query.page {
        Some(p) => if p < 1 {
            1
        } else {
            p
        },
        None => 1,
    }
}

fn page_size_of(query: &AppQuery) -> (s: i64)
    ensures
        s == requested_page_size(*query),
{
    match query.page_size {
        Some(s) => if s < 1 {
            1
        } else if s > 100 {
            100
        } else {
            s
        },
        None => 20,
    }
}

/// Whether the rows that the query skips, those of the pages before the one
/// it asks for, can be counted in an `i64`; a listing is only made where
/// they can.
pub fn list_offset_fits(query: &AppQuery) -> (r: bool)
    ensures
        r == ((requested_page(*query) - 1) * requested_page_size(*query) <= i64::MAX),
{
    let page = page_of(query);
    let page_size = page_size_of(query);
    assert(0 <= (page - 1) * page_size) by (nonlinear_arith)
        requires
            page >= 1,
            page_size >= 1,
    ;
    (page - 1).checked_mul(page_size).is_some()
}

/// Turns an application listing query into its selection: the paging, the
/// status filter where it names a known status, a name pattern where the
/// name is not blank, and the owner: the one asked for by an administrator,
/// the caller for anyone else.
pub fn app_list_params(query: &AppQuery, actor: &Actor) -> (p: AppListParams)
    requires
        (requested_page(*query) - 1) * requested_page_size(*query) <= i64::MAX,
    ensures
        p.page == requested_page(*query),
        p.page_size == requested_page_size(*query),
        p.offset == (p.page - 1) * p.page_size,
        p.status == (match query.status {
            Some(s) => if s@ == "active"@ || s@ == "deleted"@ {
                Some(s)
            } else {
                None
            },
            None => None,
        }),
        match (p.name_pattern, query.name) {
            (Some(pattern), Some(name)) => !is_blank(name@) && pattern@ == seq!['%'] + trim(
                name@,
                CharClass::WhiteSpace,
            ) + seq!['%'],
            (None, Some(name)) => is_blank(name@),
            (None, None) => true,
            (Some(_), None) => false,
        },
        p.owner == (if is_admin(*actor) {
            query.owner_id
        } else {
            Some(actor.id)
        }),
{
    let page = page_of(query);
    let page_size = page_size_of(query);
    let offset = (page - 1) * page_size;
    let status = match &query.status {
        Some(s) => if str_equals(s.as_str(), "active") || str_equals(s.as_str(), "deleted") {
            Some(s.clone())
        } else {
            None
        },
        None => None,
    };
    let name_pattern = match &query.name {
        Some(n) => if is_blank_str(n.as_str()) {
            None
        } else {
            let mut pattern = "%".to_owned();
            let t = trimmed(n.as_str(), CharClass::WhiteSpace);
            pattern.append(t.as_str());
            pattern.append("%");
            proof {
                reveal_strlit("%");
                assert(pattern@ =~= seq!['%'] + trim(n@, CharClass::WhiteSpace) + seq!['%']);
            }
            Some(pattern)
        },
        None => None,
    };
    let owner = if str_equals(actor.role.as_str(), "admin") {
        query.owner_id
    } else {
        Some(actor.id)
    };
    AppListParams { page, page_size, offset, status, name_pattern, owner }
}

} // verus!
