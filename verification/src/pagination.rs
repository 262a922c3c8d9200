//! Pagination parameters as they arrive from a request, their
//! validation rules, and the assembly of a paginated user listing.

use vstd::prelude::*;

verus! {

use crate::errors::Error;
use crate::numbers::{is_i32_string, i32_string_val, parse_i32};
use crate::types::UserFromRow;
use vstd::string::StringExecFns;

/// The raw page and page-size parameters of a listing request, still as
/// text.
#[derive(Debug)]
pub struct PaginationDto {
    pub page: String,
    pub limit: String,
}

/// Whether the page text passes validation: an integer strictly above
/// zero.
pub open spec fn page_valid(page: Seq<char>) -> bool {
    is_i32_string(page) && i32_string_val(page) > 0
}

/// Whether the limit text passes validation: an integer between 10 and
/// 100 inclusive.
pub open spec fn limit_valid(limit: Seq<char>) -> bool {
    is_i32_string(limit) && 10 <= i32_string_val(limit) <= 100
}

impl PaginationDto {
    /// Accepts a limit between 10 and 100; anything else is a
    /// `ValidationError` naming the first rule broken.
    pub fn validate_limit(&self) -> (r: Result<(), Error>)
        ensures
            match r {
                Ok(_) => limit_valid(self.limit@),
                Err(e) => !limit_valid(self.limit@) && e is ValidationError,
            },
    {
        match parse_i32(self.limit.as_str()) {
            Some(limit) => {
                if limit > 100 {
                    Err(
                        Error::ValidationError(
                            String::from_str("limit must be inferior or equal than 100"),
                        ),
                    )
                } else if limit < 10 {
                    Err(
                        Error::ValidationError(
                            String::from_str("limit must be superior or equal than 10"),
                        ),
                    )
                } else {
                    Ok(())
                }
            },
            None => Err(Error::ValidationError(String::from_str("limit must be int"))),
        }
    }

    /// Accepts a page strictly above zero; anything else is a
    /// `ValidationError`.
    pub fn validate_page(&self) -> (r: Result<(), Error>)
        ensures
            match r {
                Ok(_) => page_valid(self.page@),
                Err(e) => !page_valid(self.page@) && e is ValidationError,
            },
    {
        match parse_i32(self.page.as_str()) {
            Some(page) => {
                if page <= 0 {
                    Err(Error::ValidationError(String::from_str("page must be superior than 0")))
                } else {
                    Ok(())
                }
            },
            None => Err(Error::ValidationError(String::from_str("page must be int"))),
        }
    }

    /// Accepts the parameters when both rules hold; the page is checked
    /// first.
    pub fn validate(&self) -> (r: Result<(), Error>)
        ensures
            match r {
                Ok(_) => page_valid(self.page@) && limit_valid(self.limit@),
                Err(e) => (!page_valid(self.page@) || !limit_valid(self.limit@)) && e is ValidationError,
            },
    {
        match self.validate_page() {
            Ok(_) => match self.validate_limit() {
                Ok(_) => Ok(()),
                Err(err) => Err(err),
            },
            Err(err) => Err(err),
        }
    }

    /// The zero-based offset the validated page names: the page number
    /// less one.
    pub fn get_offset(&self) -> (r: i32)
        requires
            page_valid(self.page@),
        ensures
            r == i32_string_val(self.page@) - 1,
    {
        match parse_i32(self.page.as_str()) {
            Some(page) => page - 1,
            None => vstd::pervasive::unreached(),
        }
    }

    /// The validated page size.
    pub fn get_limit(&self) -> (r: i32)
        requires
            limit_valid(self.limit@),
        ensures
            r == i32_string_val(self.limit@),
    {
        match parse_i32(self.limit.as_str()) {
            Some(limit) => limit,
            None => vstd::pervasive::unreached(),
        }
    }
}

/// One user of a listing reply.
#[derive(Debug)]
pub struct UserDto {
    pub id: i32,
    pub device_id: String,
    pub device_type: String,
}

impl<'a> From<&'a UserFromRow> for UserDto {
    fn from(value: &'a UserFromRow) -> (r: Self) {
        UserDto {
            id: value.id,
            device_id: value.device_id.clone(),
            device_type: value.device_type.clone(),
        }
    }
}

impl<'a> vstd::std_specs::convert::FromSpecImpl<&'a UserFromRow> for UserDto {
    open spec fn obeys_from_spec() -> bool {
        true
    }

    open spec fn from_spec(t: &'a UserFromRow) -> Self {
        UserDto { id: t.id, device_id: t.device_id, device_type: t.device_type }
    }
}

/// A page of users together with the paging arithmetic of the listing.
#[derive(Debug)]
pub struct PaginatedUserDto {
    pub total_count: i32,
    pub total_page: i32,
    pub next_page: Option<i32>,
    pub previous_page: Option<i32>,
    pub users: Vec<UserDto>,
}

/// Assembles a listing page: the page count is the truncated quotient
/// of the total by the page size, the next page exists while two pages
/// ahead of the offset stays under the page count, and the previous
/// page exists for every offset past the first.
pub fn build_paginated_users(
    total_count: i32,
    limit: i32,
    offset: i32,
    users: Vec<UserDto>,
) -> (r: PaginatedUserDto)
    requires
        limit >= 1,
        offset >= 0,
        total_count >= 0,
    ensures
        r.total_count == total_count,
        r.total_page == total_count as int / limit as int,
        r.next_page == (if offset + 2 < r.total_page {
            Some((offset + 2) as i32)
        } else {
            None::<i32>
        }),
        r.previous_page == (if offset > 0 {
            Some(offset)
        } else {
            None::<i32>
        }),
        r.users == users,
{
    let total_page = total_count / limit;
    let next_page: Option<i32> = if offset <= total_page - 2 && offset + 2 < total_page {
        Some(offset + 2)
    } else {
        None
    };
    let previous_page: Option<i32> = if offset > 0 {
        Some(offset)
    } else {
        None
    };
    PaginatedUserDto { total_count, total_page, next_page, previous_page, users }
}

} // verus!
