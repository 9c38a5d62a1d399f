//! Payloads of the item routes.
use vstd::prelude::*;
use crate::adapters::http::validation::{PayloadError, failed_checks, validate_item_fields};
use crate::domain::entities::item_priority::ItemPriority;

verus! {

/// How many items a page holds when the request does not say.
pub const DEFAULT_PAGE_LIMIT: usize = 10;

/// Which page of a column's items a request asks for.
#[derive(Debug, Clone, Copy)]
pub struct PaginationQuery {
    pub limit: Option<usize>,
    pub offset: Option<usize>,
}

impl PaginationQuery {
    /// The limit and offset asked for, 10 and 0 where not given.
    pub fn limit_and_offset(&self) -> (r: (usize, usize))
        ensures
            r.0 == (match self.limit {
                Some(l) => l,
                None => DEFAULT_PAGE_LIMIT,
            }),
            r.1 == (match self.offset {
                Some(o) => o,
                None => 0usize,
            }),
    {
        let limit = match self.limit {
            Some(l) => l,
            None => DEFAULT_PAGE_LIMIT,
        };
        let offset = match self.offset {
            Some(o) => o,
            None => 0,
        };
        (limit, offset)
    }
}

/// A request for a new item.
#[derive(Debug)]
pub struct AddItemPayload {
    pub title: String,
    pub description: Option<String>,
    pub assigned_to: Option<u128>,
    pub priority: ItemPriority,
}

/// A request to change an item's details.
#[derive(Debug)]
pub struct UpdateItemPayload {
    pub title: String,
    pub description: Option<String>,
    pub assigned_to: Option<u128>,
    pub priority: ItemPriority,
}

/// A request to move an item into another column.
#[derive(Debug, Clone, Copy)]
pub struct MoveItemPayload {
    pub new_column_id: u128,
}

impl AddItemPayload {
    /// The title is 1 to 255 characters and the description, if any, at most
    /// 2000; the errors of the failed checks, in field order, otherwise.
    pub fn validate(&self) -> (r: Result<(), Vec<PayloadError>>)
        ensures
            ({
                let title_ok = 1 <= self.title@.len() <= 255;
                let description_ok = self.description matches Some(d) ==> d@.len() <= 2000;
                &&& (title_ok && description_ok) ==> r is Ok
                &&& !(title_ok && description_ok) ==> (r matches Err(errs) && errs@ == failed_checks(
                    seq![(title_ok, PayloadError::TitleLength), (description_ok, PayloadError::DescriptionTooLong)],
                ))
            }),
    {
        validate_item_fields(self.title.as_str(), &self.description)
    }
}

impl UpdateItemPayload {
    /// The same checks as for a new item.
    pub fn validate(&self) -> (r: Result<(), Vec<PayloadError>>)
        ensures
            ({
                let title_ok = 1 <= self.title@.len() <= 255;
                let description_ok = self.description matches Some(d) ==> d@.len() <= 2000;
                &&& (title_ok && description_ok) ==> r is Ok
                &&& !(title_ok && description_ok) ==> (r matches Err(errs) && errs@ == failed_checks(
                    seq![(title_ok, PayloadError::TitleLength), (description_ok, PayloadError::DescriptionTooLong)],
                ))
            }),
    {
        validate_item_fields(self.title.as_str(), &self.description)
    }
}

} // verus!
