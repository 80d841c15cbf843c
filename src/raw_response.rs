//! The board query's answer as it arrives, before normalization: every part
//! that the tracker may leave out is optional.
use vstd::prelude::*;
use crate::response::{FieldOption, Issue, PageInfo};

verus! {

/// The whole answer to one board query.
#[derive(Clone, Debug)]
pub struct Response {
    pub data: ResponseData,
}

/// The answer's data: absent owner means the owner login does not exist.
#[derive(Clone, Debug)]
pub struct ResponseData {
    pub repository_owner: Option<Owner>,
}

/// The owner; absent project means no project of that number under it.
#[derive(Clone, Debug)]
pub struct Owner {
    pub project: Option<Project>,
}

/// One page of the project.
#[derive(Clone, Debug)]
pub struct Project {
    pub title: String,
    pub fields: Fields,
    pub items: Items,
}

#[derive(Clone, Debug)]
pub struct Fields {
    pub nodes: Vec<Field>,
}

/// The page's window of items, with the cursor that follows it.
#[derive(Clone, Debug)]
pub struct Items {
    pub nodes: Vec<Item>,
    pub page_info: PageInfo,
}

/// A field of the board; fields that are not single-select carry no options.
#[derive(Clone, Debug)]
pub struct Field {
    pub name: Option<String>,
    pub options: Option<Vec<FieldOption>>,
}

/// The kinds of content a board item may hold.
#[derive(Clone, Copy, Debug, PartialEq, Eq, Structural)]
pub enum ItemType {
    Issue,
    DraftIssue,
    PullRequest,
    Redacted,
}

/// A board item; `issue` is absent for drafts, pull requests, redacted
/// entries and issues whose data could not be read.
#[derive(Clone, Debug)]
pub struct Item {
    pub field_values: FieldValues,
    pub id: String,
    pub issue: Option<Issue>,
}

#[derive(Clone, Debug)]
pub struct FieldValues {
    pub nodes: Vec<FieldValue>,
}

/// One value of one field on an item, either part possibly missing.
#[derive(Clone, Debug)]
pub struct FieldValue {
    pub name: Option<String>,
    pub option_id: Option<String>,
}

} // verus!
