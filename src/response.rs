//! The board's data once normalized: items linked to an issue, fields with
//! options, field values with both a name and an option id.
use vstd::prelude::*;
use octocrab::models::IssueState as OctoIssueState;
use crate::raw_response;
use crate::raw_response::Response;
use crate::error::LookupError;

verus! {

/// Relies on octocrab::models::IssueState, the state that the issues API
/// takes and returns, having the unit variants `Open` and `Closed`; they are
/// matched directly.
#[verifier::external_type_specification]
pub struct ExOctoIssueState(OctoIssueState);

/// The open/closed state of an issue.
#[derive(Clone, Copy, Debug, PartialEq, Eq, Structural)]
pub enum IssueState {
    Open,
    Closed,
}

impl IssueState {
    /// The lower-case word used when reporting the state.
    pub fn as_lowercase(&self) -> (r: &'static str)
        ensures
            *self == IssueState::Open ==> r@ == "open"@,
            *self == IssueState::Closed ==> r@ == "closed"@,
    {
        proof {
            reveal_strlit("open");
            reveal_strlit("closed");
        }
        match self {
            IssueState::Open => "open",
            IssueState::Closed => "closed",
        }
    }

    /// Reads octocrab's state; a state other than the two known ones is a
    /// data error and gives `None`.
    pub fn from_octocrab(s: &OctoIssueState) -> (r: Option<IssueState>)
        ensures
            *s == OctoIssueState::Open ==> r == Some(IssueState::Open),
            *s == OctoIssueState::Closed ==> r == Some(IssueState::Closed),
    {
        match s {
            OctoIssueState::Open => Some(IssueState::Open),
            OctoIssueState::Closed => Some(IssueState::Closed),
            _ => None,
        }
    }
}

/// The state handed to octocrab's issue update.
impl From<IssueState> for OctoIssueState {
    fn from(s: IssueState) -> (r: OctoIssueState) {
        match s {
            IssueState::Open => OctoIssueState::Open,
            IssueState::Closed => OctoIssueState::Closed,
        }
    }
}

impl vstd::std_specs::convert::FromSpecImpl<IssueState> for OctoIssueState {
    open spec fn obeys_from_spec() -> bool {
        true
    }

    open spec fn from_spec(s: IssueState) -> OctoIssueState {
        match s {
            IssueState::Open => OctoIssueState::Open,
            IssueState::Closed => OctoIssueState::Closed,
        }
    }
}

/// The repository an issue lives in, with the login of its owner.
#[derive(Clone, Debug)]
pub struct Repository {
    pub id: String,
    pub name: String,
    pub owner: String,
}

/// An issue linked from a board item.
#[derive(Clone, Debug)]
pub struct Issue {
    pub id: String,
    pub number: u64,
    pub title: String,
    pub state: IssueState,
    pub repository: Repository,
}

/// The option that an item holds for one field.
#[derive(Clone, Debug)]
pub struct FieldValue {
    pub name: String,
    pub option_id: String,
}

/// A board item that is linked to an issue.
#[derive(Clone, Debug)]
pub struct Item {
    pub field_values: Vec<FieldValue>,
    pub id: String,
    pub issue: Issue,
}

/// What an item is, with its field values as a sequence.
pub struct ItemView {
    pub field_values: Seq<FieldValue>,
    pub id: String,
    pub issue: Issue,
}

impl View for Item {
    type V = ItemView;

    open spec fn view(&self) -> ItemView {
        ItemView { field_values: self.field_values@, id: self.id, issue: self.issue }
    }
}

/// One option of a single-select field: a column, for the status field.
#[derive(Clone, Debug)]
pub struct FieldOption {
    pub id: String,
    pub name: String,
}

/// A single-select field of the board.
#[derive(Clone, Debug)]
pub struct Field {
    pub name: String,
    pub options: Vec<FieldOption>,
}

/// Where the next page starts, and whether there is one.
#[derive(Clone, Debug)]
pub struct PageInfo {
    pub end_cursor: Option<String>,
    pub has_next_page: bool,
}

/// One page of the board, normalized.
#[derive(Clone, Debug)]
pub struct Project {
    pub title: String,
    pub fields: Vec<Field>,
    pub items: Vec<Item>,
    pub page_info: PageInfo,
}

/// A field value is kept when it has both a name and an option id.
pub open spec fn field_value_kept(fv: raw_response::FieldValue) -> bool {
    fv.name is Some && fv.option_id is Some
}

/// The field values that normalization keeps, in their order.
pub open spec fn normalized_field_values(fvs: Seq<raw_response::FieldValue>) -> Seq<FieldValue>
    decreases fvs.len(),
{
    if fvs.len() == 0 {
        seq![]
    } else {
        let fv = fvs.last();
        let rest = normalized_field_values(fvs.drop_last());
        if field_value_kept(fv) {
            rest.push(FieldValue { name: fv.name->0, option_id: fv.option_id->0 })
        } else {
            rest
        }
    }
}

/// A field is kept when it has both a name and options.
pub open spec fn field_kept(f: raw_response::Field) -> bool {
    f.name is Some && f.options is Some
}

/// The fields that normalization keeps, in their order.
pub open spec fn normalized_fields(fs: Seq<raw_response::Field>) -> Seq<Field>
    decreases fs.len(),
{
    if fs.len() == 0 {
        seq![]
    } else {
        let f = fs.last();
        let rest = normalized_fields(fs.drop_last());
        if field_kept(f) {
            rest.push(Field { name: f.name->0, options: f.options->0 })
        } else {
            rest
        }
    }
}

/// The items that normalization keeps (those with a linked issue), in
/// their order, each with its field values normalized.
pub open spec fn normalized_items(items: Seq<raw_response::Item>) -> Seq<ItemView>
    decreases items.len(),
{
    if items.len() == 0 {
        seq![]
    } else {
        let it = items.last();
        let rest = normalized_items(items.drop_last());
        if it.issue is Some {
            rest.push(normalized_item(it))
        } else {
            rest
        }
    }
}

/// A raw item with a linked issue, normalized.
pub open spec fn normalized_item(it: raw_response::Item) -> ItemView {
    ItemView {
        field_values: normalized_field_values(it.field_values.nodes@),
        id: it.id,
        issue: it.issue->0,
    }
}


proof fn lemma_prefix_drop_last<T>(s: Seq<T>, i: int)
    requires
        0 <= i < s.len(),
    ensures
        s.take(i + 1).drop_last() == s.take(i),
        s.take(i + 1).last() == s[i],
{
    assert(s.take(i + 1).drop_last() =~= s.take(i));
}

impl FieldValue {
    /// Keeps the field values that have both a name and an option id, in
    /// their order.
    pub fn normalize_all(raw: raw_response::FieldValues) -> (r: Vec<FieldValue>)
        ensures
            r@ == normalized_field_values(raw.nodes@),
    {
        let ghost nodes = raw.nodes@;
        let mut out: Vec<FieldValue> = Vec::new();
        for fv in it: raw.nodes
            invariant
                it.seq() == nodes,
                out@ == normalized_field_values(nodes.take(it.index() as int)),
        {
            proof {
                lemma_prefix_drop_last(nodes, it.index() as int);
            }
            match (fv.name, fv.option_id) {
                (Some(name), Some(option_id)) => out.push(FieldValue { name, option_id }),
                _ => {},
            }
        }
        proof {
            assert(nodes.take(nodes.len() as int) =~= nodes);
        }
        out
    }
}


impl Field {
    /// Keeps the fields that have both a name and options, in their order.
    pub fn normalize_all(raw: raw_response::Fields) -> (r: Vec<Field>)
        ensures
            r@ == normalized_fields(raw.nodes@),
    {
        let ghost nodes = raw.nodes@;
        let mut out: Vec<Field> = Vec::new();
        for f in it: raw.nodes
            invariant
                it.seq() == nodes,
                out@ == normalized_fields(nodes.take(it.index() as int)),
        {
            proof {
                lemma_prefix_drop_last(nodes, it.index() as int);
            }
            match (f.name, f.options) {
                (Some(name), Some(options)) => out.push(Field { name, options }),
                _ => {},
            }
        }
        proof {
            assert(nodes.take(nodes.len() as int) =~= nodes);
        }
        out
    }
}

/// The views of a sequence of items.
pub open spec fn item_views(items: Seq<Item>) -> Seq<ItemView> {
    items.map_values(|i: Item| i@)
}

impl Item {
    /// Keeps the items that are linked to an issue, in their order, and
    /// normalizes their field values.
    pub fn normalize_all(raw: Vec<raw_response::Item>) -> (r: Vec<Item>)
        ensures
            item_views(r@) == normalized_items(raw@),
    {
        let ghost nodes = raw@;
        let mut out: Vec<Item> = Vec::new();
        for item in it: raw
            invariant
                it.seq() == nodes,
                item_views(out@) == normalized_items(nodes.take(it.index() as int)),
        {
            proof {
                lemma_prefix_drop_last(nodes, it.index() as int);
            }
            let ghost before = out@;
            match item.issue {
                Some(issue) => {
                    let field_values = FieldValue::normalize_all(item.field_values);
                    out.push(Item { field_values, id: item.id, issue });
                    proof {
                        assert(item_views(out@) =~= item_views(before).push(out@.last()@));
                    }
                },
                None => {},
            }
        }
        proof {
            assert(nodes.take(nodes.len() as int) =~= nodes);
        }
        out
    }
}

impl Project {
    /// Normalizes one page of the project: fields without a name or
    /// options, items without a linked issue and field values without a
    /// name or option id are left out; the rest keep their order.
    pub fn from_raw(raw: raw_response::Project) -> (r: Project)
        ensures
            r.title == raw.title,
            r.fields@ == normalized_fields(raw.fields.nodes@),
            item_views(r.items@) == normalized_items(raw.items.nodes@),
            r.page_info == raw.items.page_info,
    {
        let fields = Field::normalize_all(raw.fields);
        let items = Item::normalize_all(raw.items.nodes);
        let page_info = raw.items.page_info;
        Project { title: raw.title, fields, items, page_info }
    }

    /// Looks up the project page in a query's answer and normalizes it;
    /// fails when the owner, or the project under it, does not exist.
    pub fn from_response(response: Response) -> (r: Result<Project, LookupError>)
        ensures
            match response.data.repository_owner {
                None => r == Err::<Project, LookupError>(LookupError::OwnerNotFound),
                Some(o) => match o.project {
                    None => r == Err::<Project, LookupError>(LookupError::ProjectNotFound),
                    Some(p) => r matches Ok(q) && q.title == p.title && q.fields@
                        == normalized_fields(p.fields.nodes@) && item_views(q.items@)
                        == normalized_items(p.items.nodes@) && q.page_info == p.items.page_info,
                },
            },
    {
        match response.data.repository_owner {
            None => Err(LookupError::OwnerNotFound),
            Some(owner) => match owner.project {
                None => Err(LookupError::ProjectNotFound),
                Some(project) => Ok(Project::from_raw(project)),
            },
        }
    }
}

} // verus!
