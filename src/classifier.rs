//! Decides, item by item, which issues must change state.
use vstd::prelude::*;
use crate::response::{FieldValue, IssueState, Item, ItemView, item_views};

verus! {

/// What one direction asks of one item.
#[derive(Clone, Copy, Debug, PartialEq, Eq, Structural)]
pub enum Decision {
    NoAction,
    Close,
    Reopen,
}

/// A state change to apply to one issue, with what is reported about it.
#[derive(Clone, Debug)]
pub struct Mutation {
    /// Login of the repository's owner.
    pub owner: String,
    /// Name of the repository.
    pub repository: String,
    pub number: u64,
    pub title: String,
    /// Name of the column the item was found in.
    pub column: String,
    pub current: IssueState,
    pub desired: IssueState,
}

/// Field value `fv` holds one of the ids.
pub open spec fn value_in(fv: FieldValue, ids: Seq<String>) -> bool {
    exists|k: int| 0 <= k < ids.len() && fv.option_id@ == ids[k]@
}

/// Some field value holds one of the ids: the item is in a target column.
pub open spec fn in_target(fvs: Seq<FieldValue>, ids: Seq<String>) -> bool {
    exists|i: int| 0 <= i < fvs.len() && value_in(#[trigger] fvs[i], ids)
}

/// Field value `i` is the first that holds one of the ids.
pub open spec fn is_first_match(fvs: Seq<FieldValue>, ids: Seq<String>, i: int) -> bool {
    &&& 0 <= i < fvs.len()
    &&& value_in(fvs[i], ids)
    &&& forall|k: int| 0 <= k < i ==> !value_in(#[trigger] fvs[k], ids)
}

/// The action of the direction whose target state is `target`.
pub open spec fn action_for(target: IssueState) -> Decision {
    match target {
        IssueState::Closed => Decision::Close,
        IssueState::Open => Decision::Reopen,
    }
}

/// The decision of one direction for one item: its action when the
/// direction has ids, the item is in one of its columns and the issue is
/// not already in the target state; otherwise no action.
pub open spec fn decision(item: ItemView, target: IssueState, ids: Seq<String>) -> Decision {
    if ids.len() > 0 && in_target(item.field_values, ids) && item.issue.state != target {
        action_for(target)
    } else {
        Decision::NoAction
    }
}

/// The state change that a firing direction asks for.
pub open spec fn mutation_for(item: ItemView, target: IssueState, ids: Seq<String>) -> Mutation {
    Mutation {
        owner: item.issue.repository.owner,
        repository: item.issue.repository.name,
        number: item.issue.number,
        title: item.issue.title,
        column: item.field_values[choose|i: int| is_first_match(item.field_values, ids, i)].name,
        current: item.issue.state,
        desired: target,
    }
}

/// The mutations of one direction for one item: none or one.
pub open spec fn direction_mutations(
    item: ItemView,
    target: IssueState,
    ids: Seq<String>,
) -> Seq<Mutation> {
    if decision(item, target, ids) == Decision::NoAction {
        seq![]
    } else {
        seq![mutation_for(item, target, ids)]
    }
}

/// The mutations for one item: the closing direction's, then the
/// reopening direction's.
pub open spec fn item_mutations(
    item: ItemView,
    closed_ids: Seq<String>,
    open_ids: Seq<String>,
) -> Seq<Mutation> {
    direction_mutations(item, IssueState::Closed, closed_ids) + direction_mutations(
        item,
        IssueState::Open,
        open_ids,
    )
}

/// The mutations for a sequence of items, item by item in their order.
pub open spec fn planned(
    items: Seq<ItemView>,
    closed_ids: Seq<String>,
    open_ids: Seq<String>,
) -> Seq<Mutation>
    decreases items.len(),
{
    if items.len() == 0 {
        seq![]
    } else {
        planned(items.drop_last(), closed_ids, open_ids) + item_mutations(
            items.last(),
            closed_ids,
            open_ids,
        )
    }
}

/// Whether the field value holds one of the ids.
fn value_in_ids(fv: &FieldValue, ids: &Vec<String>) -> (r: bool)
    ensures
        r == value_in(*fv, ids@),
{
    let mut k: usize = 0;
    while k < ids.len()
        invariant
            k <= ids.len(),
            forall|y: int| 0 <= y < k ==> fv.option_id@ != ids@[y]@,
        decreases ids.len() - k,
    {
        if fv.option_id == ids[k] {
            return true;
        }
        k = k + 1;
    }
    false
}

/// The index of the first field value that holds one of the ids, if any.
pub fn first_match(field_values: &Vec<FieldValue>, ids: &Vec<String>) -> (r: Option<usize>)
    ensures
        match r {
            Some(i) => is_first_match(field_values@, ids@, i as int),
            None => !in_target(field_values@, ids@),
        },
{
    let mut i: usize = 0;
    while i < field_values.len()
        invariant
            i <= field_values.len(),
            forall|k: int| 0 <= k < i ==> !value_in(#[trigger] field_values@[k], ids@),
        decreases field_values.len() - i,
    {
        if value_in_ids(&field_values[i], ids) {
            return Some(i);
        }
        i = i + 1;
    }
    None
}

/// Decides one direction for one item: `target` is the state the
/// direction enforces and `ids` the option ids of its columns. An empty
/// `ids` never fires.
pub fn decide(item: &Item, target: IssueState, ids: &Vec<String>) -> (r: Decision)
    ensures
        r == decision(item@, target, ids@),
{
    if ids.len() == 0 {
        return Decision::NoAction;
    }
    if first_match(&item.field_values, ids).is_none() {
        return Decision::NoAction;
    }
    if item.issue.state == target {
        return Decision::NoAction;
    }
    match target {
        IssueState::Closed => Decision::Close,
        IssueState::Open => Decision::Reopen,
    }
}


/// The state change that one direction asks of one item, if any: the
/// issue's repository, number and title, the first matching column's
/// name, and the current and desired states.
pub fn ensure_issue_state(
    item: &Item,
    target: IssueState,
    ids: &Vec<String>,
) -> (r: Option<Mutation>)
    ensures
        r is Some <==> decision(item@, target, ids@) != Decision::NoAction,
        r matches Some(m) ==> m == mutation_for(item@, target, ids@),
        r matches Some(m) ==> m.desired == target && m.current != target,
{
    if ids.len() == 0 || item.issue.state == target {
        return None;
    }
    match first_match(&item.field_values, ids) {
        None => None,
        Some(i) => {
            proof {
                let c = choose|c: int| is_first_match(item.field_values@, ids@, c);
                assert(is_first_match(item.field_values@, ids@, c));
                assert(c == i);
            }
            let issue = &item.issue;
            Some(
                Mutation {
                    owner: issue.repository.owner.clone(),
                    repository: issue.repository.name.clone(),
                    number: issue.number,
                    title: issue.title.clone(),
                    column: item.field_values[i].name.clone(),
                    current: issue.state,
                    desired: target,
                },
            )
        },
    }
}

/// The mutations for one item: the closing direction's, then the
/// reopening direction's.
pub fn plan_item(
    item: &Item,
    closed_ids: &Vec<String>,
    open_ids: &Vec<String>,
) -> (r: Vec<Mutation>)
    ensures
        r@ == item_mutations(item@, closed_ids@, open_ids@),
{
    let mut out: Vec<Mutation> = Vec::new();
    if let Some(m) = ensure_issue_state(item, IssueState::Closed, closed_ids) {
        out.push(m);
    }
    if let Some(m) = ensure_issue_state(item, IssueState::Open, open_ids) {
        out.push(m);
    }
    proof {
        assert(out@ =~= item_mutations(item@, closed_ids@, open_ids@));
    }
    out
}

/// The mutations for a page of items, item by item in their order.
pub fn plan_items(
    items: &Vec<Item>,
    closed_ids: &Vec<String>,
    open_ids: &Vec<String>,
) -> (r: Vec<Mutation>)
    ensures
        r@ == planned(item_views(items@), closed_ids@, open_ids@),
{
    let mut out: Vec<Mutation> = Vec::new();
    let mut i: usize = 0;
    while i < items.len()
        invariant
            i <= items.len(),
            out@ == planned(item_views(items@).take(i as int), closed_ids@, open_ids@),
        decreases items.len() - i,
    {
        let mut more = plan_item(&items[i], closed_ids, open_ids);
        proof {
            let v = item_views(items@);
            assert(v.take(i + 1).drop_last() =~= v.take(i as int));
            assert(v.take(i + 1).last() == items@[i as int]@);
        }
        out.append(&mut more);
        i = i + 1;
    }
    proof {
        assert(item_views(items@).take(items.len() as int) =~= item_views(items@));
    }
    out
}

} // verus!
