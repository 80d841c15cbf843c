//! Properties of reconciliation that relate several runs, pages or items.
use vstd::prelude::*;
use crate::classifier::{
    Decision, Mutation, decision, direction_mutations, in_target, item_mutations, planned,
};
use crate::driver::columns_resolvable;
use crate::resolver::{has_option, status_options};
use crate::response::{Field, Issue, IssueState, ItemView};

verus! {

/// Planning a concatenation of items plans each part in turn.
pub proof fn lemma_planned_concat(
    a: Seq<ItemView>,
    b: Seq<ItemView>,
    closed_ids: Seq<String>,
    open_ids: Seq<String>,
)
    ensures
        planned(a + b, closed_ids, open_ids) == planned(a, closed_ids, open_ids) + planned(
            b,
            closed_ids,
            open_ids,
        ),
    decreases b.len(),
{
    if b.len() == 0 {
        assert(a + b =~= a);
        assert(planned(b, closed_ids, open_ids) =~= seq![]);
        assert(planned(a, closed_ids, open_ids) + planned(b, closed_ids, open_ids) =~= planned(
            a,
            closed_ids,
            open_ids,
        ));
    } else {
        assert((a + b).drop_last() =~= a + b.drop_last());
        assert((a + b).last() == b.last());
        lemma_planned_concat(a, b.drop_last(), closed_ids, open_ids);
        assert(planned(a + b, closed_ids, open_ids) =~= planned(a, closed_ids, open_ids) + planned(
            b,
            closed_ids,
            open_ids,
        ));
    }
}

/// The mutations of a run over the given pages, page by page.
pub open spec fn planned_pages(
    pages: Seq<Seq<ItemView>>,
    closed_ids: Seq<String>,
    open_ids: Seq<String>,
) -> Seq<
    Mutation,
>
    decreases pages.len(),
{
    if pages.len() == 0 {
        seq![]
    } else {
        planned(pages.first(), closed_ids, open_ids) + planned_pages(
            pages.drop_first(),
            closed_ids,
            open_ids,
        )
    }
}

/// However a board's items are split into pages, planning page by page
/// gives exactly the mutations of planning all items at once, in the same
/// order: every item is decided once.
pub proof fn lemma_pagination_independent(
    pages: Seq<Seq<ItemView>>,
    closed_ids: Seq<String>,
    open_ids: Seq<String>,
)
    ensures
        planned_pages(pages, closed_ids, open_ids) == planned(pages.flatten(), closed_ids, open_ids),
    decreases pages.len(),
{
    if pages.len() == 0 {
        assert(planned(pages.flatten(), closed_ids, open_ids) =~= seq![]);
    } else {
        lemma_pagination_independent(pages.drop_first(), closed_ids, open_ids);
        lemma_planned_concat(pages.first(), pages.drop_first().flatten(), closed_ids, open_ids);
    }
}

/// An item in none of the configured columns gets no mutation, whatever
/// its issue's state.
pub proof fn lemma_other_columns_untouched(
    item: ItemView,
    closed_ids: Seq<String>,
    open_ids: Seq<String>,
)
    requires
        !in_target(item.field_values, closed_ids),
        !in_target(item.field_values, open_ids),
    ensures
        decision(item, IssueState::Closed, closed_ids) == Decision::NoAction,
        decision(item, IssueState::Open, open_ids) == Decision::NoAction,
        item_mutations(item, closed_ids, open_ids) == Seq::<Mutation>::empty(),
{
    assert(item_mutations(item, closed_ids, open_ids) =~= Seq::<Mutation>::empty());
}

/// With no open column ids, no planned mutation reopens an issue.
pub proof fn lemma_empty_open_never_reopens(items: Seq<ItemView>, closed_ids: Seq<String>)
    ensures
        forall|j: int|
            0 <= j < planned(items, closed_ids, seq![]).len() ==> #[trigger] planned(
                items,
                closed_ids,
                seq![],
            )[j].desired == IssueState::Closed,
        forall|i: int| 0 <= i < items.len() ==> decision(#[trigger] items[i], IssueState::Open, seq![])
            == Decision::NoAction,
    decreases items.len(),
{
    if items.len() > 0 {
        lemma_empty_open_never_reopens(items.drop_last(), closed_ids);
        let rest = planned(items.drop_last(), closed_ids, seq![]);
        let last = item_mutations(items.last(), closed_ids, seq![]);
        assert(direction_mutations(items.last(), IssueState::Open, seq![]) =~= seq![]);
        assert forall|j: int| 0 <= j < planned(items, closed_ids, seq![]).len() implies #[trigger] planned(
            items,
            closed_ids,
            seq![],
        )[j].desired == IssueState::Closed by {
            if j >= rest.len() {
                assert(planned(items, closed_ids, seq![])[j] == last[j - rest.len()]);
            }
        }
    }
}

/// An item as it stands once its planned mutations have been applied to
/// its issue: the issue takes the state of the last one, if any.
pub open spec fn applied(
    item: ItemView,
    closed_ids: Seq<String>,
    open_ids: Seq<String>,
) -> ItemView {
    let ms = item_mutations(item, closed_ids, open_ids);
    if ms.len() == 0 {
        item
    } else {
        ItemView {
            field_values: item.field_values,
            id: item.id,
            issue: Issue {
                id: item.issue.id,
                number: item.issue.number,
                title: item.issue.title,
                state: ms.last().desired,
                repository: item.issue.repository,
            },
        }
    }
}

/// The items once every planned mutation has been applied.
pub open spec fn applied_all(
    items: Seq<ItemView>,
    closed_ids: Seq<String>,
    open_ids: Seq<String>,
) -> Seq<ItemView> {
    items.map_values(|i: ItemView| applied(i, closed_ids, open_ids))
}

/// Reconciling again after every planned mutation was applied, with no
/// other change, plans no mutation; this holds for items that are not in
/// a closed and an open column at once.
pub proof fn lemma_idempotent(items: Seq<ItemView>, closed_ids: Seq<String>, open_ids: Seq<String>)
    requires
        forall|i: int|
            0 <= i < items.len() ==> !(in_target(#[trigger] items[i].field_values, closed_ids)
                && in_target(items[i].field_values, open_ids)),
    ensures
        planned(applied_all(items, closed_ids, open_ids), closed_ids, open_ids) == Seq::<
            Mutation,
        >::empty(),
    decreases items.len(),
{
    let after = applied_all(items, closed_ids, open_ids);
    if items.len() == 0 {
        assert(after =~= Seq::<ItemView>::empty());
    } else {
        let init = items.drop_last();
        assert forall|i: int| 0 <= i < init.len() implies !(in_target(
            #[trigger] init[i].field_values,
            closed_ids,
        ) && in_target(init[i].field_values, open_ids)) by {
            assert(init[i] == items[i]);
        }
        lemma_idempotent(init, closed_ids, open_ids);
        assert(after.drop_last() =~= applied_all(init, closed_ids, open_ids));
        let it = items.last();
        assert(!(in_target(items[items.len() - 1].field_values, closed_ids) && in_target(
            items[items.len() - 1].field_values,
            open_ids,
        )));
        let a = applied(it, closed_ids, open_ids);
        assert(after.last() == a);
        assert(item_mutations(a, closed_ids, open_ids) =~= Seq::<Mutation>::empty());
        assert(planned(after, closed_ids, open_ids) =~= Seq::<Mutation>::empty());
    }
}


/// A closed column name that the status field lacks makes the
/// configuration unresolvable, whatever the other names are: the first page
/// then fails, before any mutation is planned.
pub proof fn lemma_unknown_closed_column_is_fatal(
    fields: Seq<Field>,
    closed: Seq<String>,
    open: Seq<String>,
    j: int,
)
    requires
        0 <= j < closed.len(),
        !has_option(status_options(fields), closed[j]@),
    ensures
        !columns_resolvable(fields, closed, open),
{
}

/// The same for an open column name.
pub proof fn lemma_unknown_open_column_is_fatal(
    fields: Seq<Field>,
    closed: Seq<String>,
    open: Seq<String>,
    j: int,
)
    requires
        0 <= j < open.len(),
        !has_option(status_options(fields), open[j]@),
    ensures
        !columns_resolvable(fields, closed, open),
{
}

} // verus!
