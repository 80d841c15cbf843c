//! The decisions of one reconciliation run. The caller fetches pages and
//! applies mutations; the driver validates the configuration, resolves the
//! columns once, and plans the mutations of every page it is handed.
use vstd::prelude::*;
use crate::classifier::{Mutation, planned, plan_items};
use crate::laws::lemma_planned_concat;
use crate::error::{ConfigError, ReconcileError};
use crate::raw_response::Response;
use crate::resolver::{
    ResolvedColumns, all_resolvable, has_status_field, resolve_columns, resolved_ids, shares_id,
    status_options,
};
use crate::response::{
    Field, ItemView, PageInfo, Project, item_views, normalized_fields, normalized_items,
};

verus! {

/// The configured columns can be applied to a board with these fields.
pub open spec fn columns_resolvable(
    fields: Seq<Field>,
    closed: Seq<String>,
    open: Seq<String>,
) -> bool {
    let options = status_options(fields);
    &&& has_status_field(fields)
    &&& all_resolvable(options, closed)
    &&& all_resolvable(options, open)
    &&& !shares_id(resolved_ids(options, closed), resolved_ids(options, open))
}

/// What the caller is to do with one page.
pub struct PagePlan {
    /// The project's title.
    pub title: String,
    /// The state changes to apply, in order, stopping at the first failure.
    pub mutations: Vec<Mutation>,
    /// Where the next page starts, and whether there is one.
    pub page_info: PageInfo,
}

/// The state of one run.
pub struct Reconciler {
    closed_columns: Vec<String>,
    open_columns: Vec<String>,
    columns: Option<ResolvedColumns>,
    seen: Ghost<Seq<ItemView>>,
    emitted: Ghost<Seq<Mutation>>,
}

impl Reconciler {
    /// The configured closed column names.
    pub closed spec fn closed_columns(&self) -> Seq<String> {
        self.closed_columns@
    }

    /// The configured open column names.
    pub closed spec fn open_columns(&self) -> Seq<String> {
        self.open_columns@
    }

    /// Whether the columns have been resolved (on the first page).
    pub closed spec fn is_resolved(&self) -> bool {
        self.columns is Some
    }

    /// The resolved closed column ids.
    pub closed spec fn closed_ids(&self) -> Seq<String> {
        self.columns->0.closed_ids@
    }

    /// The resolved open column ids.
    pub closed spec fn open_ids(&self) -> Seq<String> {
        self.columns->0.open_ids@
    }

    /// Every item classified so far, in order.
    pub closed spec fn seen(&self) -> Seq<ItemView> {
        self.seen@
    }

    /// Every mutation planned so far, in order.
    pub closed spec fn emitted(&self) -> Seq<Mutation> {
        self.emitted@
    }

    /// Nothing is classified before the columns are resolved, and what was
    /// planned is exactly the plan of what was seen.
    pub closed spec fn wf(&self) -> bool {
        &&& !self.is_resolved() ==> self.seen@ == Seq::<ItemView>::empty()
        &&& self.emitted@ == planned(self.seen@, self.closed_ids(), self.open_ids())
    }

    /// At every point of a run, the mutations planned so far are exactly
    /// the plan of the items seen so far, each item once, in order.
    pub proof fn lemma_run_plans_every_seen_item(&self)
        requires
            self.wf(),
        ensures
            self.emitted() == planned(self.seen(), self.closed_ids(), self.open_ids()),
    {
    }

    /// Starts a run; fails when neither closed nor open columns are given.
    pub fn new(
        closed_columns: Vec<String>,
        open_columns: Vec<String>,
    ) -> (r: Result<Reconciler, ReconcileError>)
        ensures
            closed_columns@.len() == 0 && open_columns@.len() == 0 <==> r is Err,
            r matches Err(e) ==> e == ReconcileError::Config(ConfigError::NoColumnsConfigured),
            r matches Ok(d) ==> d.wf() && !d.is_resolved() && d.closed_columns() == closed_columns@
                && d.open_columns() == open_columns@ && d.seen() == Seq::<ItemView>::empty()
                && d.emitted() == Seq::<Mutation>::empty(),
    {
        if closed_columns.len() == 0 && open_columns.len() == 0 {
            return Err(ReconcileError::Config(ConfigError::NoColumnsConfigured));
        }
        let r = Reconciler {
            closed_columns,
            open_columns,
            columns: None,
            seen: Ghost(Seq::empty()),
            emitted: Ghost(Seq::empty()),
        };
        proof {
            assert(planned(Seq::<ItemView>::empty(), r.closed_ids(), r.open_ids()) =~= Seq::<
                Mutation,
            >::empty());
        }
        Ok(r)
    }

    /// Takes the answer to one page query. Fails when the owner or project
    /// does not exist, or, on the first page, when the columns cannot be
    /// resolved against the status field; otherwise plans the page's
    /// mutations from its normalized items.
    pub fn on_page(&mut self, response: Response) -> (r: Result<PagePlan, ReconcileError>)
        requires
            old(self).wf(),
        ensures
            final(self).wf(),
            final(self).closed_columns() == old(self).closed_columns(),
            final(self).open_columns() == old(self).open_columns(),
            old(self).is_resolved() ==> final(self).is_resolved() && final(self).closed_ids() == old(
                self,
            ).closed_ids() && final(self).open_ids() == old(self).open_ids(),
            r is Err ==> final(self).seen() == old(self).seen() && final(self).emitted() == old(
                self,
            ).emitted() && final(self).is_resolved() == old(self).is_resolved(),
            match response.data.repository_owner {
                None => r == Err::<PagePlan, ReconcileError>(
                    ReconcileError::Lookup(crate::error::LookupError::OwnerNotFound),
                ),
                Some(o) => match o.project {
                    None => r == Err::<PagePlan, ReconcileError>(
                        ReconcileError::Lookup(crate::error::LookupError::ProjectNotFound),
                    ),
                    Some(p) => {
                        let fields = normalized_fields(p.fields.nodes@);
                        let items = normalized_items(p.items.nodes@);
                        &&& !old(self).is_resolved() ==> (r is Ok <==> columns_resolvable(
                            fields,
                            old(self).closed_columns(),
                            old(self).open_columns(),
                        ))
                        &&& !old(self).is_resolved() && r is Ok ==> final(self).closed_ids()
                            == resolved_ids(status_options(fields), old(self).closed_columns())
                            && final(self).open_ids() == resolved_ids(
                            status_options(fields),
                            old(self).open_columns(),
                        )
                        &&& !old(self).is_resolved() && !has_status_field(fields) ==> r == Err::<
                            PagePlan,
                            ReconcileError,
                        >(ReconcileError::Lookup(crate::error::LookupError::StatusFieldMissing))
                        &&& !old(self).is_resolved() && has_status_field(fields)
                            && !columns_resolvable(
                            fields,
                            old(self).closed_columns(),
                            old(self).open_columns(),
                        ) ==> (r matches Err(e) && e is Config)
                        &&& old(self).is_resolved() ==> r is Ok
                        &&& r matches Ok(plan) ==> {
                            &&& final(self).is_resolved()
                            &&& plan.title == p.title
                            &&& plan.page_info == p.items.page_info
                            &&& plan.mutations@ == planned(
                                items,
                                final(self).closed_ids(),
                                final(self).open_ids(),
                            )
                            &&& final(self).seen() == old(self).seen() + items
                            &&& final(self).emitted() == old(self).emitted() + plan.mutations@
                        }
                    },
                },
            },
    {
        let project = match Project::from_response(response) {
            Ok(p) => p,
            Err(e) => {
                return Err(ReconcileError::Lookup(e));
            },
        };
        let columns = match self.columns.take() {
            Some(c) => c,
            None => match resolve_columns(&project.fields, &self.closed_columns, &self.open_columns) {
                Ok(c) => c,
                Err(e) => {
                    return Err(e);
                },
            },
        };
        let mutations = plan_items(&project.items, &columns.closed_ids, &columns.open_ids);
        proof {
            lemma_planned_concat(
                self.seen@,
                item_views(project.items@),
                columns.closed_ids@,
                columns.open_ids@,
            );
        }
        self.columns = Some(columns);
        self.seen = Ghost(self.seen@ + item_views(project.items@));
        self.emitted = Ghost(self.emitted@ + mutations@);
        Ok(PagePlan { title: project.title, mutations, page_info: project.page_info })
    }
}

} // verus!
