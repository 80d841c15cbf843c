use octocrab::models::IssueState as Octo;
use project_issue_state_sync::classifier::{decide, ensure_issue_state, first_match, plan_items, Decision, Mutation};
use project_issue_state_sync::driver::Reconciler;
use project_issue_state_sync::error::{ConfigError, LookupError, ReconcileError};
use project_issue_state_sync::raw_response;
use project_issue_state_sync::resolver::{find_status_field, get_option_ids, resolve_columns};
use project_issue_state_sync::response::{
    Field, FieldOption, FieldValue, Issue, IssueState, Item, PageInfo, Project, Repository,
};

fn s(x: &str) -> String {
    x.to_string()
}

fn names(xs: &[&str]) -> Vec<String> {
    xs.iter().map(|x| s(x)).collect()
}

fn option(id: &str, name: &str) -> FieldOption {
    FieldOption { id: s(id), name: s(name) }
}

fn status_field() -> Field {
    Field {
        name: s("Status"),
        options: vec![option("A", "a"), option("B", "b"), option("X", "Done"), option("Y", "Todo")],
    }
}

fn issue(number: u64, state: IssueState) -> Issue {
    Issue {
        id: format!("I_{}", number),
        number,
        title: format!("issue {}", number),
        state,
        repository: Repository { id: s("R_1"), name: s("repo"), owner: s("octo") },
    }
}

fn item(number: u64, option_id: &str, state: IssueState) -> Item {
    Item {
        field_values: vec![FieldValue { name: s("col"), option_id: s(option_id) }],
        id: format!("PVTI_{}", number),
        issue: issue(number, state),
    }
}

fn raw_item(number: u64, option_id: Option<&str>, state: Option<IssueState>) -> raw_response::Item {
    raw_response::Item {
        field_values: raw_response::FieldValues {
            nodes: vec![raw_response::FieldValue {
                name: Some(s("col")),
                option_id: option_id.map(s),
            }],
        },
        id: format!("PVTI_{}", number),
        issue: state.map(|st| issue(number, st)),
    }
}

fn raw_status_fields() -> raw_response::Fields {
    raw_response::Fields {
        nodes: vec![
            raw_response::Field { name: Some(s("Title")), options: None },
            raw_response::Field {
                name: Some(s("Status")),
                options: Some(vec![option("X", "Done"), option("Y", "Todo"), option("Z", "Backlog")]),
            },
        ],
    }
}

fn page(items: Vec<raw_response::Item>, has_next_page: bool, cursor: &str) -> raw_response::Response {
    raw_response::Response {
        data: raw_response::ResponseData {
            repository_owner: Some(raw_response::Owner {
                project: Some(raw_response::Project {
                    title: s("Board"),
                    fields: raw_status_fields(),
                    items: raw_response::Items {
                        nodes: items,
                        page_info: PageInfo { end_cursor: Some(s(cursor)), has_next_page },
                    },
                }),
            }),
        },
    }
}

fn key(m: &Mutation) -> (u64, IssueState, String) {
    (m.number, m.desired, m.column.clone())
}

fn board_items() -> Vec<(u64, &'static str, IssueState)> {
    vec![
        (1, "X", IssueState::Open),
        (2, "X", IssueState::Closed),
        (3, "Y", IssueState::Closed),
        (4, "Z", IssueState::Closed),
        (5, "Y", IssueState::Open),
        (6, "X", IssueState::Open),
        (7, "Y", IssueState::Closed),
    ]
}

fn run(pages: Vec<raw_response::Response>) -> Vec<(u64, IssueState, String)> {
    let mut d = Reconciler::new(names(&["Done"]), names(&["Todo"])).unwrap();
    let mut out = Vec::new();
    for p in pages {
        let plan = d.on_page(p).unwrap();
        out.extend(plan.mutations.iter().map(key));
    }
    out
}

#[test]
fn resolver_returns_matching_id_only() {
    let ids = get_option_ids(&status_field(), &names(&["a"])).unwrap();
    assert_eq!(ids, names(&["A"]));
}

#[test]
fn resolver_absent_name_is_fatal() {
    match get_option_ids(&status_field(), &names(&["c"])) {
        Err(ConfigError::ColumnNotFound(n)) => assert_eq!(n, "c"),
        other => panic!("unexpected {:?}", other.is_ok()),
    }
}

#[test]
fn resolver_keeps_order_and_duplicates() {
    let ids = get_option_ids(&status_field(), &names(&["b", "a", "b"])).unwrap();
    assert_eq!(ids, names(&["B", "A", "B"]));
}

#[test]
fn resolver_empty_names_give_empty_ids() {
    let ids = get_option_ids(&status_field(), &Vec::new()).unwrap();
    assert!(ids.is_empty());
}

#[test]
fn resolver_is_case_sensitive() {
    assert!(get_option_ids(&status_field(), &names(&["A"])).is_err());
}

#[test]
fn resolver_reports_first_missing_name() {
    match get_option_ids(&status_field(), &names(&["a", "nope", "gone"])) {
        Err(ConfigError::ColumnNotFound(n)) => assert_eq!(n, "nope"),
        _ => panic!("expected ColumnNotFound"),
    }
}

#[test]
fn status_field_is_found_by_name() {
    let fields = vec![Field { name: s("Priority"), options: vec![] }, status_field()];
    assert_eq!(find_status_field(&fields), Some(1));
    assert_eq!(find_status_field(&fields[..1].to_vec()), None);
}

#[test]
fn missing_status_field_is_a_lookup_error() {
    let fields = vec![Field { name: s("Priority"), options: vec![option("A", "a")] }];
    match resolve_columns(&fields, &names(&["a"]), &Vec::new()) {
        Err(ReconcileError::Lookup(LookupError::StatusFieldMissing)) => {}
        _ => panic!("expected StatusFieldMissing"),
    }
}

#[test]
fn overlapping_columns_are_rejected() {
    let fields = vec![status_field()];
    match resolve_columns(&fields, &names(&["a", "Done"]), &names(&["Todo", "Done"])) {
        Err(ReconcileError::Config(ConfigError::OverlappingColumns(n))) => assert_eq!(n, "Done"),
        _ => panic!("expected OverlappingColumns"),
    }
}

#[test]
fn resolve_columns_resolves_both_directions() {
    let fields = vec![status_field()];
    let c = resolve_columns(&fields, &names(&["Done", "a"]), &names(&["Todo"])).ok().unwrap();
    assert_eq!(c.closed_ids, names(&["X", "A"]));
    assert_eq!(c.open_ids, names(&["Y"]));
}

#[test]
fn classifier_closes_open_issue_in_closed_column() {
    let closed = names(&["X"]);
    let open = names(&["Y"]);
    let it = item(1, "X", IssueState::Open);
    assert_eq!(decide(&it, IssueState::Closed, &closed), Decision::Close);
    assert_eq!(decide(&it, IssueState::Open, &open), Decision::NoAction);
}

#[test]
fn classifier_leaves_closed_issue_in_closed_column() {
    let it = item(1, "X", IssueState::Closed);
    assert_eq!(decide(&it, IssueState::Closed, &names(&["X"])), Decision::NoAction);
}

#[test]
fn classifier_reopens_closed_issue_in_open_column() {
    let it = item(1, "Y", IssueState::Closed);
    assert_eq!(decide(&it, IssueState::Open, &names(&["Y"])), Decision::Reopen);
}

#[test]
fn classifier_ignores_other_columns() {
    for st in [IssueState::Open, IssueState::Closed] {
        let it = item(1, "Z", st);
        assert_eq!(decide(&it, IssueState::Closed, &names(&["X"])), Decision::NoAction);
        assert_eq!(decide(&it, IssueState::Open, &names(&["Y"])), Decision::NoAction);
    }
}

#[test]
fn empty_open_set_never_reopens() {
    let it = item(1, "Y", IssueState::Closed);
    assert_eq!(decide(&it, IssueState::Open, &Vec::new()), Decision::NoAction);
    let items = vec![item(1, "Y", IssueState::Closed), item(2, "X", IssueState::Open)];
    let ms = plan_items(&items, &names(&["X"]), &Vec::new());
    assert_eq!(ms.len(), 1);
    assert_eq!(ms[0].desired, IssueState::Closed);
}

#[test]
fn first_matching_column_names_the_mutation() {
    let it = Item {
        field_values: vec![
            FieldValue { name: s("Other"), option_id: s("Q") },
            FieldValue { name: s("Done"), option_id: s("X") },
            FieldValue { name: s("Done too"), option_id: s("X2") },
        ],
        id: s("PVTI_9"),
        issue: issue(9, IssueState::Open),
    };
    let ids = names(&["X2", "X"]);
    assert_eq!(first_match(&it.field_values, &ids), Some(1));
    let m = ensure_issue_state(&it, IssueState::Closed, &ids).unwrap();
    assert_eq!(m.column, "Done");
    assert_eq!(m.number, 9);
    assert_eq!(m.owner, "octo");
    assert_eq!(m.repository, "repo");
    assert_eq!(m.title, "issue 9");
    assert_eq!(m.current, IssueState::Open);
    assert_eq!(m.desired, IssueState::Closed);
}

#[test]
fn malformed_records_are_dropped() {
    let raw = raw_response::Project {
        title: s("Board"),
        fields: raw_status_fields(),
        items: raw_response::Items {
            nodes: vec![
                raw_item(1, Some("X"), None),
                raw_item(2, None, Some(IssueState::Open)),
                raw_item(3, Some("X"), Some(IssueState::Open)),
                raw_item(4, Some("Y"), Some(IssueState::Closed)),
            ],
            page_info: PageInfo { end_cursor: None, has_next_page: false },
        },
    };
    let p = Project::from_raw(raw);
    assert_eq!(p.fields.len(), 1);
    assert_eq!(p.fields[0].name, "Status");
    let numbers: Vec<u64> = p.items.iter().map(|i| i.issue.number).collect();
    assert_eq!(numbers, vec![2, 3, 4]);
    assert!(p.items[0].field_values.is_empty());
    let ms = plan_items(&p.items, &names(&["X"]), &names(&["Y"]));
    let got: Vec<(u64, IssueState)> = ms.iter().map(|m| (m.number, m.desired)).collect();
    assert_eq!(got, vec![(3, IssueState::Closed), (4, IssueState::Open)]);
}

#[test]
fn pagination_does_not_change_decisions() {
    let mk = |range: &[(u64, &str, IssueState)]| -> Vec<raw_response::Item> {
        range.iter().map(|(n, c, st)| raw_item(*n, Some(c), Some(*st))).collect()
    };
    let all = board_items();
    let one = run(vec![page(mk(&all), false, "c1")]);
    let split = run(vec![
        page(mk(&all[..2]), true, "c1"),
        page(mk(&all[2..3]), true, "c2"),
        page(mk(&all[3..]), false, "c3"),
    ]);
    assert_eq!(one, split);
    assert_eq!(
        one.iter().map(|k| (k.0, k.1)).collect::<Vec<_>>(),
        vec![
            (1, IssueState::Closed),
            (3, IssueState::Open),
            (6, IssueState::Closed),
            (7, IssueState::Open)
        ]
    );
}

#[test]
fn page_info_is_forwarded() {
    let mut d = Reconciler::new(names(&["Done"]), Vec::new()).unwrap();
    let plan = d.on_page(page(vec![], true, "abc")).unwrap();
    assert_eq!(plan.title, "Board");
    assert!(plan.page_info.has_next_page);
    assert_eq!(plan.page_info.end_cursor, Some(s("abc")));
}

#[test]
fn second_run_after_mutations_changes_nothing() {
    let items: Vec<Item> = board_items().into_iter().map(|(n, c, st)| item(n, c, st)).collect();
    let closed = names(&["X"]);
    let open = names(&["Y"]);
    let first = plan_items(&items, &closed, &open);
    assert_eq!(first.len(), 4);
    let after: Vec<Item> = items
        .into_iter()
        .map(|mut it| {
            if let Some(m) = first.iter().find(|m| m.number == it.issue.number) {
                it.issue.state = m.desired;
            }
            it
        })
        .collect();
    assert!(plan_items(&after, &closed, &open).is_empty());
}

#[test]
fn invalid_closed_column_fails_before_any_mutation() {
    let mut d = Reconciler::new(names(&["Done", "Nope"]), Vec::new()).unwrap();
    let items = vec![raw_item(1, Some("X"), Some(IssueState::Open))];
    match d.on_page(page(items, false, "c")) {
        Err(ReconcileError::Config(ConfigError::ColumnNotFound(n))) => assert_eq!(n, "Nope"),
        _ => panic!("expected ColumnNotFound"),
    }
}

#[test]
fn no_columns_configured_is_rejected() {
    match Reconciler::new(Vec::new(), Vec::new()) {
        Err(ReconcileError::Config(ConfigError::NoColumnsConfigured)) => {}
        _ => panic!("expected NoColumnsConfigured"),
    }
}

#[test]
fn missing_owner_is_reported() {
    let mut d = Reconciler::new(names(&["Done"]), Vec::new()).unwrap();
    let r = raw_response::Response { data: raw_response::ResponseData { repository_owner: None } };
    assert!(matches!(d.on_page(r), Err(ReconcileError::Lookup(LookupError::OwnerNotFound))));
}

#[test]
fn missing_project_is_reported() {
    let mut d = Reconciler::new(names(&["Done"]), Vec::new()).unwrap();
    let r = raw_response::Response {
        data: raw_response::ResponseData {
            repository_owner: Some(raw_response::Owner { project: None }),
        },
    };
    assert!(matches!(d.on_page(r), Err(ReconcileError::Lookup(LookupError::ProjectNotFound))));
}

#[test]
fn issue_state_conversions() {
    assert_eq!(Octo::from(IssueState::Open), Octo::Open);
    assert_eq!(Octo::from(IssueState::Closed), Octo::Closed);
    assert_eq!(IssueState::from_octocrab(&Octo::Open), Some(IssueState::Open));
    assert_eq!(IssueState::from_octocrab(&Octo::Closed), Some(IssueState::Closed));
    assert_eq!(IssueState::Open.as_lowercase(), "open");
    assert_eq!(IssueState::Closed.as_lowercase(), "closed");
}
