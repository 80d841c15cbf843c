//! Resolves configured column names to the option ids of the board's
//! status field.
use vstd::prelude::*;
use crate::error::{ConfigError, LookupError, ReconcileError};
use crate::response::{Field, FieldOption};

verus! {

/// The name of the field whose options are the board's columns.
pub open spec fn status_name() -> Seq<char> {
    seq!['S', 't', 'a', 't', 'u', 's']
}

/// Field `i` is the first one named "Status".
pub open spec fn is_first_status_field(fields: Seq<Field>, i: int) -> bool {
    &&& 0 <= i < fields.len()
    &&& fields[i].name@ == status_name()
    &&& forall|k: int| 0 <= k < i ==> fields[k].name@ != status_name()
}

pub open spec fn has_status_field(fields: Seq<Field>) -> bool {
    exists|i: int| 0 <= i < fields.len() && fields[i].name@ == status_name()
}

/// The options (columns) of the first field named "Status".
pub open spec fn status_options(fields: Seq<Field>) -> Seq<FieldOption> {
    fields[choose|i: int| is_first_status_field(fields, i)].options@
}

/// Option `i` is the first one with the given name.
pub open spec fn is_first_option(options: Seq<FieldOption>, name: Seq<char>, i: int) -> bool {
    &&& 0 <= i < options.len()
    &&& options[i].name@ == name
    &&& forall|k: int| 0 <= k < i ==> options[k].name@ != name
}

pub open spec fn has_option(options: Seq<FieldOption>, name: Seq<char>) -> bool {
    exists|i: int| 0 <= i < options.len() && options[i].name@ == name
}

/// The id of the first option with the given name.
pub open spec fn option_id(options: Seq<FieldOption>, name: Seq<char>) -> String {
    options[choose|i: int| is_first_option(options, name, i)].id
}

/// Every name has an option.
pub open spec fn all_resolvable(options: Seq<FieldOption>, names: Seq<String>) -> bool {
    forall|j: int| 0 <= j < names.len() ==> has_option(options, #[trigger] names[j]@)
}

/// Name `j` is the first one without an option.
pub open spec fn is_first_unresolvable(
    options: Seq<FieldOption>,
    names: Seq<String>,
    j: int,
) -> bool {
    &&& 0 <= j < names.len()
    &&& !has_option(options, names[j]@)
    &&& forall|k: int| 0 <= k < j ==> has_option(options, #[trigger] names[k]@)
}

/// The option ids of the names, in their order, duplicates kept.
pub open spec fn resolved_ids(options: Seq<FieldOption>, names: Seq<String>) -> Seq<String> {
    names.map_values(|n: String| option_id(options, n@))
}

/// The index of the first field named "Status", if any.
pub fn find_status_field(fields: &Vec<Field>) -> (r: Option<usize>)
    ensures
        match r {
            Some(i) => is_first_status_field(fields@, i as int),
            None => !has_status_field(fields@),
        },
{
    let status = "Status".to_string();
    proof {
        reveal_strlit("Status");
        assert(status@ == status_name());
    }
    let mut i: usize = 0;
    while i < fields.len()
        invariant
            i <= fields.len(),
            status@ == status_name(),
            forall|k: int| 0 <= k < i ==> fields@[k].name@ != status_name(),
        decreases fields.len() - i,
    {
        if fields[i].name == status {
            return Some(i);
        }
        i = i + 1;
    }
    None
}

/// The index of the first option with the given name, if any.
pub fn find_option(options: &Vec<FieldOption>, name: &String) -> (r: Option<usize>)
    ensures
        match r {
            Some(i) => is_first_option(options@, name@, i as int),
            None => !has_option(options@, name@),
        },
{
    let mut i: usize = 0;
    while i < options.len()
        invariant
            i <= options.len(),
            forall|k: int| 0 <= k < i ==> options@[k].name@ != name@,
        decreases options.len() - i,
    {
        if options[i].name == *name {
            return Some(i);
        }
        i = i + 1;
    }
    None
}


/// Resolves each name to the id of the first status option with that name,
/// keeping order and duplicates; fails on the first name that has none.
pub fn get_option_ids(
    status_field: &Field,
    statuses: &Vec<String>,
) -> (r: Result<Vec<String>, ConfigError>)
    ensures
        r is Ok <==> all_resolvable(status_field.options@, statuses@),
        match r {
            Ok(ids) => ids@ == resolved_ids(status_field.options@, statuses@),
            Err(e) => exists|j: int|
                is_first_unresolvable(status_field.options@, statuses@, j) && e
                    == ConfigError::ColumnNotFound(statuses@[j]),
        },
{
    let ghost options = status_field.options@;
    let mut ids: Vec<String> = Vec::new();
    let mut j: usize = 0;
    while j < statuses.len()
        invariant
            j <= statuses.len(),
            options == status_field.options@,
            forall|k: int| 0 <= k < j ==> has_option(options, #[trigger] statuses@[k]@),
            ids@ == resolved_ids(options, statuses@.take(j as int)),
        decreases statuses.len() - j,
    {
        match find_option(&status_field.options, &statuses[j]) {
            Some(i) => {
                let id = status_field.options[i].id.clone();
                proof {
                    let c = choose|c: int| is_first_option(options, statuses@[j as int]@, c);
                    assert(is_first_option(options, statuses@[j as int]@, c));
                    assert(c == i);
                    assert(resolved_ids(options, statuses@.take(j + 1)) =~= resolved_ids(
                        options,
                        statuses@.take(j as int),
                    ).push(id));
                }
                ids.push(id);
            },
            None => {
                proof {
                    assert(is_first_unresolvable(options, statuses@, j as int));
                }
                return Err(ConfigError::ColumnNotFound(statuses[j].clone()));
            },
        }
        j = j + 1;
    }
    proof {
        assert(statuses@.take(statuses.len() as int) =~= statuses@);
    }
    Ok(ids)
}

/// The two configured column sets, resolved to option ids.
pub struct ResolvedColumns {
    pub closed_ids: Vec<String>,
    pub open_ids: Vec<String>,
}

/// Some id occurs in both sequences.
pub open spec fn shares_id(a: Seq<String>, b: Seq<String>) -> bool {
    exists|j: int, k: int| 0 <= j < a.len() && 0 <= k < b.len() && a[j]@ == b[k]@
}

/// `a[j]` occurs in `b`.
pub open spec fn id_in(a: Seq<String>, j: int, b: Seq<String>) -> bool {
    exists|k: int| 0 <= k < b.len() && a[j]@ == b[k]@
}

/// The first index of `a` whose id is also in `b`, if any.
fn first_shared(a: &Vec<String>, b: &Vec<String>) -> (r: Option<usize>)
    ensures
        match r {
            Some(j) => j < a.len() && id_in(a@, j as int, b@),
            None => !shares_id(a@, b@),
        },
{
    let mut j: usize = 0;
    while j < a.len()
        invariant
            j <= a.len(),
            forall|x: int, k: int| 0 <= x < j && 0 <= k < b.len() ==> a@[x]@ != b@[k]@,
        decreases a.len() - j,
    {
        let mut k: usize = 0;
        while k < b.len()
            invariant
                j < a.len(),
                k <= b.len(),
                forall|x: int, y: int| 0 <= x < j && 0 <= y < b.len() ==> a@[x]@ != b@[y]@,
                forall|y: int| 0 <= y < k ==> a@[j as int]@ != b@[y]@,
            decreases b.len() - k,
        {
            if a[j] == b[k] {
                return Some(j);
            }
            k = k + 1;
        }
        j = j + 1;
    }
    None
}

/// Resolves the closed and open column names against the project's status
/// field. Fails when there is no status field, when a name (closed ones
/// first) has no option, or when a closed column's id is also an open one.
pub fn resolve_columns(
    fields: &Vec<Field>,
    closed: &Vec<String>,
    open: &Vec<String>,
) -> (r: Result<ResolvedColumns, ReconcileError>)
    ensures
        !has_status_field(fields@) ==> r == Err::<ResolvedColumns, ReconcileError>(
            ReconcileError::Lookup(LookupError::StatusFieldMissing),
        ),
        has_status_field(fields@) ==> ({
            let options = status_options(fields@);
            let c = resolved_ids(options, closed@);
            let o = resolved_ids(options, open@);
            &&& !all_resolvable(options, closed@) ==> exists|j: int|
                is_first_unresolvable(options, closed@, j) && r == Err::<
                    ResolvedColumns,
                    ReconcileError,
                >(ReconcileError::Config(ConfigError::ColumnNotFound(closed@[j])))
            &&& all_resolvable(options, closed@) && !all_resolvable(options, open@) ==> exists|
                j: int,
            |
                is_first_unresolvable(options, open@, j) && r == Err::<
                    ResolvedColumns,
                    ReconcileError,
                >(ReconcileError::Config(ConfigError::ColumnNotFound(open@[j])))
            &&& all_resolvable(options, closed@) && all_resolvable(options, open@) && shares_id(
                c,
                o,
            ) ==> exists|j: int|
                0 <= j < closed@.len() && id_in(c, j, o) && r == Err::<
                    ResolvedColumns,
                    ReconcileError,
                >(ReconcileError::Config(ConfigError::OverlappingColumns(closed@[j])))
            &&& all_resolvable(options, closed@) && all_resolvable(options, open@) && !shares_id(
                c,
                o,
            ) ==> (r matches Ok(rc) && rc.closed_ids@ == c && rc.open_ids@ == o)
        }),
{
    let i = match find_status_field(fields) {
        Some(i) => i,
        None => {
            return Err(ReconcileError::Lookup(LookupError::StatusFieldMissing));
        },
    };
    proof {
        let c = choose|c: int| is_first_status_field(fields@, c);
        assert(is_first_status_field(fields@, c));
        assert(c == i);
    }
    let status_field = &fields[i];
    let closed_ids = match get_option_ids(status_field, closed) {
        Ok(ids) => ids,
        Err(e) => {
            return Err(ReconcileError::Config(e));
        },
    };
    let open_ids = match get_option_ids(status_field, open) {
        Ok(ids) => ids,
        Err(e) => {
            return Err(ReconcileError::Config(e));
        },
    };
    match first_shared(&closed_ids, &open_ids) {
        Some(j) => Err(ReconcileError::Config(ConfigError::OverlappingColumns(closed[j].clone()))),
        None => Ok(ResolvedColumns { closed_ids, open_ids }),
    }
}

} // verus!
