//! A mathematical model of what the issued statements do to the relational
//! store, matching the statement builders: [`crate::ddl::create_statement`]
//! creates a table only when absent, [`crate::ddl::truncate_statement`]
//! clears its rows, and the bulk-import statement appends the file's data
//! rows. The store's execution engine itself is an external collaborator;
//! this model records the semantics the statements are built for, and the
//! lemmas prove the load-vs-replace design against it: provisioning is
//! idempotent, and re-running a dataset leaves only the latest rows.

use vstd::prelude::*;

verus! {

/// One table of the store: its declared columns and its current rows. A
/// row's field is `None` where the store resolved the NULL token.
pub struct TableModel {
    pub columns: Seq<Seq<char>>,
    pub rows: Seq<Seq<Option<Seq<char>>>>,
}

/// The store after a create-if-absent statement: an existing table, whatever
/// its schema, is left untouched; otherwise an empty table with the given
/// columns appears.
pub open spec fn apply_create_if_absent(
    store: Map<Seq<char>, TableModel>,
    name: Seq<char>,
    columns: Seq<Seq<char>>,
) -> Map<Seq<char>, TableModel> {
    if store.dom().contains(name) {
        store
    } else {
        store.insert(name, TableModel { columns, rows: Seq::empty() })
    }
}

/// The store after a truncate statement: the table's rows are cleared, its
/// schema kept.
pub open spec fn apply_truncate(store: Map<Seq<char>, TableModel>, name: Seq<char>) -> Map<
    Seq<char>,
    TableModel,
> {
    if store.dom().contains(name) {
        store.insert(name, TableModel { columns: store[name].columns, rows: Seq::empty() })
    } else {
        store
    }
}

/// The store after a bulk-import statement: the file's data rows are
/// appended to the table.
pub open spec fn apply_copy(
    store: Map<Seq<char>, TableModel>,
    name: Seq<char>,
    rows: Seq<Seq<Option<Seq<char>>>>,
) -> Map<Seq<char>, TableModel> {
    if store.dom().contains(name) {
        store.insert(
            name,
            TableModel { columns: store[name].columns, rows: store[name].rows + rows },
        )
    } else {
        store
    }
}

/// The full statement sequence one dataset delivers to the store, in order:
/// create-if-absent, truncate, bulk import.
pub open spec fn apply_load(
    store: Map<Seq<char>, TableModel>,
    name: Seq<char>,
    columns: Seq<Seq<char>>,
    rows: Seq<Seq<Option<Seq<char>>>>,
) -> Map<Seq<char>, TableModel> {
    apply_copy(apply_truncate(apply_create_if_absent(store, name, columns), name), name, rows)
}

/// Provisioning is idempotent at the schema level: issuing the
/// create-if-absent statement twice with the same inputs leaves the store as
/// one issue does, so the statement pair is safe to execute repeatedly.
pub proof fn lemma_create_if_absent_idempotent(
    store: Map<Seq<char>, TableModel>,
    name: Seq<char>,
    columns: Seq<Seq<char>>,
)
    ensures
        apply_create_if_absent(apply_create_if_absent(store, name, columns), name, columns)
            == apply_create_if_absent(store, name, columns),
{
}

/// After one dataset's statement sequence, its table exists and holds
/// exactly the loaded rows — no prior row survives, none is duplicated —
/// under the prior schema when the table already existed, else under the
/// given columns.
pub proof fn lemma_load_sets_rows(
    store: Map<Seq<char>, TableModel>,
    name: Seq<char>,
    columns: Seq<Seq<char>>,
    rows: Seq<Seq<Option<Seq<char>>>>,
)
    ensures
        apply_load(store, name, columns, rows).dom().contains(name),
        apply_load(store, name, columns, rows)[name].rows == rows,
        apply_load(store, name, columns, rows)[name].columns == (
        if store.dom().contains(name) {
            store[name].columns
        } else {
            columns
        }),
{
    assert(Seq::<Seq<Option<Seq<char>>>>::empty() + rows =~= rows);
}

/// Re-running a dataset's whole statement sequence replaces the prior run's
/// rows instead of adding to them: two loads in a row leave the store
/// exactly as the second load alone would.
pub proof fn lemma_reload_replaces(
    store: Map<Seq<char>, TableModel>,
    name: Seq<char>,
    columns: Seq<Seq<char>>,
    rows1: Seq<Seq<Option<Seq<char>>>>,
    rows2: Seq<Seq<Option<Seq<char>>>>,
)
    ensures
        apply_load(apply_load(store, name, columns, rows1), name, columns, rows2) == apply_load(
            store,
            name,
            columns,
            rows2,
        ),
{
    lemma_load_sets_rows(store, name, columns, rows1);
    assert(apply_load(apply_load(store, name, columns, rows1), name, columns, rows2)
        =~= apply_load(store, name, columns, rows2));
}

} // verus!
