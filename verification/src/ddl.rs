//! Construction of the statements delivered to the relational store: the
//! create-if-absent / truncate pair, and the bulk-import statement.
//!
//! Every column is typed as unconstrained text: inbound data is free-form
//! text at this layer, and type refinement is out of scope. The import
//! statement designates the backspace character as the quote character on the
//! assumption that it never appears in legitimate fields (the source format
//! has no real quoting); input that did contain it would corrupt the import.

use vstd::prelude::*;
use vstd::string::*;

verus! {

/// The column list of a create statement: each column name followed by the
/// text type, the columns separated by commas, in the given order.
pub open spec fn column_clause(cols: Seq<Seq<char>>) -> Seq<char>
    decreases cols.len(),
{
    if cols.len() == 0 {
        Seq::empty()
    } else if cols.len() == 1 {
        cols[0] + " TEXT"@
    } else {
        column_clause(cols.drop_last()) + ","@ + cols.last() + " TEXT"@
    }
}

/// Creates the table only when it does not already exist, so that a re-run
/// leaves an existing table's schema untouched.
pub open spec fn create_statement(name: Seq<char>, cols: Seq<Seq<char>>) -> Seq<char> {
    "CREATE TABLE IF NOT EXISTS "@ + name + " ("@ + column_clause(cols) + ")"@
}

/// Unconditionally clears the table's prior contents.
pub open spec fn truncate_statement(name: Seq<char>) -> Seq<char> {
    "TRUNCATE "@ + name
}

/// The two provisioning statements joined in one string: create-if-absent,
/// then truncate. Safe to execute repeatedly against the same store.
pub open spec fn ddl_statements(name: Seq<char>, cols: Seq<Seq<char>>) -> Seq<char> {
    create_statement(name, cols) + "; "@ + truncate_statement(name) + ";"@
}

/// Builds the provisioning statements for `table_name` with the given
/// columns, every column typed as text, in the given order.
pub fn get_create_table_query(table_name: &str, columns: &Vec<String>) -> (q: String)
    ensures
        q@ == ddl_statements(table_name@, columns@.map_values(|c: String| c@)),
{
    let ghost views = columns@.map_values(|c: String| c@);
    let mut clause = String::new();
    let mut i: usize = 0;
    proof {
        assert(clause@ =~= column_clause(views.take(0)));
    }
    while i < columns.len()
        invariant
            0 <= i <= columns.len(),
            views == columns@.map_values(|c: String| c@),
            views.len() == columns@.len(),
            clause@ == column_clause(views.take(i as int)),
        decreases columns.len() - i,
    {
        if i != 0 {
            clause.append(",");
        }
        clause.append(columns[i].as_str());
        clause.append(" TEXT");
        proof {
            assert(views.take(i + 1).drop_last() =~~= views.take(i as int));
            assert(views.take(i + 1).last() == views[i as int]);
        }
        i += 1;
    }
    proof {
        assert(views.take(views.len() as int) =~~= views);
    }
    let mut q = "CREATE TABLE IF NOT EXISTS ".to_owned();
    q.append(table_name);
    q.append(" (");
    q.append(clause.as_str());
    q.append(")");
    q.append("; ");
    q.append("TRUNCATE ");
    q.append(table_name);
    q.append(";");
    proof {
        assert(q@ =~= ddl_statements(table_name@, views));
    }
    q
}

/// The bulk-import statement: load `path`'s rows into `name`, tab-delimited,
/// skipping the header row, with the backspace quote character and the fixed
/// NULL token.
pub open spec fn copy_statement_spec(name: Seq<char>, path: Seq<char>) -> Seq<char> {
    "\\COPY "@ + name + " FROM '"@ + path
        + "' WITH DELIMITER E'\\t' QUOTE E'\\b' NULL AS '\\N' CSV HEADER"@
}

pub fn copy_statement(table_name: &str, path: &str) -> (q: String)
    ensures
        q@ == copy_statement_spec(table_name@, path@),
{
    let mut q = "\\COPY ".to_owned();
    q.append(table_name);
    q.append(" FROM '");
    q.append(path);
    q.append("' WITH DELIMITER E'\\t' QUOTE E'\\b' NULL AS '\\N' CSV HEADER");
    proof {
        assert(q@ =~= copy_statement_spec(table_name@, path@));
    }
    q
}

} // verus!
