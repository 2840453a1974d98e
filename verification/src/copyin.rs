//! The record grammar of the bulk-import statement, as
//! [`crate::ddl::copy_statement_spec`] declares it: tab-delimited rows, the
//! first line a header to skip, and the fixed token `\N` read as SQL NULL.
//! [`rows_of_content`] says which rows a file's contents load into the
//! table; [`parse_copy_rows`] computes them, so a run can be checked end to
//! end without a live store.

use vstd::prelude::*;
use vstd::string::*;
use crate::store::{apply_load, TableModel};
use crate::text::{split_on, split_str};

verus! {

/// The value a field takes in the store: the NULL token resolves to SQL
/// NULL, any other text is kept verbatim.
pub open spec fn field_value(f: Seq<char>) -> Option<Seq<char>> {
    if f == "\\N"@ {
        Option::None
    } else {
        Option::Some(f)
    }
}

/// One data line: its tab-separated fields, each resolved.
pub open spec fn row_of_line(line: Seq<char>) -> Seq<Option<Seq<char>>> {
    split_on(line, '\t').map_values(|f: Seq<char>| field_value(f))
}

/// The record lines of a file: all lines but the header, a trailing empty
/// line (left by a final newline) not counting as a record.
pub open spec fn data_lines(content: Seq<char>) -> Seq<Seq<char>> {
    let lines = split_on(content, '\n');
    let records = if lines.len() > 0 && lines.last().len() == 0 {
        lines.drop_last()
    } else {
        lines
    };
    if records.len() == 0 {
        Seq::empty()
    } else {
        records.drop_first()
    }
}

/// The rows the bulk-import statement loads from a file with the given
/// contents.
pub open spec fn rows_of_content(content: Seq<char>) -> Seq<Seq<Option<Seq<char>>>> {
    data_lines(content).map_values(|l: Seq<char>| row_of_line(l))
}

/// Whether `s` is the fixed token recognized as SQL NULL.
pub fn is_null_token(s: &str) -> (r: bool)
    ensures
        r == (s@ == "\\N"@),
{
    proof {
        reveal_strlit("\\N");
    }
    let n = s.unicode_len();
    if n != 2 {
        return false;
    }
    let r = s.get_char(0) == '\\' && s.get_char(1) == 'N';
    proof {
        if r {
            assert(s@ =~= "\\N"@);
        }
    }
    r
}

/// The rows that the bulk-import statement reads out of `content`.
pub fn parse_copy_rows(content: &str) -> (rows: Vec<Vec<Option<String>>>)
    ensures
        rows.deep_view() == rows_of_content(content@),
{
    let mut lines = split_str(content, '\n');
    let ghost all_lines = split_on(content@, '\n');
    proof {
        assert(lines@.map_values(|f: String| f@).last() == all_lines.last());
    }
    if lines[lines.len() - 1].as_str().unicode_len() == 0 {
        lines.pop();
        proof {
            assert(lines@.map_values(|f: String| f@) =~~= all_lines.drop_last());
        }
    }
    let ghost records = lines@.map_values(|f: String| f@);
    proof {
        assert(data_lines(content@) == (
        if records.len() == 0 {
            Seq::<Seq<char>>::empty()
        } else {
            records.drop_first()
        }));
    }
    let mut rows: Vec<Vec<Option<String>>> = Vec::new();
    let mut i: usize = 1;
    while i < lines.len()
        invariant
            1 <= i <= lines.len() || (lines.len() == 0 && i == 1),
            records == lines@.map_values(|f: String| f@),
            records.len() == lines@.len(),
            rows@.len() == i - 1,
            forall|k: int| 0 <= k < i - 1 ==> rows@[k].deep_view() == row_of_line(records[k + 1]),
        decreases lines.len() - i,
    {
        let line = &lines[i];
        let ghost line_view = line@;
        proof {
            assert(line_view == records[i as int]);
        }
        let fields = split_str(line.as_str(), '\t');
        let ghost field_views = fields@.map_values(|f: String| f@);
        let mut row: Vec<Option<String>> = Vec::new();
        let mut j: usize = 0;
        while j < fields.len()
            invariant
                0 <= j <= fields.len(),
                field_views == fields@.map_values(|f: String| f@),
                field_views.len() == fields@.len(),
                field_views == split_on(line_view, '\t'),
                row@.len() == j,
                forall|k: int| 0 <= k < j ==> row@[k].deep_view() == field_value(field_views[k]),
            decreases fields.len() - j,
        {
            if is_null_token(fields[j].as_str()) {
                row.push(Option::None);
            } else {
                row.push(Option::Some(fields[j].clone()));
            }
            proof {
                assert(row@[j as int].deep_view() == field_value(field_views[j as int]));
            }
            j += 1;
        }
        proof {
            assert(row.deep_view() =~~= row_of_line(line_view));
        }
        rows.push(row);
        proof {
            assert(rows@[i - 1].deep_view() == row_of_line(records[i as int]));
        }
        i += 1;
    }
    proof {
        assert(rows.deep_view() =~~= rows_of_content(content@));
    }
    rows
}

/// Round trip of one file: after a dataset's statement sequence runs against
/// a store, the dataset's table holds exactly the rows the bulk import reads
/// from the file — as many rows as the file has data lines, a NULL-token
/// field standing as SQL NULL, not as the literal text.
pub proof fn lemma_load_round_trip(
    store: Map<Seq<char>, TableModel>,
    name: Seq<char>,
    columns: Seq<Seq<char>>,
    content: Seq<char>,
)
    ensures
        apply_load(store, name, columns, rows_of_content(content)).dom().contains(name),
        apply_load(store, name, columns, rows_of_content(content))[name].rows == rows_of_content(
            content,
        ),
        apply_load(store, name, columns, rows_of_content(content))[name].rows.len()
            == data_lines(content).len(),
{
    crate::store::lemma_load_sets_rows(store, name, columns, rows_of_content(content));
}

} // verus!
