//! An in-process realization of the store capability, faithful to the
//! statement semantics modelled in [`crate::store`]: running one dataset's
//! statement sequence against it is exactly [`crate::store::apply_load`] on
//! its contents. It lets a run's load-vs-replace behaviour be exercised
//! end to end without a live store.

use vstd::prelude::*;
use crate::store::{apply_load, TableModel};

verus! {

/// One table held in memory: its name, declared columns, and current rows.
pub struct StoredTable {
    pub name: String,
    pub columns: Vec<String>,
    pub rows: Vec<Vec<Option<String>>>,
}

impl StoredTable {
    /// The table as the store model sees it.
    pub open spec fn model(&self) -> TableModel {
        TableModel { columns: self.columns.deep_view(), rows: self.rows.deep_view() }
    }
}

/// No two entries name the same table.
pub open spec fn distinct_names(s: Seq<StoredTable>) -> bool {
    forall|i: int, j: int| 0 <= i < j < s.len() ==> s[i].name@ != s[j].name@
}

/// The map a sequence of entries stands for, a later entry shadowing an
/// earlier one of the same name (with distinct names, nothing is shadowed).
pub open spec fn tables_map(s: Seq<StoredTable>) -> Map<Seq<char>, TableModel>
    decreases s.len(),
{
    if s.len() == 0 {
        Map::empty()
    } else {
        tables_map(s.drop_last()).insert(s.last().name@, s.last().model())
    }
}

proof fn lemma_tables_map_dom(s: Seq<StoredTable>, n: Seq<char>)
    ensures
        tables_map(s).dom().contains(n) <==> exists|i: int|
            0 <= i < s.len() && s[i].name@ == n,
    decreases s.len(),
{
    if s.len() > 0 {
        lemma_tables_map_dom(s.drop_last(), n);
        if tables_map(s).dom().contains(n) {
            if n == s.last().name@ {
                assert(s[s.len() - 1].name@ == n);
            } else {
                let i = choose|i: int| 0 <= i < s.drop_last().len() && s.drop_last()[i].name@
                    == n;
                assert(s[i].name@ == n);
            }
        }
        if exists|i: int| 0 <= i < s.len() && s[i].name@ == n {
            let i = choose|i: int| 0 <= i < s.len() && s[i].name@ == n;
            if i < s.len() - 1 {
                assert(s.drop_last()[i].name@ == n);
            }
        }
    }
}

proof fn lemma_tables_map_lookup(s: Seq<StoredTable>, i: int)
    requires
        distinct_names(s),
        0 <= i < s.len(),
    ensures
        tables_map(s).dom().contains(s[i].name@),
        tables_map(s)[s[i].name@] == s[i].model(),
    decreases s.len(),
{
    if i < s.len() - 1 {
        assert(s.drop_last()[i] == s[i]);
        lemma_tables_map_lookup(s.drop_last(), i);
        assert(s[i].name@ != s.last().name@);
    }
}

proof fn lemma_tables_map_update(s: Seq<StoredTable>, i: int, t: StoredTable)
    requires
        distinct_names(s),
        0 <= i < s.len(),
        t.name@ == s[i].name@,
    ensures
        tables_map(s.update(i, t)) == tables_map(s).insert(t.name@, t.model()),
    decreases s.len(),
{
    let su = s.update(i, t);
    if i == s.len() - 1 {
        assert(su.drop_last() =~= s.drop_last());
        assert(su.last() == t);
        assert(tables_map(su) =~= tables_map(s).insert(t.name@, t.model()));
    } else {
        assert(su.drop_last() =~= s.drop_last().update(i, t));
        assert(su.last() == s.last());
        assert(s.drop_last()[i] == s[i]);
        lemma_tables_map_update(s.drop_last(), i, t);
        assert(s.last().name@ != t.name@);
        assert(tables_map(su) =~= tables_map(s).insert(t.name@, t.model()));
    }
}

/// The store capability, in memory.
pub struct MemStore {
    pub tables: Vec<StoredTable>,
}

impl MemStore {
    /// The entries name distinct tables.
    pub open spec fn wf(&self) -> bool {
        distinct_names(self.tables@)
    }

    /// The store's contents as the model sees them.
    pub open spec fn model(&self) -> Map<Seq<char>, TableModel> {
        tables_map(self.tables@)
    }

    pub fn new() -> (s: MemStore)
        ensures
            s.wf(),
            s.model() == Map::<Seq<char>, TableModel>::empty(),
    {
        MemStore { tables: Vec::new() }
    }

    /// The position of the table named `name`, if any.
    fn find(&self, name: &String) -> (r: Option<usize>)
        ensures
            match r {
                Option::Some(i) => i < self.tables@.len() && self.tables@[i as int].name@
                    == name@,
                Option::None => forall|i: int|
                    0 <= i < self.tables@.len() ==> self.tables@[i].name@ != name@,
            },
    {
        let mut i: usize = 0;
        while i < self.tables.len()
            invariant
                0 <= i <= self.tables@.len(),
                forall|j: int| 0 <= j < i ==> self.tables@[j].name@ != name@,
            decreases self.tables@.len() - i,
        {
            if self.tables[i].name.eq(name) {
                return Option::Some(i);
            }
            i += 1;
        }
        Option::None
    }

    /// Runs one dataset's full statement sequence — create-if-absent,
    /// truncate, bulk import — against the store, as one invocation.
    pub fn run_dataset(
        &mut self,
        name: &String,
        columns: &Vec<String>,
        rows: Vec<Vec<Option<String>>>,
    )
        requires
            old(self).wf(),
        ensures
            final(self).wf(),
            final(self).model() == apply_load(
                old(self).model(),
                name@,
                columns.deep_view(),
                rows.deep_view(),
            ),
    {
        broadcast use vstd::std_specs::vec::vec_clone_deep_view_proof;

        let ghost old_tables = self.tables@;
        let ghost loaded = apply_load(
            tables_map(old_tables),
            name@,
            columns.deep_view(),
            rows.deep_view(),
        );
        proof {
            lemma_tables_map_dom(old_tables, name@);
            assert(Seq::<Seq<Option<Seq<char>>>>::empty() + rows.deep_view()
                =~= rows.deep_view());
        }
        match self.find(name) {
            Option::Some(i) => {
                let mut entry = self.tables.remove(i);
                entry.rows = rows;
                proof {
                    lemma_tables_map_lookup(old_tables, i as int);
                }
                self.tables.insert(i, entry);
                proof {
                    assert(self.tables@ =~= old_tables.update(i as int, self.tables@[i as int]));
                    lemma_tables_map_update(old_tables, i as int, self.tables@[i as int]);
                    assert(tables_map(self.tables@) =~= loaded);
                }
            },
            Option::None => {
                let entry = StoredTable { name: name.clone(), columns: columns.clone(), rows };
                proof {
                    assert(entry.columns.deep_view() =~= columns.deep_view());
                }
                self.tables.push(entry);
                proof {
                    assert(self.tables@.drop_last() =~= old_tables);
                    assert(tables_map(self.tables@) =~= loaded);
                }
            },
        }
    }
}

} // verus!
