//! An in-memory table of rows addressed by a string primary key.
//!
//! The table abstracts to a map from key to row value; upserting is map
//! insertion, which is what makes re-applying a record a no-op.

use vstd::prelude::*;

use crate::text::str_eq;

verus! {

/// A row addressed by a string primary key.
pub trait KeyedRow: Sized {
    /// The key value of this row.
    spec fn key_spec(&self) -> Seq<char>;

    /// The key of this row.
    fn key(&self) -> (r: &str)
        ensures
            r@ == self.key_spec(),
    ;
}

/// No two rows share a key.
pub open spec fn keys_unique<R: KeyedRow>(rows: Seq<R>) -> bool {
    forall|i: int, j: int|
        0 <= i < j < rows.len() ==> rows[i].key_spec() != rows[j].key_spec()
}

/// The map a row sequence denotes.
pub open spec fn map_of<R: KeyedRow + DeepView>(rows: Seq<R>) -> Map<Seq<char>, R::V>
    decreases rows.len(),
{
    if rows.len() == 0 {
        Map::empty()
    } else {
        map_of(rows.drop_last()).insert(rows.last().key_spec(), rows.last().deep_view())
    }
}

/// Every row of a unique-key sequence is in its map, under its key.
proof fn lemma_map_of_index<R: KeyedRow + DeepView>(rows: Seq<R>, i: int)
    requires
        keys_unique(rows),
        0 <= i < rows.len(),
    ensures
        map_of(rows).contains_key(rows[i].key_spec()),
        map_of(rows)[rows[i].key_spec()] == rows[i].deep_view(),
    decreases rows.len(),
{
    if i < rows.len() - 1 {
        assert(keys_unique(rows.drop_last())) by {
            assert(forall|a: int, b: int|
                0 <= a < b < rows.len() - 1 ==> rows.drop_last()[a] == rows[a]
                    && rows.drop_last()[b] == rows[b]);
        }
        lemma_map_of_index(rows.drop_last(), i);
        assert(rows.drop_last()[i] == rows[i]);
    }
}

/// A key no row carries is not in the map.
proof fn lemma_map_of_absent<R: KeyedRow + DeepView>(rows: Seq<R>, key: Seq<char>)
    requires
        forall|i: int| 0 <= i < rows.len() ==> rows[i].key_spec() != key,
    ensures
        !map_of(rows).contains_key(key),
    decreases rows.len(),
{
    if rows.len() > 0 {
        assert(forall|i: int|
            0 <= i < rows.len() - 1 ==> rows.drop_last()[i] == rows[i]);
        lemma_map_of_absent(rows.drop_last(), key);
    }
}

/// Replacing a row by one with the same key is map insertion.
proof fn lemma_map_of_update<R: KeyedRow + DeepView>(rows: Seq<R>, i: int, row: R)
    requires
        keys_unique(rows),
        0 <= i < rows.len(),
        row.key_spec() == rows[i].key_spec(),
    ensures
        map_of(rows.update(i, row)) =~= map_of(rows).insert(row.key_spec(), row.deep_view()),
    decreases rows.len(),
{
    let updated = rows.update(i, row);
    if i == rows.len() - 1 {
        assert(updated.drop_last() =~= rows.drop_last());
        assert(updated.last() == row);
    } else {
        assert(keys_unique(rows.drop_last())) by {
            assert(forall|a: int, b: int|
                0 <= a < b < rows.len() - 1 ==> rows.drop_last()[a] == rows[a]
                    && rows.drop_last()[b] == rows[b]);
        }
        assert(updated.drop_last() =~= rows.drop_last().update(i, row));
        lemma_map_of_update(rows.drop_last(), i, row);
        assert(updated.last() == rows.last());
        // The two inserted keys differ, so the inserts commute.
        assert(rows.last().key_spec() != row.key_spec());
    }
}

/// An in-memory table of keyed rows; the persistent schema's stand-in.
#[derive(Clone, Debug, PartialEq)]
pub struct Table<R> {
    rows: Vec<R>,
}

impl<R: KeyedRow + DeepView> Table<R> {
    /// The rows carry pairwise distinct keys.
    pub closed spec fn wf(&self) -> bool {
        keys_unique(self.rows@)
    }

    /// The map this table denotes.
    pub closed spec fn as_map(&self) -> Map<Seq<char>, R::V> {
        map_of(self.rows@)
    }

    /// The row values in table order.
    pub closed spec fn rows_dv(&self) -> Seq<R::V> {
        self.rows.deep_view()
    }

    /// An empty table.
    pub fn new() -> (r: Table<R>)
        ensures
            r.wf(),
            r.as_map() == Map::<Seq<char>, R::V>::empty(),
            r.rows_dv() == Seq::<R::V>::empty(),
    {
        let r = Table { rows: Vec::new() };
        proof {
            assert(r.rows_dv() =~= Seq::<R::V>::empty());
        }
        r
    }

    /// Number of rows.
    pub fn len(&self) -> (r: usize)
        ensures
            r == self.rows_dv().len(),
    {
        self.rows.len()
    }

    /// The row at one table position.
    pub fn at(&self, i: usize) -> (r: &R)
        requires
            i < self.rows_dv().len(),
        ensures
            r.deep_view() == self.rows_dv()[i as int],
    {
        &self.rows[i]
    }

    /// Whether a row with this key exists.
    pub fn contains_key(&self, key: &str) -> (r: bool)
        requires
            self.wf(),
        ensures
            r == self.as_map().contains_key(key@),
    {
        self.get(key).is_some()
    }

    /// Look a row up by key.
    pub fn get(&self, key: &str) -> (r: Option<&R>)
        requires
            self.wf(),
        ensures
            match r {
                Some(row) => self.as_map().contains_key(key@) && row.deep_view()
                    == self.as_map()[key@] && row.key_spec() == key@,
                None => !self.as_map().contains_key(key@),
            },
    {
        let n = self.rows.len();
        let mut i: usize = 0;
        while i < n
            invariant
                i <= n,
                n == self.rows@.len(),
                self.wf(),
                forall|j: int| 0 <= j < i ==> self.rows@[j].key_spec() != key@,
            decreases n - i,
        {
            if str_eq(self.rows[i].key(), key) {
                proof {
                    lemma_map_of_index(self.rows@, i as int);
                }
                return Some(&self.rows[i]);
            }
            i += 1;
        }
        proof {
            lemma_map_of_absent(self.rows@, key@);
        }
        None
    }

    /// Insert a row, replacing any row with the same key.
    pub fn upsert(&mut self, row: R)
        requires
            old(self).wf(),
        ensures
            final(self).wf(),
            final(self).as_map() == old(self).as_map().insert(row.key_spec(), row.deep_view()),
    {
        let ghost row_g = row;
        let n = self.rows.len();
        let mut i: usize = 0;
        while i < n
            invariant
                i <= n,
                n == self.rows@.len(),
                self.wf(),
                self == old(self),
                row == row_g,
                forall|j: int| 0 <= j < i ==> self.rows@[j].key_spec() != row_g.key_spec(),
            decreases n - i,
        {
            if str_eq(self.rows[i].key(), row.key()) {
                proof {
                    lemma_map_of_update(self.rows@, i as int, row_g);
                }
                self.rows[i] = row;
                proof {
                    assert(self.rows@ =~= old(self).rows@.update(i as int, row_g));
                    assert(keys_unique(self.rows@));
                }
                return;
            }
            i += 1;
        }
        self.rows.push(row);
        proof {
            assert(self.rows@.drop_last() =~= old(self).rows@);
            assert(self.rows@.last() == row_g);
            assert(keys_unique(self.rows@)) by {
                assert(forall|j: int|
                    0 <= j < old(self).rows@.len() ==> self.rows@[j] == old(self).rows@[j]);
            }
        }
    }
}

} // verus!
