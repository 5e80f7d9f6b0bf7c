//! A table of named records with a `Map` view: the executable shape behind
//! every name-keyed part of the host model (files by path, init units by
//! name, volumes by name, groups by name, configuration settings by key).
//!
//! Names are unique, and the table keeps insertion order, as a
//! configuration map that is rendered back to text must.

use vstd::prelude::*;
use vstd::pervasive::VecAdditionalExecFns;

verus! {

/// One named record.
#[derive(Debug)]
pub struct NamedRow<V> {
    pub name: String,
    pub val: V,
}

/// A sequence of named records with pairwise distinct names.
#[derive(Debug)]
pub struct NamedTable<V> {
    pub rows: Vec<NamedRow<V>>,
}

impl<V: View> View for NamedTable<V> {
    type V = Map<Seq<char>, V::V>;

    open spec fn view(&self) -> Map<Seq<char>, V::V> {
        NamedTable::<V>::map_of(self.rows@)
    }
}

impl<V: View> NamedTable<V> {
    /// The map a sequence of rows denotes; later rows would shadow earlier
    /// ones, though under `names_unique` no shadowing occurs.
    pub open spec fn map_of(rows: Seq<NamedRow<V>>) -> Map<Seq<char>, V::V>
        decreases rows.len(),
    {
        if rows.len() == 0 {
            Map::empty()
        } else {
            Self::map_of(rows.drop_last()).insert(rows.last().name@, rows.last().val@)
        }
    }

    pub open spec fn names_unique(rows: Seq<NamedRow<V>>) -> bool {
        forall|i: int, j: int| 0 <= i < j < rows.len() ==> rows[i].name@ != rows[j].name@
    }

    pub open spec fn inv(&self) -> bool {
        Self::names_unique(self.rows@)
    }

    /// A key is in the map exactly when some row bears it.
    pub proof fn lemma_dom_key(rows: Seq<NamedRow<V>>, k: Seq<char>)
        ensures
            Self::map_of(rows).contains_key(k) <==> (exists|i: int|
                0 <= i < rows.len() && (#[trigger] rows[i].name@) == k),
        decreases rows.len(),
    {
        if rows.len() > 0 {
            Self::lemma_dom_key(rows.drop_last(), k);
            if Self::map_of(rows).contains_key(k) {
                if k == rows.last().name@ {
                    assert(rows[rows.len() - 1].name@ == k);
                } else {
                    let i = choose|i: int|
                        0 <= i < rows.drop_last().len() && (#[trigger] rows.drop_last()[i].name@)
                            == k;
                    assert(rows.drop_last()[i] == rows[i]);
                    assert(rows[i].name@ == k);
                }
            }
            if exists|i: int| 0 <= i < rows.len() && (#[trigger] rows[i].name@) == k {
                let i = choose|i: int| 0 <= i < rows.len() && (#[trigger] rows[i].name@) == k;
                if i < rows.len() - 1 {
                    assert(rows.drop_last()[i] == rows[i]);
                    assert(rows.drop_last()[i].name@ == k);
                    assert(Self::map_of(rows.drop_last()).contains_key(k));
                }
                assert(Self::map_of(rows).contains_key(k));
            }
        }
    }

    /// Under unique names, a name borne by no row is no key of the map.
    pub proof fn lemma_absent_key(rows: Seq<NamedRow<V>>, k: Seq<char>)
        requires
            forall|i: int| 0 <= i < rows.len() ==> (#[trigger] rows[i].name@) != k,
        ensures
            !Self::map_of(rows).contains_key(k),
    {
        Self::lemma_dom_key(rows, k);
        if Self::map_of(rows).contains_key(k) {
            let i = choose|i: int| 0 <= i < rows.len() && (#[trigger] rows[i].name@) == k;
            assert(false);
        }
    }

    /// Under unique names, each row's value is the map's value at its name.
    pub proof fn lemma_index(rows: Seq<NamedRow<V>>, i: int)
        requires
            Self::names_unique(rows),
            0 <= i < rows.len(),
        ensures
            Self::map_of(rows).contains_key(rows[i].name@),
            Self::map_of(rows)[rows[i].name@] == rows[i].val@,
        decreases rows.len(),
    {
        if i == rows.len() - 1 {
        } else {
            assert(rows.drop_last()[i] == rows[i]);
            Self::lemma_index(rows.drop_last(), i);
            assert(rows[i].name@ != rows.last().name@);
        }
    }

    proof fn lemma_update(rows: Seq<NamedRow<V>>, i: int, row: NamedRow<V>)
        requires
            Self::names_unique(rows),
            0 <= i < rows.len(),
            rows[i].name@ == row.name@,
        ensures
            Self::map_of(rows.update(i, row)) == Self::map_of(rows).insert(row.name@, row.val@),
        decreases rows.len(),
    {
        let upd = rows.update(i, row);
        if i == rows.len() - 1 {
            assert(upd.drop_last() =~= rows.drop_last());
            assert(upd.last() == row);
            assert(Self::map_of(upd) =~= Self::map_of(rows).insert(row.name@, row.val@));
        } else {
            assert(upd.drop_last() =~= rows.drop_last().update(i, row));
            assert(upd.last() == rows.last());
            assert(rows.drop_last()[i] == rows[i]);
            Self::lemma_update(rows.drop_last(), i, row);
            assert(rows[i].name@ != rows.last().name@);
            assert(Self::map_of(rows.drop_last()).insert(row.name@, row.val@).insert(
                rows.last().name@,
                rows.last().val@,
            ) =~= Self::map_of(rows.drop_last()).insert(rows.last().name@, rows.last().val@).insert(
                row.name@,
                row.val@,
            ));
        }
    }

    proof fn lemma_remove_at(rows: Seq<NamedRow<V>>, i: int)
        requires
            Self::names_unique(rows),
            0 <= i < rows.len(),
        ensures
            Self::map_of(rows.remove(i)) == Self::map_of(rows).remove(rows[i].name@),
        decreases rows.len(),
    {
        let rem = rows.remove(i);
        if i == rows.len() - 1 {
            assert(rem =~= rows.drop_last());
            assert forall|j: int| 0 <= j < rows.drop_last().len() implies (#[trigger] rows.drop_last()[j].name@)
                != rows.last().name@ by {
                assert(rows[j].name@ != rows[rows.len() - 1].name@);
            }
            Self::lemma_absent_key(rows.drop_last(), rows.last().name@);
            assert(Self::map_of(rows.drop_last()) =~= Self::map_of(rows).remove(
                rows.last().name@,
            ));
        } else {
            assert(rem.drop_last() =~= rows.drop_last().remove(i));
            assert(rem.last() == rows.last());
            assert(rows.drop_last()[i] == rows[i]);
            Self::lemma_remove_at(rows.drop_last(), i);
            assert(rows[i].name@ != rows.last().name@);
            assert(Self::map_of(rows.drop_last()).remove(rows[i].name@).insert(
                rows.last().name@,
                rows.last().val@,
            ) =~= Self::map_of(rows.drop_last()).insert(rows.last().name@, rows.last().val@).remove(
                rows[i].name@,
            ));
        }
    }

    /// An empty table.
    pub fn new() -> (r: Self)
        ensures
            r.inv(),
            r@ == Map::<Seq<char>, V::V>::empty(),
    {
        NamedTable { rows: Vec::new() }
    }

    /// The index of the row named `name`, if any.
    fn find_row(&self, name: &String) -> (r: Option<usize>)
        requires
            self.inv(),
        ensures
            match r {
                Some(i) => i < self.rows@.len() && self.rows@[i as int].name@ == name@
                    && self@.contains_key(name@),
                None => !self@.contains_key(name@),
            },
    {
        let n = self.rows.len();
        let mut i: usize = 0;
        while i < n
            invariant
                self.inv(),
                n == self.rows@.len(),
                0 <= i <= n,
                forall|k: int| 0 <= k < i ==> self.rows@[k].name@ != name@,
            decreases n - i,
        {
            if self.rows[i].name == *name {
                proof {
                    Self::lemma_index(self.rows@, i as int);
                }
                return Some(i);
            }
            i += 1;
        }
        proof {
            Self::lemma_absent_key(self.rows@, name@);
        }
        None
    }

    /// The value stored under `name`, if any.
    pub fn get(&self, name: &String) -> (r: Option<&V>)
        requires
            self.inv(),
        ensures
            match r {
                Some(v) => self@.contains_key(name@) && v@ == self@[name@],
                None => !self@.contains_key(name@),
            },
    {
        match self.find_row(name) {
            Some(i) => {
                proof {
                    Self::lemma_index(self.rows@, i as int);
                }
                Some(&self.rows[i].val)
            },
            None => None,
        }
    }

    /// Whether a row named `name` exists.
    pub fn contains(&self, name: &String) -> (r: bool)
        requires
            self.inv(),
        ensures
            r == self@.contains_key(name@),
    {
        match self.find_row(name) {
            Some(_) => true,
            None => false,
        }
    }

    /// Store `val` under `name`, replacing any previous value.
    pub fn set(&mut self, name: String, val: V)
        requires
            old(self).inv(),
        ensures
            final(self).inv(),
            final(self)@ == old(self)@.insert(name@, val@),
    {
        let row = NamedRow { name, val };
        match self.find_row(&row.name) {
            Some(i) => {
                proof {
                    Self::lemma_update(self.rows@, i as int, row);
                }
                let ghost old_rows = self.rows@;
                self.rows.set(i, row);
                assert forall|p: int, q: int|
                    0 <= p < q < self.rows@.len() implies self.rows@[p].name@
                    != self.rows@[q].name@ by {
                    assert(old_rows[p].name@ != old_rows[q].name@);
                }
            },
            None => {
                let ghost old_rows = self.rows@;
                self.rows.push(row);
                proof {
                    assert(self.rows@.drop_last() =~= old_rows);
                    Self::lemma_dom_key(old_rows, row.name@);
                    assert forall|p: int, q: int|
                        0 <= p < q < self.rows@.len() implies self.rows@[p].name@
                        != self.rows@[q].name@ by {
                        if q < self.rows@.len() - 1 {
                            assert(old_rows[p].name@ != old_rows[q].name@);
                        } else {
                            assert(self.rows@[p] == old_rows[p]);
                        }
                    }
                }
            },
        }
    }

    /// Drop the row named `name`, if any.
    pub fn remove(&mut self, name: &String)
        requires
            old(self).inv(),
        ensures
            final(self).inv(),
            final(self)@ == old(self)@.remove(name@),
    {
        match self.find_row(name) {
            Some(i) => {
                proof {
                    Self::lemma_remove_at(self.rows@, i as int);
                }
                let ghost old_rows = self.rows@;
                self.rows.remove(i);
                assert forall|p: int, q: int|
                    0 <= p < q < self.rows@.len() implies self.rows@[p].name@
                    != self.rows@[q].name@ by {
                    let p0 = if p < i as int { p } else { p + 1 };
                    let q0 = if q < i as int { q } else { q + 1 };
                    assert(self.rows@[p] == old_rows[p0]);
                    assert(self.rows@[q] == old_rows[q0]);
                    assert(old_rows[p0].name@ != old_rows[q0].name@);
                }
            },
            None => {
                proof {
                    assert(final(self)@ =~= old(self)@.remove(name@));
                }
            },
        }
    }

    /// The number of rows.
    pub fn len(&self) -> (n: usize)
        requires
            self.inv(),
        ensures
            n == self.rows@.len(),
            n == self@.dom().len(),
    {
        proof {
            Self::lemma_card(self.rows@);
        }
        self.rows.len()
    }

    /// Under unique names, the map has exactly one key per row.
    pub proof fn lemma_card(rows: Seq<NamedRow<V>>)
        requires
            Self::names_unique(rows),
        ensures
            Self::map_of(rows).dom().finite(),
            Self::map_of(rows).dom().len() == rows.len(),
        decreases rows.len(),
    {
        if rows.len() > 0 {
            Self::lemma_card(rows.drop_last());
            assert forall|j: int| 0 <= j < rows.drop_last().len() implies (#[trigger] rows.drop_last()[j].name@)
                != rows.last().name@ by {
                assert(rows[j].name@ != rows[rows.len() - 1].name@);
            }
            Self::lemma_absent_key(rows.drop_last(), rows.last().name@);
        }
    }
}

} // verus!
