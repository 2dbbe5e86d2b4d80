//! A table of records, each found by its key.
use vstd::prelude::*;

verus! {

/// A record of a table.
pub trait Row: View + Sized {
    /// The text by which the record is found.
    spec fn key_of(row: Self::V) -> Seq<char>;

    fn has_key(&self, key: &String) -> (r: bool)
        ensures
            r == (Self::key_of(self@) == key@),
    ;

    fn same_key(&self, other: &Self) -> (r: bool)
        ensures
            r == (Self::key_of(self@) == Self::key_of(other@)),
    ;

    fn copy_row(&self) -> (r: Self)
        ensures
            r@ == self@,
    ;
}

/// A choice among the records of a table.
pub trait RowFilter<R: Row> {
    spec fn keeps(&self, row: R::V) -> bool;

    fn keep(&self, row: &R) -> (r: bool)
        ensures
            r == self.keeps(row@),
    ;
}

/// A change to a record, which leaves its key as it is.
pub trait RowUpdate<R: Row> {
    spec fn updated(&self, row: R::V) -> R::V;

    fn update(&self, row: &mut R)
        ensures
            final(row)@ == self.updated(old(row)@),
            R::key_of(final(row)@) == R::key_of(old(row)@),
    ;
}

/// The part of a table that a filter keeps.
pub open spec fn selected<R: Row, F: RowFilter<R>>(
    table: Map<Seq<char>, R::V>,
    filter: &F,
) -> Map<Seq<char>, R::V> {
    Map::new(
        |k: Seq<char>| table.contains_key(k) && filter.keeps(table[k]),
        |k: Seq<char>| table[k],
    )
}

/// A table in which every record is changed.
pub open spec fn all_updated<R: Row, U: RowUpdate<R>>(
    table: Map<Seq<char>, R::V>,
    update: &U,
) -> Map<Seq<char>, R::V> {
    Map::new(|k: Seq<char>| table.contains_key(k), |k: Seq<char>| update.updated(table[k]))
}

/// Whether `rows` holds each record of `table` once, in some order, and nothing else.
pub open spec fn enumerates<R: Row>(rows: Seq<R::V>, table: Map<Seq<char>, R::V>) -> bool {
    &&& forall|i: int|
        0 <= i < rows.len() ==> table.contains_key(#[trigger] R::key_of(rows[i]))
            && table[R::key_of(
            rows[i],
        )] == rows[i]
    &&& forall|i: int, j: int|
        0 <= i < j < rows.len() ==> #[trigger] R::key_of(rows[i]) != #[trigger] R::key_of(rows[j])
    &&& forall|k: Seq<char>| #[trigger]
        table.contains_key(k) ==> exists|i: int| 0 <= i < rows.len()
            && #[trigger] R::key_of(rows[i]) == k
}

/// Whether no two of `rows` have the same key.
pub open spec fn distinct_keys<R: Row>(rows: Seq<R>) -> bool {
    forall|i: int, j: int|
        0 <= i < j < rows.len()
            ==> R::key_of((#[trigger] rows[i])@) != R::key_of((#[trigger] rows[j])@)
}

/// Whether a record with key `k` stands at position `i`.
pub open spec fn key_at<R: Row>(rows: Seq<R>, i: int, k: Seq<char>) -> bool {
    0 <= i < rows.len() && R::key_of(rows[i]@) == k
}

/// The records by their keys.
pub open spec fn as_map<R: Row>(rows: Seq<R>) -> Map<Seq<char>, R::V> {
    Map::new(
        |k: Seq<char>| exists|i: int| key_at(rows, i, k),
        |k: Seq<char>| rows[choose|i: int| key_at(rows, i, k)]@,
    )
}

/// Records with distinct keys.
pub struct Table<R: Row> {
    rows: Vec<R>,
}

impl<R: Row> View for Table<R> {
    type V = Map<Seq<char>, R::V>;

    closed spec fn view(&self) -> Map<Seq<char>, R::V> {
        as_map(self.rows@)
    }
}

proof fn lemma_at<R: Row>(rows: Seq<R>, i: int)
    requires
        distinct_keys(rows),
        0 <= i < rows.len(),
    ensures
        as_map(rows).contains_key(R::key_of(rows[i]@)),
        as_map(rows)[R::key_of(rows[i]@)] == rows[i]@,
{
    let k = R::key_of(rows[i]@);
    assert(key_at(rows, i, k));
    let j = choose|j: int| key_at(rows, j, k);
    if j < i {
        assert(R::key_of(rows[j]@) != R::key_of(rows[i]@));
    } else if i < j {
        assert(R::key_of(rows[i]@) != R::key_of(rows[j]@));
    }
}

proof fn lemma_absent<R: Row>(rows: Seq<R>, k: Seq<char>)
    requires
        forall|i: int| 0 <= i < rows.len() ==> R::key_of((#[trigger] rows[i])@) != k,
    ensures
        !as_map(rows).contains_key(k),
{
}

proof fn lemma_push<R: Row>(rows: Seq<R>, row: R)
    requires
        distinct_keys(rows),
        forall|i: int| 0 <= i < rows.len() ==> R::key_of((#[trigger] rows[i])@) != R::key_of(row@),
    ensures
        distinct_keys(rows.push(row)),
        as_map(rows.push(row)) == as_map(rows).insert(R::key_of(row@), row@),
{
    let after = rows.push(row);
    assert forall|i: int, j: int| 0 <= i < j < after.len() implies R::key_of((#[trigger] after[i])@)
        != R::key_of((#[trigger] after[j])@) by {
        if j < rows.len() {
            assert(after[i] == rows[i] && after[j] == rows[j]);
        } else {
            assert(after[i] == rows[i]);
        }
    }
    let expected = as_map(rows).insert(R::key_of(row@), row@);
    assert forall|i: int| 0 <= i < after.len() implies expected.contains_key(
        R::key_of((#[trigger] after[i])@),
    ) && expected[R::key_of(after[i]@)] == after[i]@ by {
        if i < rows.len() {
            assert(after[i] == rows[i]);
            lemma_at(rows, i);
        }
    }
    assert forall|k: Seq<char>| #[trigger] expected.contains_key(k) implies exists|i: int|
        key_at(after, i, k) by {
        if k == R::key_of(row@) {
            assert(key_at(after, rows.len() as int, k));
        } else {
            let i = choose|i: int| key_at(rows, i, k);
            assert(key_at(after, i, k));
        }
    }
    lemma_same_map::<R>(after, expected);
}

proof fn lemma_update<R: Row>(rows: Seq<R>, at: int, row: R)
    requires
        distinct_keys(rows),
        0 <= at < rows.len(),
        R::key_of(rows[at]@) == R::key_of(row@),
    ensures
        distinct_keys(rows.update(at, row)),
        as_map(rows.update(at, row)) == as_map(rows).insert(R::key_of(row@), row@),
{
    let after = rows.update(at, row);
    assert forall|i: int, j: int| 0 <= i < j < after.len() implies R::key_of((#[trigger] after[i])@)
        != R::key_of((#[trigger] after[j])@) by {
        assert(R::key_of(rows[i]@) != R::key_of(rows[j]@));
    }
    let expected = as_map(rows).insert(R::key_of(row@), row@);
    assert forall|i: int| 0 <= i < after.len() implies expected.contains_key(
        R::key_of((#[trigger] after[i])@),
    ) && expected[R::key_of(after[i]@)] == after[i]@ by {
        if i != at {
            assert(after[i] == rows[i]);
            lemma_at(rows, i);
            if i < at {
                assert(R::key_of(rows[i]@) != R::key_of(rows[at]@));
            } else {
                assert(R::key_of(rows[at]@) != R::key_of(rows[i]@));
            }
        }
    }
    assert forall|k: Seq<char>| #[trigger] expected.contains_key(k) implies exists|i: int|
        key_at(after, i, k) by {
        if k == R::key_of(row@) {
            assert(key_at(after, at, k));
        } else {
            let i = choose|i: int| key_at(rows, i, k);
            assert(key_at(after, i, k));
        }
    }
    lemma_same_map::<R>(after, expected);
}

proof fn lemma_remove<R: Row>(rows: Seq<R>, at: int)
    requires
        distinct_keys(rows),
        0 <= at < rows.len(),
    ensures
        distinct_keys(rows.remove(at)),
        as_map(rows.remove(at)) == as_map(rows).remove(R::key_of(rows[at]@)),
{
    let after = rows.remove(at);
    let gone = R::key_of(rows[at]@);
    assert forall|i: int, j: int| 0 <= i < j < after.len() implies R::key_of((#[trigger] after[i])@)
        != R::key_of((#[trigger] after[j])@) by {
        let x = if i < at { i } else { i + 1 };
        let y = if j < at { j } else { j + 1 };
        assert(after[i] == rows[x] && after[j] == rows[y]);
    }
    let expected = as_map(rows).remove(gone);
    assert forall|i: int| 0 <= i < after.len() implies expected.contains_key(
        R::key_of((#[trigger] after[i])@),
    ) && expected[R::key_of(after[i]@)] == after[i]@ by {
        let x = if i < at { i } else { i + 1 };
        assert(after[i] == rows[x]);
        lemma_at(rows, x);
        if x < at {
            assert(R::key_of(rows[x]@) != R::key_of(rows[at]@));
        } else {
            assert(R::key_of(rows[at]@) != R::key_of(rows[x]@));
        }
    }
    assert forall|k: Seq<char>| #[trigger] expected.contains_key(k) implies exists|i: int|
        key_at(after, i, k) by {
        let x = choose|x: int| key_at(rows, x, k);
        let i = if x < at { x } else { x - 1 };
        assert(after[i] == rows[x]);
        assert(key_at(after, i, k));
    }
    lemma_same_map::<R>(after, expected);
}

/// A map that has an entry for exactly the given records is the map of these records.
proof fn lemma_same_map<R: Row>(rows: Seq<R>, expected: Map<Seq<char>, R::V>)
    requires
        distinct_keys(rows),
        forall|i: int|
            0 <= i < rows.len() ==> expected.contains_key(R::key_of((#[trigger] rows[i])@))
                && expected[R::key_of(rows[i]@)] == rows[i]@,
        forall|k: Seq<char>| #[trigger]
            expected.contains_key(k) ==> exists|i: int| key_at(rows, i, k),
    ensures
        as_map(rows) == expected,
{
    assert forall|k: Seq<char>| as_map(rows).contains_key(k) implies expected.contains_key(k)
        && expected[k] == as_map(rows)[k] by {
        let i = choose|i: int| key_at(rows, i, k);
        assert(expected.contains_key(R::key_of(rows[i]@)));
    }
    assert(as_map(rows) =~= expected);
}

proof fn lemma_enumerated<R: Row>(rows: Seq<R>, table: Map<Seq<char>, R::V>)
    requires
        enumerates::<R>(crate::domain_models::views(rows), table),
    ensures
        distinct_keys(rows),
        as_map(rows) == table,
{
    let listed = crate::domain_models::views(rows);
    assert forall|i: int, j: int| 0 <= i < j < rows.len() implies R::key_of((#[trigger] rows[i])@)
        != R::key_of((#[trigger] rows[j])@) by {
        assert(R::key_of(listed[i]) != R::key_of(listed[j]));
    }
    assert forall|i: int| 0 <= i < rows.len() implies table.contains_key(
        R::key_of((#[trigger] rows[i])@),
    ) && table[R::key_of(rows[i]@)] == rows[i]@ by {
        assert(table.contains_key(R::key_of(listed[i])));
    }
    assert forall|k: Seq<char>| #[trigger] table.contains_key(k) implies exists|i: int|
        key_at(rows, i, k) by {
        let i = choose|i: int| 0 <= i < listed.len() && #[trigger] R::key_of(listed[i]) == k;
        assert(key_at(rows, i, k));
    }
    lemma_same_map(rows, table);
}

impl<R: Row> Table<R> {
    #[verifier::type_invariant]
    spec fn keys_are_distinct(self) -> bool {
        distinct_keys(self.rows@)
    }

    pub fn new() -> (r: Self)
        ensures
            r@ == Map::<Seq<char>, R::V>::empty(),
    {
        let r = Table { rows: Vec::new() };
        assert(as_map(r.rows@) =~= Map::<Seq<char>, R::V>::empty());
        r
    }

    /// The position of the record with the given key.
    fn position(&self, key: &String) -> (r: Option<usize>)
        ensures
            r is Some <==> self@.contains_key(key@),
            r matches Some(i) ==> i < self.rows@.len() && R::key_of(self.rows@[i as int]@) == key@
                && self@[key@] == self.rows@[i as int]@,
    {
        proof {
            use_type_invariant(self);
        }
        let mut i: usize = 0;
        while i < self.rows.len()
            invariant
                i <= self.rows.len(),
                distinct_keys(self.rows@),
                forall|j: int| 0 <= j < i ==> R::key_of((#[trigger] self.rows@[j])@) != key@,
            decreases self.rows.len() - i,
        {
            if self.rows[i].has_key(key) {
                proof {
                    lemma_at(self.rows@, i as int);
                }
                return Some(i);
            }
            i = i + 1;
        }
        proof {
            lemma_absent(self.rows@, key@);
        }
        None
    }

    pub fn contains(&self, key: &String) -> (r: bool)
        ensures
            r == self@.contains_key(key@),
    {
        self.position(key).is_some()
    }

    /// A copy of the record with the given key.
    pub fn get(&self, key: &String) -> (r: Option<R>)
        ensures
            r is Some <==> self@.contains_key(key@),
            r matches Some(row) ==> row@ == self@[key@],
    {
        match self.position(key) {
            Some(i) => Some(self.rows[i].copy_row()),
            None => None,
        }
    }

    /// Adds a record, in place of the one with the same key if there is one.
    pub fn insert(&mut self, row: R)
        ensures
            final(self)@ == old(self)@.insert(R::key_of(row@), row@),
    {
        proof {
            use_type_invariant(&*self);
        }
        let mut i: usize = 0;
        let mut rows: Vec<R> = Vec::new();
        std::mem::swap(&mut self.rows, &mut rows);
        let ghost before = rows@;
        while i < rows.len()
            invariant
                i <= rows.len(),
                rows@ == before,
                before == old(self).rows@,
                distinct_keys(before),
                forall|j: int| 0 <= j < i ==> R::key_of((#[trigger] before[j])@) != R::key_of(row@),
            decreases rows.len() - i,
        {
            if rows[i].same_key(&row) {
                proof {
                    lemma_update(before, i as int, row);
                }
                rows.set(i, row);
                self.rows = rows;
                return;
            }
            i = i + 1;
        }
        proof {
            lemma_push(before, row);
        }
        rows.push(row);
        self.rows = rows;
    }

    /// Removes the record with the given key and returns whether there was one.
    pub fn remove(&mut self, key: &String) -> (r: bool)
        ensures
            r == old(self)@.contains_key(key@),
            final(self)@ == old(self)@.remove(key@),
    {
        proof {
            use_type_invariant(&*self);
        }
        match self.position(key) {
            Some(i) => {
                let mut rows: Vec<R> = Vec::new();
                std::mem::swap(&mut self.rows, &mut rows);
                proof {
                    lemma_remove(rows@, i as int);
                }
                let _ = rows.remove(i);
                self.rows = rows;
                true
            },
            None => {
                assert(old(self)@.remove(key@) =~= old(self)@);
                false
            },
        }
    }

    /// Copies of all records.
    pub fn list(&self) -> (r: Vec<R>)
        ensures
            enumerates::<R>(crate::domain_models::views(r@), self@),
    {
        proof {
            use_type_invariant(self);
        }
        let mut r: Vec<R> = Vec::new();
        let mut i: usize = 0;
        while i < self.rows.len()
            invariant
                i <= self.rows.len(),
                r@.len() == i,
                forall|j: int| 0 <= j < i ==> (#[trigger] r@[j])@ == self.rows@[j]@,
            decreases self.rows.len() - i,
        {
            r.push(self.rows[i].copy_row());
            i = i + 1;
        }
        proof {
            let listed = crate::domain_models::views(r@);
            assert forall|j: int| 0 <= j < listed.len() implies self@.contains_key(
                #[trigger] R::key_of(listed[j]),
            ) && self@[R::key_of(listed[j])] == listed[j] by {
                lemma_at(self.rows@, j);
            }
            assert forall|a: int, b: int| 0 <= a < b < listed.len() implies #[trigger] R::key_of(
                listed[a],
            ) != #[trigger] R::key_of(listed[b]) by {
                assert(R::key_of(self.rows@[a]@) != R::key_of(self.rows@[b]@));
            }
            assert forall|k: Seq<char>| #[trigger] self@.contains_key(k) implies exists|j: int|
                0 <= j < listed.len() && #[trigger] R::key_of(listed[j]) == k by {
                let j = choose|j: int| key_at(self.rows@, j, k);
                assert(R::key_of(listed[j]) == k);
            }
        }
        r
    }

    /// Keeps the records that the filter keeps.
    pub fn retain<F: RowFilter<R>>(&mut self, filter: &F)
        ensures
            final(self)@ == selected::<R, F>(old(self)@, filter),
    {
        proof {
            use_type_invariant(&*self);
        }
        let mut rest: Vec<R> = Vec::new();
        std::mem::swap(&mut self.rows, &mut rest);
        let ghost before = rest@;
        let mut kept = Table::<R> { rows: Vec::new() };
        let mut i: usize = 0;
        assert(kept@ =~= Map::<Seq<char>, R::V>::empty());
        while i < rest.len()
            invariant
                i <= rest.len(),
                rest@ == before,
                distinct_keys(before),
                forall|k: Seq<char>| #[trigger]
                    kept@.contains_key(k) <==> exists|j: int|
                        0 <= j < i && key_at(before, j, k) && filter.keeps(before[j]@),
                forall|k: Seq<char>| #[trigger] kept@.contains_key(k)
                    ==> kept@[k] == as_map(before)[k],
            decreases rest.len() - i,
        {
            let ghost held = kept@;
            let ghost key = R::key_of(before[i as int]@);
            proof {
                lemma_at(before, i as int);
            }
            if filter.keep(&rest[i]) {
                kept.insert(rest[i].copy_row());
                assert forall|k: Seq<char>| #[trigger] kept@.contains_key(k) <==> exists|j: int|
                    0 <= j < i + 1 && key_at(before, j, k) && filter.keeps(before[j]@) by {
                    if k == key {
                        assert(key_at(before, i as int, k));
                    } else if held.contains_key(k) {
                        let j = choose|j: int|
                            0 <= j < i && key_at(before, j, k) && filter.keeps(before[j]@);
                        assert(key_at(before, j, k));
                    }
                }
            } else {
                assert forall|k: Seq<char>| #[trigger] kept@.contains_key(k) <==> exists|j: int|
                    0 <= j < i + 1 && key_at(before, j, k) && filter.keeps(before[j]@) by {
                    if held.contains_key(k) {
                        let j = choose|j: int|
                            0 <= j < i && key_at(before, j, k) && filter.keeps(before[j]@);
                        assert(key_at(before, j, k));
                    }
                }
            }
            i = i + 1;
        }
        proof {
            use_type_invariant(&kept);
            let expected = selected::<R, F>(as_map(before), filter);
            assert forall|k: Seq<char>| kept@.contains_key(k) <==> expected.contains_key(k) by {
                if kept@.contains_key(k) {
                    let j = choose|j: int|
                        0 <= j < i && key_at(before, j, k) && filter.keeps(before[j]@);
                    lemma_at(before, j);
                }
                if expected.contains_key(k) {
                    let j = choose|j: int| key_at(before, j, k);
                    lemma_at(before, j);
                    assert(key_at(before, j, k) && filter.keeps(before[j]@));
                }
            }
            assert(kept@ =~= expected);
        }
        let Table { rows } = kept;
        self.rows = rows;
    }

    /// Copies of the records that the filter keeps.
    pub fn list_where<F: RowFilter<R>>(&self, filter: &F) -> (r: Vec<R>)
        ensures
            enumerates::<R>(crate::domain_models::views(r@), selected::<R, F>(self@, filter)),
    {
        let rows = self.list();
        proof {
            lemma_enumerated(rows@, self@);
        }
        let mut kept = Table::<R> { rows };
        kept.retain(filter);
        kept.list()
    }

    /// A copy of some record that the filter keeps.
    pub fn find_where<F: RowFilter<R>>(&self, filter: &F) -> (r: Option<R>)
        ensures
            match r {
                Some(row) => self@.contains_key(R::key_of(row@)) && self@[R::key_of(row@)] == row@
                    && filter.keeps(row@),
                None => forall|k: Seq<char>| #[trigger]
                    self@.contains_key(k) ==> !filter.keeps(self@[k]),
            },
    {
        match self.position_where(filter) {
            Some(i) => {
                proof {
                    use_type_invariant(self);
                    lemma_at(self.rows@, i as int);
                }
                Some(self.rows[i].copy_row())
            },
            None => None,
        }
    }

    /// The position of the first record that the filter keeps.
    fn position_where<F: RowFilter<R>>(&self, filter: &F) -> (r: Option<usize>)
        ensures
            match r {
                Some(i) => i < self.rows@.len() && filter.keeps(self.rows@[i as int]@),
                None => forall|k: Seq<char>| #[trigger]
                    self@.contains_key(k) ==> !filter.keeps(self@[k]),
            },
    {
        proof {
            use_type_invariant(self);
        }
        let mut i: usize = 0;
        while i < self.rows.len()
            invariant
                i <= self.rows.len(),
                forall|j: int| 0 <= j < i ==> !filter.keeps((#[trigger] self.rows@[j])@),
            decreases self.rows.len() - i,
        {
            if filter.keep(&self.rows[i]) {
                return Some(i);
            }
            i = i + 1;
        }
        assert forall|k: Seq<char>| #[trigger] self@.contains_key(k) implies !filter.keeps(
            self@[k],
        ) by {
            let j = choose|j: int| key_at(self.rows@, j, k);
            lemma_at(self.rows@, j);
        }
        None
    }

    /// Changes the record at position `i`.
    fn update_at<U: RowUpdate<R>>(&mut self, i: usize, update: &U)
        requires
            i < old(self).rows@.len(),
        ensures
            ({
                let row = old(self).rows@[i as int]@;
                final(self)@ == old(self)@.insert(R::key_of(row), update.updated(row))
            }),
            old(self)@.contains_key(R::key_of(old(self).rows@[i as int]@)),
            old(self)@[R::key_of(old(self).rows@[i as int]@)] == old(self).rows@[i as int]@,
            final(self).rows@.len() == old(self).rows@.len(),
            final(self).rows@[i as int]@ == update.updated(old(self).rows@[i as int]@),
            forall|j: int|
                0 <= j < final(self).rows@.len() && j != i ==> final(self).rows@[j] == old(
                    self,
                ).rows@[j],
    {
        proof {
            use_type_invariant(&*self);
            lemma_at(self.rows@, i as int);
        }
        let mut rows: Vec<R> = Vec::new();
        std::mem::swap(&mut self.rows, &mut rows);
        let mut row = rows[i].copy_row();
        update.update(&mut row);
        proof {
            lemma_update(rows@, i as int, row);
        }
        rows.set(i, row);
        self.rows = rows;
    }

    /// Changes the record with the given key and returns whether there is one.
    pub fn update_key<U: RowUpdate<R>>(&mut self, key: &String, update: &U) -> (r: bool)
        ensures
            r == old(self)@.contains_key(key@),
            r ==> final(self)@ == old(self)@.insert(key@, update.updated(old(self)@[key@])),
            !r ==> final(self)@ == old(self)@,
    {
        match self.position(key) {
            Some(i) => {
                self.update_at(i, update);
                true
            },
            None => false,
        }
    }

    /// Changes some record that the filter keeps and returns a copy of it as it is then.
    pub fn update_where<F: RowFilter<R>, U: RowUpdate<R>>(&mut self, filter: &F, update: &U) -> (r:
        Option<R>)
        ensures
            match r {
                Some(row) => exists|k: Seq<char>| #[trigger]
                    old(self)@.contains_key(k) && filter.keeps(old(self)@[k]) && row@
                        == update.updated(old(self)@[k]) && R::key_of(row@) == k && final(self)@
                        == old(self)@.insert(k, row@),
                None => final(self)@ == old(self)@ && forall|k: Seq<char>| #[trigger]
                    old(self)@.contains_key(k) ==> !filter.keeps(old(self)@[k]),
            },
    {
        match self.position_where(filter) {
            Some(i) => {
                proof {
                    use_type_invariant(&*self);
                }
                self.update_at(i, update);
                proof {
                    use_type_invariant(&*self);
                    lemma_at(old(self).rows@, i as int);
                    lemma_at(self.rows@, i as int);
                    let k = R::key_of(old(self).rows@[i as int]@);
                    assert(old(self)@.contains_key(k));
                    assert(R::key_of(self.rows@[i as int]@) == k);
                }
                Some(self.rows[i].copy_row())
            },
            None => None,
        }
    }

    /// How many records the filter keeps.
    pub fn count_where<F: RowFilter<R>>(&self, filter: &F) -> (r: usize)
        ensures
            r == selected::<R, F>(self@, filter).dom().len(),
            selected::<R, F>(self@, filter).dom().finite(),
    {
        let kept = self.list_where(filter);
        proof {
            let keys = Seq::new(kept@.len(), |i: int| R::key_of(kept@[i]@));
            let listed = crate::domain_models::views(kept@);
            let dom = selected::<R, F>(self@, filter).dom();
            assert forall|i: int, j: int| 0 <= i < keys.len() && 0 <= j < keys.len()
                && i != j implies keys[i]
                != keys[j] by {
                if i < j {
                    assert(R::key_of(listed[i]) != R::key_of(listed[j]));
                } else {
                    assert(R::key_of(listed[j]) != R::key_of(listed[i]));
                }
            }
            assert(keys.no_duplicates());
            assert forall|k: Seq<char>| keys.to_set().contains(k) <==> dom.contains(k) by {
                if dom.contains(k) {
                    assert(selected::<R, F>(self@, filter).contains_key(k));
                    let i = choose|i: int|
                        0 <= i < listed.len() && #[trigger] R::key_of(listed[i]) == k;
                    assert(keys[i] == k);
                }
                if keys.to_set().contains(k) {
                    let i = choose|i: int| 0 <= i < keys.len() && keys[i] == k;
                    assert(selected::<R, F>(self@, filter).contains_key(R::key_of(listed[i])));
                }
            }
            assert(keys.to_set() =~= dom);
            keys.unique_seq_to_set();
        }
        kept.len()
    }

    /// Changes every record.
    pub fn update_all<U: RowUpdate<R>>(&mut self, update: &U)
        ensures
            final(self)@ == all_updated::<R, U>(old(self)@, update),
    {
        let mut i: usize = 0;
        proof {
            use_type_invariant(&*self);
        }
        while i < self.rows.len()
            invariant
                i <= self.rows@.len(),
                self.rows@.len() == old(self).rows@.len(),
                distinct_keys(old(self).rows@),
                forall|j: int|
                    0 <= j < i
                        ==> (#[trigger] self.rows@[j])@ == update.updated(old(self).rows@[j]@)
                        && R::key_of(self.rows@[j]@) == R::key_of(old(self).rows@[j]@),
                forall|j: int| i <= j < self.rows@.len() ==> self.rows@[j] == old(self).rows@[j],
            decreases self.rows.len() - i,
        {
            let ghost before = *self;
            proof {
                use_type_invariant(&*self);
            }
            self.update_at(i, update);
            proof {
                use_type_invariant(&*self);
                lemma_at(before.rows@, i as int);
                lemma_at(self.rows@, i as int);
                let k = R::key_of(before.rows@[i as int]@);
                assert(self@.contains_key(k));
            }
            i = i + 1;
        }
        proof {
            use_type_invariant(&*self);
            let expected = all_updated::<R, U>(old(self)@, update);
            assert forall|j: int| 0 <= j < self.rows@.len() implies expected.contains_key(
                R::key_of((#[trigger] self.rows@[j])@),
            ) && expected[R::key_of(self.rows@[j]@)] == self.rows@[j]@ by {
                lemma_at(old(self).rows@, j);
            }
            assert forall|k: Seq<char>| #[trigger] expected.contains_key(k) implies exists|j: int|
                key_at(self.rows@, j, k) by {
                let j = choose|j: int| key_at(old(self).rows@, j, k);
                assert(key_at(self.rows@, j, k));
            }
            lemma_same_map(self.rows@, expected);
        }
    }
}

} // verus!
