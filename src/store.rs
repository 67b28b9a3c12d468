//! The workbench data store as the agent sees it: four tables of rows keyed by
//! a unique id, and the create, update and delete operations on them.
use vstd::prelude::*;
use crate::text::{chars_of, chars_equal};

verus! {

/// The view of an optional string.
pub open spec fn opt_view(o: Option<String>) -> Option<Seq<char>> {
    match o {
        Some(s) => Some(s@),
        None => None,
    }
}

/// A copy of an optional string.
pub fn copy_opt(o: &Option<String>) -> (r: Option<String>)
    ensures
        opt_view(r) == opt_view(*o),
{
    match o {
        Some(s) => Some(s.clone()),
        None => None,
    }
}

/// A row of a table: it has an id, and can be copied.
pub trait Row: View + Sized {
    spec fn row_id(v: Self::V) -> Seq<char>;

    fn id(&self) -> (r: &String)
        ensures
            r@ == Self::row_id(self@),
    ;

    fn duplicate(&self) -> (r: Self)
        ensures
            r@ == self@,
    ;
}

/// The views of a table's rows.
pub open spec fn rows_view<T: Row>(rows: Seq<T>) -> Seq<T::V> {
    rows.map_values(|t: T| t@)
}

/// No two rows share an id.
pub open spec fn ids_unique<T: Row>(rows: Seq<T::V>) -> bool {
    forall|i: int, j: int|
        0 <= i < rows.len() && 0 <= j < rows.len() && i != j ==> T::row_id(rows[i]) != T::row_id(
            rows[j],
        )
}

/// Some row has the id `id`.
pub open spec fn has_id<T: Row>(rows: Seq<T::V>, id: Seq<char>) -> bool {
    exists|i: int| 0 <= i < rows.len() && T::row_id(rows[i]) == id
}

/// The index of the row with the id `id`.
pub open spec fn index_of<T: Row>(rows: Seq<T::V>, id: Seq<char>) -> int {
    choose|i: int| 0 <= i < rows.len() && T::row_id(rows[i]) == id
}

/// The table once the row with the id `id`, if any, is deleted.
pub open spec fn delete_row<T: Row>(rows: Seq<T::V>, id: Seq<char>) -> Seq<T::V> {
    if has_id::<T>(rows, id) {
        rows.remove(index_of::<T>(rows, id))
    } else {
        rows
    }
}

/// The table once `row` is added; `None` where its id is already taken.
pub open spec fn insert_row<T: Row>(rows: Seq<T::V>, row: T::V) -> Option<Seq<T::V>> {
    if has_id::<T>(rows, T::row_id(row)) {
        None
    } else {
        Some(rows.push(row))
    }
}

/// The index of the row with the id `id`, if there is one.
pub fn find_row<T: Row>(rows: &Vec<T>, id: &str) -> (r: Option<usize>)
    requires
        ids_unique::<T>(rows_view(rows@)),
    ensures
        match r {
            Some(i) => i < rows@.len() && has_id::<T>(rows_view(rows@), id@) && i == index_of::<T>(
                rows_view(rows@),
                id@,
            ),
            None => !has_id::<T>(rows_view(rows@), id@),
        },
{
    let key = chars_of(id);
    let mut i: usize = 0;
    while i < rows.len()
        invariant
            i <= rows@.len(),
            key@ == id@,
            ids_unique::<T>(rows_view(rows@)),
            forall|j: int| 0 <= j < i ==> T::row_id(#[trigger] rows_view(rows@)[j]) != id@,
        decreases rows.len() - i,
    {
        let name = chars_of(rows[i].id().as_str());
        if chars_equal(&name, &key) {
            let ghost v = rows_view(rows@);
            assert(T::row_id(v[i as int]) == id@);
            assert(has_id::<T>(v, id@));
            let ghost k = index_of::<T>(v, id@);
            assert(T::row_id(v[k]) == id@);
            assert(k == i);
            return Some(i);
        }
        i += 1;
    }
    None
}

/// Deletes the row with the id `id`, if there is one.
pub fn delete_by_id<T: Row>(rows: &mut Vec<T>, id: &str)
    requires
        ids_unique::<T>(rows_view(old(rows)@)),
    ensures
        rows_view(final(rows)@) == delete_row::<T>(rows_view(old(rows)@), id@),
        ids_unique::<T>(rows_view(final(rows)@)),
{
    match find_row(rows, id) {
        Some(i) => {
            let ghost before = rows@;
            rows.remove(i);
            assert(rows_view(rows@) =~= rows_view(before).remove(i as int));
            assert forall|a: int, b: int|
                0 <= a < rows_view(rows@).len() && 0 <= b < rows_view(rows@).len() && a != b
                    implies T::row_id(rows_view(rows@)[a]) != T::row_id(rows_view(rows@)[b]) by {
                let a0 = if a < i { a } else { a + 1 };
                let b0 = if b < i { b } else { b + 1 };
                assert(rows_view(rows@)[a] == rows_view(before)[a0]);
                assert(rows_view(rows@)[b] == rows_view(before)[b0]);
            }
        },
        None => {},
    }
}

/// Adds `row` at the end of the table, unless its id is already taken.
pub fn insert_new<T: Row>(rows: &mut Vec<T>, row: T) -> (r: bool)
    requires
        ids_unique::<T>(rows_view(old(rows)@)),
    ensures
        r == insert_row::<T>(rows_view(old(rows)@), row@).is_some(),
        r ==> rows_view(final(rows)@) == insert_row::<T>(rows_view(old(rows)@), row@).unwrap(),
        !r ==> final(rows)@ == old(rows)@,
        ids_unique::<T>(rows_view(final(rows)@)),
{
    let found = find_row(rows, row.id().as_str());
    match found {
        Some(_) => false,
        None => {
            let ghost before = rows@;
            rows.push(row);
            assert(rows_view(rows@) =~= rows_view(before).push(row@));
            assert forall|a: int, b: int|
                0 <= a < rows_view(rows@).len() && 0 <= b < rows_view(rows@).len() && a != b
                    implies T::row_id(rows_view(rows@)[a]) != T::row_id(rows_view(rows@)[b]) by {
                if a == before.len() {
                    assert(T::row_id(rows_view(before)[b]) != T::row_id(row@));
                } else if b == before.len() {
                    assert(T::row_id(rows_view(before)[a]) != T::row_id(row@));
                }
            }
            true
        },
    }
}

/// Replaces the row at index `i` by one with the same id.
pub fn replace_row<T: Row>(rows: &mut Vec<T>, i: usize, row: T)
    requires
        ids_unique::<T>(rows_view(old(rows)@)),
        i < old(rows)@.len(),
        T::row_id(row@) == T::row_id(old(rows)@[i as int]@),
    ensures
        rows_view(final(rows)@) == rows_view(old(rows)@).update(i as int, row@),
        ids_unique::<T>(rows_view(final(rows)@)),
{
    let ghost before = rows@;
    rows.set(i, row);
    assert(rows_view(rows@) =~= rows_view(before).update(i as int, row@));
    assert forall|a: int, b: int|
        0 <= a < rows_view(rows@).len() && 0 <= b < rows_view(rows@).len() && a != b
            implies T::row_id(rows_view(rows@)[a]) != T::row_id(rows_view(rows@)[b]) by {
        assert(T::row_id(rows_view(rows@)[a]) == T::row_id(rows_view(before)[a]));
        assert(T::row_id(rows_view(rows@)[b]) == T::row_id(rows_view(before)[b]));
    }
}

/// A copy of every row of a table.
pub fn copy_rows<T: Row>(rows: &Vec<T>) -> (r: Vec<T>)
    ensures
        rows_view(r@) == rows_view(rows@),
{
    let mut out: Vec<T> = Vec::new();
    let mut i: usize = 0;
    while i < rows.len()
        invariant
            i <= rows@.len(),
            rows_view(out@) == rows_view(rows@).take(i as int),
        decreases rows.len() - i,
    {
        let ghost prev = out@;
        out.push(rows[i].duplicate());
        assert(rows_view(out@) =~= rows_view(prev).push(rows@[i as int]@));
        i += 1;
        assert(rows_view(out@) =~= rows_view(rows@).take(i as int));
    }
    assert(rows_view(rows@).take(i as int) =~= rows_view(rows@));
    out
}

/// Whether no two rows of a table share an id.
pub fn ids_are_unique<T: Row>(rows: &Vec<T>) -> (r: bool)
    ensures
        r == ids_unique::<T>(rows_view(rows@)),
{
    let ghost v = rows_view(rows@);
    let mut i: usize = 0;
    while i < rows.len()
        invariant
            i <= rows@.len(),
            v == rows_view(rows@),
            forall|a: int, b: int|
                0 <= a < i && 0 <= b < v.len() && a != b ==> T::row_id(v[a]) != T::row_id(v[b]),
        decreases rows.len() - i,
    {
        let a = chars_of(rows[i].id().as_str());
        let mut j: usize = 0;
        while j < rows.len()
            invariant
                i < rows@.len(),
                j <= rows@.len(),
                v == rows_view(rows@),
                a@ == T::row_id(v[i as int]),
                forall|b: int| 0 <= b < j && b != i ==> T::row_id(v[i as int]) != T::row_id(v[b]),
            decreases rows.len() - j,
        {
            if j != i && chars_equal(&a, &chars_of(rows[j].id().as_str())) {
                assert(T::row_id(v[i as int]) == T::row_id(v[j as int]));
                return false;
            }
            j += 1;
        }
        i += 1;
    }
    true
}

} // verus!
