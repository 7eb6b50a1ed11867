//! The entity this layer transports, and the decoding of database rows.
//!
//! Decoding is the single point that guarantees backend-transparency of the
//! result shape: every backend's rows go through the same functions here.

use vstd::prelude::*;
use crate::errors::RepoError;

verus! {

/// The one data record of this layer: a row of the `users` table.
///
/// Immutable once decoded; produced only by [`decode_row`]. Uniqueness of
/// `id` is the backend's invariant, not enforced here.
#[derive(Debug, PartialEq, Eq)]
pub struct User {
    pub id: i64,
    pub name: String,
}

impl Clone for User {
    fn clone(&self) -> (r: Self)
        ensures
            r == *self,
    {
        User { id: self.id, name: self.name.clone() }
    }
}

/// One fetched database row, reduced to the two columns this layer reads.
///
/// The surrounding application fills each field with `Some` when the column
/// is present and of the expected type, and with `None` when it is missing
/// or of the wrong type; decoding turns the latter into a `Decode` error.
#[derive(Debug)]
pub struct RawRow {
    pub id: Option<i64>,
    pub name: Option<String>,
}

impl Clone for RawRow {
    fn clone(&self) -> (r: Self)
        ensures
            r == *self,
    {
        RawRow {
            id: self.id,
            name: match &self.name {
                Some(name) => Some(name.clone()),
                None => None,
            },
        }
    }
}

/// A row carries both expected columns, each of the expected type.
pub open spec fn row_complete(row: RawRow) -> bool {
    row.id is Some && row.name is Some
}

/// The entity a complete row decodes to.
pub open spec fn decoded_user(row: RawRow) -> User
    recommends
        row_complete(row),
{
    User { id: row.id->0, name: row.name->0 }
}

/// Every row of a fetched batch is complete.
pub open spec fn rows_complete(rows: Seq<RawRow>) -> bool {
    forall|i: int| 0 <= i < rows.len() ==> row_complete(#[trigger] rows[i])
}

/// The entities a batch of complete rows decodes to, in fetched order.
pub open spec fn decoded_users(rows: Seq<RawRow>) -> Seq<User>
    recommends
        rows_complete(rows),
{
    rows.map_values(|row: RawRow| decoded_user(row))
}

/// Decoding respects reordering: two fetched batches that hold the same
/// rows up to order decode to the same entities up to order. This lifts
/// per-index decoding to whole logical datasets, whatever order a backend
/// happens to return them in.
pub proof fn lemma_decode_up_to_order(rows1: Seq<RawRow>, rows2: Seq<RawRow>)
    requires
        rows1.to_multiset() == rows2.to_multiset(),
    ensures
        decoded_users(rows1).to_multiset() == decoded_users(rows2).to_multiset(),
    decreases rows1.len(),
{
    broadcast use vstd::seq_lib::group_to_multiset_ensures;
    broadcast use vstd::multiset::group_multiset_axioms;

    assert(rows1.to_multiset().len() == rows1.len());
    assert(rows2.to_multiset().len() == rows2.len());
    if rows1.len() == 0 {
        assert(rows2.len() == 0);
        assert(decoded_users(rows1) =~= decoded_users(rows2));
    } else {
        let x = rows1[0];
        assert(rows1.contains(x));
        assert(rows2.to_multiset().count(x) > 0);
        assert(rows2.contains(x));
        let j = choose|j: int| 0 <= j < rows2.len() && rows2[j] == x;
        let r1 = rows1.remove(0);
        let r2 = rows2.remove(j);
        assert(r1.to_multiset() == rows1.to_multiset().remove(x));
        assert(r2.to_multiset() == rows2.to_multiset().remove(x));
        lemma_decode_up_to_order(r1, r2);

        let u = decoded_user(x);
        let m1 = decoded_users(rows1).to_multiset();
        let m2 = decoded_users(rows2).to_multiset();
        assert(decoded_users(r1) =~= decoded_users(rows1).remove(0));
        assert(decoded_users(r2) =~= decoded_users(rows2).remove(j));
        assert(decoded_users(rows1)[0] == u);
        assert(decoded_users(rows2)[j] == u);
        assert(decoded_users(rows1).remove(0).to_multiset() == m1.remove(u));
        assert(decoded_users(rows2).remove(j).to_multiset() == m2.remove(u));
        assert(m1.remove(u) == m2.remove(u));
        assert(m1.count(u) > 0);
        assert(m2.count(u) > 0);
        assert forall|e: User| m1.count(e) == m2.count(e) by {
            assert(m1.remove(u).count(e) == m2.remove(u).count(e));
        }
        assert(m1 =~= m2);
    }
}

/// Decodes one row into a `User`, or fails with `Decode` when a column is
/// missing or of the wrong type. Identical for every backend.
pub fn decode_row(row: RawRow) -> (r: Result<User, RepoError>)
    ensures
        row_complete(row) ==> r == Ok::<User, RepoError>(decoded_user(row)),
        !row_complete(row) ==> r == Err::<User, RepoError>(RepoError::Decode),
{
    match (row.id, row.name) {
        (Some(id), Some(name)) => Ok(User { id, name }),
        _ => Err(RepoError::Decode),
    }
}

/// Decodes a fetched batch all-or-nothing: one incomplete row fails the
/// whole call with `Decode`; otherwise every row becomes a `User`, in order.
pub fn decode_rows(rows: Vec<RawRow>) -> (r: Result<Vec<User>, RepoError>)
    ensures
        rows_complete(rows@) ==> (r matches Ok(users) && users@ == decoded_users(rows@)),
        !rows_complete(rows@) ==> r == Err::<Vec<User>, RepoError>(RepoError::Decode),
{
    let mut users: Vec<User> = Vec::new();
    let n: usize = rows.len();
    let ghost all: Seq<RawRow> = rows@;
    for i in 0..n
        invariant
            n == all.len(),
            rows@ == all,
            rows_complete(all.take(i as int)),
            users@ == decoded_users(all.take(i as int)),
    {
        let row = rows[i].clone();
        match decode_row(row) {
            Ok(user) => {
                users.push(user);
                proof {
                    assert(all.take(i + 1) =~= all.take(i as int).push(all[i as int]));
                    assert(decoded_users(all.take(i + 1)) =~= decoded_users(
                        all.take(i as int),
                    ).push(decoded_user(all[i as int])));
                }
            },
            Err(_) => {
                proof {
                    assert(!row_complete(all[i as int]));
                }
                return Err(RepoError::Decode);
            },
        }
    }
    proof {
        assert(all.take(n as int) =~= all);
    }
    Ok(users)
}

} // verus!
