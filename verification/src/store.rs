use vstd::prelude::*;

use crate::customer::{Customer, CustomerRow};
use crate::errors::Error;

verus! {

/// No two rows carry the same identifier.
pub open spec fn ids_unique(rows: Seq<Customer>) -> bool {
    forall|i: int, j: int| 0 <= i < j < rows.len() ==> rows[i].id != rows[j].id
}

/// Some row carries the identifier `id`.
pub open spec fn has_id(rows: Seq<Customer>, id: int) -> bool {
    exists|i: int| 0 <= i < rows.len() && rows[i].id == id
}

/// The position of the row carrying `id`; meaningful when `has_id` holds
/// and the identifiers are unique.
pub open spec fn index_of_id(rows: Seq<Customer>, id: int) -> int {
    choose|i: int| 0 <= i < rows.len() && rows[i].id == id
}

/// The row carrying `id`, as an entity.
pub open spec fn lookup(rows: Seq<Customer>, id: int) -> Customer {
    rows[index_of_id(rows, id)]
}

/// What a single-row read returns: the addressed row, or `NotFound` when no
/// row carries the identifier — never a defaulted entity.
pub open spec fn spec_get(rows: Seq<Customer>, id: int) -> Result<CustomerRow, Error> {
    if has_id(rows, id) {
        Ok(lookup(rows, id).spec_row())
    } else {
        Err(Error::NotFound)
    }
}

/// The entity an insert persists: the store-assigned identifier together
/// with exactly the fields the caller supplied.
pub open spec fn made_customer(
    id: int,
    name: String,
    surname: String,
    email: Option<String>,
    price_per_hour_bits: u64,
) -> Customer {
    Customer { id: id as i64, name, surname, email, price_per_hour_bits }
}

/// When the identifiers are unique, the position of any row is recovered
/// from its identifier alone.
pub proof fn lemma_unique_index(rows: Seq<Customer>, k: int)
    requires
        ids_unique(rows),
        0 <= k < rows.len(),
    ensures
        has_id(rows, rows[k].id as int),
        index_of_id(rows, rows[k].id as int) == k,
{
    assert(has_id(rows, rows[k].id as int));
    let i = index_of_id(rows, rows[k].id as int);
    if i < k {
        assert(rows[i].id != rows[k].id);
    } else if k < i {
        assert(rows[k].id != rows[i].id);
    }
}

/// The in-memory customer store: the persistence contract of the backing
/// table, stated and verified over a sequence of entities. Identifiers are
/// assigned by the store, starting at one and never reused.
pub struct Store {
    customers: Vec<Customer>,
    next_id: i64,
}

impl Store {
    /// The persisted rows, in insertion order.
    pub closed spec fn rows(self) -> Seq<Customer> {
        self.customers@
    }

    /// The identifier the next insert will assign.
    pub closed spec fn next(self) -> int {
        self.next_id as int
    }

    /// Well-formedness: identifiers are unique, at least one, and below the
    /// next identifier to be assigned.
    pub open spec fn inv(self) -> bool {
        &&& 1 <= self.next()
        &&& ids_unique(self.rows())
        &&& forall|i: int|
            0 <= i < self.rows().len() ==> 1 <= #[trigger] self.rows()[i].id < self.next()
    }

    /// An empty store whose first assigned identifier is one.
    pub fn new() -> (s: Store)
        ensures
            s.inv(),
            s.rows() == Seq::<Customer>::empty(),
            s.next() == 1,
    {
        Store { customers: Vec::new(), next_id: 1 }
    }

    /// Persists one new row built from the supplied fields, assigns it a
    /// fresh identifier, and returns the full persisted row.
    pub fn insert(
        &mut self,
        name: String,
        surname: String,
        email: Option<String>,
        price_per_hour_bits: u64,
    ) -> (row: CustomerRow)
        requires
            old(self).inv(),
            old(self).next() < i64::MAX,
        ensures
            final(self).inv(),
            final(self).next() == old(self).next() + 1,
            final(self).rows() == old(self).rows().push(
                made_customer(old(self).next(), name, surname, email, price_per_hour_bits),
            ),
            row == made_customer(
                old(self).next(),
                name,
                surname,
                email,
                price_per_hour_bits,
            ).spec_row(),
            !has_id(old(self).rows(), old(self).next()),
    {
        let id = self.next_id;
        let c = Customer { id, name, surname, email, price_per_hour_bits };
        let row = c.to_row();
        self.customers.push(c);
        self.next_id = id + 1;
        proof {
            let orows = old(self).rows();
            let nrows = self.rows();
            assert forall|i: int, j: int| 0 <= i < j < nrows.len() implies nrows[i].id
                != nrows[j].id by {
                if j + 1 == nrows.len() {
                    assert(nrows[i] == orows[i]);
                    assert(orows[i].id < old(self).next());
                }
            }
            if has_id(orows, old(self).next()) {
                let w = choose|i: int| 0 <= i < orows.len() && orows[i].id == old(self).next();
                assert(orows[w].id < old(self).next());
            }
        }
        row
    }

    /// Reads the single row carrying `id`; `NotFound` when no row matches.
    pub fn get_by_id(&self, id: i64) -> (r: Result<CustomerRow, Error>)
        requires
            self.inv(),
        ensures
            r == spec_get(self.rows(), id as int),
    {
        let mut k: usize = 0;
        while k < self.customers.len()
            invariant
                self.inv(),
                k <= self.rows().len(),
                forall|i: int| 0 <= i < k ==> self.rows()[i].id != id,
            decreases self.rows().len() - k,
        {
            if self.customers[k].id == id {
                proof {
                    lemma_unique_index(self.rows(), k as int);
                }
                return Ok(self.customers[k].to_row());
            }
            k = k + 1;
        }
        Err(Error::NotFound)
    }

    /// Reads every row, in insertion order.
    pub fn list_all(&self) -> (r: Vec<CustomerRow>)
        ensures
            r@.len() == self.rows().len(),
            forall|i: int| 0 <= i < r@.len() ==> r@[i] == self.rows()[i].spec_row(),
    {
        let mut out: Vec<CustomerRow> = Vec::new();
        let mut k: usize = 0;
        while k < self.customers.len()
            invariant
                k <= self.rows().len(),
                out@.len() == k,
                forall|i: int| 0 <= i < k ==> out@[i] == self.rows()[i].spec_row(),
            decreases self.rows().len() - k,
        {
            out.push(self.customers[k].to_row());
            k = k + 1;
        }
        out
    }

    /// Removes the single row carrying `id` and returns its pre-deletion
    /// state; `NotFound` when no row matches, leaving the store unchanged.
    pub fn delete_by_id(&mut self, id: i64) -> (r: Result<CustomerRow, Error>)
        requires
            old(self).inv(),
        ensures
            final(self).inv(),
            final(self).next() == old(self).next(),
            r == spec_get(old(self).rows(), id as int),
            has_id(old(self).rows(), id as int) ==> final(self).rows() == old(self).rows()
                .remove(index_of_id(old(self).rows(), id as int)),
            !has_id(old(self).rows(), id as int) ==> final(self).rows() == old(self).rows(),
    {
        let mut k: usize = 0;
        while k < self.customers.len()
            invariant
                *self == *old(self),
                self.inv(),
                k <= self.rows().len(),
                forall|i: int| 0 <= i < k ==> self.rows()[i].id != id,
            decreases self.rows().len() - k,
        {
            if self.customers[k].id == id {
                proof {
                    lemma_unique_index(old(self).rows(), k as int);
                }
                let c = self.customers.remove(k);
                let row = c.to_row();
                proof {
                    let orows = old(self).rows();
                    let nrows = self.rows();
                    assert(nrows == orows.remove(k as int));
                    assert forall|i: int|
                        0 <= i < nrows.len() implies nrows[i] == (if i < k as int {
                        orows[i]
                    } else {
                        orows[i + 1]
                    }) by {}
                    assert forall|i: int, j: int| 0 <= i < j < nrows.len() implies nrows[i].id
                        != nrows[j].id by {}
                }
                return Ok(row);
            }
            k = k + 1;
        }
        Err(Error::NotFound)
    }
}

} // verus!
