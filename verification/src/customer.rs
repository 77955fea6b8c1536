use vstd::prelude::*;

use crate::errors::{Error, MappingFault};

verus! {

/// A persisted customer entity. The identifier is server-assigned and always
/// present. The hourly price is a binary64 value carried by its bit pattern,
/// so that the core never computes on it; the application boundary converts
/// to and from the floating-point wire representation.
#[derive(Debug)]
pub struct Customer {
    pub id: i64,
    pub name: String,
    pub surname: String,
    pub email: Option<String>,
    pub price_per_hour_bits: u64,
}

/// A raw row as the backing store hands it back: the identifier may be
/// absent. This is also the shape of the create request's wire payload,
/// where a caller-supplied `id` is ignored.
#[derive(Debug)]
pub struct CustomerRow {
    pub id: Option<i64>,
    pub name: String,
    pub surname: String,
    pub email: Option<String>,
    pub price_per_hour_bits: u64,
}

impl Customer {
    /// The row representation of this entity: the same fields, with the
    /// identifier wrapped as present.
    pub open spec fn spec_row(self) -> CustomerRow {
        CustomerRow {
            id: Some(self.id),
            name: self.name,
            surname: self.surname,
            email: self.email,
            price_per_hour_bits: self.price_per_hour_bits,
        }
    }

    /// Builds the row representation of this entity.
    pub fn to_row(&self) -> (r: CustomerRow)
        ensures
            r == self.spec_row(),
    {
        CustomerRow {
            id: Some(self.id),
            name: self.name.clone(),
            surname: self.surname.clone(),
            email: clone_email(&self.email),
            price_per_hour_bits: self.price_per_hour_bits,
        }
    }

    /// Copies this entity field by field.
    pub fn duplicate(&self) -> (c: Customer)
        ensures
            c == *self,
    {
        Customer {
            id: self.id,
            name: self.name.clone(),
            surname: self.surname.clone(),
            email: clone_email(&self.email),
            price_per_hour_bits: self.price_per_hour_bits,
        }
    }
}

/// Copies an optional email field.
fn clone_email(email: &Option<String>) -> (r: Option<String>)
    ensures
        r == *email,
{
    match email {
        Some(s) => Some(s.clone()),
        None => None,
    }
}

impl CustomerRow {
    /// The entity a row with a present identifier maps to.
    pub open spec fn spec_customer(self) -> Customer {
        Customer {
            id: self.id->0,
            name: self.name,
            surname: self.surname,
            email: self.email,
            price_per_hour_bits: self.price_per_hour_bits,
        }
    }

    /// Maps this row to a customer entity. Fails loudly when the identifier
    /// is absent — a store handing back such a row has broken its contract,
    /// and the failure must surface instead of a defaulted identifier.
    pub fn try_into_customer(&self) -> (r: Result<Customer, Error>)
        ensures
            self.id is Some ==> r == Ok::<Customer, Error>(self.spec_customer()),
            self.id is None ==> r == Err::<Customer, Error>(
                Error::Mapping(MappingFault::MissingId),
            ),
    {
        if let Some(id) = self.id {
            Ok(Customer {
                id,
                name: self.name.clone(),
                surname: self.surname.clone(),
                email: clone_email(&self.email),
                price_per_hour_bits: self.price_per_hour_bits,
            })
        } else {
            Err(Error::Mapping(MappingFault::MissingId))
        }
    }
}

/// Maps a whole result set to entities. The request fails as a whole on the
/// first row without an identifier: partial results are never returned.
pub fn rows_to_customers(rows: &Vec<CustomerRow>) -> (r: Result<Vec<Customer>, Error>)
    ensures
        (forall|i: int| 0 <= i < rows@.len() ==> rows@[i].id is Some) ==> (r matches Ok(cs)
            && cs@.len() == rows@.len()
            && forall|i: int| 0 <= i < rows@.len() ==> cs@[i] == rows@[i].spec_customer()),
        (exists|i: int| 0 <= i < rows@.len() && rows@[i].id is None) ==> r == Err::<
            Vec<Customer>,
            Error,
        >(Error::Mapping(MappingFault::MissingId)),
{
    let mut out: Vec<Customer> = Vec::new();
    let mut k: usize = 0;
    while k < rows.len()
        invariant
            k <= rows@.len(),
            out@.len() == k,
            forall|i: int| 0 <= i < k ==> rows@[i].id is Some,
            forall|i: int| 0 <= i < k ==> out@[i] == rows@[i].spec_customer(),
        decreases rows@.len() - k,
    {
        match rows[k].try_into_customer() {
            Ok(c) => {
                out.push(c);
            },
            Err(e) => {
                return Err(e);
            },
        }
        k = k + 1;
    }
    Ok(out)
}

} // verus!
