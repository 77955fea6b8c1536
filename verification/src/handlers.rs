use vstd::prelude::*;

use crate::customer::{rows_to_customers, Customer, CustomerRow};
use crate::errors::Error;
use crate::ident::{digits_value, lemma_digits_value_nonneg, parse_id, valid_id};
use crate::store::{has_id, index_of_id, lookup, made_customer, Store};

verus! {

/// The entity a create request persists: the store's next identifier plus
/// the payload's own fields. A caller-supplied identifier in the payload is
/// never consulted.
pub open spec fn created_customer(next: int, payload: CustomerRow) -> Customer {
    made_customer(next, payload.name, payload.surname, payload.email, payload.price_per_hour_bits)
}

/// Create: persists the payload's fields under a fresh server-assigned
/// identifier and returns the persisted entity.
pub fn create_customer(store: &mut Store, payload: CustomerRow) -> (r: Result<Customer, Error>)
    requires
        old(store).inv(),
        old(store).next() < i64::MAX,
    ensures
        final(store).inv(),
        r == Ok::<Customer, Error>(created_customer(old(store).next(), payload)),
        final(store).rows() == old(store).rows().push(
            created_customer(old(store).next(), payload),
        ),
        final(store).next() == old(store).next() + 1,
{
    let row = store.insert(
        payload.name,
        payload.surname,
        payload.email,
        payload.price_per_hour_bits,
    );
    row.try_into_customer()
}

/// Get: parses the path identifier, reads the addressed row, and maps it to
/// an entity. Malformed identifiers are rejected before the store is read.
pub fn get_customer(store: &Store, raw_id: &str) -> (r: Result<Customer, Error>)
    requires
        store.inv(),
    ensures
        !valid_id(raw_id@) ==> r == Err::<Customer, Error>(Error::BadRequest),
        valid_id(raw_id@) && !has_id(store.rows(), digits_value(raw_id@)) ==> r == Err::<
            Customer,
            Error,
        >(Error::NotFound),
        valid_id(raw_id@) && has_id(store.rows(), digits_value(raw_id@)) ==> r == Ok::<
            Customer,
            Error,
        >(lookup(store.rows(), digits_value(raw_id@))),
{
    let id = match parse_id(raw_id) {
        Ok(v) => v,
        Err(e) => {
            return Err(e);
        },
    };
    proof {
        lemma_digits_value_nonneg(raw_id@);
    }
    let row = match store.get_by_id(id) {
        Ok(v) => v,
        Err(e) => {
            return Err(e);
        },
    };
    row.try_into_customer()
}

/// Delete: parses the path identifier, removes the addressed row, and
/// returns its pre-deletion state — the caller receives the last known value
/// of the resource it just removed.
pub fn delete_customer(store: &mut Store, raw_id: &str) -> (r: Result<Customer, Error>)
    requires
        old(store).inv(),
    ensures
        final(store).inv(),
        final(store).next() == old(store).next(),
        !valid_id(raw_id@) ==> r == Err::<Customer, Error>(Error::BadRequest)
            && final(store).rows() == old(store).rows(),
        valid_id(raw_id@) && !has_id(old(store).rows(), digits_value(raw_id@))
            ==> r == Err::<Customer, Error>(Error::NotFound)
            && final(store).rows() == old(store).rows(),
        valid_id(raw_id@) && has_id(old(store).rows(), digits_value(raw_id@))
            ==> r == Ok::<Customer, Error>(lookup(old(store).rows(), digits_value(raw_id@)))
            && final(store).rows()
                == old(store).rows().remove(index_of_id(old(store).rows(), digits_value(raw_id@))),
{
    let id = match parse_id(raw_id) {
        Ok(v) => v,
        Err(e) => {
            return Err(e);
        },
    };
    proof {
        lemma_digits_value_nonneg(raw_id@);
    }
    let row = match store.delete_by_id(id) {
        Ok(v) => v,
        Err(e) => {
            return Err(e);
        },
    };
    row.try_into_customer()
}

/// List: reads every row and maps each to an entity; an empty store yields
/// an empty sequence, never a failure, and a partial result is never
/// returned.
pub fn list_customers(store: &Store) -> (r: Result<Vec<Customer>, Error>)
    requires
        store.inv(),
    ensures
        r matches Ok(cs) && cs@.len() == store.rows().len() && (forall|i: int|
            0 <= i < cs@.len() ==> cs@[i] == store.rows()[i]),
{
    let rows = store.list_all();
    let r = rows_to_customers(&rows);
    proof {
        assert(forall|i: int| 0 <= i < rows@.len() ==> (#[trigger] rows@[i]).id is Some);
    }
    r
}

} // verus!
