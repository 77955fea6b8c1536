use vstd::prelude::*;

use crate::customer::{Customer, CustomerRow};
use crate::errors::Error;
use crate::handlers::created_customer;
use crate::store::{has_id, ids_unique, index_of_id, lookup, spec_get};

verus! {

/// Round trip: persisting a payload on top of `rows` under the fresh
/// identifier `next` and then reading that identifier back yields exactly
/// the payload's fields plus the assigned identifier.
pub proof fn lemma_create_then_get(rows: Seq<Customer>, next: int, payload: CustomerRow)
    requires
        ids_unique(rows),
        forall|i: int| 0 <= i < rows.len() ==> #[trigger] rows[i].id < next,
        1 <= next <= i64::MAX,
    ensures
        ({
            let c = created_customer(next, payload);
            let rows2 = rows.push(c);
            &&& c.id == next
            &&& c.name == payload.name
            &&& c.surname == payload.surname
            &&& c.email == payload.email
            &&& c.price_per_hour_bits == payload.price_per_hour_bits
            &&& spec_get(rows2, next) == Ok::<CustomerRow, Error>(c.spec_row())
        }),
{
    let c = created_customer(next, payload);
    let rows2 = rows.push(c);
    assert(rows2[rows.len() as int] == c);
    assert(has_id(rows2, next));
    let i = index_of_id(rows2, next);
    if i < rows.len() {
        assert(rows2[i] == rows[i]);
        assert(rows[i].id < next);
    }
    assert(lookup(rows2, next) == c);
}

/// Idempotence of read: absent an intervening write, two reads of the same
/// identifier return the same result — a read is a function of the store
/// contents and the identifier alone, and it changes neither.
pub proof fn lemma_get_idempotent(
    rows: Seq<Customer>,
    id: int,
    r1: Result<CustomerRow, Error>,
    r2: Result<CustomerRow, Error>,
)
    requires
        r1 == spec_get(rows, id),
        r2 == spec_get(rows, id),
    ensures
        r1 == r2,
{
}

/// Deletion: removing the row carrying `id` removes exactly that row. The
/// identifier no longer resolves, every other row keeps its place-independent
/// value, and what the delete returns is the row's exact pre-deletion state.
pub proof fn lemma_delete_removes(rows: Seq<Customer>, id: int)
    requires
        ids_unique(rows),
        has_id(rows, id),
    ensures
        ({
            let rows2 = rows.remove(index_of_id(rows, id));
            &&& !has_id(rows2, id)
            &&& rows2.len() == rows.len() - 1
            &&& forall|o: int| o != id ==> (has_id(rows2, o) <==> has_id(rows, o))
            &&& forall|o: int|
                o != id && has_id(rows, o) ==> lookup(rows2, o) == lookup(rows, o)
            &&& spec_get(rows, id) == Ok::<CustomerRow, Error>(lookup(rows, id).spec_row())
        }),
{
    let k = index_of_id(rows, id);
    let rows2 = rows.remove(k);
    assert(0 <= k < rows.len() && rows[k].id == id);
    assert forall|i: int| 0 <= i < rows2.len() implies rows2[i] == (if i < k {
        rows[i]
    } else {
        rows[i + 1]
    }) by {}
    assert(!has_id(rows2, id)) by {
        if has_id(rows2, id) {
            let i = choose|i: int| 0 <= i < rows2.len() && rows2[i].id == id;
            if i < k {
                assert(rows[i].id != rows[k].id);
            } else {
                assert(rows[k].id != rows[i + 1].id);
            }
        }
    }
    assert forall|o: int| o != id implies (has_id(rows2, o) <==> has_id(rows, o)) by {
        if has_id(rows2, o) {
            let i = choose|i: int| 0 <= i < rows2.len() && rows2[i].id == o;
            if i < k {
                assert(rows[i].id == o);
            } else {
                assert(rows[i + 1].id == o);
            }
            assert(has_id(rows, o));
        }
        if has_id(rows, o) {
            let j = choose|j: int| 0 <= j < rows.len() && rows[j].id == o;
            assert(j != k);
            if j < k {
                assert(rows2[j].id == o);
            } else {
                assert(rows2[j - 1].id == o);
            }
            assert(has_id(rows2, o));
        }
    }
    assert forall|o: int| o != id && has_id(rows, o) implies lookup(rows2, o) == lookup(
        rows,
        o,
    ) by {
        let j = index_of_id(rows, o);
        assert(0 <= j < rows.len() && rows[j].id == o);
        assert(j != k);
        if j < k {
            assert(rows2[j].id == o);
        } else {
            assert(rows2[j - 1].id == o);
        }
        assert(has_id(rows2, o));
        let i = index_of_id(rows2, o);
        assert(0 <= i < rows2.len() && rows2[i].id == o);
        let j2: int = if i < k {
            i
        } else {
            i + 1
        };
        assert(rows[j2].id == o);
        if j2 < j {
            assert(rows[j2].id != rows[j].id);
        }
        if j < j2 {
            assert(rows[j].id != rows[j2].id);
        }
        assert(rows2[i] == rows[j]);
    }
}

/// Not-found: reading or deleting an identifier no row carries reports
/// `NotFound` — never a defaulted or empty entity.
pub proof fn lemma_not_found(rows: Seq<Customer>, id: int)
    requires
        !has_id(rows, id),
    ensures
        spec_get(rows, id) == Err::<CustomerRow, Error>(Error::NotFound),
{
}

/// The store contents after persisting each payload in order, each under the
/// next fresh identifier.
pub open spec fn rows_after_creates(
    rows: Seq<Customer>,
    next: int,
    payloads: Seq<CustomerRow>,
) -> Seq<Customer>
    decreases payloads.len(),
{
    if payloads.len() == 0 {
        rows
    } else {
        rows_after_creates(
            rows.push(created_customer(next, payloads[0])),
            next + 1,
            payloads.skip(1),
        )
    }
}

/// List completeness: after persisting N payloads, the listing holds the
/// prior rows unchanged followed by exactly N new entities, the k-th carrying
/// the k-th payload's fields under the distinct fresh identifier `next + k`.
pub proof fn lemma_list_after_creates(rows: Seq<Customer>, next: int, payloads: Seq<CustomerRow>)
    requires
        1 <= next,
        next + payloads.len() - 1 <= i64::MAX,
    ensures
        ({
            let rows2 = rows_after_creates(rows, next, payloads);
            &&& rows2.len() == rows.len() + payloads.len()
            &&& forall|i: int| 0 <= i < rows.len() ==> rows2[i] == rows[i]
            &&& forall|k: int|
                0 <= k < payloads.len() ==> rows2[rows.len() + k] == created_customer(
                    next + k,
                    payloads[k],
                )
            &&& forall|k: int|
                0 <= k < payloads.len() ==> (#[trigger] rows2[rows.len() + k]).id == next + k
        }),
    decreases payloads.len(),
{
    if payloads.len() > 0 {
        let first = created_customer(next, payloads[0]);
        let rows1 = rows.push(first);
        lemma_list_after_creates(rows1, next + 1, payloads.skip(1));
        let rows2 = rows_after_creates(rows, next, payloads);
        assert(rows2 == rows_after_creates(rows1, next + 1, payloads.skip(1)));
        assert(rows2.len() == rows.len() + payloads.len());
        assert forall|i: int| 0 <= i < rows.len() implies rows2[i] == rows[i] by {
            assert(rows2[i] == rows1[i]);
            assert(rows1[i] == rows[i]);
        }
        assert forall|k: int| 0 <= k < payloads.len() implies rows2[rows.len() + k]
            == created_customer(next + k, payloads[k]) by {
            if k == 0 {
                assert(rows2[rows.len() as int] == rows1[rows1.len() - 1]);
            } else {
                assert(payloads.skip(1)[k - 1] == payloads[k]);
                assert(rows2[rows1.len() + (k - 1)] == created_customer(
                    next + 1 + (k - 1),
                    payloads.skip(1)[k - 1],
                ));
            }
        }
        assert forall|k: int| 0 <= k < payloads.len() implies (#[trigger] rows2[rows.len()
            + k]).id == next + k by {
            assert(rows2[rows.len() + k] == created_customer(next + k, payloads[k]));
        }
    }
}

/// A caller-supplied identifier never dictates the assigned one: two create
/// payloads that agree on everything but their identifier field persist the
/// same entity, and its identifier is the store-assigned fresh one.
pub proof fn lemma_create_ignores_caller_id(next: int, p1: CustomerRow, p2: CustomerRow)
    requires
        1 <= next <= i64::MAX,
        p1.name == p2.name,
        p1.surname == p2.surname,
        p1.email == p2.email,
        p1.price_per_hour_bits == p2.price_per_hour_bits,
    ensures
        created_customer(next, p1) == created_customer(next, p2),
        created_customer(next, p1).id == next,
{
}

} // verus!
