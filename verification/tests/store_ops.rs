use customer_service::customer::CustomerRow;
use customer_service::errors::Error;
use customer_service::handlers::{create_customer, delete_customer, get_customer, list_customers};
use customer_service::store::Store;

fn payload(name: &str, surname: &str, email: Option<&str>, price: f64) -> CustomerRow {
    CustomerRow {
        id: None,
        name: String::from(name),
        surname: String::from(surname),
        email: email.map(String::from),
        price_per_hour_bits: price.to_bits(),
    }
}

#[test]
fn list_holds_every_created_customer() {
    let mut store = Store::new();
    create_customer(&mut store, payload("Ada", "Lovelace", None, 50.0)).unwrap();
    create_customer(&mut store, payload("Alan", "Turing", Some("alan@example.com"), 60.0)).unwrap();
    create_customer(&mut store, payload("Grace", "Hopper", None, 70.5)).unwrap();

    let listed = list_customers(&store).unwrap();
    assert_eq!(listed.len(), 3);

    assert_eq!(listed[0].id, 1);
    assert_eq!(listed[0].name, "Ada");
    assert_eq!(listed[0].surname, "Lovelace");
    assert_eq!(listed[0].email, None);
    assert_eq!(f64::from_bits(listed[0].price_per_hour_bits), 50.0);

    assert_eq!(listed[1].id, 2);
    assert_eq!(listed[1].name, "Alan");
    assert_eq!(listed[1].email.as_deref(), Some("alan@example.com"));
    assert_eq!(f64::from_bits(listed[1].price_per_hour_bits), 60.0);

    assert_eq!(listed[2].id, 3);
    assert_eq!(listed[2].surname, "Hopper");
    assert_eq!(f64::from_bits(listed[2].price_per_hour_bits), 70.5);
}

#[test]
fn list_on_empty_store_is_empty_not_an_error() {
    let store = Store::new();
    let listed = list_customers(&store).unwrap();
    assert_eq!(listed.len(), 0);
}

#[test]
fn delete_removes_only_the_addressed_row() {
    let mut store = Store::new();
    create_customer(&mut store, payload("Ada", "Lovelace", None, 50.0)).unwrap();
    create_customer(&mut store, payload("Alan", "Turing", None, 60.0)).unwrap();
    create_customer(&mut store, payload("Grace", "Hopper", None, 70.0)).unwrap();

    let deleted = delete_customer(&mut store, "2").unwrap();
    assert_eq!(deleted.id, 2);
    assert_eq!(deleted.name, "Alan");
    assert_eq!(deleted.surname, "Turing");

    let listed = list_customers(&store).unwrap();
    assert_eq!(listed.len(), 2);
    assert_eq!(listed[0].id, 1);
    assert_eq!(listed[1].id, 3);
    assert_eq!(get_customer(&store, "2").unwrap_err(), Error::NotFound);
    assert_eq!(get_customer(&store, "1").unwrap().name, "Ada");
    assert_eq!(get_customer(&store, "3").unwrap().name, "Grace");
}

#[test]
fn deleted_id_is_never_reassigned() {
    let mut store = Store::new();
    create_customer(&mut store, payload("Ada", "Lovelace", None, 50.0)).unwrap();
    delete_customer(&mut store, "1").unwrap();

    let created = create_customer(&mut store, payload("Alan", "Turing", None, 60.0)).unwrap();
    assert_eq!(created.id, 2);
    assert_eq!(get_customer(&store, "1").unwrap_err(), Error::NotFound);
}

#[test]
fn get_unknown_id_is_not_found() {
    let store = Store::new();
    assert_eq!(get_customer(&store, "7").unwrap_err(), Error::NotFound);
}

#[test]
fn delete_unknown_id_is_not_found() {
    let mut store = Store::new();
    create_customer(&mut store, payload("Ada", "Lovelace", None, 50.0)).unwrap();
    assert_eq!(delete_customer(&mut store, "7").unwrap_err(), Error::NotFound);
    assert_eq!(list_customers(&store).unwrap().len(), 1);
}

#[test]
fn malformed_id_is_bad_request_for_get_and_delete() {
    let mut store = Store::new();
    assert_eq!(get_customer(&store, "seven").unwrap_err(), Error::BadRequest);
    assert_eq!(get_customer(&store, "").unwrap_err(), Error::BadRequest);
    assert_eq!(get_customer(&store, "-1").unwrap_err(), Error::BadRequest);
    assert_eq!(delete_customer(&mut store, "1x").unwrap_err(), Error::BadRequest);
}
