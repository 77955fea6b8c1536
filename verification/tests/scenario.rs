use customer_service::config::Config;
use customer_service::customer::CustomerRow;
use customer_service::errors::Error;
use customer_service::handlers::{create_customer, delete_customer, get_customer, list_customers};
use customer_service::store::Store;

fn ada_payload() -> CustomerRow {
    CustomerRow {
        id: None,
        name: String::from("Ada"),
        surname: String::from("Lovelace"),
        email: None,
        price_per_hour_bits: 50.0f64.to_bits(),
    }
}

#[test]
fn ada_round_trip() {
    let mut store = Store::new();

    let created = create_customer(&mut store, ada_payload()).unwrap();
    assert_eq!(created.id, 1);
    assert_eq!(created.name, "Ada");
    assert_eq!(created.surname, "Lovelace");
    assert_eq!(created.email, None);
    assert_eq!(f64::from_bits(created.price_per_hour_bits), 50.0);

    let got = get_customer(&store, "1").unwrap();
    assert_eq!(got.id, 1);
    assert_eq!(got.name, "Ada");
    assert_eq!(got.surname, "Lovelace");
    assert_eq!(got.email, None);
    assert_eq!(f64::from_bits(got.price_per_hour_bits), 50.0);

    let deleted = delete_customer(&mut store, "1").unwrap();
    assert_eq!(deleted.id, 1);
    assert_eq!(deleted.name, "Ada");
    assert_eq!(deleted.surname, "Lovelace");
    assert_eq!(deleted.email, None);
    assert_eq!(f64::from_bits(deleted.price_per_hour_bits), 50.0);

    assert_eq!(get_customer(&store, "1").unwrap_err(), Error::NotFound);
    let listed = list_customers(&store).unwrap();
    assert!(listed.is_empty());
}

#[test]
fn repeated_get_returns_identical_results() {
    let mut store = Store::new();
    create_customer(&mut store, ada_payload()).unwrap();

    let first = get_customer(&store, "1").unwrap();
    let second = get_customer(&store, "1").unwrap();
    assert_eq!(first.id, second.id);
    assert_eq!(first.name, second.name);
    assert_eq!(first.surname, second.surname);
    assert_eq!(first.email, second.email);
    assert_eq!(first.price_per_hour_bits, second.price_per_hour_bits);
}

#[test]
fn caller_supplied_id_is_ignored() {
    let mut store = Store::new();
    let mut payload = ada_payload();
    payload.id = Some(999);

    let created = create_customer(&mut store, payload).unwrap();
    assert_eq!(created.id, 1);
    assert!(get_customer(&store, "999").is_err());
    assert_eq!(get_customer(&store, "999").unwrap_err(), Error::NotFound);
}

#[test]
fn config_carries_plain_strings() {
    let config = Config {
        database_url: String::from("sqlite://sqlite.db"),
        port: String::from("3000"),
    };
    assert_eq!(config.database_url, "sqlite://sqlite.db");
    assert_eq!(config.port, "3000");
}
