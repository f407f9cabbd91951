use pagila_core::db::Database;
use pagila_core::errors::OnboardError;
use pagila_core::onboarding::{
    create_address, create_customer, insert_customer, onboard, resolve_city, resolve_country,
};
use pagila_core::requests::{CreateAddress, CreateCustomerForm};

fn form(
    store_id: i16,
    first_name: &str,
    last_name: &str,
    city: &str,
    country: &str,
) -> CreateCustomerForm {
    CreateCustomerForm {
        store_id,
        first_name: first_name.to_string(),
        last_name: last_name.to_string(),
        email: Some(format!("{}.{}@example.net", first_name, last_name)),
        activebool: true,
        address: CreateAddress {
            address: "1 Main Street".to_string(),
            address2: None,
            district: "Central".to_string(),
            postal_code: Some("10001".to_string()),
            phone: "555-0100".to_string(),
            city: city.to_string(),
            country: country.to_string(),
        },
    }
}

fn store_db() -> Database {
    let mut db = Database::new();
    db.add_store(1);
    db
}

#[test]
fn scenario_a_new_country_and_city() {
    let mut db = store_db();
    let f = form(1, "Rufus", "Firefly", "Fredonia City", "Freedonia");
    let r = create_customer(&mut db, &f);
    assert_eq!(r.status, "success");
    assert_eq!(r.message, "Successfully created customer");
    let c = r.data.expect("success carries the customer");
    assert_eq!(c.customer_id, Some(1));
    assert_eq!(db.countries.len(), 1);
    assert_eq!(db.countries[0].country, "Freedonia");
    assert_eq!(db.cities.len(), 1);
    assert_eq!(db.cities[0].city, "Fredonia City");
    assert_eq!(db.cities[0].country_id, db.countries[0].country_id);
    assert_eq!(db.addresses.len(), 1);
    assert_eq!(db.customers.len(), 1);
}

#[test]
fn scenario_b_second_request_reuses_city() {
    let mut db = store_db();
    let f1 = form(1, "Rufus", "Firefly", "Fredonia City", "Freedonia");
    let r1 = create_customer(&mut db, &f1);
    assert_eq!(r1.status, "success");
    let c1 = r1.data.unwrap();
    let f2 = form(1, "Chico", "Chicolini", "Fredonia City", "Freedonia");
    let r2 = create_customer(&mut db, &f2);
    assert_eq!(r2.status, "success");
    let c2 = r2.data.unwrap();
    // no duplicate city or country was created
    assert_eq!(db.countries.len(), 1);
    assert_eq!(db.cities.len(), 1);
    // both customers' addresses reference the same city
    let a1 = &db.addresses[(c1.address_id - 1) as usize];
    let a2 = &db.addresses[(c2.address_id - 1) as usize];
    assert_eq!(a1.city_id, a2.city_id);
    assert_ne!(c1.customer_id, c2.customer_id);
}

#[test]
fn scenario_c_existing_country_new_city() {
    let mut db = store_db();
    let f1 = form(1, "Rufus", "Firefly", "Fredonia City", "Freedonia");
    assert_eq!(create_customer(&mut db, &f1).status, "success");
    let country_id_before = db.countries[0].country_id;
    let f2 = form(1, "Otis", "Driftwood", "Sylvania City", "Freedonia");
    let r2 = create_customer(&mut db, &f2);
    assert_eq!(r2.status, "success");
    // country reused unchanged, only the city is new
    assert_eq!(db.countries.len(), 1);
    assert_eq!(db.countries[0].country_id, country_id_before);
    assert_eq!(db.cities.len(), 2);
    assert_eq!(db.cities[1].city, "Sylvania City");
    assert_eq!(db.cities[1].country_id, country_id_before);
}

#[test]
fn scenario_d_invalid_store() {
    let mut db = store_db();
    let f = form(42, "Rufus", "Firefly", "Fredonia City", "Freedonia");
    let r = create_customer(&mut db, &f);
    assert_eq!(r.status, "error");
    assert!(r.data.is_none());
    // nothing from this request persisted
    assert_eq!(db.countries.len(), 0);
    assert_eq!(db.cities.len(), 0);
    assert_eq!(db.addresses.len(), 0);
    assert_eq!(db.customers.len(), 0);
}

#[test]
fn atomicity_failed_request_leaves_no_rows() {
    let mut db = store_db();
    let f1 = form(1, "Rufus", "Firefly", "Fredonia City", "Freedonia");
    assert!(onboard(&mut db, &f1).is_ok());
    // a request with a fresh country but an unknown store must not
    // leave a country, city or address row behind
    let f2 = form(9, "Otis", "Driftwood", "Klopstokia City", "Klopstokia");
    let r2 = onboard(&mut db, &f2);
    assert!(matches!(r2, Err(OnboardError::ConstraintViolation)));
    assert_eq!(db.countries.len(), 1);
    assert_eq!(db.cities.len(), 1);
    assert_eq!(db.addresses.len(), 1);
    assert_eq!(db.customers.len(), 1);
}

#[test]
fn dependency_ordering_chain_holds() {
    let mut db = store_db();
    let f = form(1, "Rufus", "Firefly", "Fredonia City", "Freedonia");
    let c = onboard(&mut db, &f).expect("onboarding succeeds");
    let address = &db.addresses[(c.address_id - 1) as usize];
    let city = &db.cities[(address.city_id - 1) as usize];
    let country = &db.countries[(city.country_id - 1) as usize];
    assert_eq!(city.city, "Fredonia City");
    assert_eq!(country.country, "Freedonia");
    let customer = &db.customers[(c.customer_id.unwrap() - 1) as usize];
    assert_eq!(customer.address_id, c.address_id as i32);
}

#[test]
fn reference_reuse_country() {
    let mut db = Database::new();
    let name = "Freedonia".to_string();
    let first = resolve_country(&mut db, &name);
    let second = resolve_country(&mut db, &name);
    assert_eq!(first.country_id, second.country_id);
    assert_eq!(db.countries.len(), 1);
}

#[test]
fn reference_reuse_city() {
    let mut db = Database::new();
    let country = resolve_country(&mut db, &"Freedonia".to_string());
    let name = "Fredonia City".to_string();
    let first = resolve_city(&mut db, &name, country.country_id);
    let second = resolve_city(&mut db, &name, country.country_id);
    assert_eq!(first.city_id, second.city_id);
    assert_eq!(db.cities.len(), 1);
}

#[test]
fn same_city_name_under_two_countries() {
    let mut db = Database::new();
    let c1 = resolve_country(&mut db, &"Freedonia".to_string());
    let c2 = resolve_country(&mut db, &"Sylvania".to_string());
    let name = "Springfield".to_string();
    let city1 = resolve_city(&mut db, &name, c1.country_id);
    let city2 = resolve_city(&mut db, &name, c2.country_id);
    // same name under different countries is no collision
    assert_ne!(city1.city_id, city2.city_id);
    assert_eq!(db.cities.len(), 2);
}

#[test]
fn addresses_are_never_deduplicated() {
    let mut db = Database::new();
    let country = resolve_country(&mut db, &"Freedonia".to_string());
    let city = resolve_city(&mut db, &"Fredonia City".to_string(), country.country_id);
    let addr = CreateAddress {
        address: "1 Main Street".to_string(),
        address2: Some("Apt 2".to_string()),
        district: "Central".to_string(),
        postal_code: None,
        phone: "555-0100".to_string(),
        city: "Fredonia City".to_string(),
        country: "Freedonia".to_string(),
    };
    let a1 = create_address(&mut db, &addr, city.city_id);
    let a2 = create_address(&mut db, &addr, city.city_id);
    assert_ne!(a1.address_id, a2.address_id);
    assert_eq!(db.addresses.len(), 2);
    assert_eq!(db.addresses[0].address, db.addresses[1].address);
}

#[test]
fn validation_rejects_blank_country() {
    let mut db = store_db();
    let f = form(1, "Rufus", "Firefly", "Fredonia City", "   ");
    assert!(!f.validate());
    let r = onboard(&mut db, &f);
    assert!(matches!(r, Err(OnboardError::Validation)));
    assert_eq!(db.countries.len(), 0);
}

#[test]
fn validation_rejects_blank_city() {
    let mut db = store_db();
    let f = form(1, "Rufus", "Firefly", " \t\n", "Freedonia");
    assert!(!f.validate());
    assert!(matches!(onboard(&mut db, &f), Err(OnboardError::Validation)));
    assert_eq!(db.cities.len(), 0);
}

#[test]
fn validation_accepts_trimmable_names() {
    let f = form(1, "Rufus", "Firefly", " Fredonia City ", " Freedonia ");
    assert!(f.validate());
}

#[test]
fn insert_customer_reports_persisted_row() {
    let mut db = store_db();
    let country = resolve_country(&mut db, &"Freedonia".to_string());
    let city = resolve_city(&mut db, &"Fredonia City".to_string(), country.country_id);
    let f = form(1, "Rufus", "Firefly", "Fredonia City", "Freedonia");
    let a = create_address(&mut db, &f.address, city.city_id);
    let c = insert_customer(&mut db, &f, a.address_id).expect("store 1 exists");
    assert_eq!(c.customer_id, Some(1));
    assert_eq!(c.store_id, 1);
    assert_eq!(c.first_name, "Rufus");
    assert_eq!(c.last_name, "Firefly");
    assert_eq!(c.email, f.email);
    assert!(c.activebool);
    assert_eq!(c.active, None);
    assert_eq!(c.address_id as i32, a.address_id);
    let row = &db.customers[0];
    assert_eq!(row.customer_id, 1);
    assert_eq!(row.first_name, "Rufus");
}

#[test]
fn insert_customer_unknown_store_writes_nothing() {
    let mut db = store_db();
    let country = resolve_country(&mut db, &"Freedonia".to_string());
    let city = resolve_city(&mut db, &"Fredonia City".to_string(), country.country_id);
    let f = form(7, "Rufus", "Firefly", "Fredonia City", "Freedonia");
    let a = create_address(&mut db, &f.address, city.city_id);
    let before = db.customers.len();
    let r = insert_customer(&mut db, &f, a.address_id);
    assert!(matches!(r, Err(OnboardError::ConstraintViolation)));
    assert_eq!(db.customers.len(), before);
}

#[test]
fn error_messages_describe_each_failure() {
    assert_eq!(
        OnboardError::Validation.describe(),
        "Country and city names must not be blank"
    );
    assert_eq!(
        OnboardError::ReferenceResolution.describe(),
        "Error while resolving country or city"
    );
    assert_eq!(
        OnboardError::ConstraintViolation.describe(),
        "Insert violated a database constraint"
    );
    assert_eq!(
        OnboardError::Transaction.describe(),
        "Transaction could not be committed"
    );
}
