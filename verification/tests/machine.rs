use pagila_core::db::Database;
use pagila_core::driver::run_onboarding;
use pagila_core::errors::OnboardError;
use pagila_core::machine::{initial_state, step, TxAction, TxEvent, TxState};
use pagila_core::requests::{CreateAddress, CreateCustomerForm};
use pagila_core::requests::{
    AddressRespond, CityRespond, CountryRespond, CreateCustomer, ValueExists,
};

fn customer() -> CreateCustomer {
    CreateCustomer {
        customer_id: Some(7),
        store_id: 1,
        first_name: "Rufus".to_string(),
        last_name: "Firefly".to_string(),
        email: None,
        activebool: true,
        active: None,
        address_id: 3,
    }
}

#[test]
fn happy_path_with_fresh_country_and_city() {
    let (s, a) = step(initial_state(), TxEvent::Begun);
    assert_eq!(a, TxAction::CheckCountryExists);
    let (s, a) = step(s, TxEvent::ExistsChecked(ValueExists { exists: Some(false) }));
    assert_eq!(a, TxAction::InsertCountry);
    let (s, a) = step(s, TxEvent::CountryFetched(CountryRespond { country_id: 5 }));
    assert_eq!(a, TxAction::CheckCityExists { country_id: 5 });
    let (s, a) = step(s, TxEvent::ExistsChecked(ValueExists { exists: Some(false) }));
    assert_eq!(a, TxAction::InsertCity { country_id: 5 });
    let (s, a) = step(s, TxEvent::CityFetched(CityRespond { city_id: 9 }));
    assert_eq!(a, TxAction::InsertAddress { city_id: 9 });
    let (s, a) = step(s, TxEvent::AddressInserted(AddressRespond { address_id: 3 }));
    assert_eq!(a, TxAction::InsertCustomer { address_id: 3 });
    let (s, a) = step(s, TxEvent::CustomerInserted(customer()));
    assert_eq!(a, TxAction::Commit);
    let (s, a) = step(s, TxEvent::CommitSucceeded);
    assert_eq!(a, TxAction::Respond);
    match s {
        TxState::Committed { customer: c } => {
            assert_eq!(c.customer_id, Some(7));
            assert_eq!(c.address_id, 3);
        }
        _ => panic!("expected a committed transaction"),
    }
}

#[test]
fn existing_rows_are_fetched_not_inserted() {
    let (s, _) = step(initial_state(), TxEvent::Begun);
    let (s, a) = step(s, TxEvent::ExistsChecked(ValueExists { exists: Some(true) }));
    assert_eq!(a, TxAction::FetchCountryId);
    let (s, a) = step(s, TxEvent::CountryFetched(CountryRespond { country_id: 2 }));
    assert_eq!(a, TxAction::CheckCityExists { country_id: 2 });
    let (_, a) = step(s, TxEvent::ExistsChecked(ValueExists { exists: Some(true) }));
    assert_eq!(a, TxAction::FetchCityId { country_id: 2 });
}

#[test]
fn missing_exists_flag_counts_as_absent() {
    let (s, _) = step(initial_state(), TxEvent::Begun);
    let (_, a) = step(s, TxEvent::ExistsChecked(ValueExists { exists: None }));
    assert_eq!(a, TxAction::InsertCountry);
}

#[test]
fn resolver_failure_rolls_back_as_reference_resolution() {
    let (s, _) = step(initial_state(), TxEvent::Begun);
    let (s, a) = step(s, TxEvent::StepFailed);
    assert_eq!(a, TxAction::Rollback);
    assert!(matches!(
        s,
        TxState::RolledBack { error: OnboardError::ReferenceResolution }
    ));
}

#[test]
fn insert_failure_rolls_back_as_constraint_violation() {
    let (s, _) = step(initial_state(), TxEvent::Begun);
    let (s, _) = step(s, TxEvent::ExistsChecked(ValueExists { exists: Some(false) }));
    let (s, _) = step(s, TxEvent::CountryFetched(CountryRespond { country_id: 1 }));
    let (s, _) = step(s, TxEvent::ExistsChecked(ValueExists { exists: Some(false) }));
    let (s, _) = step(s, TxEvent::CityFetched(CityRespond { city_id: 1 }));
    // the address insert fails
    let (s, a) = step(s, TxEvent::StepFailed);
    assert_eq!(a, TxAction::Rollback);
    assert!(matches!(
        s,
        TxState::RolledBack { error: OnboardError::ConstraintViolation }
    ));
}

#[test]
fn commit_failure_is_a_transaction_error() {
    let (s, _) = step(initial_state(), TxEvent::Begun);
    let (s, _) = step(s, TxEvent::ExistsChecked(ValueExists { exists: Some(false) }));
    let (s, _) = step(s, TxEvent::CountryFetched(CountryRespond { country_id: 1 }));
    let (s, _) = step(s, TxEvent::ExistsChecked(ValueExists { exists: Some(false) }));
    let (s, _) = step(s, TxEvent::CityFetched(CityRespond { city_id: 1 }));
    let (s, _) = step(s, TxEvent::AddressInserted(AddressRespond { address_id: 1 }));
    let (s, _) = step(s, TxEvent::CustomerInserted(customer()));
    let (s, a) = step(s, TxEvent::StepFailed);
    // the commit failed: no live transaction remains to roll back
    assert_eq!(a, TxAction::Respond);
    assert!(matches!(
        s,
        TxState::RolledBack { error: OnboardError::Transaction }
    ));
}

#[test]
fn failure_to_open_the_transaction() {
    let (s, a) = step(initial_state(), TxEvent::StepFailed);
    assert_eq!(a, TxAction::Respond);
    assert!(matches!(
        s,
        TxState::RolledBack { error: OnboardError::Transaction }
    ));
}

#[test]
fn unexpected_event_aborts() {
    let (s, _) = step(initial_state(), TxEvent::Begun);
    // a city identifier arrives while the country check is pending
    let (s, a) = step(s, TxEvent::CityFetched(CityRespond { city_id: 4 }));
    assert_eq!(a, TxAction::Rollback);
    assert!(matches!(
        s,
        TxState::RolledBack { error: OnboardError::ReferenceResolution }
    ));
}

fn onboarding_form(store_id: i16) -> CreateCustomerForm {
    CreateCustomerForm {
        store_id,
        first_name: "Rufus".to_string(),
        last_name: "Firefly".to_string(),
        email: None,
        activebool: true,
        address: CreateAddress {
            address: "1 Main Street".to_string(),
            address2: None,
            district: "Central".to_string(),
            postal_code: None,
            phone: "555-0100".to_string(),
            city: "Fredonia City".to_string(),
            country: "Freedonia".to_string(),
        },
    }
}

#[test]
fn driven_machine_commits_the_transaction() {
    let mut db = Database::new();
    db.add_store(1);
    let outcome = run_onboarding(&mut db, &onboarding_form(1));
    match outcome {
        TxState::Committed { customer } => {
            assert_eq!(customer.customer_id, Some(1));
            assert_eq!(customer.address_id, 1);
        }
        _ => panic!("expected a committed transaction"),
    }
    assert_eq!(db.countries.len(), 1);
    assert_eq!(db.cities.len(), 1);
    assert_eq!(db.addresses.len(), 1);
    assert_eq!(db.customers.len(), 1);
}

#[test]
fn driven_machine_rolls_back_on_unknown_store() {
    let mut db = Database::new();
    db.add_store(1);
    let outcome = run_onboarding(&mut db, &onboarding_form(3));
    assert!(matches!(
        outcome,
        TxState::RolledBack { error: OnboardError::ConstraintViolation }
    ));
    // the failed customer insert left no country, city or address row
    assert_eq!(db.countries.len(), 0);
    assert_eq!(db.cities.len(), 0);
    assert_eq!(db.addresses.len(), 0);
    assert_eq!(db.customers.len(), 0);
}

#[test]
fn driven_machine_rejects_a_blank_key() {
    let mut db = Database::new();
    db.add_store(1);
    let mut form = onboarding_form(1);
    form.address.country = "  ".to_string();
    let outcome = run_onboarding(&mut db, &form);
    assert!(matches!(
        outcome,
        TxState::RolledBack { error: OnboardError::Validation }
    ));
    assert_eq!(db.countries.len(), 0);
}

#[test]
fn terminal_states_absorb_events() {
    let rolled = TxState::RolledBack { error: OnboardError::Transaction };
    let (s, a) = step(rolled, TxEvent::Begun);
    assert_eq!(a, TxAction::Respond);
    assert!(matches!(s, TxState::RolledBack { error: OnboardError::Transaction }));
    let committed = TxState::Committed { customer: customer() };
    let (s, a) = step(committed, TxEvent::StepFailed);
    assert_eq!(a, TxAction::Respond);
    assert!(matches!(s, TxState::Committed { .. }));
}
