//! A driver that runs the onboarding state machine against the
//! in-memory store. It shows the machine correct: followed step by
//! step, with each action answered by the store itself, the machine
//! performs exactly the onboarding transaction — it commits precisely
//! the model's outcome, and a failed customer insert rolls everything
//! back.

use vstd::prelude::*;

use crate::db::Database;
use crate::errors::OnboardError;
use crate::machine::{initial_state, step, TxAction, TxEvent, TxState};
use crate::onboarding::{
    city_exists, country_exists, create_address, fetch_city_id, fetch_country_id, insert_city,
    insert_country, insert_customer, lemma_create_address_model_wf, lemma_create_customer_model_wf,
    lemma_onboard_model_wf, lemma_resolve_city_model_wf, lemma_resolve_country_model_wf,
    onboard_model, respond_matches,
};
use crate::requests::{CityRespond, CountryRespond, CreateCustomerForm};

verus! {

/// Drive the onboarding state machine to a terminal state against the
/// store: a snapshot of the store stands in for the transaction, and is
/// written back only on commit. The terminal state carries exactly what
/// the model says the transaction produces.
pub fn run_onboarding(db: &mut Database, form: &CreateCustomerForm) -> (r: TxState)
    requires
        old(db).wf(),
        old(db)@.countries.len() < i32::MAX as int,
        old(db)@.cities.len() < i32::MAX as int,
        old(db)@.addresses.len() < i16::MAX as int,
        old(db)@.customers.len() < i32::MAX as int,
    ensures
        final(db).wf(),
        final(db)@ == onboard_model(old(db)@, form@).0,
        ({
            let res = onboard_model(old(db)@, form@).1;
            match (r, res) {
                (TxState::Committed { customer }, Ok(cm)) => respond_matches(customer, cm),
                (TxState::RolledBack { error }, Err(e)) => error == e,
                _ => false,
            }
        }),
{
    proof {
        lemma_onboard_model_wf(old(db)@, form@);
    }
    // Validation runs before any transaction is opened.
    if !form.validate() {
        return TxState::RolledBack { error: OnboardError::Validation };
    }
    // The snapshot is the open transaction: writes land here and reach
    // the store only on commit.
    let mut tx = db.snapshot();
    let ghost m0 = tx@;

    let (s, a) = step(initial_state(), TxEvent::Begun);
    let e = match a {
        TxAction::CheckCountryExists => TxEvent::ExistsChecked(
            country_exists(&tx, &form.address.country),
        ),
        _ => {
            proof {
                assert(false);
            }
            TxEvent::StepFailed
        },
    };
    let (s, a) = step(s, e);
    let country: CountryRespond = match a {
        TxAction::FetchCountryId => fetch_country_id(&tx, &form.address.country),
        TxAction::InsertCountry => insert_country(&mut tx, &form.address.country),
        _ => {
            proof {
                assert(false);
            }
            CountryRespond { country_id: 0 }
        },
    };
    proof {
        lemma_resolve_country_model_wf(m0, form@.address.country);
    }
    let ghost m1 = tx@;
    let (s, a) = step(s, TxEvent::CountryFetched(country));
    let e = match a {
        TxAction::CheckCityExists { country_id } => TxEvent::ExistsChecked(
            city_exists(&tx, &form.address.city, country_id),
        ),
        _ => {
            proof {
                assert(false);
            }
            TxEvent::StepFailed
        },
    };
    let (s, a) = step(s, e);
    let city: CityRespond = match a {
        TxAction::FetchCityId { country_id } => fetch_city_id(&tx, &form.address.city, country_id),
        TxAction::InsertCity { country_id } => insert_city(&mut tx, &form.address.city, country_id),
        _ => {
            proof {
                assert(false);
            }
            CityRespond { city_id: 0 }
        },
    };
    proof {
        lemma_resolve_city_model_wf(m1, form@.address.city, country.country_id as int);
    }
    let ghost m2 = tx@;
    let (s, a) = step(s, TxEvent::CityFetched(city));
    let address = match a {
        TxAction::InsertAddress { city_id } => create_address(&mut tx, &form.address, city_id),
        _ => {
            proof {
                assert(false);
            }
            crate::requests::AddressRespond { address_id: 0 }
        },
    };
    proof {
        lemma_create_address_model_wf(m2, form@.address, city.city_id as int);
    }
    let ghost m3 = tx@;
    let (s, a) = step(s, TxEvent::AddressInserted(address));
    let created = match a {
        TxAction::InsertCustomer { address_id } => insert_customer(&mut tx, form, address_id),
        _ => {
            proof {
                assert(false);
            }
            Err(OnboardError::ConstraintViolation)
        },
    };
    match created {
        Ok(c) => {
            proof {
                lemma_create_customer_model_wf(m3, form@, address.address_id as int);
            }
            let (s, a) = step(s, TxEvent::CustomerInserted(c));
            match a {
                TxAction::Commit => {
                    // the commit: the transaction's writes reach the store
                    *db = tx;
                    let (s, _) = step(s, TxEvent::CommitSucceeded);
                    s
                },
                _ => {
                    proof {
                        assert(false);
                    }
                    s
                },
            }
        },
        Err(_) => {
            // the customer insert failed: the snapshot is dropped, the
            // store keeps every row it had
            let (s, a) = step(s, TxEvent::StepFailed);
            proof {
                assert(a is Rollback);
            }
            s
        },
    }
}

} // verus!
