//! The orchestrator as a state machine over the storage engine.
//!
//! The store itself is reached over I/O, so the decisions live here: a
//! driver opens the transaction, runs each [`TxAction`] as a query,
//! hands the outcome back as a [`TxEvent`], and follows the machine
//! until it reaches a terminal state. Every failure, at any step, sends
//! the machine to `RolledBack`, so the driver never commits a partial
//! chain.

use vstd::prelude::*;

use crate::errors::OnboardError;
use crate::requests::{AddressRespond, CityRespond, CountryRespond, CreateCustomer, ValueExists};

verus! {

/// How far the transaction has come.
pub enum TxState {
    /// The transaction is open; nothing has run yet.
    Started,
    /// The country existence check is underway.
    CountryChecking,
    /// The country fetch-or-insert query is underway.
    CountryResolving,
    /// The country is resolved; the city existence check is underway.
    CityChecking { country_id: i32 },
    /// The city fetch-or-insert query is underway.
    CityResolving { country_id: i32 },
    /// The city is resolved; the address insert is underway.
    AddressInserting { city_id: i32 },
    /// The address is created; the customer insert is underway.
    CustomerInserting { address_id: i32 },
    /// The customer row came back; the commit is underway.
    Committing { customer: CreateCustomer },
    /// Terminal: the transaction is durable.
    Committed { customer: CreateCustomer },
    /// Terminal: nothing from this request survived.
    RolledBack { error: OnboardError },
}

/// What the last query or transaction control call produced.
pub enum TxEvent {
    /// The transaction was opened.
    Begun,
    /// An existence check returned.
    ExistsChecked(ValueExists),
    /// A country fetch or insert returned the identifier.
    CountryFetched(CountryRespond),
    /// A city fetch or insert returned the identifier.
    CityFetched(CityRespond),
    /// The address insert returned the identifier.
    AddressInserted(AddressRespond),
    /// The customer insert returned the persisted row.
    CustomerInserted(CreateCustomer),
    /// The commit went through.
    CommitSucceeded,
    /// The step failed (query error, constraint violation, lost
    /// connection).
    StepFailed,
}

/// What the driver must run next.
#[derive(Clone, Copy, Debug, PartialEq, Eq, Structural)]
pub enum TxAction {
    CheckCountryExists,
    FetchCountryId,
    InsertCountry,
    CheckCityExists { country_id: i32 },
    FetchCityId { country_id: i32 },
    InsertCity { country_id: i32 },
    InsertAddress { city_id: i32 },
    InsertCustomer { address_id: i32 },
    Commit,
    Rollback,
    /// Terminal: surface the outcome to the caller.
    Respond,
}

impl TxState {
    /// Terminal states absorb every further event.
    pub open spec fn is_terminal(self) -> bool {
        self is Committed || self is RolledBack
    }

    /// The one event each non-terminal state waits for.
    pub open spec fn expects(self, e: TxEvent) -> bool {
        match self {
            TxState::Started => e is Begun,
            TxState::CountryChecking => e is ExistsChecked,
            TxState::CountryResolving => e is CountryFetched,
            TxState::CityChecking { .. } => e is ExistsChecked,
            TxState::CityResolving { .. } => e is CityFetched,
            TxState::AddressInserting { .. } => e is AddressInserted,
            TxState::CustomerInserting { .. } => e is CustomerInserted,
            TxState::Committing { .. } => e is CommitSucceeded,
            TxState::Committed { .. } => false,
            TxState::RolledBack { .. } => false,
        }
    }

    /// How a failure at this state is classified: resolver steps fail as
    /// reference resolution, the two inserts as constraint violations,
    /// opening and committing the transaction as transaction failures.
    pub open spec fn failure_kind(self) -> OnboardError {
        match self {
            TxState::Started => OnboardError::Transaction,
            TxState::CountryChecking => OnboardError::ReferenceResolution,
            TxState::CountryResolving => OnboardError::ReferenceResolution,
            TxState::CityChecking { .. } => OnboardError::ReferenceResolution,
            TxState::CityResolving { .. } => OnboardError::ReferenceResolution,
            TxState::AddressInserting { .. } => OnboardError::ConstraintViolation,
            TxState::CustomerInserting { .. } => OnboardError::ConstraintViolation,
            TxState::Committing { .. } => OnboardError::Transaction,
            TxState::Committed { .. } => OnboardError::Transaction,
            TxState::RolledBack { .. } => OnboardError::Transaction,
        }
    }

    /// What to run when this state aborts: roll back, except where no
    /// live transaction remains (opening or committing it failed).
    pub open spec fn abort_action(self) -> TxAction {
        match self {
            TxState::Started => TxAction::Respond,
            TxState::Committing { .. } => TxAction::Respond,
            _ => TxAction::Rollback,
        }
    }
}

/// The state the driver starts from, once it has opened the
/// transaction.
pub fn initial_state() -> (r: TxState)
    ensures
        r == TxState::Started,
{
    TxState::Started
}

/// One transition of the orchestrator: from the current state and the
/// outcome of the last step to the next state and the next action. The
/// transitions follow the dependency order country, then city, then
/// address, then customer, then commit; an existence check chooses
/// between the fetch and the insert query; any failure — and any event a
/// state does not expect — aborts the whole transaction.
pub fn step(state: TxState, event: TxEvent) -> (r: (TxState, TxAction))
    ensures
        state is Started && event is Begun ==> r == (
            TxState::CountryChecking,
            TxAction::CheckCountryExists,
        ),
        state is CountryChecking ==> (event matches TxEvent::ExistsChecked(v) ==> r == (
            TxState::CountryResolving,
            if v.exists == Some(true) {
                TxAction::FetchCountryId
            } else {
                TxAction::InsertCountry
            },
        )),
        state is CountryResolving ==> (event matches TxEvent::CountryFetched(c) ==> r == (
            TxState::CityChecking { country_id: c.country_id },
            TxAction::CheckCityExists { country_id: c.country_id },
        )),
        state matches TxState::CityChecking { country_id } ==> (event
            matches TxEvent::ExistsChecked(v) ==> r == (
            TxState::CityResolving { country_id },
            if v.exists == Some(true) {
                TxAction::FetchCityId { country_id }
            } else {
                TxAction::InsertCity { country_id }
            },
        )),
        state matches TxState::CityResolving { country_id } ==> (event
            matches TxEvent::CityFetched(c) ==> r == (
            TxState::AddressInserting { city_id: c.city_id },
            TxAction::InsertAddress { city_id: c.city_id },
        )),
        state matches TxState::AddressInserting { city_id } ==> (event
            matches TxEvent::AddressInserted(a) ==> r == (
            TxState::CustomerInserting { address_id: a.address_id },
            TxAction::InsertCustomer { address_id: a.address_id },
        )),
        state matches TxState::CustomerInserting { address_id } ==> (event
            matches TxEvent::CustomerInserted(c) ==> r == (
            TxState::Committing { customer: c },
            TxAction::Commit,
        )),
        state matches TxState::Committing { customer } ==> (event is CommitSucceeded ==> r == (
            TxState::Committed { customer },
            TxAction::Respond,
        )),
        state matches TxState::Committed { customer } ==> r == (
            TxState::Committed { customer },
            TxAction::Respond,
        ),
        state matches TxState::RolledBack { error } ==> r == (
            TxState::RolledBack { error },
            TxAction::Respond,
        ),
        !state.is_terminal() && !state.expects(event) ==> r == (
            TxState::RolledBack { error: state.failure_kind() },
            state.abort_action(),
        ),
        event is StepFailed && !state.is_terminal() ==> r.0 == (TxState::RolledBack {
            error: state.failure_kind(),
        }),
{
    match (state, event) {
        (TxState::Started, TxEvent::Begun) => (
            TxState::CountryChecking,
            TxAction::CheckCountryExists,
        ),
        (TxState::CountryChecking, TxEvent::ExistsChecked(v)) => {
            if let Some(true) = v.exists {
                (TxState::CountryResolving, TxAction::FetchCountryId)
            } else {
                (TxState::CountryResolving, TxAction::InsertCountry)
            }
        },
        (TxState::CountryResolving, TxEvent::CountryFetched(c)) => (
            TxState::CityChecking { country_id: c.country_id },
            TxAction::CheckCityExists { country_id: c.country_id },
        ),
        (TxState::CityChecking { country_id }, TxEvent::ExistsChecked(v)) => {
            if let Some(true) = v.exists {
                (TxState::CityResolving { country_id }, TxAction::FetchCityId { country_id })
            } else {
                (TxState::CityResolving { country_id }, TxAction::InsertCity { country_id })
            }
        },
        (TxState::CityResolving { country_id: _ }, TxEvent::CityFetched(c)) => (
            TxState::AddressInserting { city_id: c.city_id },
            TxAction::InsertAddress { city_id: c.city_id },
        ),
        (TxState::AddressInserting { city_id: _ }, TxEvent::AddressInserted(a)) => (
            TxState::CustomerInserting { address_id: a.address_id },
            TxAction::InsertCustomer { address_id: a.address_id },
        ),
        (TxState::CustomerInserting { address_id: _ }, TxEvent::CustomerInserted(c)) => (
            TxState::Committing { customer: c },
            TxAction::Commit,
        ),
        (TxState::Committing { customer }, TxEvent::CommitSucceeded) => (
            TxState::Committed { customer },
            TxAction::Respond,
        ),
        (TxState::Committed { customer }, _) => (
            TxState::Committed { customer },
            TxAction::Respond,
        ),
        (TxState::RolledBack { error }, _) => (TxState::RolledBack { error }, TxAction::Respond),
        (s, _) => {
            let error = match &s {
                TxState::Started => OnboardError::Transaction,
                TxState::Committing { .. } => OnboardError::Transaction,
                TxState::CountryChecking => OnboardError::ReferenceResolution,
                TxState::CountryResolving => OnboardError::ReferenceResolution,
                TxState::CityChecking { .. } => OnboardError::ReferenceResolution,
                TxState::CityResolving { .. } => OnboardError::ReferenceResolution,
                TxState::AddressInserting { .. } => OnboardError::ConstraintViolation,
                TxState::CustomerInserting { .. } => OnboardError::ConstraintViolation,
                TxState::Committed { .. } => OnboardError::Transaction,
                TxState::RolledBack { .. } => OnboardError::Transaction,
            };
            let action = match &s {
                TxState::Started => TxAction::Respond,
                TxState::Committing { .. } => TxAction::Respond,
                _ => TxAction::Rollback,
            };
            (TxState::RolledBack { error }, action)
        },
    }
}

} // verus!
