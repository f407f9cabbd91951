//! Request forms and read-side report rows of the simple endpoints.
//! These carry plain values between the HTTP layer and the store.

use vstd::prelude::*;

verus! {

/// Form for creating or updating an actor.
pub struct ActorForm {
    pub first_name: String,
    pub last_name: String,
}

/// Query parameters for looking an actor up by name.
pub struct ActorQuery {
    pub first_name: String,
    pub last_name: String,
}

/// Report row: how many customers each shop (by its address) has.
pub struct TotalCustomersPerShop {
    pub count: Option<i64>,
    pub address: String,
}

/// Report row: how many movies a category has.
pub struct TotalMoviesPerCategory {
    pub category_name: String,
    pub count: i64,
}

/// Report row: a most-rented movie and its rental count.
pub struct TopMovies {
    pub title: String,
    pub count: i64,
}

/// Report row: how many stores a country has.
pub struct StoresPerCountry {
    pub country: String,
    pub count: i64,
}

} // verus!
