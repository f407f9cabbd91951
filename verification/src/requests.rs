//! Request and response payloads of the customer onboarding flow, and
//! the validation that runs before a transaction is opened.

use vstd::prelude::*;
use vstd::string::StrSliceExecFns;

verus! {

/// The address part of an onboarding request, as handed over by the
/// request-parsing layer.
pub struct CreateAddress {
    pub address: String,
    pub address2: Option<String>,
    pub district: String,
    pub postal_code: Option<String>,
    pub phone: String,
    pub city: String,
    pub country: String,
}

/// A full onboarding request.
pub struct CreateCustomerForm {
    pub store_id: i16,
    pub first_name: String,
    pub last_name: String,
    pub email: Option<String>,
    pub activebool: bool,
    pub address: CreateAddress,
}

/// The persisted customer as returned to the caller on success.
pub struct CreateCustomer {
    pub customer_id: Option<i32>,
    pub store_id: i16,
    pub first_name: String,
    pub last_name: String,
    pub email: Option<String>,
    pub activebool: bool,
    pub active: Option<i32>,
    pub address_id: i16,
}

/// Result row of an existence check (`SELECT exists(...)` semantics).
pub struct ValueExists {
    pub exists: Option<bool>,
}

/// Result row carrying a resolved country identifier.
pub struct CountryRespond {
    pub country_id: i32,
}

/// Result row carrying a resolved city identifier.
pub struct CityRespond {
    pub city_id: i32,
}

/// Result row carrying a freshly created address identifier.
pub struct AddressRespond {
    pub address_id: i32,
}

/// Mathematical value of a [`CreateAddress`].
pub struct CreateAddressModel {
    pub address: Seq<char>,
    pub address2: Option<Seq<char>>,
    pub district: Seq<char>,
    pub postal_code: Option<Seq<char>>,
    pub phone: Seq<char>,
    pub city: Seq<char>,
    pub country: Seq<char>,
}

/// Mathematical value of a [`CreateCustomerForm`].
pub struct CreateCustomerFormModel {
    pub store_id: int,
    pub first_name: Seq<char>,
    pub last_name: Seq<char>,
    pub email: Option<Seq<char>>,
    pub activebool: bool,
    pub address: CreateAddressModel,
}

impl View for CreateAddress {
    type V = CreateAddressModel;

    open spec fn view(&self) -> CreateAddressModel {
        CreateAddressModel {
            address: self.address@,
            address2: self.address2.deep_view(),
            district: self.district@,
            postal_code: self.postal_code.deep_view(),
            phone: self.phone@,
            city: self.city@,
            country: self.country@,
        }
    }
}

impl View for CreateCustomerForm {
    type V = CreateCustomerFormModel;

    open spec fn view(&self) -> CreateCustomerFormModel {
        CreateCustomerFormModel {
            store_id: self.store_id as int,
            first_name: self.first_name@,
            last_name: self.last_name@,
            email: self.email.deep_view(),
            activebool: self.activebool,
            address: self.address@,
        }
    }
}

/// The characters that trimming a reference key removes.
pub open spec fn is_space_char(c: char) -> bool {
    c == ' ' || c == '\t' || c == '\n' || c == '\r'
}

/// A key is blank when it is empty after trimming, that is, when it has
/// no character besides whitespace.
pub open spec fn is_blank(s: Seq<char>) -> bool {
    forall|i: int| 0 <= i < s.len() ==> is_space_char(s[i])
}

impl CreateCustomerFormModel {
    /// A request is valid when both reference keys (country name and
    /// city name) are non-empty after trimming.
    pub open spec fn valid(self) -> bool {
        &&& !is_blank(self.address.country)
        &&& !is_blank(self.address.city)
    }
}

/// Whether `s` is empty after trimming.
pub fn str_is_blank(s: &str) -> (r: bool)
    ensures
        r == is_blank(s@),
{
    let n = s.unicode_len();
    for i in 0..n
        invariant
            n == s@.len(),
            forall|j: int| 0 <= j < i ==> is_space_char(s@[j]),
    {
        let c = s.get_char(i);
        if !(c == ' ' || c == '\t' || c == '\n' || c == '\r') {
            return false;
        }
    }
    true
}

impl CreateCustomerForm {
    /// Validation that runs before the transaction is opened: both
    /// reference keys must be non-empty after trimming.
    pub fn validate(&self) -> (r: bool)
        ensures
            r == self@.valid(),
    {
        !str_is_blank(self.address.country.as_str()) && !str_is_blank(self.address.city.as_str())
    }
}

} // verus!
