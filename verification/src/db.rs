//! An executable model of the relational store that the onboarding
//! transaction writes to: the four tables it touches, their integrity
//! invariants, and the lookups the resolvers need.
//!
//! Identifiers are assigned sequentially from 1, the way a serial
//! column does, so a row with identifier `k` sits at index `k - 1` of
//! its table.

use vstd::prelude::*;

verus! {

/// Mathematical value of a country row.
pub struct CountryModel {
    pub id: int,
    pub name: Seq<char>,
}

/// Mathematical value of a city row.
pub struct CityModel {
    pub id: int,
    pub name: Seq<char>,
    pub country_id: int,
}

/// Mathematical value of an address row.
pub struct AddressModel {
    pub id: int,
    pub address: Seq<char>,
    pub address2: Option<Seq<char>>,
    pub district: Seq<char>,
    pub city_id: int,
    pub postal_code: Option<Seq<char>>,
    pub phone: Seq<char>,
}

/// Mathematical value of a customer row.
pub struct CustomerModel {
    pub id: int,
    pub store_id: int,
    pub first_name: Seq<char>,
    pub last_name: Seq<char>,
    pub email: Option<Seq<char>>,
    pub address_id: int,
    pub activebool: bool,
    pub active: Option<int>,
}

/// Mathematical value of the whole store: the identifiers of the
/// existing stores and the four tables the onboarding flow touches.
#[verifier::ext_equal]
pub struct DbModel {
    pub stores: Seq<int>,
    pub countries: Seq<CountryModel>,
    pub cities: Seq<CityModel>,
    pub addresses: Seq<AddressModel>,
    pub customers: Seq<CustomerModel>,
}

impl DbModel {
    /// Country rows have sequential identifiers and pairwise distinct
    /// names (names are unique, case-sensitive).
    pub open spec fn countries_wf(self) -> bool {
        &&& forall|i: int| 0 <= i < self.countries.len() ==> (#[trigger] self.countries[i]).id == i
            + 1
        &&& forall|i: int, j: int|
            0 <= i < j < self.countries.len() ==> (#[trigger] self.countries[i]).name != (
            #[trigger] self.countries[j]).name
    }

    /// City rows have sequential identifiers, pairwise distinct
    /// (name, country) keys, and reference an existing country.
    pub open spec fn cities_wf(self) -> bool {
        &&& forall|i: int| 0 <= i < self.cities.len() ==> (#[trigger] self.cities[i]).id == i + 1
        &&& forall|i: int, j: int|
            0 <= i < j < self.cities.len() ==> !((#[trigger] self.cities[i]).name == (
            #[trigger] self.cities[j]).name && self.cities[i].country_id
                == self.cities[j].country_id)
        &&& forall|i: int|
            0 <= i < self.cities.len() ==> 1 <= (#[trigger] self.cities[i]).country_id
                <= self.countries.len()
    }

    /// Address rows have sequential identifiers and reference an
    /// existing city.
    pub open spec fn addresses_wf(self) -> bool {
        &&& forall|i: int| 0 <= i < self.addresses.len() ==> (#[trigger] self.addresses[i]).id == i
            + 1
        &&& forall|i: int|
            0 <= i < self.addresses.len() ==> 1 <= (#[trigger] self.addresses[i]).city_id
                <= self.cities.len()
    }

    /// Customer rows have sequential identifiers, reference an existing
    /// address, and reference an existing store.
    pub open spec fn customers_wf(self) -> bool {
        &&& forall|i: int| 0 <= i < self.customers.len() ==> (#[trigger] self.customers[i]).id == i
            + 1
        &&& forall|i: int|
            0 <= i < self.customers.len() ==> 1 <= (#[trigger] self.customers[i]).address_id
                <= self.addresses.len()
        &&& forall|i: int|
            0 <= i < self.customers.len() ==> self.stores.contains(
                (#[trigger] self.customers[i]).store_id,
            )
    }

    /// All integrity invariants together.
    pub open spec fn wf(self) -> bool {
        &&& self.countries_wf()
        &&& self.cities_wf()
        &&& self.addresses_wf()
        &&& self.customers_wf()
    }

    /// Whether a country row with this name exists.
    pub open spec fn has_country(self, name: Seq<char>) -> bool {
        exists|i: int| 0 <= i < self.countries.len() && (#[trigger] self.countries[i]).name == name
    }

    /// Index of the country row with this name.
    pub open spec fn country_index(self, name: Seq<char>) -> int {
        choose|i: int| 0 <= i < self.countries.len() && (#[trigger] self.countries[i]).name == name
    }

    /// Identifier of the country row with this name.
    pub open spec fn country_id_for(self, name: Seq<char>) -> int {
        self.countries[self.country_index(name)].id
    }

    /// Whether a city row with this (name, country) key exists.
    pub open spec fn has_city(self, name: Seq<char>, country_id: int) -> bool {
        exists|i: int|
            0 <= i < self.cities.len() && (#[trigger] self.cities[i]).name == name
                && self.cities[i].country_id == country_id
    }

    /// Index of the city row with this (name, country) key.
    pub open spec fn city_index(self, name: Seq<char>, country_id: int) -> int {
        choose|i: int|
            0 <= i < self.cities.len() && (#[trigger] self.cities[i]).name == name
                && self.cities[i].country_id == country_id
    }

    /// Identifier of the city row with this (name, country) key.
    pub open spec fn city_id_for(self, name: Seq<char>, country_id: int) -> int {
        self.cities[self.city_index(name, country_id)].id
    }
}

/// With unique country names, any row whose name matches is the row
/// that `country_id_for` speaks of.
pub proof fn lemma_country_match_unique(m: DbModel, name: Seq<char>, i: int)
    requires
        m.countries_wf(),
        0 <= i < m.countries.len(),
        m.countries[i].name == name,
    ensures
        m.has_country(name),
        m.country_index(name) == i,
        m.country_id_for(name) == i + 1,
{
    assert(m.has_country(name));
    let j = m.country_index(name);
    if i < j {
        assert(m.countries[i].name != m.countries[j].name);
    } else if j < i {
        assert(m.countries[j].name != m.countries[i].name);
    }
}

/// With unique (name, country) keys, any row whose key matches is the
/// row that `city_id_for` speaks of.
pub proof fn lemma_city_match_unique(m: DbModel, name: Seq<char>, country_id: int, i: int)
    requires
        m.cities_wf(),
        0 <= i < m.cities.len(),
        m.cities[i].name == name,
        m.cities[i].country_id == country_id,
    ensures
        m.has_city(name, country_id),
        m.city_index(name, country_id) == i,
        m.city_id_for(name, country_id) == i + 1,
{
    assert(m.has_city(name, country_id));
    let j = m.city_index(name, country_id);
    if i < j {
        assert(!(m.cities[i].name == m.cities[j].name && m.cities[i].country_id
            == m.cities[j].country_id));
    } else if j < i {
        assert(!(m.cities[j].name == m.cities[i].name && m.cities[j].country_id
            == m.cities[i].country_id));
    }
}

/// A country row.
pub struct CountryRow {
    pub country_id: i32,
    pub country: String,
}

/// A city row.
pub struct CityRow {
    pub city_id: i32,
    pub city: String,
    pub country_id: i32,
}

/// An address row.
pub struct AddressRow {
    pub address_id: i32,
    pub address: String,
    pub address2: Option<String>,
    pub district: String,
    pub city_id: i32,
    pub postal_code: Option<String>,
    pub phone: String,
}

/// A customer row.
pub struct CustomerRow {
    pub customer_id: i32,
    pub store_id: i16,
    pub first_name: String,
    pub last_name: String,
    pub email: Option<String>,
    pub address_id: i32,
    pub activebool: bool,
    pub active: Option<i32>,
}

impl View for CountryRow {
    type V = CountryModel;

    open spec fn view(&self) -> CountryModel {
        CountryModel { id: self.country_id as int, name: self.country@ }
    }
}

impl View for CityRow {
    type V = CityModel;

    open spec fn view(&self) -> CityModel {
        CityModel { id: self.city_id as int, name: self.city@, country_id: self.country_id as int }
    }
}

impl View for AddressRow {
    type V = AddressModel;

    open spec fn view(&self) -> AddressModel {
        AddressModel {
            id: self.address_id as int,
            address: self.address@,
            address2: self.address2.deep_view(),
            district: self.district@,
            city_id: self.city_id as int,
            postal_code: self.postal_code.deep_view(),
            phone: self.phone@,
        }
    }
}

impl View for CustomerRow {
    type V = CustomerModel;

    open spec fn view(&self) -> CustomerModel {
        CustomerModel {
            id: self.customer_id as int,
            store_id: self.store_id as int,
            first_name: self.first_name@,
            last_name: self.last_name@,
            email: self.email.deep_view(),
            address_id: self.address_id as int,
            activebool: self.activebool,
            active: match self.active {
                Some(a) => Some(a as int),
                None => None,
            },
        }
    }
}

/// The store the onboarding transaction runs against.
pub struct Database {
    pub stores: Vec<i16>,
    pub countries: Vec<CountryRow>,
    pub cities: Vec<CityRow>,
    pub addresses: Vec<AddressRow>,
    pub customers: Vec<CustomerRow>,
}

impl View for Database {
    type V = DbModel;

    open spec fn view(&self) -> DbModel {
        DbModel {
            stores: self.stores@.map_values(|s: i16| s as int),
            countries: self.countries@.map_values(|r: CountryRow| r@),
            cities: self.cities@.map_values(|r: CityRow| r@),
            addresses: self.addresses@.map_values(|r: AddressRow| r@),
            customers: self.customers@.map_values(|r: CustomerRow| r@),
        }
    }
}

impl Database {
    /// The integrity invariants, stated of the mathematical value.
    pub open spec fn wf(&self) -> bool {
        self@.wf()
    }

    /// An empty store: no stores, no rows.
    pub fn new() -> (r: Database)
        ensures
            r.wf(),
            r@.stores == Seq::<int>::empty(),
            r@.countries == Seq::<CountryModel>::empty(),
            r@.cities == Seq::<CityModel>::empty(),
            r@.addresses == Seq::<AddressModel>::empty(),
            r@.customers == Seq::<CustomerModel>::empty(),
    {
        let r = Database {
            stores: Vec::new(),
            countries: Vec::new(),
            cities: Vec::new(),
            addresses: Vec::new(),
            customers: Vec::new(),
        };
        proof {
            assert(r@.stores =~= Seq::<int>::empty());
            assert(r@.countries =~= Seq::<CountryModel>::empty());
            assert(r@.cities =~= Seq::<CityModel>::empty());
            assert(r@.addresses =~= Seq::<AddressModel>::empty());
            assert(r@.customers =~= Seq::<CustomerModel>::empty());
        }
        r
    }

    /// Register a store identifier, so that customers may reference it.
    pub fn add_store(&mut self, store_id: i16)
        requires
            old(self).wf(),
        ensures
            final(self).wf(),
            final(self)@.stores == old(self)@.stores.push(store_id as int),
            final(self)@.countries == old(self)@.countries,
            final(self)@.cities == old(self)@.cities,
            final(self)@.addresses == old(self)@.addresses,
            final(self)@.customers == old(self)@.customers,
    {
        self.stores.push(store_id);
        proof {
            assert(self@.stores =~= old(self)@.stores.push(store_id as int));
            assert(self@.countries =~= old(self)@.countries);
            assert(self@.cities =~= old(self)@.cities);
            assert(self@.addresses =~= old(self)@.addresses);
            assert(self@.customers =~= old(self)@.customers);
            assert forall|i: int| 0 <= i < self@.customers.len() implies self@.stores.contains(
                (#[trigger] self@.customers[i]).store_id,
            ) by {
                let k = choose|k: int|
                    0 <= k < old(self)@.stores.len() && old(self)@.stores[k]
                        == self@.customers[i].store_id;
                assert(self@.stores[k] == self@.customers[i].store_id);
            }
        }
    }

    /// Whether a store with this identifier exists.
    pub fn contains_store(&self, store_id: i16) -> (r: bool)
        ensures
            r == self@.stores.contains(store_id as int),
    {
        let n = self.stores.len();
        for i in 0..n
            invariant
                n == self.stores.len(),
                forall|j: int| 0 <= j < i ==> self.stores@[j] != store_id,
        {
            if self.stores[i] == store_id {
                assert(self@.stores[i as int] == store_id as int);
                return true;
            }
        }
        proof {
            assert forall|k: int| 0 <= k < self@.stores.len() implies #[trigger] self@.stores[k]
                != store_id as int by {
                assert(self.stores@[k] != store_id);
            }
        }
        false
    }

    /// A deep copy of the store, to be worked on in place of the
    /// original: the transactional discipline keeps writes away from
    /// the live store until they are committed.
    pub fn snapshot(&self) -> (r: Database)
        ensures
            r@ == self@,
    {
        let mut stores: Vec<i16> = Vec::new();
        let n_stores = self.stores.len();
        for i in 0..n_stores
            invariant
                n_stores == self.stores.len(),
                stores@ == self.stores@.subrange(0, i as int),
        {
            stores.push(self.stores[i]);
            proof {
                assert(stores@ =~= self.stores@.subrange(0, i + 1 as int));
            }
        }
        let mut countries: Vec<CountryRow> = Vec::new();
        let n_countries = self.countries.len();
        for i in 0..n_countries
            invariant
                n_countries == self.countries.len(),
                countries@ == self.countries@.subrange(0, i as int),
        {
            let row = &self.countries[i];
            countries.push(CountryRow { country_id: row.country_id, country: row.country.clone() });
            proof {
                assert(countries@ =~= self.countries@.subrange(0, i + 1 as int));
            }
        }
        let mut cities: Vec<CityRow> = Vec::new();
        let n_cities = self.cities.len();
        for i in 0..n_cities
            invariant
                n_cities == self.cities.len(),
                cities@ == self.cities@.subrange(0, i as int),
        {
            let row = &self.cities[i];
            cities.push(
                CityRow {
                    city_id: row.city_id,
                    city: row.city.clone(),
                    country_id: row.country_id,
                },
            );
            proof {
                assert(cities@ =~= self.cities@.subrange(0, i + 1 as int));
            }
        }
        let mut addresses: Vec<AddressRow> = Vec::new();
        let n_addresses = self.addresses.len();
        for i in 0..n_addresses
            invariant
                n_addresses == self.addresses.len(),
                addresses@ == self.addresses@.subrange(0, i as int),
        {
            let row = &self.addresses[i];
            let address2 = match &row.address2 {
                Some(s) => Some(s.clone()),
                None => None,
            };
            let postal_code = match &row.postal_code {
                Some(s) => Some(s.clone()),
                None => None,
            };
            addresses.push(
                AddressRow {
                    address_id: row.address_id,
                    address: row.address.clone(),
                    address2,
                    district: row.district.clone(),
                    city_id: row.city_id,
                    postal_code,
                    phone: row.phone.clone(),
                },
            );
            proof {
                assert(addresses@ =~= self.addresses@.subrange(0, i + 1 as int));
            }
        }
        let mut customers: Vec<CustomerRow> = Vec::new();
        let n_customers = self.customers.len();
        for i in 0..n_customers
            invariant
                n_customers == self.customers.len(),
                customers@ == self.customers@.subrange(0, i as int),
        {
            let row = &self.customers[i];
            let email = match &row.email {
                Some(s) => Some(s.clone()),
                None => None,
            };
            customers.push(
                CustomerRow {
                    customer_id: row.customer_id,
                    store_id: row.store_id,
                    first_name: row.first_name.clone(),
                    last_name: row.last_name.clone(),
                    email,
                    address_id: row.address_id,
                    activebool: row.activebool,
                    active: row.active,
                },
            );
            proof {
                assert(customers@ =~= self.customers@.subrange(0, i + 1 as int));
            }
        }
        let r = Database { stores, countries, cities, addresses, customers };
        proof {
            assert(r.stores@ =~= self.stores@);
            assert(r.countries@ =~= self.countries@);
            assert(r.cities@ =~= self.cities@);
            assert(r.addresses@ =~= self.addresses@);
            assert(r.customers@ =~= self.customers@);
            assert(r@ =~= self@);
        }
        r
    }

    /// Index of the country row with this name, if one exists.
    pub fn find_country(&self, name: &String) -> (r: Option<usize>)
        ensures
            match r {
                Some(i) => i < self.countries.len() && self@.countries[i as int].name == name@,
                None => !self@.has_country(name@),
            },
    {
        let n = self.countries.len();
        for i in 0..n
            invariant
                n == self.countries.len(),
                forall|j: int| 0 <= j < i ==> (#[trigger] self@.countries[j]).name != name@,
        {
            if self.countries[i].country == *name {
                return Some(i);
            }
        }
        None
    }

    /// Index of the city row with this (name, country) key, if one
    /// exists.
    pub fn find_city(&self, name: &String, country_id: i32) -> (r: Option<usize>)
        ensures
            match r {
                Some(i) => i < self.cities.len() && self@.cities[i as int].name == name@
                    && self@.cities[i as int].country_id == country_id as int,
                None => !self@.has_city(name@, country_id as int),
            },
    {
        let n = self.cities.len();
        for i in 0..n
            invariant
                n == self.cities.len(),
                forall|j: int|
                    0 <= j < i ==> !((#[trigger] self@.cities[j]).name == name@
                        && self@.cities[j].country_id == country_id as int),
        {
            if self.cities[i].city == *name && self.cities[i].country_id == country_id {
                return Some(i);
            }
        }
        None
    }
}

} // verus!
