//! The customer onboarding transaction: find-or-create resolution of
//! the shared reference rows (country, city), creation of the address
//! and customer rows, and the orchestration that makes the whole
//! request atomic.
//!
//! Each step is stated first as a transition on the mathematical store
//! model; the executable components are proved to realise exactly those
//! transitions.

use vstd::prelude::*;

use crate::db::{
    AddressModel, AddressRow, CityModel, CityRow, CountryModel, CountryRow, CustomerModel,
    CustomerRow, Database, DbModel, lemma_city_match_unique, lemma_country_match_unique,
};
use crate::errors::OnboardError;
use crate::requests::{
    is_blank, AddressRespond, CityRespond, CountryRespond, CreateAddress, CreateAddressModel,
    CreateCustomer, CreateCustomerForm, CreateCustomerFormModel, ValueExists,
};
use crate::response::GenericResponse;

verus! {

/// Find-or-create on the country table: reuse the row whose name
/// matches, otherwise append a row with the next identifier.
pub open spec fn resolve_country_model(m: DbModel, name: Seq<char>) -> (DbModel, int) {
    if m.has_country(name) {
        (m, m.country_id_for(name))
    } else {
        let id = m.countries.len() as int + 1;
        (DbModel { countries: m.countries.push(CountryModel { id, name }), ..m }, id)
    }
}

/// Find-or-create on the city table, keyed by (name, country).
pub open spec fn resolve_city_model(m: DbModel, name: Seq<char>, country_id: int) -> (DbModel, int) {
    if m.has_city(name, country_id) {
        (m, m.city_id_for(name, country_id))
    } else {
        let id = m.cities.len() as int + 1;
        (DbModel { cities: m.cities.push(CityModel { id, name, country_id }), ..m }, id)
    }
}

/// Unconditional insert on the address table: addresses are never
/// deduplicated.
pub open spec fn create_address_model(m: DbModel, a: CreateAddressModel, city_id: int) -> (
    DbModel,
    int,
) {
    let id = m.addresses.len() as int + 1;
    (
        DbModel {
            addresses: m.addresses.push(
                AddressModel {
                    id,
                    address: a.address,
                    address2: a.address2,
                    district: a.district,
                    city_id,
                    postal_code: a.postal_code,
                    phone: a.phone,
                },
            ),
            ..m
        },
        id,
    )
}

/// Insert on the customer table. The `active` column is left to the
/// server default, which this model takes to be absent.
pub open spec fn create_customer_model(
    m: DbModel,
    f: CreateCustomerFormModel,
    address_id: int,
) -> (DbModel, CustomerModel) {
    let c = CustomerModel {
        id: m.customers.len() as int + 1,
        store_id: f.store_id,
        first_name: f.first_name,
        last_name: f.last_name,
        email: f.email,
        address_id,
        activebool: f.activebool,
        active: None,
    };
    (DbModel { customers: m.customers.push(c), ..m }, c)
}

/// The whole transaction on the model: reject a blank reference key
/// before anything runs, fail on an unknown store without writing, and
/// otherwise resolve country, resolve city, create address, create
/// customer, in that order.
pub open spec fn onboard_model(m: DbModel, f: CreateCustomerFormModel) -> (
    DbModel,
    Result<CustomerModel, OnboardError>,
) {
    if !f.valid() {
        (m, Err(OnboardError::Validation))
    } else if !m.stores.contains(f.store_id) {
        (m, Err(OnboardError::ConstraintViolation))
    } else {
        let r1 = resolve_country_model(m, f.address.country);
        let r2 = resolve_city_model(r1.0, f.address.city, r1.1);
        let r3 = create_address_model(r2.0, f.address, r2.1);
        let r4 = create_customer_model(r3.0, f, r3.1);
        (r4.0, Ok(r4.1))
    }
}

/// The returned payload reports exactly the persisted customer row.
pub open spec fn respond_matches(c: CreateCustomer, cm: CustomerModel) -> bool {
    &&& match c.customer_id {
        Some(id) => id as int == cm.id,
        None => false,
    }
    &&& c.store_id as int == cm.store_id
    &&& c.first_name@ == cm.first_name
    &&& c.last_name@ == cm.last_name
    &&& c.email.deep_view() == cm.email
    &&& c.activebool == cm.activebool
    &&& match (c.active, cm.active) {
        (Some(a), Some(b)) => a as int == b,
        (None, None) => true,
        _ => false,
    }
    &&& c.address_id as int == cm.address_id
}

/// The customer references an address whose city carries `city_name`
/// and references a country carrying `country_name`: the full chain of
/// the dependent inserts.
pub open spec fn customer_linked(
    m: DbModel,
    c: CustomerModel,
    country_name: Seq<char>,
    city_name: Seq<char>,
) -> bool {
    &&& 1 <= c.address_id <= m.addresses.len()
    &&& {
        let a = m.addresses[c.address_id - 1];
        &&& 1 <= a.city_id <= m.cities.len()
        &&& {
            let ci = m.cities[a.city_id - 1];
            &&& ci.name == city_name
            &&& 1 <= ci.country_id <= m.countries.len()
            &&& m.countries[ci.country_id - 1].name == country_name
        }
    }
}

/// Country resolution keeps the store well-formed, touches only the
/// country table, and lands on a row whose name is the requested one.
pub proof fn lemma_resolve_country_model_wf(m: DbModel, name: Seq<char>)
    requires
        m.wf(),
    ensures
        ({
            let (m1, id) = resolve_country_model(m, name);
            &&& m1.wf()
            &&& m1.stores == m.stores
            &&& m1.cities == m.cities
            &&& m1.addresses == m.addresses
            &&& m1.customers == m.customers
            &&& m.countries.len() <= m1.countries.len() <= m.countries.len() + 1
            &&& 1 <= id <= m1.countries.len()
            &&& m1.countries[id - 1].name == name
            &&& m1.has_country(name)
            &&& m1.country_id_for(name) == id
            &&& m.has_country(name) ==> m1 == m && id == m.country_id_for(name)
            &&& !m.has_country(name) ==> m1.countries == m.countries.push(
                CountryModel { id: m.countries.len() as int + 1, name },
            )
            &&& forall|i: int|
                0 <= i < m.countries.len() ==> m1.countries[i] == #[trigger] m.countries[i]
        }),
{
    let (m1, id) = resolve_country_model(m, name);
    if m.has_country(name) {
        let i = m.country_index(name);
        lemma_country_match_unique(m, name, i);
    } else {
        let n = m.countries.len() as int;
        assert forall|i: int, j: int| 0 <= i < j < m1.countries.len() implies (
        #[trigger] m1.countries[i]).name != (#[trigger] m1.countries[j]).name by {
            if j < n {
                assert(m.countries[i].name != m.countries[j].name);
            } else {
                assert(m1.countries[j].name == name);
                assert(m1.countries[i] == m.countries[i]);
                assert(!(exists|k: int|
                    0 <= k < m.countries.len() && (#[trigger] m.countries[k]).name == name));
                assert(m.countries[i].name != name);
            }
        }
        assert(m1.countries_wf());
        assert(m1.cities_wf());
        assert(m1.addresses_wf());
        assert(m1.customers_wf());
        lemma_country_match_unique(m1, name, n);
    }
}

/// City resolution keeps the store well-formed, touches only the city
/// table, and lands on a row carrying the requested key.
pub proof fn lemma_resolve_city_model_wf(m: DbModel, name: Seq<char>, country_id: int)
    requires
        m.wf(),
        1 <= country_id <= m.countries.len(),
    ensures
        ({
            let (m1, id) = resolve_city_model(m, name, country_id);
            &&& m1.wf()
            &&& m1.stores == m.stores
            &&& m1.countries == m.countries
            &&& m1.addresses == m.addresses
            &&& m1.customers == m.customers
            &&& m.cities.len() <= m1.cities.len() <= m.cities.len() + 1
            &&& 1 <= id <= m1.cities.len()
            &&& m1.cities[id - 1].name == name
            &&& m1.cities[id - 1].country_id == country_id
            &&& m1.has_city(name, country_id)
            &&& m1.city_id_for(name, country_id) == id
            &&& m.has_city(name, country_id) ==> m1 == m && id == m.city_id_for(name, country_id)
            &&& !m.has_city(name, country_id) ==> m1.cities == m.cities.push(
                CityModel { id: m.cities.len() as int + 1, name, country_id },
            )
        }),
{
    let (m1, id) = resolve_city_model(m, name, country_id);
    if m.has_city(name, country_id) {
        let i = m.city_index(name, country_id);
        lemma_city_match_unique(m, name, country_id, i);
    } else {
        let n = m.cities.len() as int;
        assert forall|i: int, j: int| 0 <= i < j < m1.cities.len() implies !((
        #[trigger] m1.cities[i]).name == (#[trigger] m1.cities[j]).name && m1.cities[i].country_id
            == m1.cities[j].country_id) by {
            if j < n {
                assert(!(m.cities[i].name == m.cities[j].name && m.cities[i].country_id
                    == m.cities[j].country_id));
            } else {
                assert(m1.cities[i] == m.cities[i]);
                assert(!(exists|k: int|
                    0 <= k < m.cities.len() && (#[trigger] m.cities[k]).name == name
                        && m.cities[k].country_id == country_id));
                assert(!(m.cities[i].name == name && m.cities[i].country_id == country_id));
            }
        }
        assert(m1.cities_wf());
        assert(m1.customers_wf());
        lemma_city_match_unique(m1, name, country_id, n);
    }
}

/// Address creation keeps the store well-formed and appends exactly one
/// row, referencing the given city.
pub proof fn lemma_create_address_model_wf(m: DbModel, a: CreateAddressModel, city_id: int)
    requires
        m.wf(),
        1 <= city_id <= m.cities.len(),
    ensures
        ({
            let (m1, id) = create_address_model(m, a, city_id);
            &&& m1.wf()
            &&& m1.stores == m.stores
            &&& m1.countries == m.countries
            &&& m1.cities == m.cities
            &&& m1.customers == m.customers
            &&& id == m.addresses.len() + 1
            &&& m1.addresses.len() == m.addresses.len() + 1
            &&& m1.addresses[id - 1].city_id == city_id
        }),
{
    let (m1, id) = create_address_model(m, a, city_id);
    assert(m1.addresses_wf());
    assert(m1.customers_wf());
}

/// Customer creation keeps the store well-formed and appends exactly
/// one row, referencing the given address and an existing store.
pub proof fn lemma_create_customer_model_wf(
    m: DbModel,
    f: CreateCustomerFormModel,
    address_id: int,
)
    requires
        m.wf(),
        1 <= address_id <= m.addresses.len(),
        m.stores.contains(f.store_id),
    ensures
        ({
            let (m1, c) = create_customer_model(m, f, address_id);
            &&& m1.wf()
            &&& m1.stores == m.stores
            &&& m1.countries == m.countries
            &&& m1.cities == m.cities
            &&& m1.addresses == m.addresses
            &&& m1.customers.len() == m.customers.len() + 1
            &&& c == m1.customers.last()
            &&& c.address_id == address_id
            &&& c.id == m.customers.len() + 1
        }),
{
    let (m1, c) = create_customer_model(m, f, address_id);
    assert(m1.customers_wf());
}

/// The transaction keeps the store well-formed; on failure it leaves
/// the store exactly as it was; success is owed whenever the request is
/// valid and the store exists; and a created customer is fully linked.
pub proof fn lemma_onboard_model_wf(m: DbModel, f: CreateCustomerFormModel)
    requires
        m.wf(),
    ensures
        ({
            let (m1, res) = onboard_model(m, f);
            &&& m1.wf()
            &&& m1.stores == m.stores
            &&& res is Err ==> m1 == m
            &&& (res is Ok <==> f.valid() && m.stores.contains(f.store_id))
            &&& res matches Ok(c) ==> m1.customers.len() == m.customers.len() + 1 && c
                == m1.customers.last() && customer_linked(m1, c, f.address.country, f.address.city)
        }),
{
    if f.valid() && m.stores.contains(f.store_id) {
        let r1 = resolve_country_model(m, f.address.country);
        lemma_resolve_country_model_wf(m, f.address.country);
        let r2 = resolve_city_model(r1.0, f.address.city, r1.1);
        lemma_resolve_city_model_wf(r1.0, f.address.city, r1.1);
        let r3 = create_address_model(r2.0, f.address, r2.1);
        lemma_create_address_model_wf(r2.0, f.address, r2.1);
        let r4 = create_customer_model(r3.0, f, r3.1);
        lemma_create_customer_model_wf(r3.0, f, r3.1);
    }
}

/// Idempotent reference reuse for countries: resolving the same name a
/// second time returns the identifier the first resolution produced and
/// leaves the store unchanged.
pub proof fn lemma_country_reference_reuse(m: DbModel, name: Seq<char>)
    requires
        m.wf(),
    ensures
        ({
            let (m1, id1) = resolve_country_model(m, name);
            let (m2, id2) = resolve_country_model(m1, name);
            m2 == m1 && id2 == id1
        }),
{
    lemma_resolve_country_model_wf(m, name);
}

/// Idempotent reference reuse for cities: resolving the same
/// (name, country) key a second time returns the identifier the first
/// resolution produced and leaves the store unchanged.
pub proof fn lemma_city_reference_reuse(m: DbModel, name: Seq<char>, country_id: int)
    requires
        m.wf(),
        1 <= country_id <= m.countries.len(),
    ensures
        ({
            let (m1, id1) = resolve_city_model(m, name, country_id);
            let (m2, id2) = resolve_city_model(m1, name, country_id);
            m2 == m1 && id2 == id1
        }),
{
    lemma_resolve_city_model_wf(m, name, country_id);
}

/// Atomicity: a failed onboarding leaves the store exactly as it was —
/// no country, city or address row from the request survives.
pub proof fn lemma_onboarding_atomicity(m: DbModel, f: CreateCustomerFormModel)
    ensures
        onboard_model(m, f).1 is Err ==> onboard_model(m, f).0 == m,
{
}

/// Dependency ordering: every successfully onboarded customer
/// references an address whose city carries the requested city name and
/// references the country carrying the requested country name.
pub proof fn lemma_dependency_ordering(m: DbModel, f: CreateCustomerFormModel)
    requires
        m.wf(),
    ensures
        ({
            let (m1, res) = onboard_model(m, f);
            res matches Ok(c) ==> customer_linked(m1, c, f.address.country, f.address.city)
        }),
{
    lemma_onboard_model_wf(m, f);
}

/// Existence check on the country table (`SELECT exists(...)`
/// semantics): the first query of the find-or-create pattern.
pub fn country_exists(db: &Database, name: &String) -> (r: ValueExists)
    ensures
        r.exists == Some(db@.has_country(name@)),
{
    match db.find_country(name) {
        Some(i) => {
            proof {
                assert(db@.countries[i as int].name == name@);
                assert(db@.has_country(name@));
            }
            ValueExists { exists: Some(true) }
        },
        None => ValueExists { exists: Some(false) },
    }
}

/// Second query of the find path: fetch the identifier of the country
/// row that the existence check saw.
pub fn fetch_country_id(db: &Database, name: &String) -> (r: CountryRespond)
    requires
        db.wf(),
        db@.has_country(name@),
    ensures
        r.country_id as int == db@.country_id_for(name@),
{
    match db.find_country(name) {
        Some(i) => {
            proof {
                lemma_country_match_unique(db@, name@, i as int);
            }
            CountryRespond { country_id: db.countries[i].country_id }
        },
        None => {
            proof {
                assert(false);
            }
            CountryRespond { country_id: 0 }
        },
    }
}

/// Second query of the create path: insert a country row with the given
/// name and return the generated identifier.
pub fn insert_country(db: &mut Database, name: &String) -> (r: CountryRespond)
    requires
        old(db).wf(),
        !old(db)@.has_country(name@),
        old(db)@.countries.len() < i32::MAX as int,
    ensures
        final(db).wf(),
        final(db)@ == resolve_country_model(old(db)@, name@).0,
        r.country_id as int == resolve_country_model(old(db)@, name@).1,
{
    let id: i32 = db.countries.len() as i32 + 1;
    db.countries.push(CountryRow { country_id: id, country: name.clone() });
    proof {
        let mold = old(db)@;
        assert(db@.countries =~= mold.countries.push(
            CountryModel { id: mold.countries.len() as int + 1, name: name@ },
        ));
        assert(db@ =~= resolve_country_model(mold, name@).0);
        lemma_resolve_country_model_wf(mold, name@);
    }
    CountryRespond { country_id: id }
}

/// The Reference Resolver for countries: reuse the row whose name
/// matches, otherwise insert one. The check and the act are two
/// queries, as the storage layer runs them. The key must be non-empty
/// after trimming.
pub fn resolve_country(db: &mut Database, name: &String) -> (r: CountryRespond)
    requires
        old(db).wf(),
        !is_blank(name@),
        old(db)@.countries.len() < i32::MAX as int,
    ensures
        final(db).wf(),
        final(db)@ == resolve_country_model(old(db)@, name@).0,
        r.country_id as int == resolve_country_model(old(db)@, name@).1,
{
    let e = country_exists(db, name);
    if let Some(true) = e.exists {
        fetch_country_id(db, name)
    } else {
        insert_country(db, name)
    }
}

/// Existence check on the city table, keyed by (name, country).
pub fn city_exists(db: &Database, name: &String, country_id: i32) -> (r: ValueExists)
    ensures
        r.exists == Some(db@.has_city(name@, country_id as int)),
{
    match db.find_city(name, country_id) {
        Some(i) => {
            proof {
                assert(db@.cities[i as int].name == name@);
                assert(db@.has_city(name@, country_id as int));
            }
            ValueExists { exists: Some(true) }
        },
        None => ValueExists { exists: Some(false) },
    }
}

/// Fetch the identifier of the city row with the given (name, country)
/// key.
pub fn fetch_city_id(db: &Database, name: &String, country_id: i32) -> (r: CityRespond)
    requires
        db.wf(),
        db@.has_city(name@, country_id as int),
    ensures
        r.city_id as int == db@.city_id_for(name@, country_id as int),
{
    match db.find_city(name, country_id) {
        Some(i) => {
            proof {
                lemma_city_match_unique(db@, name@, country_id as int, i as int);
            }
            CityRespond { city_id: db.cities[i].city_id }
        },
        None => {
            proof {
                assert(false);
            }
            CityRespond { city_id: 0 }
        },
    }
}

/// Insert a city row under an already resolved country and return the
/// generated identifier.
pub fn insert_city(db: &mut Database, name: &String, country_id: i32) -> (r: CityRespond)
    requires
        old(db).wf(),
        !old(db)@.has_city(name@, country_id as int),
        1 <= country_id as int <= old(db)@.countries.len(),
        old(db)@.cities.len() < i32::MAX as int,
    ensures
        final(db).wf(),
        final(db)@ == resolve_city_model(old(db)@, name@, country_id as int).0,
        r.city_id as int == resolve_city_model(old(db)@, name@, country_id as int).1,
{
    let id: i32 = db.cities.len() as i32 + 1;
    db.cities.push(CityRow { city_id: id, city: name.clone(), country_id });
    proof {
        let mold = old(db)@;
        assert(db@.cities =~= mold.cities.push(
            CityModel {
                id: mold.cities.len() as int + 1,
                name: name@,
                country_id: country_id as int,
            },
        ));
        assert(db@ =~= resolve_city_model(mold, name@, country_id as int).0);
        lemma_resolve_city_model_wf(mold, name@, country_id as int);
    }
    CityRespond { city_id: id }
}

/// The Reference Resolver for cities: reuse the row whose (name,
/// country) key matches, otherwise insert one under the resolved
/// country. The key must be non-empty after trimming, and the parent
/// country must already be resolved and valid.
pub fn resolve_city(db: &mut Database, name: &String, country_id: i32) -> (r: CityRespond)
    requires
        old(db).wf(),
        !is_blank(name@),
        1 <= country_id as int <= old(db)@.countries.len(),
        old(db)@.cities.len() < i32::MAX as int,
    ensures
        final(db).wf(),
        final(db)@ == resolve_city_model(old(db)@, name@, country_id as int).0,
        r.city_id as int == resolve_city_model(old(db)@, name@, country_id as int).1,
{
    let e = city_exists(db, name, country_id);
    if let Some(true) = e.exists {
        fetch_city_id(db, name, country_id)
    } else {
        insert_city(db, name, country_id)
    }
}

/// The Address Creator: always insert a new address row referencing the
/// resolved city — addresses are never deduplicated.
pub fn create_address(db: &mut Database, addr: &CreateAddress, city_id: i32) -> (r: AddressRespond)
    requires
        old(db).wf(),
        1 <= city_id as int <= old(db)@.cities.len(),
        old(db)@.addresses.len() < i32::MAX as int,
    ensures
        final(db).wf(),
        final(db)@ == create_address_model(old(db)@, addr@, city_id as int).0,
        r.address_id as int == create_address_model(old(db)@, addr@, city_id as int).1,
{
    let id: i32 = db.addresses.len() as i32 + 1;
    let address2 = match &addr.address2 {
        Some(s) => Some(s.clone()),
        None => None,
    };
    let postal_code = match &addr.postal_code {
        Some(s) => Some(s.clone()),
        None => None,
    };
    db.addresses.push(
        AddressRow {
            address_id: id,
            address: addr.address.clone(),
            address2,
            district: addr.district.clone(),
            city_id,
            postal_code,
            phone: addr.phone.clone(),
        },
    );
    proof {
        let mold = old(db)@;
        assert(db@.addresses =~= mold.addresses.push(
            AddressModel {
                id: mold.addresses.len() as int + 1,
                address: addr.address@,
                address2: addr.address2.deep_view(),
                district: addr.district@,
                city_id: city_id as int,
                postal_code: addr.postal_code.deep_view(),
                phone: addr.phone@,
            },
        ));
        assert(db@ =~= create_address_model(mold, addr@, city_id as int).0);
        lemma_create_address_model_wf(mold, addr@, city_id as int);
    }
    AddressRespond { address_id: id }
}

/// The Customer Creator: insert the customer row referencing the
/// created address, and return the persisted row. Fails — without
/// writing — when the referenced store does not exist.
pub fn insert_customer(db: &mut Database, form: &CreateCustomerForm, address_id: i32) -> (r: Result<
    CreateCustomer,
    OnboardError,
>)
    requires
        old(db).wf(),
        1 <= address_id as int <= old(db)@.addresses.len(),
        address_id as int <= i16::MAX as int,
        old(db)@.customers.len() < i32::MAX as int,
    ensures
        final(db).wf(),
        r is Ok <==> old(db)@.stores.contains(form.store_id as int),
        r is Err ==> final(db)@ == old(db)@ && r == Err::<CreateCustomer, OnboardError>(
            OnboardError::ConstraintViolation,
        ),
        r matches Ok(c) ==> final(db)@ == create_customer_model(
            old(db)@,
            form@,
            address_id as int,
        ).0 && respond_matches(c, create_customer_model(old(db)@, form@, address_id as int).1),
{
    if !db.contains_store(form.store_id) {
        return Err(OnboardError::ConstraintViolation);
    }
    let id: i32 = db.customers.len() as i32 + 1;
    let email = match &form.email {
        Some(s) => Some(s.clone()),
        None => None,
    };
    db.customers.push(
        CustomerRow {
            customer_id: id,
            store_id: form.store_id,
            first_name: form.first_name.clone(),
            last_name: form.last_name.clone(),
            email,
            address_id,
            activebool: form.activebool,
            active: None,
        },
    );
    proof {
        let mold = old(db)@;
        assert(db@.customers =~= mold.customers.push(
            create_customer_model(mold, form@, address_id as int).1,
        ));
        assert(db@ =~= create_customer_model(mold, form@, address_id as int).0);
        lemma_create_customer_model_wf(mold, form@, address_id as int);
    }
    let email2 = match &form.email {
        Some(s) => Some(s.clone()),
        None => None,
    };
    Ok(
        CreateCustomer {
            customer_id: Some(id),
            store_id: form.store_id,
            first_name: form.first_name.clone(),
            last_name: form.last_name.clone(),
            email: email2,
            activebool: form.activebool,
            active: None,
            address_id: address_id as i16,
        },
    )
}

/// The Transaction Orchestrator: validate, then resolve the country,
/// resolve the city under it, create the address, create the customer —
/// atomically. On any failure the store is left exactly as it was; on
/// success the returned payload reports the persisted, fully linked
/// customer row.
pub fn onboard(db: &mut Database, form: &CreateCustomerForm) -> (r: Result<
    CreateCustomer,
    OnboardError,
>)
    requires
        old(db).wf(),
        old(db)@.countries.len() < i32::MAX as int,
        old(db)@.cities.len() < i32::MAX as int,
        old(db)@.addresses.len() < i16::MAX as int,
        old(db)@.customers.len() < i32::MAX as int,
    ensures
        final(db).wf(),
        final(db)@.stores == old(db)@.stores,
        final(db)@ == onboard_model(old(db)@, form@).0,
        ({
            let res = onboard_model(old(db)@, form@).1;
            match (r, res) {
                (Ok(c), Ok(cm)) => respond_matches(c, cm),
                (Err(e), Err(em)) => e == em,
                _ => false,
            }
        }),
        r is Err ==> final(db)@ == old(db)@,
        r is Ok <==> form@.valid() && old(db)@.stores.contains(form@.store_id),
        r matches Ok(c) ==> final(db)@.customers.len() == old(db)@.customers.len() + 1
            && respond_matches(c, final(db)@.customers.last()) && customer_linked(
            final(db)@,
            final(db)@.customers.last(),
            form@.address.country,
            form@.address.city,
        ),
{
    proof {
        lemma_onboard_model_wf(old(db)@, form@);
    }
    if !form.validate() {
        return Err(OnboardError::Validation);
    }
    if !db.contains_store(form.store_id) {
        return Err(OnboardError::ConstraintViolation);
    }
    let ghost m0 = db@;
    let country = resolve_country(db, &form.address.country);
    proof {
        lemma_resolve_country_model_wf(m0, form@.address.country);
    }
    let ghost m1 = db@;
    let city = resolve_city(db, &form.address.city, country.country_id);
    proof {
        lemma_resolve_city_model_wf(m1, form@.address.city, country.country_id as int);
    }
    let ghost m2 = db@;
    let address = create_address(db, &form.address, city.city_id);
    proof {
        lemma_create_address_model_wf(m2, form@.address, city.city_id as int);
    }
    let ghost m3 = db@;
    let created = insert_customer(db, form, address.address_id);
    proof {
        lemma_create_customer_model_wf(m3, form@, address.address_id as int);
    }
    match created {
        Ok(c) => Ok(c),
        Err(_) => {
            proof {
                assert(false);
            }
            Err(OnboardError::ConstraintViolation)
        },
    }
}

/// The onboarding endpoint's computation: run the transaction and wrap
/// the outcome in the response envelope — the persisted customer on
/// success, the failure's description otherwise.
pub fn create_customer(db: &mut Database, form: &CreateCustomerForm) -> (r: GenericResponse<
    Option<CreateCustomer>,
    String,
>)
    requires
        old(db).wf(),
        old(db)@.countries.len() < i32::MAX as int,
        old(db)@.cities.len() < i32::MAX as int,
        old(db)@.addresses.len() < i16::MAX as int,
        old(db)@.customers.len() < i32::MAX as int,
    ensures
        final(db).wf(),
        final(db)@ == onboard_model(old(db)@, form@).0,
        ({
            let res = onboard_model(old(db)@, form@).1;
            match res {
                Ok(cm) => r.status@ == "success"@ && (match r.data {
                    Some(c) => respond_matches(c, cm),
                    None => false,
                }) && r.message@ == "Successfully created customer"@,
                Err(e) => r.status@ == "error"@ && r.data is None && final(db)@ == old(db)@,
            }
        }),
{
    match onboard(db, form) {
        Ok(c) => GenericResponse::success(Some(c), "Successfully created customer".to_owned()),
        Err(e) => GenericResponse::error(None, e.describe()),
    }
}

} // verus!
