//! Postal addresses.
use vstd::prelude::*;

use crate::text::{blank, cat, is_blank, note, views, listed_if};

verus! {

/// What an address holds.
pub struct AddressView {
    pub street: Seq<char>,
    pub city: Seq<char>,
    pub state: Seq<char>,
    pub country: Seq<char>,
    pub postal_code: Seq<char>,
}

/// A postal address; none of its parts is blank.
#[derive(Debug)]
pub struct Address {
    street: String,
    city: String,
    state: String,
    country: String,
    postal_code: String,
}

/// What is wrong with the parts of an address, in the order street, city,
/// state, country, postal code; empty where nothing is.
pub open spec fn address_errors(
    street: Seq<char>,
    city: Seq<char>,
    state: Seq<char>,
    country: Seq<char>,
    postal_code: Seq<char>,
) -> Seq<Seq<char>> {
    listed_if(is_blank(street), "Street name must not be empty: "@ + street) + listed_if(
        is_blank(city),
        "City name must not be empty: "@ + city,
    ) + listed_if(is_blank(state), "State must not be empty: "@ + state) + listed_if(
        is_blank(country),
        "Country name must not be empty: "@ + country,
    ) + listed_if(is_blank(postal_code), "Postal Code must not be empty: "@ + postal_code)
}

impl View for Address {
    type V = AddressView;

    closed spec fn view(&self) -> AddressView {
        AddressView {
            street: self.street@,
            city: self.city@,
            state: self.state@,
            country: self.country@,
            postal_code: self.postal_code@,
        }
    }
}

impl AddressView {
    /// No part is blank.
    pub open spec fn valid(self) -> bool {
        &&& !is_blank(self.street)
        &&& !is_blank(self.city)
        &&& !is_blank(self.state)
        &&& !is_blank(self.country)
        &&& !is_blank(self.postal_code)
    }
}

impl Address {
    #[verifier::type_invariant]
    closed spec fn inv(self) -> bool {
        self@.valid()
    }

    /// The address with these parts; else every problem found, one text each.
    pub fn create(
        street: String,
        city: String,
        state: String,
        country: String,
        postal_code: String,
    ) -> (r: Result<Address, Vec<String>>)
        ensures
            ({
                let errs = address_errors(street@, city@, state@, country@, postal_code@);
                &&& errs.len() == 0 ==> r is Ok && r->Ok_0@ == (AddressView {
                    street: street@,
                    city: city@,
                    state: state@,
                    country: country@,
                    postal_code: postal_code@,
                })
                &&& errs.len() > 0 ==> r is Err && views(r->Err_0@) == errs
            }),
    {
        let mut errors: Vec<String> = Vec::new();
        note(
            &mut errors,
            blank(street.as_str()),
            cat("Street name must not be empty: ", street.as_str()),
        );
        note(&mut errors, blank(city.as_str()), cat("City name must not be empty: ", city.as_str()));
        note(&mut errors, blank(state.as_str()), cat("State must not be empty: ", state.as_str()));
        note(
            &mut errors,
            blank(country.as_str()),
            cat("Country name must not be empty: ", country.as_str()),
        );
        note(
            &mut errors,
            blank(postal_code.as_str()),
            cat("Postal Code must not be empty: ", postal_code.as_str()),
        );
        proof {
            assert(views(Seq::<String>::empty()) =~= Seq::<Seq<char>>::empty());
            assert(views(errors@) =~= address_errors(
                street@,
                city@,
                state@,
                country@,
                postal_code@,
            ));
        }
        if errors.len() > 0 {
            return Err(errors);
        }
        Ok(Address { street, city, state, country, postal_code })
    }

    /// The street; like every part of an address that exists, it is not blank.
    pub fn street(&self) -> (r: &str)
        ensures
            r@ == self@.street,
            self@.valid(),
    {
        proof {
            use_type_invariant(self);
        }
        self.street.as_str()
    }

    pub fn city(&self) -> (r: &str)
        ensures
            r@ == self@.city,
    {
        self.city.as_str()
    }

    pub fn state(&self) -> (r: &str)
        ensures
            r@ == self@.state,
    {
        self.state.as_str()
    }

    pub fn country(&self) -> (r: &str)
        ensures
            r@ == self@.country,
    {
        self.country.as_str()
    }

    pub fn postal_code(&self) -> (r: &str)
        ensures
            r@ == self@.postal_code,
    {
        self.postal_code.as_str()
    }
}

impl Clone for Address {
    fn clone(&self) -> (r: Address)
        ensures
            r@ == self@,
    {
        proof {
            use_type_invariant(self);
        }
        Address {
            street: self.street.clone(),
            city: self.city.clone(),
            state: self.state.clone(),
            country: self.country.clone(),
            postal_code: self.postal_code.clone(),
        }
    }
}

} // verus!
