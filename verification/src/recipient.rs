//! The person a shipment goes to.
use vstd::prelude::*;

use crate::address::{Address, AddressView};
use crate::text::{blank, cat, is_blank, listed_if, note, views};

verus! {

/// What a recipient holds.
pub struct RecipientView {
    pub name: Seq<char>,
    pub contact: Seq<char>,
    pub address: AddressView,
}

impl RecipientView {
    /// Neither the name nor the contact is blank.
    pub open spec fn valid(self) -> bool {
        !is_blank(self.name) && !is_blank(self.contact)
    }
}

/// The person a shipment goes to; neither the name nor the contact is blank.
#[derive(Debug)]
pub struct Recipient {
    name: String,
    contact: String,
    address: Address,
}

/// What is wrong with a name and a contact, in that order; empty where nothing is.
pub open spec fn recipient_errors(name: Seq<char>, contact: Seq<char>) -> Seq<Seq<char>> {
    listed_if(is_blank(name), "Name must not be empty: "@ + name) + listed_if(
        is_blank(contact),
        "Contact cannot be empty: "@ + contact,
    )
}

impl View for Recipient {
    type V = RecipientView;

    closed spec fn view(&self) -> RecipientView {
        RecipientView { name: self.name@, contact: self.contact@, address: self.address@ }
    }
}

impl Recipient {
    #[verifier::type_invariant]
    closed spec fn inv(self) -> bool {
        self@.valid()
    }

    /// The recipient with this name, contact and address; else every problem
    /// found, one text each.
    pub fn create(name: String, contact: String, address: Address) -> (r: Result<
        Recipient,
        Vec<String>,
    >)
        ensures
            ({
                let errs = recipient_errors(name@, contact@);
                &&& errs.len() == 0 ==> r is Ok && r->Ok_0@ == (RecipientView {
                    name: name@,
                    contact: contact@,
                    address: address@,
                })
                &&& errs.len() > 0 ==> r is Err && views(r->Err_0@) == errs
            }),
    {
        let mut errors: Vec<String> = Vec::new();
        note(&mut errors, blank(name.as_str()), cat("Name must not be empty: ", name.as_str()));
        note(
            &mut errors,
            blank(contact.as_str()),
            cat("Contact cannot be empty: ", contact.as_str()),
        );
        proof {
            assert(views(Seq::<String>::empty()) =~= Seq::<Seq<char>>::empty());
            assert(views(errors@) =~= recipient_errors(name@, contact@));
        }
        if errors.len() > 0 {
            return Err(errors);
        }
        Ok(Recipient { name, contact, address })
    }

    /// The name; like the contact of every recipient that exists, it is not blank.
    pub fn name(&self) -> (r: &str)
        ensures
            r@ == self@.name,
            self@.valid(),
    {
        proof {
            use_type_invariant(self);
        }
        self.name.as_str()
    }

    pub fn contact(&self) -> (r: &str)
        ensures
            r@ == self@.contact,
    {
        self.contact.as_str()
    }

    pub fn address(&self) -> (r: &Address)
        ensures
            r@ == self@.address,
    {
        &self.address
    }
}

impl Clone for Recipient {
    fn clone(&self) -> (r: Recipient)
        ensures
            r@ == self@,
    {
        proof {
            use_type_invariant(self);
        }
        Recipient {
            name: self.name.clone(),
            contact: self.contact.clone(),
            address: self.address.clone(),
        }
    }
}

} // verus!
