//! Shipments: creation, the status life cycle, edits and proofs of delivery.
use vstd::prelude::*;

use crate::clock::{clock_reading, now_micros, EARLIEST_INSTANT, LATEST_INSTANT};
use crate::error::DomainError;
use crate::ids::{fresh_id, uuid_hyphenated, uuid_text};
use crate::package::{PackageDetails, PackageView};
use crate::proof_of_delivery::{ProofOfDelivery, ProofView};
use crate::recipient::{Recipient, RecipientView};
use crate::shipment_status::ShipmentStatus;
use crate::text::{blank, cat, is_blank, str_eq, views};

verus! {

/// What a shipment holds. Instants are microseconds since the Unix epoch.
pub struct ShipmentView {
    pub id: u128,
    pub sender_name: Seq<char>,
    pub recipient: RecipientView,
    pub package_details: PackageView,
    pub tracking_number: Seq<char>,
    pub status: ShipmentStatus,
    pub created_at: i64,
    pub updated_at: i64,
    pub proof_of_delivery: Seq<ProofView>,
    pub service_provider_id: Option<u128>,
}

/// A parcel on its way from a sender to a recipient.
#[derive(Debug)]
pub struct Shipment {
    id: u128,
    sender_name: String,
    recipient: Recipient,
    package_details: PackageDetails,
    tracking_number: String,
    status: ShipmentStatus,
    created_at: i64,
    updated_at: i64,
    proof_of_delivery: Vec<ProofOfDelivery>,
    service_provider_id: Option<u128>,
}

/// The changes asked for a shipment; a part left out stays as it is.
pub struct UpdateShipment {
    pub sender_name: Option<String>,
    pub recipient: Option<Recipient>,
    pub package_details: Option<PackageDetails>,
}

/// The views of a list of proofs.
pub open spec fn proof_views(v: Seq<ProofOfDelivery>) -> Seq<ProofView> {
    v.map_values(|p: ProofOfDelivery| p@)
}

/// No two proofs in the list were submitted by the same person.
pub open spec fn distinct_submitters(proofs: Seq<ProofView>) -> bool {
    forall|i: int, j: int|
        0 <= i < proofs.len() && 0 <= j < proofs.len() && i != j ==> proofs[i].submitted_by
            != proofs[j].submitted_by
}

/// Some proof in the list was submitted by `who`.
pub open spec fn submitted_by_any(proofs: Seq<ProofView>, who: Seq<char>) -> bool {
    exists|i: int| 0 <= i < proofs.len() && proofs[i].submitted_by == who
}

/// Once a proof is attached, a second proof from the same submitter is refused:
/// the list that the attachment leaves holds that submitter (see
/// `Shipment::attach_proof_of_delivery`).
pub proof fn lemma_one_proof_per_submitter(proofs: Seq<ProofView>, first: ProofView, second: ProofView)
    requires
        second.submitted_by == first.submitted_by,
    ensures
        submitted_by_any(proofs.push(first), second.submitted_by),
{
    assert(proofs.push(first)[proofs.len() as int] == first);
}

/// A tracking number: `TRK-` followed by the hyphenated form of a UUID.
pub open spec fn is_tracking_number(t: Seq<char>) -> bool {
    exists|u: u128| t == "TRK-"@ + uuid_hyphenated(u)
}

/// How long a delivery is expected to take: three days.
pub const DELIVERY_TIME: i64 = 259_200_000_000;

/// A copy of a list of proofs.
pub fn clone_proofs(v: &Vec<ProofOfDelivery>) -> (r: Vec<ProofOfDelivery>)
    ensures
        proof_views(r@) == proof_views(v@),
{
    let mut r: Vec<ProofOfDelivery> = Vec::new();
    let n = v.len();
    let mut i: usize = 0;
    while i < n
        invariant
            n == v@.len(),
            0 <= i <= n,
            proof_views(r@) =~= proof_views(v@).take(i as int),
        decreases n - i,
    {
        let c = v[i].clone();
        let ghost before = r@;
        r.push(c);
        assert(proof_views(r@) =~= proof_views(before).push(c@));
        assert(proof_views(v@).take(i + 1) =~= proof_views(v@).take(i as int).push(v@[i as int]@));
        i = i + 1;
    }
    assert(proof_views(v@).take(n as int) =~= proof_views(v@));
    r
}

impl View for Shipment {
    type V = ShipmentView;

    closed spec fn view(&self) -> ShipmentView {
        ShipmentView {
            id: self.id,
            sender_name: self.sender_name@,
            recipient: self.recipient@,
            package_details: self.package_details@,
            tracking_number: self.tracking_number@,
            status: self.status,
            created_at: self.created_at,
            updated_at: self.updated_at,
            proof_of_delivery: proof_views(self.proof_of_delivery@),
            service_provider_id: self.service_provider_id,
        }
    }
}

impl Shipment {
    /// A new shipment in status `Created`, with a fresh identifier, a fresh
    /// tracking number, no proof of delivery, and creation and update times
    /// equal; refused with a validation error where the sender's name is blank.
    pub fn create(
        sender_name: String,
        recipient: Recipient,
        package_details: PackageDetails,
        service_provider_id: Option<u128>,
    ) -> (r: Result<Shipment, DomainError>)
        ensures
            is_blank(sender_name@) ==> r is Err && (r->Err_0 matches DomainError::ValidationError(
                v,
            ) && views(v@) == seq!["Sender name must not be empty"@]),
            !is_blank(sender_name@) ==> r is Ok && ({
                let s = r->Ok_0@;
                &&& s.id != 0
                &&& s.sender_name == sender_name@
                &&& s.recipient == recipient@
                &&& s.package_details == package_details@
                &&& is_tracking_number(s.tracking_number)
                &&& s.status == ShipmentStatus::Created
                &&& s.created_at == s.updated_at
                &&& EARLIEST_INSTANT <= s.created_at <= LATEST_INSTANT
                &&& clock_reading(s.created_at as int)
                &&& s.proof_of_delivery.len() == 0
                &&& s.service_provider_id == service_provider_id
            }),
    {
        if blank(sender_name.as_str()) {
            let mut errors: Vec<String> = Vec::new();
            errors.push(String::from_str("Sender name must not be empty"));
            assert(views(errors@) =~= seq!["Sender name must not be empty"@]);
            return Err(DomainError::ValidationError(errors));
        }
        let now = now_micros();
        let id = fresh_id();
        let tracking_number = Shipment::generate_tracking_number();
        let proofs: Vec<ProofOfDelivery> = Vec::new();
        assert(proof_views(proofs@) =~= Seq::<ProofView>::empty());
        Ok(
            Shipment {
                id,
                sender_name,
                recipient,
                package_details,
                tracking_number,
                status: ShipmentStatus::Created,
                created_at: now,
                updated_at: now,
                proof_of_delivery: proofs,
                service_provider_id,
            },
        )
    }

    /// `TRK-` followed by the text of a fresh UUID.
    fn generate_tracking_number() -> (r: String)
        ensures
            is_tracking_number(r@),
    {
        let u = fresh_id();
        let r = cat("TRK-", uuid_text(u).as_str());
        assert(r@ == "TRK-"@ + uuid_hyphenated(u));
        r
    }

    /// A shipment as it was stored.
    pub fn reconstitute(
        id: u128,
        sender_name: String,
        recipient: Recipient,
        package_details: PackageDetails,
        tracking_number: String,
        status: ShipmentStatus,
        created_at: i64,
        updated_at: i64,
        proof_of_delivery: Vec<ProofOfDelivery>,
        service_provider_id: Option<u128>,
    ) -> (r: Shipment)
        ensures
            r@ == (ShipmentView {
                id,
                sender_name: sender_name@,
                recipient: recipient@,
                package_details: package_details@,
                tracking_number: tracking_number@,
                status,
                created_at,
                updated_at,
                proof_of_delivery: proof_views(proof_of_delivery@),
                service_provider_id,
            }),
    {
        Shipment {
            id,
            sender_name,
            recipient,
            package_details,
            tracking_number,
            status,
            created_at,
            updated_at,
            proof_of_delivery,
            service_provider_id,
        }
    }

    /// The shipment with a new sender name, recipient and parcel, stamped with
    /// the current time; everything else as it was.
    pub fn updated_shipment(
        &self,
        sender_name: String,
        recipient: Recipient,
        package_details: PackageDetails,
    ) -> (r: Shipment)
        ensures
            r@ == (ShipmentView {
                sender_name: sender_name@,
                recipient: recipient@,
                package_details: package_details@,
                updated_at: r@.updated_at,
                ..self@
            }),
            clock_reading(r@.updated_at as int),
    {
        Shipment {
            id: self.id,
            sender_name,
            recipient,
            package_details,
            tracking_number: self.tracking_number.clone(),
            status: self.status,
            created_at: self.created_at,
            updated_at: now_micros(),
            proof_of_delivery: clone_proofs(&self.proof_of_delivery),
            service_provider_id: self.service_provider_id,
        }
    }

    pub fn id(&self) -> (r: u128)
        ensures
            r == self@.id,
    {
        self.id
    }

    pub fn sender_name(&self) -> (r: &str)
        ensures
            r@ == self@.sender_name,
    {
        self.sender_name.as_str()
    }

    pub fn status(&self) -> (r: ShipmentStatus)
        ensures
            r == self@.status,
    {
        self.status
    }

    pub fn service_provider_id(&self) -> (r: Option<u128>)
        ensures
            r == self@.service_provider_id,
    {
        self.service_provider_id
    }

    /// Sets the service provider and stamps the shipment with the current time.
    pub fn set_service_provider_id(&mut self, id: Option<u128>)
        ensures
            final(self)@ == (ShipmentView {
                service_provider_id: id,
                updated_at: final(self)@.updated_at,
                ..old(self)@
            }),
            clock_reading(final(self)@.updated_at as int),
    {
        self.service_provider_id = id;
        self.updated_at = now_micros();
    }

    /// Sets the sender's name and stamps the shipment with the current time.
    pub fn set_sender_name(&mut self, name: String)
        ensures
            final(self)@ == (ShipmentView {
                sender_name: name@,
                updated_at: final(self)@.updated_at,
                ..old(self)@
            }),
            clock_reading(final(self)@.updated_at as int),
    {
        self.sender_name = name;
        self.updated_at = now_micros();
    }

    /// Sets the status, without checking the life cycle, and stamps the shipment
    /// with the current time.
    pub fn set_status(&mut self, status: ShipmentStatus)
        ensures
            final(self)@ == (ShipmentView {
                status,
                updated_at: final(self)@.updated_at,
                ..old(self)@
            }),
            clock_reading(final(self)@.updated_at as int),
    {
        self.status = status;
        self.updated_at = now_micros();
    }

    pub fn proof_of_delivery(&self) -> (r: &[ProofOfDelivery])
        ensures
            proof_views(r@) == self@.proof_of_delivery,
    {
        self.proof_of_delivery.as_slice()
    }

    pub fn recipient(&self) -> (r: &Recipient)
        ensures
            r@ == self@.recipient,
    {
        &self.recipient
    }

    pub fn package_details(&self) -> (r: &PackageDetails)
        ensures
            r@ == self@.package_details,
    {
        &self.package_details
    }

    pub fn created_at(&self) -> (r: i64)
        ensures
            r == self@.created_at,
    {
        self.created_at
    }

    pub fn updated_at(&self) -> (r: i64)
        ensures
            r == self@.updated_at,
    {
        self.updated_at
    }

    /// The expected delivery: three days after the current time (which the clock
    /// gives, within the range of `chrono`'s dates).
    pub fn delivery_date_estimate(&self) -> (r: i64)
        ensures
            EARLIEST_INSTANT + DELIVERY_TIME <= r <= LATEST_INSTANT + DELIVERY_TIME,
            clock_reading(r - DELIVERY_TIME),
    {
        Shipment::delivery_estimate_at(now_micros())
    }

    /// The expected delivery of a shipment dispatched at `now`: three days later.
    pub fn delivery_estimate_at(now: i64) -> (r: i64)
        requires
            now <= LATEST_INSTANT,
        ensures
            r == now + DELIVERY_TIME,
    {
        now + DELIVERY_TIME
    }

    pub fn tracking_number(&self) -> (r: &str)
        ensures
            r@ == self@.tracking_number,
    {
        self.tracking_number.as_str()
    }

    /// The shipment moved to `next` and stamped with the current time, where the
    /// life cycle allows the move; else the error names both statuses.
    pub fn update_status(&self, next: ShipmentStatus) -> (r: Result<Shipment, DomainError>)
        ensures
            ShipmentStatus::can_move(self@.status, next) ==> r is Ok && r->Ok_0@ == (
            ShipmentView { status: next, updated_at: r->Ok_0@.updated_at, ..self@ }),
            r is Ok ==> clock_reading(r->Ok_0@.updated_at as int),
            !ShipmentStatus::can_move(self@.status, next) ==> r is Err && r->Err_0
                == (DomainError::InvalidShipmentStatusTransition {
                from: self@.status,
                to: next,
            }),
    {
        let now = now_micros();
        match ShipmentStatus::validate_transition(&self.status, &next) {
            Err(e) => Err(e),
            Ok(()) => Ok(
                Shipment {
                    id: self.id,
                    sender_name: self.sender_name.clone(),
                    recipient: self.recipient.clone(),
                    package_details: self.package_details.clone(),
                    tracking_number: self.tracking_number.clone(),
                    status: next,
                    created_at: self.created_at,
                    updated_at: now,
                    proof_of_delivery: clone_proofs(&self.proof_of_delivery),
                    service_provider_id: self.service_provider_id,
                },
            ),
        }
    }

    /// Tests whether some proof of the shipment was submitted by `who`.
    fn has_submitter(&self, who: &str) -> (b: bool)
        ensures
            b == submitted_by_any(self@.proof_of_delivery, who@),
    {
        let n = self.proof_of_delivery.len();
        let mut i: usize = 0;
        while i < n
            invariant
                n == self.proof_of_delivery@.len(),
                0 <= i <= n,
                forall|k: int|
                    0 <= k < i ==> proof_views(self.proof_of_delivery@)[k].submitted_by != who@,
            decreases n - i,
        {
            if str_eq(self.proof_of_delivery[i].submitted_by(), who) {
                assert(proof_views(self.proof_of_delivery@)[i as int].submitted_by == who@);
                return true;
            }
            i = i + 1;
        }
        false
    }

    /// The shipment with `proof` added after its other proofs and stamped with
    /// the current time. Refused where the shipment is not delivered, then where
    /// its submitter already gave a proof. Proofs from distinct submitters stay so.
    pub fn attach_proof_of_delivery(&self, proof: ProofOfDelivery) -> (r: Result<
        Shipment,
        DomainError,
    >)
        ensures
            self@.status != ShipmentStatus::Delivered ==> r is Err && r->Err_0
                == DomainError::ShipmentNotDelivered,
            self@.status == ShipmentStatus::Delivered && submitted_by_any(
                self@.proof_of_delivery,
                proof@.submitted_by,
            ) ==> r is Err && r->Err_0 == DomainError::DuplicateProofOfDelivery,
            self@.status == ShipmentStatus::Delivered && !submitted_by_any(
                self@.proof_of_delivery,
                proof@.submitted_by,
            ) ==> r is Ok && r->Ok_0@ == (ShipmentView {
                proof_of_delivery: self@.proof_of_delivery.push(proof@),
                updated_at: r->Ok_0@.updated_at,
                ..self@
            }),
            r is Ok && distinct_submitters(self@.proof_of_delivery) ==> distinct_submitters(
                r->Ok_0@.proof_of_delivery,
            ),
            r is Ok ==> clock_reading(r->Ok_0@.updated_at as int),
    {
        if self.status != ShipmentStatus::Delivered {
            return Err(DomainError::ShipmentNotDelivered);
        }
        if self.has_submitter(proof.submitted_by()) {
            return Err(DomainError::DuplicateProofOfDelivery);
        }
        let mut proofs = clone_proofs(&self.proof_of_delivery);
        let ghost old_views = proof_views(proofs@);
        let ghost p = proof@;
        proofs.push(proof);
        assert(proof_views(proofs@) =~= old_views.push(p));
        Ok(
            Shipment {
                id: self.id,
                sender_name: self.sender_name.clone(),
                recipient: self.recipient.clone(),
                package_details: self.package_details.clone(),
                tracking_number: self.tracking_number.clone(),
                status: self.status,
                created_at: self.created_at,
                updated_at: now_micros(),
                proof_of_delivery: proofs,
                service_provider_id: self.service_provider_id,
            },
        )
    }
}

impl Clone for Shipment {
    fn clone(&self) -> (r: Shipment)
        ensures
            r@ == self@,
    {
        Shipment {
            id: self.id,
            sender_name: self.sender_name.clone(),
            recipient: self.recipient.clone(),
            package_details: self.package_details.clone(),
            tracking_number: self.tracking_number.clone(),
            status: self.status,
            created_at: self.created_at,
            updated_at: self.updated_at,
            proof_of_delivery: clone_proofs(&self.proof_of_delivery),
            service_provider_id: self.service_provider_id,
        }
    }
}

} // verus!
