//! The evidence that a shipment was handed over: an image, a note, or both.
use vstd::prelude::*;

use crate::clock::{clock_reading, now_micros, EARLIEST_INSTANT, LATEST_INSTANT};
use crate::error::DomainError;
use crate::text::{trim, trimmed};

verus! {

/// What a proof of delivery holds.
pub struct ProofView {
    pub image: Option<Seq<char>>,
    pub note: Seq<char>,
    pub submitted_by: Seq<char>,
    pub submitted_at: i64,
}

/// An image, a note, who handed the shipment over, and when (microseconds
/// since the Unix epoch).
#[derive(Debug)]
pub struct ProofOfDelivery {
    image: Option<String>,
    note: String,
    submitted_by: String,
    submitted_at: i64,
}

/// The image reference, trimmed; none where it is missing or blank.
pub open spec fn cleaned_image(image: Option<Seq<char>>) -> Option<Seq<char>> {
    match image {
        Some(s) => if trimmed(s).len() > 0 {
            Some(trimmed(s))
        } else {
            None
        },
        None => None,
    }
}

/// What is wrong with a proof, in order: neither image nor note, then no
/// submitter; empty where nothing is.
pub open spec fn proof_errors(image: Option<Seq<char>>, note: Seq<char>, submitted_by: Seq<char>) -> Seq<
    DomainError,
> {
    (if cleaned_image(image) is None && trimmed(note).len() == 0 {
        seq![DomainError::ProofMustContainImageOrNote]
    } else {
        Seq::empty()
    }) + (if trimmed(submitted_by).len() == 0 {
        seq![DomainError::SubmittedByEmptyError]
    } else {
        Seq::empty()
    })
}

/// What decides whether a proof is refused, whatever the rest of it holds: it
/// is refused for lacking evidence exactly where it has neither an image
/// reference nor a note that is more than whitespace, and for lacking a
/// submitter exactly where the submitter is only whitespace. So an image alone
/// is evidence enough, a note alone too, and a proof with either and a
/// submitter is accepted.
pub proof fn lemma_proof_acceptance(image: Option<Seq<char>>, note: Seq<char>, submitted_by: Seq<char>)
    ensures
        proof_errors(image, note, submitted_by).contains(DomainError::ProofMustContainImageOrNote)
            <==> (!(image matches Some(i) && trimmed(i).len() > 0) && trimmed(note).len() == 0),
        proof_errors(image, note, submitted_by).contains(DomainError::SubmittedByEmptyError)
            <==> trimmed(submitted_by).len() == 0,
        (image matches Some(i) && trimmed(i).len() > 0) && trimmed(submitted_by).len() > 0
            ==> proof_errors(image, note, submitted_by).len() == 0,
        trimmed(note).len() > 0 && trimmed(submitted_by).len() > 0 ==> proof_errors(
            image,
            note,
            submitted_by,
        ).len() == 0,
{
    let errs = proof_errors(image, note, submitted_by);
    let missing = !(image matches Some(i) && trimmed(i).len() > 0) && trimmed(note).len() == 0;
    if missing {
        assert(errs[0] == DomainError::ProofMustContainImageOrNote);
    }
    if trimmed(submitted_by).len() == 0 {
        assert(errs[errs.len() - 1] == DomainError::SubmittedByEmptyError);
    }
    if errs.contains(DomainError::ProofMustContainImageOrNote) {
        let k = choose|k: int| 0 <= k < errs.len() && errs[k] == DomainError::ProofMustContainImageOrNote;
        assert(missing);
    }
    if errs.contains(DomainError::SubmittedByEmptyError) {
        let k = choose|k: int| 0 <= k < errs.len() && errs[k] == DomainError::SubmittedByEmptyError;
        assert(trimmed(submitted_by).len() == 0);
    }
}

/// The text views of an optional string.
pub open spec fn opt_view(s: Option<String>) -> Option<Seq<char>> {
    match s {
        Some(t) => Some(t@),
        None => None,
    }
}

/// A copy of an optional string.
pub fn clone_opt(s: &Option<String>) -> (r: Option<String>)
    ensures
        opt_view(r) == opt_view(*s),
{
    match s {
        Some(t) => Some(t.clone()),
        None => None,
    }
}

impl View for ProofOfDelivery {
    type V = ProofView;

    closed spec fn view(&self) -> ProofView {
        ProofView {
            image: opt_view(self.image),
            note: self.note@,
            submitted_by: self.submitted_by@,
            submitted_at: self.submitted_at,
        }
    }
}

impl ProofOfDelivery {
    /// The proof with the trimmed image reference (dropped where blank), the
    /// trimmed note and the trimmed submitter, stamped with the current time;
    /// else the problems found.
    pub fn create(image: Option<String>, note: String, submitted_by: String) -> (r: Result<
        ProofOfDelivery,
        Vec<DomainError>,
    >)
        ensures
            ({
                let errs = proof_errors(opt_view(image), note@, submitted_by@);
                &&& errs.len() == 0 ==> r is Ok && r->Ok_0@.image == cleaned_image(opt_view(image))
                    && r->Ok_0@.note == trimmed(note@) && r->Ok_0@.submitted_by == trimmed(
                    submitted_by@,
                ) && EARLIEST_INSTANT <= r->Ok_0@.submitted_at <= LATEST_INSTANT && clock_reading(
                    r->Ok_0@.submitted_at as int,
                )
                &&& errs.len() > 0 ==> r is Err && r->Err_0@ == errs
            }),
    {
        let cleaned: Option<String> = match image {
            Some(img) => {
                let t = trim(img.as_str());
                if t.as_str().unicode_len() > 0 {
                    Some(t)
                } else {
                    None
                }
            },
            None => None,
        };
        let cleaned_note = trim(note.as_str());
        let cleaned_submitter = trim(submitted_by.as_str());
        let mut errors: Vec<DomainError> = Vec::new();
        if cleaned.is_none() && cleaned_note.as_str().unicode_len() == 0 {
            errors.push(DomainError::ProofMustContainImageOrNote);
        }
        if cleaned_submitter.as_str().unicode_len() == 0 {
            errors.push(DomainError::SubmittedByEmptyError);
        }
        proof {
            assert(errors@ =~= proof_errors(opt_view(image), note@, submitted_by@));
        }
        if errors.len() > 0 {
            return Err(errors);
        }
        Ok(
            ProofOfDelivery {
                image: cleaned,
                note: cleaned_note,
                submitted_by: cleaned_submitter,
                submitted_at: now_micros(),
            },
        )
    }

    /// A proof as it was stored.
    pub fn restore(image: Option<String>, note: String, submitted_by: String, submitted_at: i64) -> (r:
        ProofOfDelivery)
        ensures
            r@ == (ProofView {
                image: opt_view(image),
                note: note@,
                submitted_by: submitted_by@,
                submitted_at,
            }),
    {
        ProofOfDelivery { image, note, submitted_by, submitted_at }
    }

    pub fn image(&self) -> (r: Option<String>)
        ensures
            opt_view(r) == self@.image,
    {
        clone_opt(&self.image)
    }

    pub fn note(&self) -> (r: &str)
        ensures
            r@ == self@.note,
    {
        self.note.as_str()
    }

    pub fn submitted_by(&self) -> (r: &str)
        ensures
            r@ == self@.submitted_by,
    {
        self.submitted_by.as_str()
    }

    pub fn submitted_at(&self) -> (r: i64)
        ensures
            r == self@.submitted_at,
    {
        self.submitted_at
    }
}

impl Clone for ProofOfDelivery {
    fn clone(&self) -> (r: ProofOfDelivery)
        ensures
            r@ == self@,
    {
        ProofOfDelivery {
            image: clone_opt(&self.image),
            note: self.note.clone(),
            submitted_by: self.submitted_by.clone(),
            submitted_at: self.submitted_at,
        }
    }
}

} // verus!
