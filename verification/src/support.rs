//! Complaints about shipments and the comments made on them.
use vstd::prelude::*;

use crate::clock::{clock_reading, now_micros, EARLIEST_INSTANT, LATEST_INSTANT};
use crate::error::DomainError;
use crate::ids::fresh_id;
use crate::support_status::{validate_transition, SupportStatus};
use crate::text::{blank, is_blank, listed_if, note, views};

verus! {

/// What a comment holds. `created_at` is in microseconds since the Unix epoch.
pub struct CommentView {
    pub id: u128,
    pub author_id: u128,
    pub message: Seq<char>,
    pub created_at: i64,
}

/// A remark made on a complaint.
#[derive(Debug)]
pub struct Comment {
    id: u128,
    author_id: u128,
    message: String,
    created_at: i64,
}

/// What a complaint holds. Instants are microseconds since the Unix epoch.
pub struct ComplaintView {
    pub id: u128,
    pub user_id: u128,
    pub shipment_id: u128,
    pub subject: Seq<char>,
    pub description: Seq<char>,
    pub status: SupportStatus,
    pub created_at: i64,
    pub resolved_at: Option<i64>,
    pub comment: Seq<CommentView>,
}

/// A complaint that a user lodged about a shipment.
#[derive(Debug)]
pub struct Complaint {
    id: u128,
    user_id: u128,
    shipment_id: u128,
    subject: String,
    description: String,
    status: SupportStatus,
    created_at: i64,
    resolved_at: Option<i64>,
    comment: Vec<Comment>,
}

/// The views of a list of comments.
pub open spec fn comment_views(v: Seq<Comment>) -> Seq<CommentView> {
    v.map_values(|c: Comment| c@)
}

/// What is wrong with a complaint, in order: user, shipment, subject,
/// description; empty where nothing is.
pub open spec fn complaint_errors(
    user_id: u128,
    shipment_id: u128,
    subject: Seq<char>,
    description: Seq<char>,
) -> Seq<Seq<char>> {
    listed_if(user_id == 0, "User id must be provided"@) + listed_if(
        shipment_id == 0,
        "Shipment id must to be provided"@,
    ) + listed_if(is_blank(subject), "Subject cannot be empty"@) + listed_if(
        is_blank(description),
        "Complain Description must be provided"@,
    )
}

/// What is wrong with a comment, in order: author, message; empty where nothing is.
pub open spec fn comment_errors(author_id: u128, message: Seq<char>) -> Seq<Seq<char>> {
    listed_if(author_id == 0, "Author id must be provided"@) + listed_if(
        is_blank(message),
        "Message cannot be empty"@,
    )
}

/// A copy of a list of comments.
pub fn clone_comments(v: &Vec<Comment>) -> (r: Vec<Comment>)
    ensures
        comment_views(r@) == comment_views(v@),
{
    let mut r: Vec<Comment> = Vec::new();
    let n = v.len();
    let mut i: usize = 0;
    while i < n
        invariant
            n == v@.len(),
            0 <= i <= n,
            comment_views(r@) =~= comment_views(v@).take(i as int),
        decreases n - i,
    {
        let c = v[i].clone();
        let ghost before = r@;
        r.push(c);
        assert(comment_views(r@) =~= comment_views(before).push(c@));
        assert(comment_views(v@).take(i + 1) =~= comment_views(v@).take(i as int).push(
            v@[i as int]@,
        ));
        i = i + 1;
    }
    assert(comment_views(v@).take(n as int) =~= comment_views(v@));
    r
}

impl View for Comment {
    type V = CommentView;

    closed spec fn view(&self) -> CommentView {
        CommentView {
            id: self.id,
            author_id: self.author_id,
            message: self.message@,
            created_at: self.created_at,
        }
    }
}

impl View for Complaint {
    type V = ComplaintView;

    closed spec fn view(&self) -> ComplaintView {
        ComplaintView {
            id: self.id,
            user_id: self.user_id,
            shipment_id: self.shipment_id,
            subject: self.subject@,
            description: self.description@,
            status: self.status,
            created_at: self.created_at,
            resolved_at: self.resolved_at,
            comment: comment_views(self.comment@),
        }
    }
}

impl Complaint {
    /// A new open complaint with a fresh identifier, no comment and no
    /// resolution time, stamped with the current time; refused with the list of
    /// problems where the user or the shipment is the nil identifier or the
    /// subject or the description is blank.
    pub fn send_complaint(
        user_id: u128,
        shipment_id: u128,
        subject: String,
        description: String,
    ) -> (r: Result<Complaint, DomainError>)
        ensures
            ({
                let errs = complaint_errors(user_id, shipment_id, subject@, description@);
                &&& errs.len() > 0 ==> r is Err && (r->Err_0 matches DomainError::ValidationError(
                    v,
                ) && views(v@) == errs)
                &&& errs.len() == 0 ==> r is Ok && ({
                    let c = r->Ok_0@;
                    &&& c.id != 0
                    &&& c.user_id == user_id
                    &&& c.shipment_id == shipment_id
                    &&& c.subject == subject@
                    &&& c.description == description@
                    &&& c.status == SupportStatus::Open
                    &&& c.resolved_at is None
                    &&& c.comment.len() == 0
                    &&& EARLIEST_INSTANT <= c.created_at <= LATEST_INSTANT
                    &&& clock_reading(c.created_at as int)
                })
            }),
    {
        let mut errors: Vec<String> = Vec::new();
        note(&mut errors, user_id == 0, String::from_str("User id must be provided"));
        note(&mut errors, shipment_id == 0, String::from_str("Shipment id must to be provided"));
        note(&mut errors, blank(subject.as_str()), String::from_str("Subject cannot be empty"));
        note(
            &mut errors,
            blank(description.as_str()),
            String::from_str("Complain Description must be provided"),
        );
        proof {
            assert(views(Seq::<String>::empty()) =~= Seq::<Seq<char>>::empty());
            assert(views(errors@) =~= complaint_errors(
                user_id,
                shipment_id,
                subject@,
                description@,
            ));
        }
        if errors.len() > 0 {
            return Err(DomainError::ValidationError(errors));
        }
        let now = now_micros();
        let comments: Vec<Comment> = Vec::new();
        assert(comment_views(comments@) =~= Seq::<CommentView>::empty());
        Ok(
            Complaint {
                id: fresh_id(),
                user_id,
                shipment_id,
                subject,
                description,
                status: SupportStatus::Open,
                created_at: now,
                resolved_at: None,
                comment: comments,
            },
        )
    }

    /// A complaint as it was stored.
    pub fn reconstitute(
        id: u128,
        user_id: u128,
        shipment_id: u128,
        subject: String,
        description: String,
        status: SupportStatus,
        created_at: i64,
        resolved_at: Option<i64>,
        comment: Vec<Comment>,
    ) -> (r: Complaint)
        ensures
            r@ == (ComplaintView {
                id,
                user_id,
                shipment_id,
                subject: subject@,
                description: description@,
                status,
                created_at,
                resolved_at,
                comment: comment_views(comment@),
            }),
    {
        Complaint {
            id,
            user_id,
            shipment_id,
            subject,
            description,
            status,
            created_at,
            resolved_at,
            comment,
        }
    }

    pub fn id(&self) -> (r: u128)
        ensures
            r == self@.id,
    {
        self.id
    }

    pub fn user_id(&self) -> (r: u128)
        ensures
            r == self@.user_id,
    {
        self.user_id
    }

    pub fn shipment_id(&self) -> (r: u128)
        ensures
            r == self@.shipment_id,
    {
        self.shipment_id
    }

    pub fn subject(&self) -> (r: String)
        ensures
            r@ == self@.subject,
    {
        self.subject.clone()
    }

    pub fn description(&self) -> (r: String)
        ensures
            r@ == self@.description,
    {
        self.description.clone()
    }

    pub fn status(&self) -> (r: SupportStatus)
        ensures
            r == self@.status,
    {
        self.status
    }

    pub fn created_at(&self) -> (r: i64)
        ensures
            r == self@.created_at,
    {
        self.created_at
    }

    pub fn resolved_at(&self) -> (r: Option<i64>)
        ensures
            r == self@.resolved_at,
    {
        self.resolved_at
    }

    pub fn comment(&self) -> (r: Vec<Comment>)
        ensures
            comment_views(r@) == self@.comment,
    {
        clone_comments(&self.comment)
    }

    /// The complaint moved to `next`, with the current time as its resolution
    /// time, where the move is allowed; else the error names both statuses.
    pub fn update_status(&self, next: &SupportStatus) -> (r: Result<Complaint, DomainError>)
        ensures
            SupportStatus::can_move(self@.status, *next) ==> r is Ok && r->Ok_0@ == (
            ComplaintView { status: *next, resolved_at: r->Ok_0@.resolved_at, ..self@ })
                && r->Ok_0@.resolved_at is Some && clock_reading(
                r->Ok_0@.resolved_at->0 as int,
            ),
            !SupportStatus::can_move(self@.status, *next) ==> r is Err && r->Err_0
                == (DomainError::InvalidSupportStatusTransition {
                from: self@.status,
                to: *next,
            }),
    {
        let now = now_micros();
        match validate_transition(&self.status, next) {
            Err(e) => Err(e),
            Ok(()) => Ok(
                Complaint {
                    id: self.id,
                    user_id: self.user_id,
                    shipment_id: self.shipment_id,
                    subject: self.subject.clone(),
                    description: self.description.clone(),
                    status: *next,
                    created_at: self.created_at,
                    resolved_at: Some(now),
                    comment: clone_comments(&self.comment),
                },
            ),
        }
    }
}

impl Clone for Complaint {
    fn clone(&self) -> (r: Complaint)
        ensures
            r@ == self@,
    {
        Complaint {
            id: self.id,
            user_id: self.user_id,
            shipment_id: self.shipment_id,
            subject: self.subject.clone(),
            description: self.description.clone(),
            status: self.status,
            created_at: self.created_at,
            resolved_at: self.resolved_at,
            comment: clone_comments(&self.comment),
        }
    }
}

impl Comment {
    /// A new comment with a fresh identifier, stamped with the current time;
    /// refused with the list of problems where the author is the nil identifier
    /// or the message is blank.
    pub fn make_comment(author_id: u128, message: String) -> (r: Result<Comment, DomainError>)
        ensures
            ({
                let errs = comment_errors(author_id, message@);
                &&& errs.len() > 0 ==> r is Err && (r->Err_0 matches DomainError::ValidationError(
                    v,
                ) && views(v@) == errs)
                &&& errs.len() == 0 ==> r is Ok && r->Ok_0@.id != 0 && r->Ok_0@.author_id
                    == author_id && r->Ok_0@.message == message@ && EARLIEST_INSTANT
                    <= r->Ok_0@.created_at <= LATEST_INSTANT && clock_reading(
                    r->Ok_0@.created_at as int,
                )
            }),
    {
        let mut errors: Vec<String> = Vec::new();
        note(&mut errors, author_id == 0, String::from_str("Author id must be provided"));
        note(&mut errors, blank(message.as_str()), String::from_str("Message cannot be empty"));
        proof {
            assert(views(Seq::<String>::empty()) =~= Seq::<Seq<char>>::empty());
            assert(views(errors@) =~= comment_errors(author_id, message@));
        }
        if errors.len() > 0 {
            return Err(DomainError::ValidationError(errors));
        }
        let now = now_micros();
        Ok(Comment { id: fresh_id(), author_id, message, created_at: now })
    }

    /// A comment as it was stored.
    pub fn restore(id: u128, author_id: u128, message: String, created_at: i64) -> (r: Comment)
        ensures
            r@ == (CommentView { id, author_id, message: message@, created_at }),
    {
        Comment { id, author_id, message, created_at }
    }

    pub fn id(&self) -> (r: u128)
        ensures
            r == self@.id,
    {
        self.id
    }

    pub fn author_id(&self) -> (r: u128)
        ensures
            r == self@.author_id,
    {
        self.author_id
    }

    pub fn message(&self) -> (r: String)
        ensures
            r@ == self@.message,
    {
        self.message.clone()
    }

    pub fn created_at(&self) -> (r: i64)
        ensures
            r == self@.created_at,
    {
        self.created_at
    }
}

impl Clone for Comment {
    fn clone(&self) -> (r: Comment)
        ensures
            r@ == self@,
    {
        Comment {
            id: self.id,
            author_id: self.author_id,
            message: self.message.clone(),
            created_at: self.created_at,
        }
    }
}

} // verus!
