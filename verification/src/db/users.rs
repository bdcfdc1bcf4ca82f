//! The stored users and their rights.

use vstd::prelude::*;

use crate::db::user_sessions::{UserSessions, UserSessionsView};

verus! {

/// A user. A user that was not stored yet has no identifier.
#[derive(Clone, PartialEq, Debug)]
pub struct Users {
    /// Identifier of the stored row.
    pub id: Option<i64>,
    /// The user's e-mail address, by which a user is found.
    pub email: String,
    /// Whether the user may use the admin console.
    pub has_admin: bool,
    /// Whether the user may enter scores.
    pub has_set_score: bool,
}

/// Mathematical content of a [`Users`] value.
pub struct UsersView {
    pub id: Option<int>,
    pub email: Seq<char>,
    pub has_admin: bool,
    pub has_set_score: bool,
}

impl View for Users {
    type V = UsersView;

    open spec fn view(&self) -> UsersView {
        UsersView {
            id: match self.id {
                Some(id) => Some(id as int),
                None => None,
            },
            email: self.email@,
            has_admin: self.has_admin,
            has_set_score: self.has_set_score,
        }
    }
}

/// What to do for a user who signs in with an e-mail address.
pub enum Enrolment {
    /// The user is stored already: this is the row.
    Known(Users),
    /// No user has the address: this user is to be stored.
    Unknown(Users),
}

/// Mathematical content of an [`Enrolment`].
pub enum EnrolmentView {
    Known(UsersView),
    Unknown(UsersView),
}

impl View for Enrolment {
    type V = EnrolmentView;

    open spec fn view(&self) -> EnrolmentView {
        match *self {
            Enrolment::Known(user) => EnrolmentView::Known(user@),
            Enrolment::Unknown(user) => EnrolmentView::Unknown(user@),
        }
    }
}

/// The enrolment of the address `email`, given the stored user with that
/// address, if there is one. A user who is not stored yet is enrolled
/// without any rights.
pub open spec fn enrolment(email: Seq<char>, found: Option<UsersView>) -> EnrolmentView {
    match found {
        Some(user) => EnrolmentView::Known(user),
        None => EnrolmentView::Unknown(
            UsersView { id: None, email, has_admin: false, has_set_score: false },
        ),
    }
}

/// The view of an optional user.
pub open spec fn optional_user(found: Option<Users>) -> Option<UsersView> {
    match found {
        Some(user) => Some(user@),
        None => None,
    }
}

impl Users {
    /// A user that is not stored yet.
    pub fn new(email: String, has_admin: bool, has_set_score: bool) -> (user: Self)
        ensures
            user@ == (UsersView { id: None, email: email@, has_admin, has_set_score }),
    {
        Self { id: None, email, has_admin, has_set_score }
    }

    /// Decides what signing in with `email` does, given the stored user with
    /// that address, `found`, if there is one: a stored user is taken as
    /// stored, and an unknown one is to be stored without rights.
    pub fn get_or_create(email: String, found: Option<Self>) -> (enrolment: Enrolment)
        ensures
            enrolment@ == self::enrolment(email@, optional_user(found)),
    {
        match found {
            Some(user) => Enrolment::Known(user),
            None => Enrolment::Unknown(Self::new(email, false, false)),
        }
    }

    /// The user as stored under the row identifier `id`.
    pub fn stored_as(self, id: i64) -> (user: Self)
        ensures
            user@ == (UsersView { id: Some(id as int), ..self@ }),
    {
        Self {
            id: Some(id),
            email: self.email,
            has_admin: self.has_admin,
            has_set_score: self.has_set_score,
        }
    }

    /// A fresh session with the user's rights. The user must be stored: the
    /// session names the user's row.
    pub fn new_session(self) -> (session: UserSessions)
        requires
            self.id is Some,
        ensures
            session@ == (UserSessionsView {
                id: session@.id,
                user_id: self.id->0 as int,
                has_admin: self.has_admin,
                has_set_score: self.has_set_score,
            }),
            session@.id.len() == 36,
    {
        UserSessions::new(self.id.unwrap(), self.has_admin, self.has_set_score)
    }
}

} // verus!
