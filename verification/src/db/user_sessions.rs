//! The stored sessions of signed-in users.

use vstd::prelude::*;

verus! {

/// A stored session: what a signed-in user may do.
#[derive(Clone, PartialEq, Debug)]
pub struct UserSessions {
    /// Identifier of the session, which the user's cookie carries.
    pub id: String,
    /// Identifier of the user.
    pub user_id: i64,
    /// Whether the user may use the admin console.
    pub has_admin: bool,
    /// Whether the user may enter scores.
    pub has_set_score: bool,
}

/// What is known of the session that a cookie names.
pub struct VerifiedSession {
    /// The identifier that the cookie carried.
    pub id: String,
    /// Whether a stored session has that identifier.
    pub verified: bool,
    /// Whether the session's user may use the admin console.
    pub has_admin: bool,
    /// Whether the session's user may enter scores.
    pub has_set_score: bool,
}

/// Mathematical content of a [`UserSessions`] row.
pub struct UserSessionsView {
    pub id: Seq<char>,
    pub user_id: int,
    pub has_admin: bool,
    pub has_set_score: bool,
}

/// Mathematical content of a [`VerifiedSession`].
pub struct VerifiedSessionView {
    pub id: Seq<char>,
    pub verified: bool,
    pub has_admin: bool,
    pub has_set_score: bool,
}

impl View for UserSessions {
    type V = UserSessionsView;

    open spec fn view(&self) -> UserSessionsView {
        UserSessionsView {
            id: self.id@,
            user_id: self.user_id as int,
            has_admin: self.has_admin,
            has_set_score: self.has_set_score,
        }
    }
}

impl View for VerifiedSession {
    type V = VerifiedSessionView;

    open spec fn view(&self) -> VerifiedSessionView {
        VerifiedSessionView {
            id: self.id@,
            verified: self.verified,
            has_admin: self.has_admin,
            has_set_score: self.has_set_score,
        }
    }
}

/// What a cookie's session identifier is worth, given the stored session
/// with that identifier, if there is one: with a session, verified and with
/// the session's rights; without, unverified and without rights.
pub open spec fn verdict(cookie_session: Seq<char>, found: Option<UserSessionsView>)
    -> VerifiedSessionView {
    match found {
        Some(session) => VerifiedSessionView {
            id: cookie_session,
            verified: true,
            has_admin: session.has_admin,
            has_set_score: session.has_set_score,
        },
        None => VerifiedSessionView {
            id: cookie_session,
            verified: false,
            has_admin: false,
            has_set_score: false,
        },
    }
}

/// The view of an optional session.
pub open spec fn optional_session(found: Option<UserSessions>) -> Option<UserSessionsView> {
    match found {
        Some(session) => Some(session@),
        None => None,
    }
}

/// `uuid::Uuid::new_v4`, written out by the identifier's `to_string`: a
/// random identifier in the hyphenated form, which is 36 characters long.
/// Nothing else is known of it, and two calls may differ.
#[verifier::external_body]
fn fresh_session_id() -> (id: String)
    ensures
        id@.len() == 36,
{
    uuid::Uuid::new_v4().to_string()
}

impl UserSessions {
    /// The session with the identifier `id`.
    pub fn with_id(id: String, user_id: i64, has_admin: bool, has_set_score: bool) -> (session:
        Self)
        ensures
            session@ == (UserSessionsView {
                id: id@,
                user_id: user_id as int,
                has_admin,
                has_set_score,
            }),
    {
        Self { id, user_id, has_admin, has_set_score }
    }

    /// A session for the user under a fresh random identifier.
    pub fn new(user_id: i64, has_admin: bool, has_set_score: bool) -> (session: Self)
        ensures
            session@ == (UserSessionsView {
                id: session@.id,
                user_id: user_id as int,
                has_admin,
                has_set_score,
            }),
            session@.id.len() == 36,
    {
        Self::with_id(fresh_session_id(), user_id, has_admin, has_set_score)
    }

    /// Judges the session identifier of a cookie by the stored session with
    /// that identifier, `found`, if there is one.
    pub fn verify(cookie_session: String, found: Option<Self>) -> (verified: VerifiedSession)
        ensures
            verified@ == verdict(cookie_session@, optional_session(found)),
    {
        match found {
            Some(session) => VerifiedSession {
                id: cookie_session,
                verified: true,
                has_admin: session.has_admin,
                has_set_score: session.has_set_score,
            },
            None => VerifiedSession {
                id: cookie_session,
                verified: false,
                has_admin: false,
                has_set_score: false,
            },
        }
    }
}

} // verus!
