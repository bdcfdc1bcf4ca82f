//! The admin console's user forms.

use vstd::prelude::*;

use crate::db::users::{Users, UsersView};

verus! {

/// The fields of the form that creates or changes a user. A check box that
/// is ticked arrives as `on`; one that is not does not arrive.
pub struct UpdateProps {
    pub email: String,
    pub has_admin: Option<String>,
    pub has_set_score: Option<String>,
}

/// Whether a check box with this field was ticked.
pub open spec fn ticked(field: Option<String>) -> bool {
    field matches Some(value) && value@ == "on"@
}

/// Whether a check box with this field was ticked.
pub fn is_ticked(field: &Option<String>) -> (ticked: bool)
    ensures
        ticked == self::ticked(*field),
{
    match field {
        Some(value) => *value == "on".to_owned(),
        None => false,
    }
}

impl UpdateProps {
    /// The user that the form describes, not stored yet.
    pub fn user(&self) -> (user: Users)
        ensures
            user@ == (UsersView {
                id: None,
                email: self.email@,
                has_admin: ticked(self.has_admin),
                has_set_score: ticked(self.has_set_score),
            }),
    {
        Users::new(self.email.clone(), is_ticked(&self.has_admin), is_ticked(&self.has_set_score))
    }
}

} // verus!
