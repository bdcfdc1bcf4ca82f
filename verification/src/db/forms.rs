//! The stored forms.

use vstd::prelude::*;

verus! {

/// A stored form.
#[derive(Clone)]
pub struct Forms {
    /// Identifier of the form.
    pub id: String,
    /// Name of the form.
    pub name: String,
}

impl Forms {
    /// A row from its two columns.
    pub fn new(id: String, name: String) -> (row: Self)
        ensures
            row.id == id,
            row.name == name,
    {
        Self { id, name }
    }
}

} // verus!
