//! The stored years.

use vstd::prelude::*;

use crate::model::views;
use crate::db::events::{Events, EventsView};

verus! {

/// A stored year, with the events that were added to it through
/// [`Years::new_event`].
#[derive(Clone, PartialEq, Debug)]
pub struct Years {
    /// Identifier of the year.
    pub id: String,
    /// Name of the year.
    pub name: String,
    /// The events added to the year, in the order in which they were added.
    pub events: Vec<Events>,
}

/// Mathematical content of a [`Years`] value.
pub struct YearsView {
    pub id: Seq<char>,
    pub name: Seq<char>,
    pub events: Seq<EventsView>,
}

impl View for Years {
    type V = YearsView;

    open spec fn view(&self) -> YearsView {
        YearsView { id: self.id@, name: self.name@, events: views(self.events@) }
    }
}

impl Years {
    /// A year without events.
    pub fn new(id: String, name: String) -> (year: Self)
        ensures
            year@ == (YearsView { id: id@, name: name@, events: Seq::empty() }),
    {
        let year = Self { id, name, events: Vec::new() };
        assert(views(year.events@) == Seq::<EventsView>::empty());
        year
    }

    /// Adds an event to the year. The event's row belongs to this year: its
    /// year column is the year's identifier. The result is the year with the
    /// row added at the end of its events, and the row itself, which is the
    /// one to store.
    pub fn new_event(
        self,
        id: String,
        name: String,
        gender_id: String,
        filter_key: String,
        scores: String,
    ) -> (added: (Self, Events))
        ensures
            added.1@ == (EventsView {
                id: id@,
                name: name@,
                year_id: self@.id,
                gender_id: gender_id@,
                filter_key: filter_key@,
                scores: scores@,
            }),
            added.0@ == (YearsView { events: self@.events.push(added.1@), ..self@ }),
    {
        let mut year = self;
        let ghost before = views(year.events@);
        let event = Events::new(id, name, year.id.clone(), gender_id, filter_key, scores);
        year.events.push(event.duplicate());
        assert(views(year.events@) == before.push(event@));
        (year, event)
    }
}

} // verus!
