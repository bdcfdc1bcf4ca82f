//! The results page: every stored event with the name of its year.

use vstd::prelude::*;

use crate::configurator::parser::{Year, YearView};
use crate::db::events::{Events, EventsView};
use crate::model::views;

verus! {

/// One line of the results page.
pub struct ResultsEvent {
    /// Name of the event.
    pub name: String,
    /// Name of the event's year.
    pub year: String,
    /// The gender the event is for.
    pub group: String,
    /// The event's scores, as stored.
    pub scores: String,
}

/// Mathematical content of a [`ResultsEvent`].
pub struct ResultsEventView {
    pub name: Seq<char>,
    pub year: Seq<char>,
    pub group: Seq<char>,
    pub scores: Seq<char>,
}

impl View for ResultsEvent {
    type V = ResultsEventView;

    open spec fn view(&self) -> ResultsEventView {
        ResultsEventView {
            name: self.name@,
            year: self.year@,
            group: self.group@,
            scores: self.scores@,
        }
    }
}

/// The position of the first year with the identifier `year_id`, if there is
/// one.
pub open spec fn first_year(years: Seq<YearView>, year_id: Seq<char>) -> Option<int>
    decreases years.len(),
{
    if years.len() == 0 {
        None
    } else if years[0].id == year_id {
        Some(0)
    } else {
        match first_year(years.drop_first(), year_id) {
            Some(position) => Some(position + 1),
            None => None,
        }
    }
}

/// The line of `event`, where a year with its year identifier is configured.
pub open spec fn results_line(event: EventsView, years: Seq<YearView>) -> Option<ResultsEventView> {
    match first_year(years, event.year_id) {
        Some(position) => Some(
            ResultsEventView {
                name: event.name,
                year: years[position].name,
                group: event.gender_id,
                scores: event.scores,
            },
        ),
        None => None,
    }
}

/// `first_year` finds a year with the identifier, and the first such; it
/// finds none only where no year has the identifier.
pub proof fn first_year_is_first(years: Seq<YearView>, year_id: Seq<char>)
    ensures
        match first_year(years, year_id) {
            Some(position) => 0 <= position < years.len() && years[position].id == year_id
                && forall|i: int| 0 <= i < position ==> (#[trigger] years[i]).id != year_id,
            None => forall|i: int| 0 <= i < years.len() ==> (#[trigger] years[i]).id != year_id,
        },
    decreases years.len(),
{
    if years.len() > 0 && years[0].id != year_id {
        first_year_is_first(years.drop_first(), year_id);
        match first_year(years.drop_first(), year_id) {
            Some(position) => {
                assert forall|i: int| 0 <= i < position + 1 implies (#[trigger] years[i]).id
                    != year_id by {
                    if i > 0 {
                        assert(years.drop_first()[i - 1] == years[i]);
                    }
                }
            },
            None => {
                assert forall|i: int| 0 <= i < years.len() implies (#[trigger] years[i]).id
                    != year_id by {
                    if i > 0 {
                        assert(years.drop_first()[i - 1] == years[i]);
                    }
                }
            },
        }
    }
}

/// The name of the first year with the identifier `year_id`, if there is one.
pub fn year_name(years: &Vec<Year>, year_id: &String) -> (name: Option<String>)
    ensures
        match first_year(views(years@), year_id@) {
            Some(position) => name matches Some(name) && name@ == years[position].name@,
            None => name is None,
        },
{
    let mut i: usize = 0;
    assert(views(years@).skip(0) == views(years@));
    while i < years.len()
        invariant
            i <= years.len(),
            first_year(views(years@), year_id@) == match first_year(
                views(years@).skip(i as int),
                year_id@,
            ) {
                Some(position) => Some(position + i),
                None => None,
            },
        decreases years.len() - i,
    {
        let ghost rest = views(years@).skip(i as int);
        assert(rest[0] == years[i as int]@);
        assert(rest.drop_first() == views(years@).skip(i + 1));
        if years[i].id == *year_id {
            return Some(years[i].name.clone());
        }
        i += 1;
    }
    assert(views(years@).skip(i as int).len() == 0);
    None
}

impl ResultsEvent {
    /// The line of `event`, with the name of the first configured year that
    /// has the event's year identifier. There is no line where no year has
    /// it.
    pub fn of(event: &Events, years: &Vec<Year>) -> (line: Option<Self>)
        ensures
            match results_line(event@, views(years@)) {
                Some(expected) => line matches Some(line) && line@ == expected,
                None => line is None,
            },
    {
        proof {
            first_year_is_first(views(years@), event.year_id@);
        }
        match year_name(years, &event.year_id) {
            Some(year) => Some(
                Self {
                    name: event.name.clone(),
                    year,
                    group: event.gender_id.clone(),
                    scores: event.scores.clone(),
                },
            ),
            None => None,
        }
    }
}

} // verus!
