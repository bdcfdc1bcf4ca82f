//! The stored events: one row per scheduled event, with its scores.

use vstd::prelude::*;

use crate::model::views;

verus! {

/// A stored event.
#[derive(Clone, PartialEq, Debug)]
pub struct Events {
    /// Identifier of the row: `{year}-{gender}-{event}`.
    pub id: String,
    /// Name of the event.
    pub name: String,
    /// Identifier of the year the row belongs to.
    pub year_id: String,
    /// Identifier of the gender the row is for.
    pub gender_id: String,
    /// Identifier of the configured event the row comes from.
    pub filter_key: String,
    /// The scores: a JSON object from form identifier to score.
    pub scores: String,
}

/// Mathematical content of an [`Events`] row.
pub struct EventsView {
    pub id: Seq<char>,
    pub name: Seq<char>,
    pub year_id: Seq<char>,
    pub gender_id: Seq<char>,
    pub filter_key: Seq<char>,
    pub scores: Seq<char>,
}

impl View for Events {
    type V = EventsView;

    open spec fn view(&self) -> EventsView {
        EventsView {
            id: self.id@,
            name: self.name@,
            year_id: self.year_id@,
            gender_id: self.gender_id@,
            filter_key: self.filter_key@,
            scores: self.scores@,
        }
    }
}

/// The text of an optional string.
pub open spec fn optional_text(text: Option<String>) -> Option<Seq<char>> {
    match text {
        Some(text) => Some(text@),
        None => None,
    }
}

impl EventsView {
    /// Whether the row passes the three filters. A filter that is absent
    /// passes every row; one that is present passes the rows whose column
    /// equals it exactly. A row must pass all three.
    pub open spec fn passes(
        self,
        year: Option<Seq<char>>,
        activity: Option<Seq<char>>,
        group: Option<Seq<char>>,
    ) -> bool {
        &&& year matches Some(year) ==> self.year_id == year
        &&& activity matches Some(activity) ==> self.filter_key == activity
        &&& group matches Some(group) ==> self.gender_id == group
    }
}

/// The test "does the row pass the three filters".
pub open spec fn passing(
    year: Option<Seq<char>>,
    activity: Option<Seq<char>>,
    group: Option<Seq<char>>,
) -> spec_fn(EventsView) -> bool {
    |row: EventsView| row.passes(year, activity, group)
}

/// Whether `column` passes `filter`.
fn column_passes(column: &String, filter: &Option<String>) -> (passes: bool)
    ensures
        passes == (optional_text(*filter) matches Some(wanted) ==> column@ == wanted),
{
    match filter {
        Some(wanted) => *column == *wanted,
        None => true,
    }
}

impl Events {
    /// A row from its six columns.
    pub fn new(
        id: String,
        name: String,
        year_id: String,
        gender_id: String,
        filter_key: String,
        scores: String,
    ) -> (row: Self)
        ensures
            row.id == id,
            row.name == name,
            row.year_id == year_id,
            row.gender_id == gender_id,
            row.filter_key == filter_key,
            row.scores == scores,
    {
        Self { id, name, year_id, gender_id, filter_key, scores }
    }

    /// A second row with the same columns.
    pub fn duplicate(&self) -> (row: Self)
        ensures
            row == *self,
    {
        Self {
            id: self.id.clone(),
            name: self.name.clone(),
            year_id: self.year_id.clone(),
            gender_id: self.gender_id.clone(),
            filter_key: self.filter_key.clone(),
            scores: self.scores.clone(),
        }
    }

    /// Whether the row passes the filters by year, by activity (the filter
    /// key) and by group (the gender).
    pub fn passes(
        &self,
        year: &Option<String>,
        activity: &Option<String>,
        group: &Option<String>,
    ) -> (passes: bool)
        ensures
            passes == self@.passes(
                optional_text(*year),
                optional_text(*activity),
                optional_text(*group),
            ),
    {
        column_passes(&self.year_id, year) && column_passes(&self.filter_key, activity)
            && column_passes(&self.gender_id, group)
    }

    /// The rows among `rows` that pass the three filters, in their order.
    pub fn where_(
        rows: Vec<Self>,
        year: Option<String>,
        activity: Option<String>,
        group: Option<String>,
    ) -> (selected: Vec<Self>)
        ensures
            views(selected@) == views(rows@).filter(
                passing(optional_text(year), optional_text(activity), optional_text(group)),
            ),
    {
        let ghost test = passing(
            optional_text(year),
            optional_text(activity),
            optional_text(group),
        );
        let mut selected: Vec<Self> = Vec::new();
        let mut i: usize = 0;
        proof {
            reveal(Seq::filter);
        }
        assert(views(rows@).take(0).filter(test) == views(selected@));
        while i < rows.len()
            invariant
                i <= rows.len(),
                test == passing(optional_text(year), optional_text(activity), optional_text(group)),
                views(selected@) == views(rows@).take(i as int).filter(test),
            decreases rows.len() - i,
        {
            let ghost chosen = views(selected@);
            proof {
                assert(views(rows@).take(i + 1) == views(rows@).take(i as int).push(rows[i as int]@));
                views(rows@).take(i as int).lemma_filter_push(rows[i as int]@, test);
            }
            if rows[i].passes(&year, &activity, &group) {
                selected.push(rows[i].duplicate());
                assert(views(selected@) == chosen.push(rows[i as int]@));
            }
            i += 1;
        }
        assert(views(rows@).take(i as int) == views(rows@));
        selected
    }
}

} // verus!
