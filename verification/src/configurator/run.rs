//! Storing a plan. The stored schedule is replaced as a whole: the statements
//! of a plan first delete every stored event, then every stored year, and
//! then insert the plan's years, each followed by its events. Nothing makes
//! the sequence atomic: the first statement that fails ends the run with its
//! error, and those before it stay performed.

use vstd::prelude::*;

use crate::configurator::build::{EventPlanView, Plan, PlanView, YearPlan, YearPlanView};
use crate::model::views;
use crate::db::events::{Events, EventsView};
use crate::db::years::{Years, YearsView};

verus! {

/// One statement against the store.
#[derive(Debug)]
pub enum Statement {
    /// Delete every stored event.
    DeleteEvents,
    /// Delete every stored year.
    DeleteYears,
    /// Insert the row of the year, which has no events yet: its identifier
    /// and name.
    InsertYear(Years),
    /// Insert the event's row.
    InsertEvent(Events),
}

/// A stored year.
pub struct YearRow {
    pub id: Seq<char>,
    pub name: Seq<char>,
}

/// Mathematical content of a [`Statement`].
pub enum StatementView {
    DeleteEvents,
    DeleteYears,
    InsertYear(YearsView),
    InsertEvent(EventsView),
}

impl View for Statement {
    type V = StatementView;

    open spec fn view(&self) -> StatementView {
        match *self {
            Statement::DeleteEvents => StatementView::DeleteEvents,
            Statement::DeleteYears => StatementView::DeleteYears,
            Statement::InsertYear(year) => StatementView::InsertYear(year@),
            Statement::InsertEvent(event) => StatementView::InsertEvent(event@),
        }
    }
}

/// The stored schedule: the rows of its two tables, in the order in which
/// they were inserted.
pub struct Store {
    pub years: Seq<YearRow>,
    pub events: Seq<EventsView>,
}

impl Store {
    /// The store after `statement`.
    pub open spec fn apply(self, statement: StatementView) -> Store {
        match statement {
            StatementView::DeleteEvents => Store { events: Seq::empty(), ..self },
            StatementView::DeleteYears => Store { years: Seq::empty(), ..self },
            StatementView::InsertYear(year) => Store {
                years: self.years.push(YearRow { id: year.id, name: year.name }),
                ..self
            },
            StatementView::InsertEvent(event) => Store { events: self.events.push(event), ..self },
        }
    }

    /// The store after `statements`, performed in order.
    pub open spec fn apply_all(self, statements: Seq<StatementView>) -> Store
        decreases statements.len(),
    {
        if statements.len() == 0 {
            self
        } else {
            self.apply_all(statements.drop_last()).apply(statements.last())
        }
    }
}

/// The row of a year plan.
pub open spec fn year_row(year: YearPlanView) -> YearRow {
    YearRow { id: year.id, name: year.name }
}

/// The year of a year plan as it is before any event is added to it.
pub open spec fn fresh_year(year: YearPlanView) -> YearsView {
    YearsView { id: year.id, name: year.name, events: Seq::empty() }
}

/// The row of an entry of the year `year_id`. The entry's scores become the
/// row's scores.
pub open spec fn event_row(year_id: Seq<char>, entry: EventPlanView) -> EventsView {
    EventsView {
        id: entry.id,
        name: entry.name,
        year_id,
        gender_id: entry.gender_id,
        filter_key: entry.filter_key,
        scores: entry.scores,
    }
}

/// The step from an entry of the year `year_id` to its row.
pub open spec fn row_of(year_id: Seq<char>) -> spec_fn(EventPlanView) -> EventsView {
    |entry: EventPlanView| event_row(year_id, entry)
}

/// The rows of a year plan's entries, in order.
pub open spec fn event_rows(year: YearPlanView) -> Seq<EventsView> {
    year.events.map_values(row_of(year.id))
}

/// The statements that store one year plan: the insertion of the year, then
/// of each of its entries.
pub open spec fn year_statements(year: YearPlanView) -> Seq<StatementView> {
    seq![StatementView::InsertYear(fresh_year(year))] + event_rows(year).map_values(
        |row: EventsView| StatementView::InsertEvent(row),
    )
}

/// The statements that replace the stored schedule by `plan`: events are
/// deleted before years, since an event refers to its year; then the year
/// plans are stored in order.
pub open spec fn plan_statements(plan: PlanView) -> Seq<StatementView> {
    seq![StatementView::DeleteEvents, StatementView::DeleteYears] + plan.year_plans.map_values(
        |year: YearPlanView| year_statements(year),
    ).flatten()
}

/// What the store holds once `plan` is stored: the plan's years, and the
/// rows of all their entries.
pub open spec fn stored(plan: PlanView) -> Store {
    Store {
        years: plan.year_plans.map_values(|year: YearPlanView| year_row(year)),
        events: plan.year_plans.map_values(|year: YearPlanView| event_rows(year)).flatten(),
    }
}

/// Appends to `statements` those that store `year`.
fn push_year_statements(statements: &mut Vec<Statement>, year: &YearPlan)
    ensures
        views(final(statements)@) == views(old(statements)@) + year_statements(year@),
{
    let ghost before = views(statements@);
    let ghost insert = |row: EventsView| StatementView::InsertEvent(row);
    let mut stored_year = Years::new(year.id.clone(), year.name.clone());
    statements.push(
        Statement::InsertYear(Years::new(year.id.clone(), year.name.clone())),
    );
    let ghost first = seq![StatementView::InsertYear(fresh_year(year@))];
    assert(views(statements@) == before + first);
    assert(event_rows(year@).take(0).map_values(insert) == Seq::<StatementView>::empty());
    let mut i: usize = 0;
    while i < year.events.len()
        invariant
            i <= year.events.len(),
            stored_year@.id == year@.id,
            insert == |row: EventsView| StatementView::InsertEvent(row),
            first == seq![StatementView::InsertYear(fresh_year(year@))],
            before == views(old(statements)@),
            views(statements@) == before + first + event_rows(year@).take(i as int).map_values(
                insert,
            ),
        decreases year.events.len() - i,
    {
        let entry = &year.events[i];
        let ghost so_far = views(statements@);
        let added = stored_year.new_event(
            entry.id.clone(),
            entry.name.clone(),
            entry.gender_id.clone(),
            entry.filter_key.clone(),
            entry.scores.clone(),
        );
        stored_year = added.0;
        let ghost row = added.1@;
        assert(row == event_rows(year@)[i as int]);
        statements.push(Statement::InsertEvent(added.1));
        assert(views(statements@) == so_far.push(insert(row)));
        assert(event_rows(year@).take(i + 1).map_values(insert) == event_rows(year@).take(
            i as int,
        ).map_values(insert).push(insert(row)));
        i += 1;
    }
    assert(event_rows(year@).take(i as int) == event_rows(year@));
}

/// The statements that replace the stored schedule by `plan`, in the order in
/// which they are to be performed.
pub fn statements(plan: Plan) -> (statements: Vec<Statement>)
    ensures
        views(statements@) == plan_statements(plan@),
{
    let ghost per_year = |year: YearPlanView| year_statements(year);
    let ghost deletions = seq![StatementView::DeleteEvents, StatementView::DeleteYears];
    let mut statements: Vec<Statement> = Vec::new();
    statements.push(Statement::DeleteEvents);
    statements.push(Statement::DeleteYears);
    assert(views(statements@) == deletions);
    assert(plan@.year_plans.take(0).map_values(per_year) == Seq::<Seq<StatementView>>::empty());
    let mut y: usize = 0;
    while y < plan.year_plans.len()
        invariant
            y <= plan.year_plans.len(),
            per_year == |year: YearPlanView| year_statements(year),
            deletions == seq![StatementView::DeleteEvents, StatementView::DeleteYears],
            views(statements@) == deletions + plan@.year_plans.take(y as int).map_values(
                per_year,
            ).flatten(),
        decreases plan.year_plans.len() - y,
    {
        proof {
            let done = plan@.year_plans.take(y as int).map_values(per_year);
            assert(plan@.year_plans.take(y + 1).map_values(per_year) == done.push(
                per_year(plan@.year_plans[y as int]),
            ));
            done.lemma_flatten_push(per_year(plan@.year_plans[y as int]));
        }
        push_year_statements(&mut statements, &plan.year_plans[y]);
        y += 1;
    }
    assert(plan@.year_plans.take(y as int) == plan@.year_plans);
    statements
}

/// Performing two lists of statements one after the other is performing
/// their concatenation.
pub proof fn apply_all_concatenated(
    store: Store,
    first: Seq<StatementView>,
    second: Seq<StatementView>,
)
    ensures
        store.apply_all(first + second) == store.apply_all(first).apply_all(second),
    decreases second.len(),
{
    if second.len() == 0 {
        assert(first + second == first);
    } else {
        apply_all_concatenated(store, first, second.drop_last());
        assert((first + second).drop_last() == first + second.drop_last());
    }
}

/// Inserting rows adds them at the end of the stored events, and leaves the
/// rest of the store as it is.
pub proof fn inserted_events_are_appended(store: Store, rows: Seq<EventsView>)
    ensures
        store.apply_all(rows.map_values(|row: EventsView| StatementView::InsertEvent(row)))
            == (Store { events: store.events + rows, ..store }),
    decreases rows.len(),
{
    let insert = |row: EventsView| StatementView::InsertEvent(row);
    if rows.len() == 0 {
        assert(store.events + rows == store.events);
    } else {
        inserted_events_are_appended(store, rows.drop_last());
        assert(rows.map_values(insert).drop_last() == rows.drop_last().map_values(insert));
        assert(store.events + rows == (store.events + rows.drop_last()).push(rows.last()));
    }
}

/// Storing year plans adds their rows at the end of both tables.
pub proof fn stored_years_are_appended(store: Store, years: Seq<YearPlanView>)
    ensures
        store.apply_all(
            years.map_values(|year: YearPlanView| year_statements(year)).flatten(),
        ) == (Store {
            years: store.years + years.map_values(|year: YearPlanView| year_row(year)),
            events: store.events + years.map_values(
                |year: YearPlanView| event_rows(year),
            ).flatten(),
        }),
    decreases years.len(),
{
    let per_year = |year: YearPlanView| year_statements(year);
    let row = |year: YearPlanView| year_row(year);
    let rows = |year: YearPlanView| event_rows(year);
    if years.len() == 0 {
        assert(years.map_values(per_year).len() == 0);
        assert(years.map_values(rows).len() == 0);
        assert(store.years + years.map_values(row) == store.years);
        assert(store.events + years.map_values(rows).flatten() == store.events);
    } else {
        let rest = years.drop_last();
        let last = years.last();
        stored_years_are_appended(store, rest);
        assert(years.map_values(per_year) == rest.map_values(per_year).push(per_year(last)));
        rest.map_values(per_year).lemma_flatten_push(per_year(last));
        assert(years.map_values(rows) == rest.map_values(rows).push(rows(last)));
        rest.map_values(rows).lemma_flatten_push(rows(last));
        let before = store.apply_all(rest.map_values(per_year).flatten());
        apply_all_concatenated(store, rest.map_values(per_year).flatten(), per_year(last));
        let insert_year = seq![StatementView::InsertYear(fresh_year(last))];
        let insert_events = event_rows(last).map_values(
            |row: EventsView| StatementView::InsertEvent(row),
        );
        apply_all_concatenated(before, insert_year, insert_events);
        assert(before.apply_all(insert_year) == before.apply(insert_year[0])) by {
            assert(insert_year.drop_last() == Seq::<StatementView>::empty());
            assert(before.apply_all(insert_year.drop_last()) == before);
        }
        inserted_events_are_appended(before.apply(insert_year[0]), event_rows(last));
        assert(store.years + years.map_values(row) == (store.years + rest.map_values(row)).push(
            year_row(last),
        ));
        assert(store.events + (rest.map_values(rows).flatten() + rows(last)) == store.events
            + rest.map_values(rows).flatten() + rows(last));
    }
}

/// Storing a plan replaces the stored schedule: whatever the store held,
/// after the plan's statements it holds the plan's years and entries and
/// nothing else.
pub proof fn storing_replaces_schedule(store: Store, plan: PlanView)
    ensures
        store.apply_all(plan_statements(plan)) == stored(plan),
{
    let deletions = seq![StatementView::DeleteEvents, StatementView::DeleteYears];
    let insertions = plan.year_plans.map_values(
        |year: YearPlanView| year_statements(year),
    ).flatten();
    apply_all_concatenated(store, deletions, insertions);
    let emptied = Store { years: Seq::empty(), events: Seq::empty() };
    assert(store.apply_all(deletions) == emptied) by {
        assert(deletions.drop_last() == seq![StatementView::DeleteEvents]);
        assert(deletions.drop_last().drop_last() == Seq::<StatementView>::empty());
        assert(store.apply_all(deletions.drop_last().drop_last()) == store);
        assert(store.apply_all(deletions.drop_last()) == store.apply(
            StatementView::DeleteEvents,
        ));
    }
    stored_years_are_appended(emptied, plan.year_plans);
    assert(emptied.years + stored(plan).years == stored(plan).years);
    assert(emptied.events + stored(plan).events == stored(plan).events);
}

/// Storing one plan and then another leaves only the second: the store holds
/// the second plan's years and entries, none of the first plan's rows, and
/// the scores of the second plan's entries, also under identifiers that the
/// first plan used as well.
pub proof fn second_plan_replaces_first(store: Store, first: PlanView, second: PlanView)
    ensures
        store.apply_all(plan_statements(first)).apply_all(plan_statements(second)) == stored(
            second,
        ),
        store.apply_all(plan_statements(first) + plan_statements(second)) == stored(second),
{
    storing_replaces_schedule(store.apply_all(plan_statements(first)), second);
    apply_all_concatenated(store, plan_statements(first), plan_statements(second));
}

/// Where a run of statements stands.
pub enum Progress<E> {
    /// The statement at this position is to be performed next.
    Perform(usize),
    /// The run is over: every statement was performed, or one failed with
    /// this error.
    Over(Result<(), E>),
}

/// Where a run of `count` statements stands after its statement at
/// `position` ended with `outcome`: a failure ends the run with its error,
/// and a success leads on to the next statement, or ends the run where there
/// is none.
pub open spec fn progress_after<E>(count: int, position: int, outcome: Result<(), E>) -> Progress<
    E,
> {
    match outcome {
        Err(error) => Progress::Over(Err(error)),
        Ok(_) => if position + 1 < count {
            Progress::Perform((position + 1) as usize)
        } else {
            Progress::Over(Ok(()))
        },
    }
}

/// Where a run of `count` statements starts: at the first statement, or over
/// at once where there is none.
pub fn begin<E>(count: usize) -> (progress: Progress<E>)
    ensures
        progress == if count > 0 {
            Progress::<E>::Perform(0)
        } else {
            Progress::<E>::Over(Ok(()))
        },
{
    if count > 0 {
        Progress::Perform(0)
    } else {
        Progress::Over(Ok(()))
    }
}

/// Where a run of `count` statements stands after its statement at
/// `position` ended with `outcome`.
pub fn after<E>(count: usize, position: usize, outcome: Result<(), E>) -> (progress: Progress<E>)
    requires
        position < count,
    ensures
        progress == progress_after(count as int, position as int, outcome),
{
    match outcome {
        Err(error) => Progress::Over(Err(error)),
        Ok(_) => if position + 1 < count {
            Progress::Perform(position + 1)
        } else {
            Progress::Over(Ok(()))
        },
    }
}

/// The store when a run of `statements` has come to the statement at
/// `position`: the statements before it were performed, and no other. Where
/// the statement at `position` then fails, this is the store that the run
/// leaves.
pub open spec fn store_at(store: Store, statements: Seq<StatementView>, position: int) -> Store
    recommends
        0 <= position <= statements.len(),
{
    store.apply_all(statements.take(position))
}

/// A statement that succeeds takes the store one statement further.
pub proof fn success_moves_on(store: Store, statements: Seq<StatementView>, position: int)
    requires
        0 <= position < statements.len(),
    ensures
        store_at(store, statements, position + 1) == store_at(store, statements, position).apply(
            statements[position],
        ),
        store_at(store, statements, statements.len() as int) == store.apply_all(statements),
{
    assert(statements.take(position + 1).drop_last() == statements.take(position));
    assert(statements.take(statements.len() as int) == statements);
}

/// A run that stores a plan and fails after its two deletions leaves a part
/// of the plan and nothing of the schedule that was stored before: the store
/// holds what the insertions before the failed one put into an empty store.
pub proof fn failed_run_leaves_part_of_plan(store: Store, plan: PlanView, position: int)
    requires
        2 <= position <= plan_statements(plan).len(),
    ensures
        store_at(store, plan_statements(plan), position) == store_at(
            Store { years: Seq::empty(), events: Seq::empty() },
            plan_statements(plan).skip(2),
            position - 2,
        ),
{
    let statements = plan_statements(plan);
    let deletions = seq![StatementView::DeleteEvents, StatementView::DeleteYears];
    let emptied = Store { years: Seq::empty(), events: Seq::empty() };
    assert(statements.take(position) == deletions + statements.skip(2).take(position - 2));
    apply_all_concatenated(store, deletions, statements.skip(2).take(position - 2));
    assert(store.apply_all(deletions) == emptied) by {
        assert(deletions.drop_last() == seq![StatementView::DeleteEvents]);
        assert(deletions.drop_last().drop_last() == Seq::<StatementView>::empty());
        assert(store.apply_all(deletions.drop_last().drop_last()) == store);
        assert(store.apply_all(deletions.drop_last()) == store.apply(
            StatementView::DeleteEvents,
        ));
    }
}

} // verus!
