//! Expansion of a configuration into a plan: for every year, for every event
//! held for that year, one entry per gender the event is held for.

use vstd::prelude::*;
use vstd::string::StringExecFns;

pub mod guarantees;

use crate::configurator::parser::{
    Configuration, ConfigurationView, Event, EventView, Form, FormView, Year, YearView,
};
use crate::model::views;

verus! {

/// One scheduled event: an event of the configuration, for one year and one
/// gender.
#[derive(Debug, Clone)]
pub struct EventPlan {
    /// `{year}-{gender}-{event}`, from the three identifiers.
    pub id: String,
    /// Name of the event.
    pub name: String,
    /// The gender the entry is for.
    pub gender_id: String,
    /// Identifier of the event the entry comes from.
    pub filter_key: String,
    /// The initial scores: a JSON object with a zero for every form.
    pub scores: String,
}

/// The schedule of one year.
#[derive(Debug, Clone)]
pub struct YearPlan {
    /// Identifier of the year.
    pub id: String,
    /// Name of the year.
    pub name: String,
    /// The year's entries: by event in configuration order, then by gender
    /// in configuration order.
    pub events: Vec<EventPlan>,
}

/// The whole schedule: one [`YearPlan`] per configured year, in order.
#[derive(Debug)]
pub struct Plan {
    pub year_plans: Vec<YearPlan>,
}

/// Mathematical content of an [`EventPlan`].
pub struct EventPlanView {
    pub id: Seq<char>,
    pub name: Seq<char>,
    pub gender_id: Seq<char>,
    pub filter_key: Seq<char>,
    pub scores: Seq<char>,
}

/// Mathematical content of a [`YearPlan`].
pub struct YearPlanView {
    pub id: Seq<char>,
    pub name: Seq<char>,
    pub events: Seq<EventPlanView>,
}

/// Mathematical content of a [`Plan`].
pub struct PlanView {
    pub year_plans: Seq<YearPlanView>,
}

impl View for EventPlan {
    type V = EventPlanView;

    open spec fn view(&self) -> EventPlanView {
        EventPlanView {
            id: self.id@,
            name: self.name@,
            gender_id: self.gender_id@,
            filter_key: self.filter_key@,
            scores: self.scores@,
        }
    }
}

impl View for YearPlan {
    type V = YearPlanView;

    open spec fn view(&self) -> YearPlanView {
        YearPlanView { id: self.id@, name: self.name@, events: views(self.events@) }
    }
}

impl View for Plan {
    type V = PlanView;

    open spec fn view(&self) -> PlanView {
        PlanView { year_plans: views(self.year_plans@) }
    }
}

/// The identifier of an entry: the three identifiers joined by hyphens.
pub open spec fn composite_id(
    year_id: Seq<char>,
    gender_id: Seq<char>,
    event_id: Seq<char>,
) -> Seq<char> {
    year_id + seq!['-'] + gender_id + seq!['-'] + event_id
}

/// The entry of `event` for one year and one gender.
pub open spec fn event_plan(
    year_id: Seq<char>,
    gender_id: Seq<char>,
    event: EventView,
    scores: Seq<char>,
) -> EventPlanView {
    EventPlanView {
        id: composite_id(year_id, gender_id, event.id),
        name: event.name,
        gender_id,
        filter_key: event.id,
        scores,
    }
}

/// The test "is `event` held for this gender".
pub open spec fn held_for(event: EventView) -> spec_fn(Seq<char>) -> bool {
    |gender_id: Seq<char>| event.held_for_gender(gender_id)
}

/// The genders that `event` is held for, in configuration order.
pub open spec fn event_genders(event: EventView, genders: Seq<Seq<char>>) -> Seq<Seq<char>> {
    genders.filter(held_for(event))
}

/// The step from a gender to the entry of `event` for it, under one year.
pub open spec fn entry_for(
    year_id: Seq<char>,
    event: EventView,
    scores: Seq<char>,
) -> spec_fn(Seq<char>) -> EventPlanView {
    |gender_id: Seq<char>| event_plan(year_id, gender_id, event, scores)
}

/// The entries of `event` under the year `year_id`: none where the event is
/// not held for the year, else one per gender it is held for.
pub open spec fn event_plans(
    year_id: Seq<char>,
    event: EventView,
    genders: Seq<Seq<char>>,
    scores: Seq<char>,
) -> Seq<EventPlanView> {
    if event.held_for_year(year_id) {
        event_genders(event, genders).map_values(entry_for(year_id, event, scores))
    } else {
        Seq::empty()
    }
}

/// The step from an event to its entries under one year.
pub open spec fn entries_for(
    year_id: Seq<char>,
    genders: Seq<Seq<char>>,
    scores: Seq<char>,
) -> spec_fn(EventView) -> Seq<EventPlanView> {
    |event: EventView| event_plans(year_id, event, genders, scores)
}

/// The entries of a year: those of each event, in the order of the events.
pub open spec fn year_events(
    year_id: Seq<char>,
    events: Seq<EventView>,
    genders: Seq<Seq<char>>,
    scores: Seq<char>,
) -> Seq<EventPlanView> {
    events.map_values(entries_for(year_id, genders, scores)).flatten()
}

/// The schedule of `year` under `configuration`.
pub open spec fn year_plan(
    year: YearView,
    configuration: ConfigurationView,
    scores: Seq<char>,
) -> YearPlanView {
    YearPlanView {
        id: year.id,
        name: year.name,
        events: year_events(year.id, configuration.events, configuration.genders, scores),
    }
}

/// The plan that `configuration` expands to when every entry starts with the
/// scores text `scores`.
pub open spec fn expansion(configuration: ConfigurationView, scores: Seq<char>) -> PlanView {
    PlanView {
        year_plans: configuration.years.map_values(
            |year: YearView| year_plan(year, configuration, scores),
        ),
    }
}

/// The initial scores of a list of forms: every form's identifier, with zero.
pub open spec fn zero_scores(forms: Seq<FormView>) -> Map<Seq<char>, int> {
    Map::new(
        |id: Seq<char>| exists|i: int| 0 <= i < forms.len() && #[trigger] forms[i].id == id,
        |id: Seq<char>| 0int,
    )
}

/// Declares `serde_json::Value` to the verifier, as a value it cannot look
/// into.
#[verifier::external_type_specification]
#[verifier::external_body]
pub struct ExJsonValue(serde_json::Value);

/// Whether `value` is a JSON object all of whose members are integers.
pub uninterp spec fn is_integer_object(value: serde_json::Value) -> bool;

/// The members of a JSON object of integers: each key with its number.
pub uninterp spec fn integer_members(value: serde_json::Value) -> Map<Seq<char>, int>;

/// The compact JSON text that `serde_json` writes for the object of integers
/// with the given members.
pub uninterp spec fn integer_object_text(members: Map<Seq<char>, int>) -> Seq<char>;

/// `serde_json::Value::Object` on `serde_json::Map::new()`: the result is an
/// object without members.
#[verifier::external_body]
fn empty_object() -> (made: serde_json::Value)
    ensures
        is_integer_object(made),
        integer_members(made) == (Map::<Seq<char>, int>::empty()),
{
    serde_json::Value::Object(serde_json::Map::new())
}

/// Assignment through `serde_json::Value`'s index by a string key, which
/// inserts the key where the object lacks it and replaces its value where it
/// has it. On an object of integers the result is one too, with `key` now
/// at `number` and every other member as before. (On a value that is neither
/// an object nor null the index panics: such values are left out.)
#[verifier::external_body]
fn set_member(object: &mut serde_json::Value, key: &String, number: i64)
    requires
        is_integer_object(*old(object)),
    ensures
        is_integer_object(*final(object)),
        integer_members(*final(object)) == integer_members(*old(object)).insert(
            key@,
            number as int,
        ),
{
    object[key.clone()] = number.into();
}

/// `to_string` of a `serde_json::Value`, which writes the value as compact
/// JSON. An object's members are kept sorted by key, so the text of an
/// object of integers depends on its members alone.
#[verifier::external_body]
fn object_text(object: &serde_json::Value) -> (text: String)
    requires
        is_integer_object(*object),
    ensures
        text@ == integer_object_text(integer_members(*object)),
{
    object.to_string()
}

/// The scores text that every entry of a plan starts with: the JSON object
/// that maps each form's identifier to zero. Without forms it is the empty
/// object.
pub fn empty_scores(forms: &Vec<Form>) -> (scores: String)
    ensures
        scores@ == integer_object_text(zero_scores(views(forms@))),
{
    let mut object = empty_object();
    let mut i: usize = 0;
    while i < forms.len()
        invariant
            i <= forms.len(),
            is_integer_object(object),
            integer_members(object) =~= zero_scores(views(forms@).take(i as int)),
        decreases forms.len() - i,
    {
        let ghost before = integer_members(object);
        set_member(&mut object, &forms[i].id, 0);
        proof {
            let done = views(forms@).take(i as int);
            let next = views(forms@).take(i + 1);
            assert(next[i as int].id == forms[i as int].id@);
            assert forall|id: Seq<char>|
                zero_scores(next).dom().contains(id) <==> before.insert(
                    forms[i as int].id@,
                    0int,
                ).dom().contains(id) by {
                if zero_scores(next).dom().contains(id) {
                    let k = choose|k: int| 0 <= k < next.len() && #[trigger] next[k].id == id;
                    if k < i {
                        assert(done[k].id == id);
                    }
                }
                if before.dom().contains(id) {
                    let k = choose|k: int| 0 <= k < done.len() && #[trigger] done[k].id == id;
                    assert(next[k].id == id);
                }
            }
        }
        i += 1;
    }
    assert(views(forms@).take(forms.len() as int) == views(forms@));
    object_text(&object)
}

/// The identifier of the entry for one year, gender and event.
fn entry_id(year_id: &String, gender_id: &String, event_id: &String) -> (id: String)
    ensures
        id@ == composite_id(year_id@, gender_id@, event_id@),
{
    proof {
        reveal_strlit("-");
    }
    assert("-"@ == seq!['-']);
    let mut id = year_id.clone();
    id.append("-");
    id.append(gender_id.as_str());
    id.append("-");
    id.append(event_id.as_str());
    id
}

/// Appends to `entries` the entries of `event` under `year`.
fn push_event_plans(
    entries: &mut Vec<EventPlan>,
    configuration: &Configuration,
    year: &Year,
    event: &Event,
    scores: &String,
)
    ensures
        views(final(entries)@) == views(old(entries)@) + event_plans(
            year@.id,
            event@,
            configuration@.genders,
            scores@,
        ),
{
    let ghost genders = configuration@.genders;
    let ghost entry = entry_for(year@.id, event@, scores@);
    if !configuration.is_event_applicable_to_year(event, year.id.as_str()) {
        assert(views(entries@) + Seq::<EventPlanView>::empty() == views(entries@));
        return ;
    }
    let mut g: usize = 0;
    assert(genders.take(0) == Seq::<Seq<char>>::empty());
    proof {
        reveal(Seq::filter);
    }
    assert(event_genders(event@, genders.take(0)).map_values(entry)
        == Seq::<EventPlanView>::empty());
    assert(views(entries@) + Seq::<EventPlanView>::empty() == views(entries@));
    while g < configuration.genders.len()
        invariant
            g <= configuration.genders.len(),
            genders == configuration@.genders,
            entry == entry_for(year@.id, event@, scores@),
            views(entries@) == views(old(entries)@) + event_genders(
                event@,
                genders.take(g as int),
            ).map_values(entry),
        decreases configuration.genders.len() - g,
    {
        let gender = &configuration.genders[g];
        let ghost before = views(entries@);
        let ghost chosen = event_genders(event@, genders.take(g as int));
        proof {
            assert(genders.take(g + 1) == genders.take(g as int).push(gender@));
            genders.take(g as int).lemma_filter_push(gender@, held_for(event@));
        }
        if configuration.is_event_applicable_to_gender(event, gender.as_str()) {
            let plan = EventPlan {
                id: entry_id(&year.id, gender, &event.id),
                name: event.name.clone(),
                gender_id: gender.clone(),
                filter_key: event.id.clone(),
                scores: scores.clone(),
            };
            assert(plan@ == entry(gender@));
            entries.push(plan);
            assert(views(entries@) == before.push(entry(gender@)));
            assert(chosen.push(gender@).map_values(entry) == chosen.map_values(entry).push(
                entry(gender@),
            ));
        }
        g += 1;
    }
    assert(genders.take(g as int) == genders);
}

/// The schedule of `year` under `configuration`.
fn plan_year(configuration: &Configuration, year: &Year, scores: &String) -> (plan: YearPlan)
    ensures
        plan@ == year_plan(year@, configuration@, scores@),
{
    let ghost per_event = entries_for(year@.id, configuration@.genders, scores@);
    let ghost events = configuration@.events;
    let mut entries: Vec<EventPlan> = Vec::new();
    let mut e: usize = 0;
    assert(events.take(0).map_values(per_event) == Seq::<Seq<EventPlanView>>::empty());
    assert(views(entries@) == Seq::<EventPlanView>::empty());
    while e < configuration.events.len()
        invariant
            e <= configuration.events.len(),
            events == configuration@.events,
            per_event == entries_for(year@.id, configuration@.genders, scores@),
            views(entries@) == events.take(e as int).map_values(per_event).flatten(),
        decreases configuration.events.len() - e,
    {
        let event = &configuration.events[e];
        proof {
            let done = events.take(e as int).map_values(per_event);
            assert(events.take(e + 1).map_values(per_event) == done.push(per_event(event@)));
            done.lemma_flatten_push(per_event(event@));
        }
        push_event_plans(&mut entries, configuration, year, event, scores);
        e += 1;
    }
    assert(events.take(e as int) == events);
    YearPlan { id: year.id.clone(), name: year.name.clone(), events: entries }
}

/// Expands `configuration` into its plan, every entry starting with the
/// scores text `scores`.
///
/// The plan has one [`YearPlan`] per year, in configuration order. Each holds,
/// for every event held for that year (in configuration order) and every
/// gender the event is held for (in configuration order), one entry.
pub fn build_plan_with_scores(configuration: &Configuration, scores: &String) -> (plan: Plan)
    ensures
        plan@ == expansion(configuration@, scores@),
{
    let mut year_plans: Vec<YearPlan> = Vec::new();
    let mut y: usize = 0;
    while y < configuration.years.len()
        invariant
            y <= configuration.years.len(),
            year_plans.len() == y,
            forall|i: int|
                0 <= i < y ==> (#[trigger] year_plans[i])@ == year_plan(
                    configuration@.years[i],
                    configuration@,
                    scores@,
                ),
        decreases configuration.years.len() - y,
    {
        let plan = plan_year(configuration, &configuration.years[y], scores);
        year_plans.push(plan);
        y += 1;
    }
    let plan = Plan { year_plans };
    assert(plan@.year_plans =~= expansion(configuration@, scores@).year_plans);
    plan
}

/// Expands `configuration` into its plan. Every entry starts with the scores
/// text of [`empty_scores`]: a zero for each form.
pub fn build_plan(configuration: Configuration) -> (plan: Plan)
    ensures
        plan@ == expansion(
            configuration@,
            integer_object_text(zero_scores(configuration@.forms)),
        ),
{
    let scores = empty_scores(&configuration.forms);
    build_plan_with_scores(&configuration, &scores)
}

} // verus!
