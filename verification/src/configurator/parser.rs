//! The sports-day configuration: years, genders, forms, scoring tiers and
//! events, together with the rules that say which years and genders an event
//! is held for.

use vstd::prelude::*;

use crate::model::{texts, views};

verus! {

/// A school year that takes part in the sports day.
#[derive(Debug, Clone)]
pub struct Year {
    /// Identifier of the year, such as `year7`.
    pub id: String,
    /// Name shown to people, such as `Year 7`.
    pub name: String,
}

/// A form: the team that collects points.
#[derive(Debug, Clone)]
pub struct Form {
    /// Identifier of the form.
    pub id: String,
    /// Name shown to people.
    pub name: String,
    /// Colour of the form on the scoreboard, in any CSS notation.
    pub colour: String,
}

/// A scoring tier: a named number of points.
#[derive(Debug, Clone)]
pub struct Score {
    /// Name of the tier, such as `1st`.
    pub name: String,
    /// Points awarded for it.
    pub value: i64,
    /// Whether this tier is preselected when scores are entered.
    pub default: bool,
}

/// Which identifiers (of years, or of genders) an event is held for.
#[derive(Debug, Clone)]
pub enum ApplicabilityRules {
    /// Every identifier.
    All,
    /// No identifier: the event is switched off.
    Nothing,
    /// The listed identifiers and no others.
    Include { ids: Vec<String> },
    /// Every identifier but the listed ones.
    Exclude { ids: Vec<String> },
}

/// A sports event and the years and genders it is held for.
#[derive(Debug, Clone)]
pub struct Event {
    /// Identifier of the event.
    pub id: String,
    /// Name shown to people.
    pub name: String,
    /// The years the event is held for.
    pub applicable_years: ApplicabilityRules,
    /// The genders the event is held for.
    pub applicable_genders: ApplicabilityRules,
}

/// The whole configuration of one sports day.
#[derive(Debug, Clone)]
pub struct Configuration {
    /// Version of the configuration schema.
    pub version: String,
    /// The genders, in the order in which their events are scheduled.
    pub genders: Vec<String>,
    /// The scoring tiers.
    pub scores: Vec<Score>,
    /// The years, in schedule order.
    pub years: Vec<Year>,
    /// The forms.
    pub forms: Vec<Form>,
    /// The events, in schedule order.
    pub events: Vec<Event>,
}

/// Mathematical content of a [`Year`].
pub struct YearView {
    pub id: Seq<char>,
    pub name: Seq<char>,
}

/// Mathematical content of a [`Form`].
pub struct FormView {
    pub id: Seq<char>,
    pub name: Seq<char>,
    pub colour: Seq<char>,
}

/// Mathematical content of a [`Score`].
pub struct ScoreView {
    pub name: Seq<char>,
    pub value: int,
    pub default: bool,
}

/// Mathematical content of an [`ApplicabilityRules`].
pub enum RuleView {
    All,
    Nothing,
    Include { ids: Seq<Seq<char>> },
    Exclude { ids: Seq<Seq<char>> },
}

/// Mathematical content of an [`Event`].
pub struct EventView {
    pub id: Seq<char>,
    pub name: Seq<char>,
    pub applicable_years: RuleView,
    pub applicable_genders: RuleView,
}

/// Mathematical content of a [`Configuration`].
pub struct ConfigurationView {
    pub version: Seq<char>,
    pub genders: Seq<Seq<char>>,
    pub scores: Seq<ScoreView>,
    pub years: Seq<YearView>,
    pub forms: Seq<FormView>,
    pub events: Seq<EventView>,
}

impl View for Year {
    type V = YearView;

    open spec fn view(&self) -> YearView {
        YearView { id: self.id@, name: self.name@ }
    }
}

impl View for Form {
    type V = FormView;

    open spec fn view(&self) -> FormView {
        FormView { id: self.id@, name: self.name@, colour: self.colour@ }
    }
}

impl View for Score {
    type V = ScoreView;

    open spec fn view(&self) -> ScoreView {
        ScoreView { name: self.name@, value: self.value as int, default: self.default }
    }
}

impl View for ApplicabilityRules {
    type V = RuleView;

    open spec fn view(&self) -> RuleView {
        match *self {
            ApplicabilityRules::All => RuleView::All,
            ApplicabilityRules::Nothing => RuleView::Nothing,
            ApplicabilityRules::Include { ids } => RuleView::Include { ids: texts(ids@) },
            ApplicabilityRules::Exclude { ids } => RuleView::Exclude { ids: texts(ids@) },
        }
    }
}

impl View for Event {
    type V = EventView;

    open spec fn view(&self) -> EventView {
        EventView {
            id: self.id@,
            name: self.name@,
            applicable_years: self.applicable_years@,
            applicable_genders: self.applicable_genders@,
        }
    }
}

impl View for Configuration {
    type V = ConfigurationView;

    open spec fn view(&self) -> ConfigurationView {
        ConfigurationView {
            version: self.version@,
            genders: texts(self.genders@),
            scores: views(self.scores@),
            years: views(self.years@),
            forms: views(self.forms@),
            events: views(self.events@),
        }
    }
}

impl RuleView {
    /// Whether the rule selects the identifier `id`. An identifier that no
    /// list mentions is simply not in the list: every text has an answer.
    pub open spec fn applies_to(self, id: Seq<char>) -> bool {
        match self {
            RuleView::All => true,
            RuleView::Nothing => false,
            RuleView::Include { ids } => ids.contains(id),
            RuleView::Exclude { ids } => !ids.contains(id),
        }
    }
}

impl EventView {
    /// Whether the event is held for the year `year_id`.
    pub open spec fn held_for_year(self, year_id: Seq<char>) -> bool {
        self.applicable_years.applies_to(year_id)
    }

    /// Whether the event is held for the gender `gender_id`.
    pub open spec fn held_for_gender(self, gender_id: Seq<char>) -> bool {
        self.applicable_genders.applies_to(gender_id)
    }
}

/// Whether `id` is one of `ids`.
pub fn contains_id(ids: &Vec<String>, id: &str) -> (found: bool)
    ensures
        found == texts(ids@).contains(id@),
{
    let wanted = id.to_owned();
    let mut i: usize = 0;
    while i < ids.len()
        invariant
            i <= ids.len(),
            wanted@ == id@,
            forall|j: int| 0 <= j < i ==> texts(ids@)[j] != id@,
        decreases ids.len() - i,
    {
        if ids[i] == wanted {
            assert(texts(ids@)[i as int] == id@);
            return true;
        }
        i += 1;
    }
    false
}

impl ApplicabilityRules {
    /// Whether the rule selects the identifier `id`.
    pub fn applies_to(&self, id: &str) -> (applies: bool)
        ensures
            applies == self@.applies_to(id@),
    {
        match self {
            ApplicabilityRules::All => true,
            ApplicabilityRules::Nothing => false,
            ApplicabilityRules::Include { ids } => contains_id(ids, id),
            ApplicabilityRules::Exclude { ids } => !contains_id(ids, id),
        }
    }
}

impl Configuration {
    /// Whether `event` is held for the year `year_id`, by the event's own
    /// year rule.
    pub fn is_event_applicable_to_year(&self, event: &Event, year_id: &str) -> (applies: bool)
        ensures
            applies == event@.held_for_year(year_id@),
    {
        event.applicable_years.applies_to(year_id)
    }

    /// Whether `event` is held for the gender `gender_id`, by the event's own
    /// gender rule.
    pub fn is_event_applicable_to_gender(&self, event: &Event, gender_id: &str) -> (applies: bool)
        ensures
            applies == event@.held_for_gender(gender_id@),
    {
        event.applicable_genders.applies_to(gender_id)
    }

    /// The version of the configuration schema.
    pub fn get_version(&self) -> (version: String)
        ensures
            version@ == self@.version,
    {
        self.version.clone()
    }
}

} // verus!
