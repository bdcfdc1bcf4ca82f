//! What holds of the expansion of every configuration.

use vstd::prelude::*;

use super::{
    composite_id, entries_for, entry_for, event_genders, event_plan, event_plans, expansion,
    held_for, integer_object_text, year_events, zero_scores,
};
use crate::configurator::parser::{ConfigurationView, EventView, RuleView};

verus! {

/// The entries of a year with one more event at the end are the entries
/// without it, followed by those of the new event.
pub proof fn year_events_push(
    year_id: Seq<char>,
    events: Seq<EventView>,
    event: EventView,
    genders: Seq<Seq<char>>,
    scores: Seq<char>,
)
    ensures
        year_events(year_id, events.push(event), genders, scores) == year_events(
            year_id,
            events,
            genders,
            scores,
        ) + event_plans(year_id, event, genders, scores),
{
    let per_event = entries_for(year_id, genders, scores);
    assert(events.push(event).map_values(per_event) == events.map_values(per_event).push(
        per_event(event),
    ));
    events.map_values(per_event).lemma_flatten_push(per_event(event));
}

/// Every entry of a year comes from an event that is held for the year and a
/// gender that the event is held for, and is built from the two: its
/// identifier is the composite of year, gender and event, and its filter key
/// is the event's identifier. The result names the event and the gender by
/// their positions in the configuration.
pub proof fn entry_has_source(
    year_id: Seq<char>,
    events: Seq<EventView>,
    genders: Seq<Seq<char>>,
    scores: Seq<char>,
    k: int,
) -> (source: (int, int))
    requires
        0 <= k < year_events(year_id, events, genders, scores).len(),
    ensures
        0 <= source.0 < events.len(),
        0 <= source.1 < genders.len(),
        events[source.0].held_for_year(year_id),
        events[source.0].held_for_gender(genders[source.1]),
        year_events(year_id, events, genders, scores)[k] == event_plan(
            year_id,
            genders[source.1],
            events[source.0],
            scores,
        ),
    decreases events.len(),
{
    if events.len() == 0 {
        assert(events.map_values(entries_for(year_id, genders, scores)).len() == 0);
        (0, 0)
    } else {
        let rest = events.drop_last();
        let last = events.last();
        assert(events == rest.push(last));
        year_events_push(year_id, rest, last, genders, scores);
        let before = year_events(year_id, rest, genders, scores);
        if k < before.len() {
            entry_has_source(year_id, rest, genders, scores, k)
        } else {
            let j = k - before.len();
            let chosen = event_genders(last, genders);
            assert(event_plans(year_id, last, genders, scores)[j] == entry_for(
                year_id,
                last,
                scores,
            )(chosen[j]));
            genders.lemma_filter_pred(held_for(last), j);
            assert(chosen.contains(chosen[j]));
            genders.lemma_filter_contains_rev(held_for(last), chosen[j]);
            let g = choose|g: int| 0 <= g < genders.len() && genders[g] == chosen[j];
            (events.len() - 1, g)
        }
    }
}

/// Every event that is held for the year has, for every gender it is held
/// for, an entry under that year. The result is the entry's position.
pub proof fn held_pair_has_entry(
    year_id: Seq<char>,
    events: Seq<EventView>,
    genders: Seq<Seq<char>>,
    scores: Seq<char>,
    e: int,
    g: int,
) -> (k: int)
    requires
        0 <= e < events.len(),
        0 <= g < genders.len(),
        events[e].held_for_year(year_id),
        events[e].held_for_gender(genders[g]),
    ensures
        0 <= k < year_events(year_id, events, genders, scores).len(),
        year_events(year_id, events, genders, scores)[k] == event_plan(
            year_id,
            genders[g],
            events[e],
            scores,
        ),
    decreases events.len(),
{
    let rest = events.drop_last();
    let last = events.last();
    assert(events == rest.push(last));
    year_events_push(year_id, rest, last, genders, scores);
    if e < rest.len() {
        held_pair_has_entry(year_id, rest, genders, scores, e, g)
    } else {
        let chosen = event_genders(last, genders);
        genders.lemma_filter_contains(held_for(last), g);
        let j = choose|j: int| 0 <= j < chosen.len() && chosen[j] == genders[g];
        assert(event_plans(year_id, last, genders, scores)[j] == entry_for(year_id, last, scores)(
            chosen[j],
        ));
        year_events(year_id, rest, genders, scores).len() + j
    }
}

/// An event whose gender rule is "all" is held for the genders as they are
/// configured: all of them, in order.
pub proof fn open_event_keeps_genders(event: EventView, genders: Seq<Seq<char>>)
    requires
        event.applicable_genders == RuleView::All,
    ensures
        event_genders(event, genders) == genders,
    decreases genders.len(),
{
    reveal(Seq::filter);
    if genders.len() > 0 {
        open_event_keeps_genders(event, genders.drop_last());
        assert(genders.drop_last().push(genders.last()) == genders);
    }
}

/// An event held for all years and all genders has, under any year, exactly
/// one entry for each configured gender, in the order of the genders.
pub proof fn open_event_has_entry_per_gender(
    year_id: Seq<char>,
    event: EventView,
    genders: Seq<Seq<char>>,
    scores: Seq<char>,
)
    requires
        event.applicable_years == RuleView::All,
        event.applicable_genders == RuleView::All,
    ensures
        event_plans(year_id, event, genders, scores).len() == genders.len(),
        forall|g: int|
            0 <= g < genders.len() ==> #[trigger] event_plans(year_id, event, genders, scores)[g]
                == event_plan(year_id, genders[g], event, scores),
{
    open_event_keeps_genders(event, genders);
}

/// Where every event is held for all years and all genders, a year has one
/// entry for each pair of an event and a gender.
pub proof fn open_events_fill_year(
    year_id: Seq<char>,
    events: Seq<EventView>,
    genders: Seq<Seq<char>>,
    scores: Seq<char>,
)
    requires
        forall|e: int|
            0 <= e < events.len() ==> (#[trigger] events[e]).applicable_years == RuleView::All
                && events[e].applicable_genders == RuleView::All,
    ensures
        year_events(year_id, events, genders, scores).len() == events.len() * genders.len(),
    decreases events.len(),
{
    if events.len() == 0 {
        assert(events.map_values(entries_for(year_id, genders, scores)).len() == 0);
    } else {
        let rest = events.drop_last();
        let last = events.last();
        assert(events == rest.push(last));
        year_events_push(year_id, rest, last, genders, scores);
        open_events_fill_year(year_id, rest, genders, scores);
        open_event_has_entry_per_gender(year_id, last, genders, scores);
        assert((rest.len() + 1) * genders.len() == rest.len() * genders.len() + genders.len())
            by (nonlinear_arith);
    }
}

/// A configuration of N years and G genders whose events are all held for
/// all years and all genders expands to N year plans, each with one entry
/// per event and gender: with E such events, E times G entries.
pub proof fn open_events_fill_plan(configuration: ConfigurationView, scores: Seq<char>)
    requires
        forall|e: int|
            0 <= e < configuration.events.len() ==> (
            #[trigger] configuration.events[e]).applicable_years == RuleView::All
                && configuration.events[e].applicable_genders == RuleView::All,
    ensures
        expansion(configuration, scores).year_plans.len() == configuration.years.len(),
        forall|y: int|
            0 <= y < configuration.years.len() ==> (#[trigger] expansion(
                configuration,
                scores,
            ).year_plans[y]).events.len() == configuration.events.len()
                * configuration.genders.len(),
{
    assert forall|y: int| 0 <= y < configuration.years.len() implies (#[trigger] expansion(
        configuration,
        scores,
    ).year_plans[y]).events.len() == configuration.events.len()
        * configuration.genders.len() by {
        open_events_fill_year(
            configuration.years[y].id,
            configuration.events,
            configuration.genders,
            scores,
        );
    }
}

/// A configuration of N years and G genders with a single event, held for
/// all years and all genders, expands to N year plans of exactly G entries
/// each.
pub proof fn single_open_event_fills_plan(configuration: ConfigurationView, scores: Seq<char>)
    requires
        configuration.events.len() == 1,
        configuration.events[0].applicable_years == RuleView::All,
        configuration.events[0].applicable_genders == RuleView::All,
    ensures
        expansion(configuration, scores).year_plans.len() == configuration.years.len(),
        forall|y: int|
            0 <= y < configuration.years.len() ==> (#[trigger] expansion(
                configuration,
                scores,
            ).year_plans[y]).events.len() == configuration.genders.len(),
{
    open_events_fill_plan(configuration, scores);
}

/// An event whose year rule includes the single year `only` has no entry
/// under a year with another identifier. Where no other event shares its
/// identifier, no entry under such a year carries its identifier as filter
/// key.
pub proof fn included_year_only(
    configuration: ConfigurationView,
    scores: Seq<char>,
    e: int,
    y: int,
    only: Seq<char>,
)
    requires
        0 <= e < configuration.events.len(),
        0 <= y < configuration.years.len(),
        configuration.events[e].applicable_years == (RuleView::Include { ids: seq![only] }),
        configuration.years[y].id != only,
    ensures
        event_plans(
            configuration.years[y].id,
            configuration.events[e],
            configuration.genders,
            scores,
        ).len() == 0,
        (forall|j: int|
            0 <= j < configuration.events.len() && j != e ==> (
            #[trigger] configuration.events[j]).id != configuration.events[e].id) ==> forall|
            k: int,
        |
            0 <= k < expansion(configuration, scores).year_plans[y].events.len() ==> (
            #[trigger] expansion(configuration, scores).year_plans[y].events[k]).filter_key
                != configuration.events[e].id,
{
    let year_id = configuration.years[y].id;
    let event = configuration.events[e];
    assert(!event.held_for_year(year_id)) by {
        if seq![only].contains(year_id) {
            let i = choose|i: int| 0 <= i < seq![only].len() && seq![only][i] == year_id;
            assert(seq![only][i] == only);
        }
    }
    if forall|j: int|
        0 <= j < configuration.events.len() && j != e ==> (#[trigger] configuration.events[j]).id
            != event.id {
        let entries = expansion(configuration, scores).year_plans[y].events;
        assert forall|k: int| 0 <= k < entries.len() implies (#[trigger] entries[k]).filter_key
            != event.id by {
            let source = entry_has_source(
                year_id,
                configuration.events,
                configuration.genders,
                scores,
                k,
            );
            assert(entries[k].filter_key == configuration.events[source.0].id);
        }
    }
}

/// An event whose gender rule excludes the single gender `left_out` has, under
/// every year it is held for, an entry for each other configured gender.
/// Among its own entries none is for `left_out`; where no other event shares
/// its identifier, no entry with its identifier as filter key is.
pub proof fn excluded_gender_left_out(
    configuration: ConfigurationView,
    scores: Seq<char>,
    e: int,
    y: int,
    left_out: Seq<char>,
)
    requires
        0 <= e < configuration.events.len(),
        0 <= y < configuration.years.len(),
        configuration.events[e].applicable_genders == (RuleView::Exclude { ids: seq![left_out] }),
    ensures
        forall|i: int|
            0 <= i < event_plans(
                configuration.years[y].id,
                configuration.events[e],
                configuration.genders,
                scores,
            ).len() ==> (#[trigger] event_plans(
                configuration.years[y].id,
                configuration.events[e],
                configuration.genders,
                scores,
            )[i]).gender_id != left_out,
        (forall|j: int|
            0 <= j < configuration.events.len() && j != e ==> (
            #[trigger] configuration.events[j]).id != configuration.events[e].id) ==> forall|
            k: int,
        |
            0 <= k < expansion(configuration, scores).year_plans[y].events.len() && (
            #[trigger] expansion(configuration, scores).year_plans[y].events[k]).filter_key
                == configuration.events[e].id ==> expansion(
                configuration,
                scores,
            ).year_plans[y].events[k].gender_id != left_out,
        configuration.events[e].held_for_year(configuration.years[y].id) ==> forall|g: int|
            0 <= g < configuration.genders.len() && #[trigger] configuration.genders[g]
                != left_out ==> expansion(configuration, scores).year_plans[y].events.contains(
                event_plan(
                    configuration.years[y].id,
                    configuration.genders[g],
                    configuration.events[e],
                    scores,
                ),
            ),
{
    let year_id = configuration.years[y].id;
    let event = configuration.events[e];
    let genders = configuration.genders;
    let entries = expansion(configuration, scores).year_plans[y].events;
    assert(seq![left_out].contains(left_out)) by {
        assert(seq![left_out][0] == left_out);
    }
    assert(!event.held_for_gender(left_out));
    let own = event_plans(year_id, event, genders, scores);
    assert forall|i: int| 0 <= i < own.len() implies (#[trigger] own[i]).gender_id
        != left_out by {
        let chosen = event_genders(event, genders);
        assert(own[i] == entry_for(year_id, event, scores)(chosen[i]));
        genders.lemma_filter_pred(held_for(event), i);
    }
    if forall|j: int|
        0 <= j < configuration.events.len() && j != e ==> (#[trigger] configuration.events[j]).id
            != event.id {
        assert forall|k: int|
            0 <= k < entries.len() && (#[trigger] entries[k]).filter_key
                == event.id implies entries[k].gender_id != left_out by {
            let source = entry_has_source(year_id, configuration.events, genders, scores, k);
            assert(source.0 == e);
        }
    }
    if event.held_for_year(year_id) {
        assert forall|g: int|
            0 <= g < genders.len() && #[trigger] genders[g] != left_out implies entries.contains(
            event_plan(year_id, genders[g], event, scores),
        ) by {
            assert(event.held_for_gender(genders[g])) by {
                if seq![left_out].contains(genders[g]) {
                    let i = choose|i: int|
                        0 <= i < seq![left_out].len() && seq![left_out][i] == genders[g];
                    assert(seq![left_out][i] == left_out);
                }
            }
            let k = held_pair_has_entry(year_id, configuration.events, genders, scores, e, g);
        }
    }
}

/// Every entry of the plan built with the initial scores carries the same
/// scores text: that of the JSON object whose keys are exactly the forms'
/// identifiers, each with the number zero.
pub proof fn initial_scores_hold_every_form(configuration: ConfigurationView, y: int, k: int)
    requires
        0 <= y < configuration.years.len(),
        0 <= k < expansion(
            configuration,
            integer_object_text(zero_scores(configuration.forms)),
        ).year_plans[y].events.len(),
    ensures
        expansion(
            configuration,
            integer_object_text(zero_scores(configuration.forms)),
        ).year_plans[y].events[k].scores == integer_object_text(zero_scores(configuration.forms)),
        forall|f: int|
            0 <= f < configuration.forms.len() ==> zero_scores(configuration.forms).dom().contains(
                (#[trigger] configuration.forms[f]).id,
            ) && zero_scores(configuration.forms)[configuration.forms[f].id] == 0,
        forall|id: Seq<char>| #[trigger]
            zero_scores(configuration.forms).dom().contains(id) ==> exists|f: int|
                0 <= f < configuration.forms.len() && (#[trigger] configuration.forms[f]).id == id,
{
    let scores = integer_object_text(zero_scores(configuration.forms));
    let source = entry_has_source(
        configuration.years[y].id,
        configuration.events,
        configuration.genders,
        scores,
        k,
    );
}

/// Without years the plan has no year plans. Without genders, or without
/// events, every year plan is without entries.
pub proof fn empty_inputs_expand_to_nothing(configuration: ConfigurationView, scores: Seq<char>)
    ensures
        configuration.years.len() == 0 ==> expansion(configuration, scores).year_plans.len() == 0,
        configuration.genders.len() == 0 || configuration.events.len() == 0 ==> forall|y: int|
            0 <= y < configuration.years.len() ==> (#[trigger] expansion(
                configuration,
                scores,
            ).year_plans[y]).events.len() == 0,
{
    if configuration.genders.len() == 0 || configuration.events.len() == 0 {
        assert forall|y: int| 0 <= y < configuration.years.len() implies (#[trigger] expansion(
            configuration,
            scores,
        ).year_plans[y]).events.len() == 0 by {
            let entries = expansion(configuration, scores).year_plans[y].events;
            if entries.len() > 0 {
                let source = entry_has_source(
                    configuration.years[y].id,
                    configuration.events,
                    configuration.genders,
                    scores,
                    0,
                );
            }
        }
    }
}

/// Every entry of a plan is identified by the composite of its year, its
/// gender and the event it comes from, and the plan has one year plan per
/// configured year, with that year's identifier and name.
pub proof fn entries_carry_composite_ids(
    configuration: ConfigurationView,
    scores: Seq<char>,
    y: int,
    k: int,
)
    requires
        0 <= y < configuration.years.len(),
        0 <= k < expansion(configuration, scores).year_plans[y].events.len(),
    ensures
        expansion(configuration, scores).year_plans[y].id == configuration.years[y].id,
        expansion(configuration, scores).year_plans[y].name == configuration.years[y].name,
        expansion(configuration, scores).year_plans[y].events[k].id == composite_id(
            configuration.years[y].id,
            expansion(configuration, scores).year_plans[y].events[k].gender_id,
            expansion(configuration, scores).year_plans[y].events[k].filter_key,
        ),
        expansion(configuration, scores).year_plans[y].events[k].scores == scores,
{
    let source = entry_has_source(
        configuration.years[y].id,
        configuration.events,
        configuration.genders,
        scores,
        k,
    );
}

/// Whether an identifier is free of hyphens.
pub open spec fn hyphen_free(id: Seq<char>) -> bool {
    forall|i: int| 0 <= i < id.len() ==> id[i] != '-'
}

/// A text that starts with a hyphen-free part and a hyphen has only one such
/// start: the part ends at the first hyphen.
pub proof fn first_part_is_determined(
    first: Seq<char>,
    rest: Seq<char>,
    other_first: Seq<char>,
    other_rest: Seq<char>,
)
    requires
        hyphen_free(first),
        hyphen_free(other_first),
        first + seq!['-'] + rest == other_first + seq!['-'] + other_rest,
    ensures
        first == other_first,
        rest == other_rest,
{
    let text = first + seq!['-'] + rest;
    let other = other_first + seq!['-'] + other_rest;
    assert(text[first.len() as int] == '-');
    assert(other[other_first.len() as int] == '-');
    if first.len() < other_first.len() {
        assert(other[first.len() as int] == other_first[first.len() as int]);
    }
    if other_first.len() < first.len() {
        assert(text[other_first.len() as int] == first[other_first.len() as int]);
    }
    assert(first =~= other_first) by {
        assert forall|i: int| 0 <= i < first.len() implies first[i] == other_first[i] by {
            assert(text[i] == first[i]);
            assert(other[i] == other_first[i]);
        }
    }
    assert(rest =~= other_rest) by {
        assert(rest.len() == other_rest.len()) by {
            assert(text.len() == first.len() + 1 + rest.len());
            assert(other.len() == other_first.len() + 1 + other_rest.len());
        }
        assert forall|i: int| 0 <= i < rest.len() implies rest[i] == other_rest[i] by {
            assert(text[first.len() + 1 + i] == rest[i]);
            assert(other[other_first.len() + 1 + i] == other_rest[i]);
        }
    }
}

/// Where the identifiers of years and of genders are free of hyphens, the
/// composite identifier determines its three parts: two entries with the
/// same identifier are for the same year, the same gender and the same
/// event. (With a hyphen in a year or a gender the parts cannot be told
/// apart: `a-b`, `c`, `d` and `a`, `b-c`, `d` give the same identifier.)
pub proof fn composite_id_determines_parts(
    year_id: Seq<char>,
    gender_id: Seq<char>,
    event_id: Seq<char>,
    other_year_id: Seq<char>,
    other_gender_id: Seq<char>,
    other_event_id: Seq<char>,
)
    requires
        hyphen_free(year_id),
        hyphen_free(gender_id),
        hyphen_free(other_year_id),
        hyphen_free(other_gender_id),
        composite_id(year_id, gender_id, event_id) == composite_id(
            other_year_id,
            other_gender_id,
            other_event_id,
        ),
    ensures
        year_id == other_year_id,
        gender_id == other_gender_id,
        event_id == other_event_id,
{
    let tail = gender_id + seq!['-'] + event_id;
    let other_tail = other_gender_id + seq!['-'] + other_event_id;
    assert(composite_id(year_id, gender_id, event_id) == year_id + seq!['-'] + tail);
    assert(composite_id(other_year_id, other_gender_id, other_event_id) == other_year_id
        + seq!['-'] + other_tail);
    first_part_is_determined(year_id, tail, other_year_id, other_tail);
    first_part_is_determined(gender_id, event_id, other_gender_id, other_event_id);
}

/// The genders that an event is held for are without repetition where the
/// configured genders are.
pub proof fn event_genders_stay_distinct(event: EventView, genders: Seq<Seq<char>>)
    requires
        genders.no_duplicates(),
    ensures
        event_genders(event, genders).no_duplicates(),
    decreases genders.len(),
{
    reveal(Seq::filter);
    if genders.len() > 0 {
        let rest = genders.drop_last();
        let last = genders.last();
        event_genders_stay_distinct(event, rest);
        if held_for(event)(last) {
            let kept = event_genders(event, rest);
            assert forall|i: int| 0 <= i < kept.len() implies kept[i] != last by {
                assert(kept.contains(kept[i]));
                rest.lemma_filter_contains_rev(held_for(event), kept[i]);
                let j = choose|j: int| 0 <= j < rest.len() && rest[j] == kept[i];
                assert(genders[j] == kept[i]);
            }
        }
    }
}

/// Where no two genders and no two events share an identifier, no two
/// entries of a year are for the same event and the same gender.
pub proof fn year_entries_are_distinct(
    year_id: Seq<char>,
    events: Seq<EventView>,
    genders: Seq<Seq<char>>,
    scores: Seq<char>,
    i: int,
    j: int,
)
    requires
        genders.no_duplicates(),
        forall|a: int, b: int|
            0 <= a < events.len() && 0 <= b < events.len() && a != b ==> (#[trigger] events[a]).id
                != (#[trigger] events[b]).id,
        0 <= i < j < year_events(year_id, events, genders, scores).len(),
    ensures
        year_events(year_id, events, genders, scores)[i].filter_key != year_events(
            year_id,
            events,
            genders,
            scores,
        )[j].filter_key || year_events(year_id, events, genders, scores)[i].gender_id
            != year_events(year_id, events, genders, scores)[j].gender_id,
    decreases events.len(),
{
    if events.len() == 0 {
        assert(events.map_values(entries_for(year_id, genders, scores)).len() == 0);
    } else {
        let rest = events.drop_last();
        let last = events.last();
        assert(events == rest.push(last));
        year_events_push(year_id, rest, last, genders, scores);
        let before = year_events(year_id, rest, genders, scores);
        let own = event_plans(year_id, last, genders, scores);
        if j < before.len() {
            year_entries_are_distinct(year_id, rest, genders, scores, i, j);
        } else if i < before.len() {
            let source = entry_has_source(year_id, rest, genders, scores, i);
            assert(before[i].filter_key == events[source.0].id);
            let chosen = event_genders(last, genders);
            assert(own[j - before.len()] == entry_for(year_id, last, scores)(
                chosen[j - before.len()],
            ));
        } else {
            let chosen = event_genders(last, genders);
            event_genders_stay_distinct(last, genders);
            assert(own[i - before.len()] == entry_for(year_id, last, scores)(
                chosen[i - before.len()],
            ));
            assert(own[j - before.len()] == entry_for(year_id, last, scores)(
                chosen[j - before.len()],
            ));
        }
    }
}

/// Where no two years, no two genders and no two events share an identifier,
/// and the identifiers of years and genders are free of hyphens, every entry
/// of the plan has an identifier of its own: two entries with the same
/// identifier are the same entry of the same year.
pub proof fn entry_ids_are_unique(
    configuration: ConfigurationView,
    scores: Seq<char>,
    y: int,
    k: int,
    other_y: int,
    other_k: int,
)
    requires
        configuration.genders.no_duplicates(),
        forall|a: int, b: int|
            0 <= a < configuration.years.len() && 0 <= b < configuration.years.len() && a != b ==> (
            #[trigger] configuration.years[a]).id != (#[trigger] configuration.years[b]).id,
        forall|a: int, b: int|
            0 <= a < configuration.events.len() && 0 <= b < configuration.events.len() && a
                != b ==> (#[trigger] configuration.events[a]).id != (
            #[trigger] configuration.events[b]).id,
        forall|a: int|
            0 <= a < configuration.years.len() ==> hyphen_free(
                (#[trigger] configuration.years[a]).id,
            ),
        forall|a: int|
            0 <= a < configuration.genders.len() ==> hyphen_free(
                #[trigger] configuration.genders[a],
            ),
        0 <= y < configuration.years.len(),
        0 <= other_y < configuration.years.len(),
        0 <= k < expansion(configuration, scores).year_plans[y].events.len(),
        0 <= other_k < expansion(configuration, scores).year_plans[other_y].events.len(),
        expansion(configuration, scores).year_plans[y].events[k].id == expansion(
            configuration,
            scores,
        ).year_plans[other_y].events[other_k].id,
    ensures
        y == other_y,
        k == other_k,
{
    let year_id = configuration.years[y].id;
    let other_year_id = configuration.years[other_y].id;
    let source = entry_has_source(
        year_id,
        configuration.events,
        configuration.genders,
        scores,
        k,
    );
    let other_source = entry_has_source(
        other_year_id,
        configuration.events,
        configuration.genders,
        scores,
        other_k,
    );
    composite_id_determines_parts(
        year_id,
        configuration.genders[source.1],
        configuration.events[source.0].id,
        other_year_id,
        configuration.genders[other_source.1],
        configuration.events[other_source.0].id,
    );
    if k < other_k {
        year_entries_are_distinct(
            year_id,
            configuration.events,
            configuration.genders,
            scores,
            k,
            other_k,
        );
    }
    if other_k < k {
        year_entries_are_distinct(
            year_id,
            configuration.events,
            configuration.genders,
            scores,
            other_k,
            k,
        );
    }
}

} // verus!
