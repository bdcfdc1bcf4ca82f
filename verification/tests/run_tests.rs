use sportsday_scoreboard_v2::configurator::build::{build_plan, Plan};
use sportsday_scoreboard_v2::configurator::parser::{
    ApplicabilityRules, Configuration, Event, Form, Year,
};
use sportsday_scoreboard_v2::configurator::run::{after, begin, statements, Progress, Statement};

fn configuration(genders: &[&str], years: &[&str], forms: &[&str], events: &[&str]) -> Configuration {
    Configuration {
        version: "1.0.0".to_string(),
        genders: genders.iter().map(|g| g.to_string()).collect(),
        scores: vec![],
        years: years
            .iter()
            .map(|y| Year { id: y.to_string(), name: format!("Year {}", y) })
            .collect(),
        forms: forms
            .iter()
            .map(|f| Form { id: f.to_string(), name: f.to_string(), colour: "red".to_string() })
            .collect(),
        events: events
            .iter()
            .map(|e| Event {
                id: e.to_string(),
                name: format!("Event {}", e),
                applicable_years: ApplicabilityRules::All,
                applicable_genders: ApplicabilityRules::All,
            })
            .collect(),
    }
}

fn describe(statement: &Statement) -> String {
    match statement {
        Statement::DeleteEvents => "delete events".to_string(),
        Statement::DeleteYears => "delete years".to_string(),
        Statement::InsertYear(year) => format!("year {} ({})", year.id, year.name),
        Statement::InsertEvent(event) => format!("event {} of {}", event.id, event.year_id),
    }
}

fn described(plan: Plan) -> Vec<String> {
    statements(plan).iter().map(describe).collect()
}

#[test]
fn empty_plan_only_deletes() {
    let plan = build_plan(configuration(&[], &[], &[], &[]));
    assert_eq!(described(plan), vec!["delete events", "delete years"]);
}

#[test]
fn events_are_deleted_before_years() {
    let plan = build_plan(configuration(&["boys"], &["7"], &[], &["run"]));
    let all = statements(plan);
    assert!(matches!(all[0], Statement::DeleteEvents));
    assert!(matches!(all[1], Statement::DeleteYears));
}

#[test]
fn each_year_is_followed_by_its_events() {
    let plan = build_plan(configuration(&["boys", "girls"], &["7", "8"], &["red"], &["run"]));
    assert_eq!(
        described(plan),
        vec![
            "delete events",
            "delete years",
            "year 7 (Year 7)",
            "event 7-boys-run of 7",
            "event 7-girls-run of 7",
            "year 8 (Year 8)",
            "event 8-boys-run of 8",
            "event 8-girls-run of 8",
        ]
    );
}

#[test]
fn event_rows_carry_the_entries_columns() {
    let plan = build_plan(configuration(&["mixed"], &["7"], &["red", "blue"], &["relay"]));
    let all = statements(plan);
    assert_eq!(all.len(), 4);
    match &all[3] {
        Statement::InsertEvent(event) => {
            assert_eq!(event.id, "7-mixed-relay");
            assert_eq!(event.name, "Event relay");
            assert_eq!(event.year_id, "7");
            assert_eq!(event.gender_id, "mixed");
            assert_eq!(event.filter_key, "relay");
            assert_eq!(event.scores, "{\"blue\":0,\"red\":0}");
        }
        other => panic!("unexpected statement {:?}", other),
    }
    match &all[2] {
        Statement::InsertYear(year) => {
            assert_eq!(year.id, "7");
            assert_eq!(year.name, "Year 7");
            assert_eq!(year.events.len(), 0);
        }
        other => panic!("unexpected statement {:?}", other),
    }
}

#[test]
fn two_years_two_genders_one_event_give_four_event_rows() {
    let plan = build_plan(configuration(&["boys", "girls"], &["7", "8"], &["red"], &["run"]));
    let all = statements(plan);
    let years = all.iter().filter(|s| matches!(s, Statement::InsertYear(_))).count();
    let events = all.iter().filter(|s| matches!(s, Statement::InsertEvent(_))).count();
    assert_eq!(years, 2);
    assert_eq!(events, 4);
}

#[test]
fn second_plan_starts_by_deleting_what_the_first_stored() {
    let first = build_plan(configuration(&["mixed"], &["7"], &[], &["sprint"]));
    let second = build_plan(configuration(&["boys", "girls"], &["7", "8"], &[], &["sprint", "relay"]));
    let mut years: Vec<String> = vec![];
    let mut events: Vec<(String, String)> = vec![];
    for statement in statements(first).into_iter().chain(statements(second)) {
        match statement {
            Statement::DeleteEvents => events.clear(),
            Statement::DeleteYears => years.clear(),
            Statement::InsertYear(year) => years.push(year.id),
            Statement::InsertEvent(event) => events.push((event.id, event.scores)),
        }
    }
    assert_eq!(years, vec!["7".to_string(), "8".to_string()]);
    assert_eq!(events.len(), 8);
    assert!(events.iter().all(|(_, scores)| scores == "{}"));
    assert!(!events.iter().any(|(id, _)| id == "7-mixed-sprint"));
}

fn positions_performed(count: usize, outcomes: &[Result<(), &'static str>]) -> (Vec<usize>, Result<(), &'static str>) {
    let mut performed = vec![];
    let mut progress = begin::<&'static str>(count);
    loop {
        match progress {
            Progress::Perform(position) => {
                performed.push(position);
                progress = after(count, position, outcomes[position]);
            }
            Progress::Over(result) => return (performed, result),
        }
    }
}

#[test]
fn a_run_without_statements_is_over_at_once() {
    assert!(matches!(begin::<String>(0), Progress::Over(Ok(()))));
    assert!(matches!(begin::<String>(3), Progress::Perform(0)));
}

#[test]
fn a_run_performs_every_statement_in_order() {
    let outcomes = [Ok(()), Ok(()), Ok(()), Ok(())];
    assert_eq!(positions_performed(4, &outcomes), (vec![0, 1, 2, 3], Ok(())));
    assert_eq!(positions_performed(1, &outcomes), (vec![0], Ok(())));
}

#[test]
fn the_first_failure_ends_the_run_with_its_error() {
    let outcomes = [Ok(()), Ok(()), Err("disk full"), Ok(()), Err("later")];
    assert_eq!(positions_performed(5, &outcomes), (vec![0, 1, 2], Err("disk full")));
    let outcomes = [Err("locked"), Ok(())];
    assert_eq!(positions_performed(2, &outcomes), (vec![0], Err("locked")));
}

#[test]
fn a_failure_of_the_last_statement_is_reported() {
    let outcomes = [Ok(()), Err("constraint")];
    assert_eq!(positions_performed(2, &outcomes), (vec![0, 1], Err("constraint")));
    assert!(matches!(after::<&str>(2, 1, Ok(())), Progress::Over(Ok(()))));
    assert!(matches!(after::<&str>(3, 1, Ok(())), Progress::Perform(2)));
}
