use sportsday_scoreboard_v2::configurator::build::{
    build_plan, build_plan_with_scores, empty_scores, Plan,
};
use sportsday_scoreboard_v2::configurator::parser::{
    ApplicabilityRules, Configuration, Event, Form, Score, Year,
};

fn year(id: &str, name: &str) -> Year {
    Year {
        id: id.to_string(),
        name: name.to_string(),
    }
}

fn form(id: &str) -> Form {
    Form {
        id: id.to_string(),
        name: id.to_uppercase(),
        colour: "#000000".to_string(),
    }
}

fn event(id: &str, name: &str, years: ApplicabilityRules, genders: ApplicabilityRules) -> Event {
    Event {
        id: id.to_string(),
        name: name.to_string(),
        applicable_years: years,
        applicable_genders: genders,
    }
}

fn configuration(
    genders: &[&str],
    years: Vec<Year>,
    forms: Vec<Form>,
    events: Vec<Event>,
) -> Configuration {
    Configuration {
        version: "1.0.0".to_string(),
        genders: genders.iter().map(|g| g.to_string()).collect(),
        scores: vec![],
        years,
        forms,
        events,
    }
}

fn entry_ids(plan: &Plan, year: usize) -> Vec<String> {
    plan.year_plans[year]
        .events
        .iter()
        .map(|entry| entry.id.clone())
        .collect()
}

#[test]
fn test_build_plan_empty_config() {
    let config = Configuration {
        version: "1.0.0".to_string(),
        genders: vec![],
        scores: vec![],
        years: vec![],
        forms: vec![],
        events: vec![],
    };

    let plan = build_plan(config);
    assert_eq!(plan.year_plans.len(), 0);
}

#[test]
fn test_build_plan_single_year_no_events() {
    let config = Configuration {
        version: "1.0.0".to_string(),
        genders: vec!["mixed".to_string()],
        scores: vec![],
        years: vec![Year {
            id: "year7".to_string(),
            name: "Year 7".to_string(),
        }],
        forms: vec![],
        events: vec![],
    };

    let plan = build_plan(config);
    assert_eq!(plan.year_plans.len(), 1);
    assert_eq!(plan.year_plans[0].id, "year7");
    assert_eq!(plan.year_plans[0].events.len(), 0);
}

#[test]
fn test_build_plan_with_events() {
    let config = Configuration {
        version: "1.0.0".to_string(),
        genders: vec!["mixed".to_string()],
        scores: vec![Score {
            name: "1st".to_string(),
            value: 10,
            default: true,
        }],
        years: vec![Year {
            id: "year7".to_string(),
            name: "Year 7".to_string(),
        }],
        forms: vec![Form {
            id: "form1".to_string(),
            name: "Form 1".to_string(),
            colour: "#ff0000".to_string(),
        }],
        events: vec![Event {
            id: "event1".to_string(),
            name: "Event 1".to_string(),
            applicable_years: ApplicabilityRules::All,
            applicable_genders: ApplicabilityRules::All,
        }],
    };

    let plan = build_plan(config);
    assert_eq!(plan.year_plans.len(), 1);
    assert_eq!(plan.year_plans[0].events.len(), 1);
    assert_eq!(plan.year_plans[0].events[0].name, "Event 1");
    assert_eq!(plan.year_plans[0].events[0].gender_id, "mixed");
}

#[test]
fn test_build_plan_multiple_genders() {
    let config = Configuration {
        version: "1.0.0".to_string(),
        genders: vec!["boys".to_string(), "girls".to_string()],
        scores: vec![],
        years: vec![Year {
            id: "year7".to_string(),
            name: "Year 7".to_string(),
        }],
        forms: vec![],
        events: vec![Event {
            id: "event1".to_string(),
            name: "Event 1".to_string(),
            applicable_years: ApplicabilityRules::All,
            applicable_genders: ApplicabilityRules::All,
        }],
    };

    let plan = build_plan(config);
    assert_eq!(plan.year_plans[0].events.len(), 2);
    assert_eq!(plan.year_plans[0].events[0].gender_id, "boys");
    assert_eq!(plan.year_plans[0].events[1].gender_id, "girls");
}

#[test]
fn test_build_plan_event_not_applicable_to_year() {
    let config = Configuration {
        version: "1.0.0".to_string(),
        genders: vec!["mixed".to_string()],
        scores: vec![],
        years: vec![
            Year {
                id: "year7".to_string(),
                name: "Year 7".to_string(),
            },
            Year {
                id: "year8".to_string(),
                name: "Year 8".to_string(),
            },
        ],
        forms: vec![],
        events: vec![Event {
            id: "event1".to_string(),
            name: "Event 1".to_string(),
            applicable_years: ApplicabilityRules::Include {
                ids: vec!["year7".to_string()],
            },
            applicable_genders: ApplicabilityRules::All,
        }],
    };

    let plan = build_plan(config);
    assert_eq!(plan.year_plans.len(), 2);
    assert_eq!(plan.year_plans[0].events.len(), 1);
    assert_eq!(plan.year_plans[1].events.len(), 0);
}

#[test]
fn test_build_plan_event_not_applicable_to_gender() {
    let config = Configuration {
        version: "1.0.0".to_string(),
        genders: vec!["boys".to_string(), "girls".to_string(), "mixed".to_string()],
        scores: vec![],
        years: vec![Year {
            id: "year7".to_string(),
            name: "Year 7".to_string(),
        }],
        forms: vec![],
        events: vec![Event {
            id: "event1".to_string(),
            name: "Event 1".to_string(),
            applicable_years: ApplicabilityRules::All,
            applicable_genders: ApplicabilityRules::Include {
                ids: vec!["boys".to_string()],
            },
        }],
    };

    let plan = build_plan(config);
    assert_eq!(plan.year_plans[0].events.len(), 1);
    assert_eq!(plan.year_plans[0].events[0].gender_id, "boys");
}

#[test]
fn test_build_plan_event_id_format() {
    let config = Configuration {
        version: "1.0.0".to_string(),
        genders: vec!["mixed".to_string()],
        scores: vec![],
        years: vec![Year {
            id: "year7".to_string(),
            name: "Year 7".to_string(),
        }],
        forms: vec![],
        events: vec![Event {
            id: "event1".to_string(),
            name: "Event 1".to_string(),
            applicable_years: ApplicabilityRules::All,
            applicable_genders: ApplicabilityRules::All,
        }],
    };

    let plan = build_plan(config);
    assert_eq!(plan.year_plans[0].events[0].id, "year7-mixed-event1");
}

#[test]
fn test_build_plan_scores_initialization() {
    let config = Configuration {
        version: "1.0.0".to_string(),
        genders: vec!["mixed".to_string()],
        scores: vec![],
        years: vec![Year {
            id: "year7".to_string(),
            name: "Year 7".to_string(),
        }],
        forms: vec![
            Form {
                id: "form1".to_string(),
                name: "Form 1".to_string(),
                colour: "#ff0000".to_string(),
            },
            Form {
                id: "form2".to_string(),
                name: "Form 2".to_string(),
                colour: "#00ff00".to_string(),
            },
        ],
        events: vec![Event {
            id: "event1".to_string(),
            name: "Event 1".to_string(),
            applicable_years: ApplicabilityRules::All,
            applicable_genders: ApplicabilityRules::All,
        }],
    };

    let plan = build_plan(config);
    let scores = &plan.year_plans[0].events[0].scores;
    assert!(scores.contains("form1"));
    assert!(scores.contains("form2"));
    assert!(scores.contains(":0"));
}
#[test]
fn composite_id_joins_year_gender_and_event() {
    let plan = build_plan(configuration(
        &["mixed"],
        vec![year("year7", "Year 7")],
        vec![],
        vec![event("event1", "Event 1", ApplicabilityRules::All, ApplicabilityRules::All)],
    ));
    let entry = &plan.year_plans[0].events[0];
    assert_eq!(entry.id, "year7-mixed-event1");
    assert_eq!(entry.filter_key, "event1");
    assert_eq!(entry.gender_id, "mixed");
    assert_eq!(entry.name, "Event 1");
}

#[test]
fn sprint_for_boys_and_girls_in_year_seven() {
    let plan = build_plan(configuration(
        &["boys", "girls"],
        vec![year("year7", "Year 7")],
        vec![],
        vec![event("sprint", "100m Sprint", ApplicabilityRules::All, ApplicabilityRules::All)],
    ));
    assert_eq!(plan.year_plans.len(), 1);
    assert_eq!(plan.year_plans[0].id, "year7");
    assert_eq!(plan.year_plans[0].name, "Year 7");
    assert_eq!(
        entry_ids(&plan, 0),
        vec!["year7-boys-sprint".to_string(), "year7-girls-sprint".to_string()]
    );
    assert_eq!(plan.year_plans[0].events[0].name, "100m Sprint");
    assert_eq!(plan.year_plans[0].events[1].name, "100m Sprint");
}

#[test]
fn open_event_gives_every_year_one_entry_per_gender() {
    let plan = build_plan(configuration(
        &["boys", "girls", "mixed"],
        vec![year("y7", "7"), year("y8", "8"), year("y9", "9"), year("y10", "10")],
        vec![form("red")],
        vec![event("relay", "Relay", ApplicabilityRules::All, ApplicabilityRules::All)],
    ));
    assert_eq!(plan.year_plans.len(), 4);
    for year_plan in plan.year_plans.iter() {
        assert_eq!(year_plan.events.len(), 3);
    }
}

#[test]
fn open_events_give_one_entry_per_event_and_gender() {
    let plan = build_plan(configuration(
        &["boys", "girls"],
        vec![year("y7", "7"), year("y8", "8")],
        vec![],
        vec![
            event("a", "A", ApplicabilityRules::All, ApplicabilityRules::All),
            event("b", "B", ApplicabilityRules::All, ApplicabilityRules::All),
            event("c", "C", ApplicabilityRules::All, ApplicabilityRules::All),
        ],
    ));
    assert_eq!(plan.year_plans.len(), 2);
    assert_eq!(plan.year_plans[0].events.len(), 6);
    assert_eq!(plan.year_plans[1].events.len(), 6);
}

#[test]
fn entries_come_by_event_then_by_gender() {
    let plan = build_plan(configuration(
        &["boys", "girls"],
        vec![year("y7", "7")],
        vec![],
        vec![
            event("run", "Run", ApplicabilityRules::All, ApplicabilityRules::All),
            event("jump", "Jump", ApplicabilityRules::All, ApplicabilityRules::All),
        ],
    ));
    assert_eq!(
        entry_ids(&plan, 0),
        vec![
            "y7-boys-run".to_string(),
            "y7-girls-run".to_string(),
            "y7-boys-jump".to_string(),
            "y7-girls-jump".to_string(),
        ]
    );
}

#[test]
fn included_year_keeps_the_event_out_of_other_years() {
    let plan = build_plan(configuration(
        &["boys", "girls"],
        vec![year("y7", "7"), year("y8", "8"), year("y9", "9")],
        vec![],
        vec![
            event(
                "hurdles",
                "Hurdles",
                ApplicabilityRules::Include { ids: vec!["y8".to_string()] },
                ApplicabilityRules::All,
            ),
            event("run", "Run", ApplicabilityRules::All, ApplicabilityRules::All),
        ],
    ));
    for (index, year_plan) in plan.year_plans.iter().enumerate() {
        let hurdles = year_plan
            .events
            .iter()
            .filter(|entry| entry.filter_key == "hurdles")
            .count();
        assert_eq!(hurdles, if index == 1 { 2 } else { 0 });
        assert_eq!(year_plan.events.len(), if index == 1 { 4 } else { 2 });
    }
}

#[test]
fn excluded_gender_is_left_out_and_the_others_appear() {
    let plan = build_plan(configuration(
        &["boys", "girls", "mixed"],
        vec![year("y7", "7"), year("y8", "8")],
        vec![],
        vec![event(
            "shot",
            "Shot Put",
            ApplicabilityRules::All,
            ApplicabilityRules::Exclude { ids: vec!["girls".to_string()] },
        )],
    ));
    for year_plan in plan.year_plans.iter() {
        let genders: Vec<&str> = year_plan
            .events
            .iter()
            .map(|entry| entry.gender_id.as_str())
            .collect();
        assert_eq!(genders, vec!["boys", "mixed"]);
    }
}

#[test]
fn switched_off_event_has_no_entries() {
    let plan = build_plan(configuration(
        &["boys"],
        vec![year("y7", "7")],
        vec![],
        vec![
            event("a", "A", ApplicabilityRules::Nothing, ApplicabilityRules::All),
            event("b", "B", ApplicabilityRules::All, ApplicabilityRules::Nothing),
        ],
    ));
    assert_eq!(plan.year_plans.len(), 1);
    assert_eq!(plan.year_plans[0].events.len(), 0);
}

#[test]
fn without_years_the_plan_is_empty() {
    let plan = build_plan(configuration(
        &["boys"],
        vec![],
        vec![form("red")],
        vec![event("a", "A", ApplicabilityRules::All, ApplicabilityRules::All)],
    ));
    assert_eq!(plan.year_plans.len(), 0);
}

#[test]
fn without_genders_no_year_has_entries() {
    let plan = build_plan(configuration(
        &[],
        vec![year("y7", "7"), year("y8", "8")],
        vec![form("red")],
        vec![event("a", "A", ApplicabilityRules::All, ApplicabilityRules::All)],
    ));
    assert_eq!(plan.year_plans.len(), 2);
    assert_eq!(plan.year_plans[0].events.len(), 0);
    assert_eq!(plan.year_plans[1].events.len(), 0);
}

#[test]
fn without_events_no_year_has_entries() {
    let plan = build_plan(configuration(
        &["boys", "girls"],
        vec![year("y7", "7"), year("y8", "8")],
        vec![form("red")],
        vec![],
    ));
    assert_eq!(plan.year_plans.len(), 2);
    assert_eq!(plan.year_plans[0].events.len(), 0);
    assert_eq!(plan.year_plans[1].events.len(), 0);
}

#[test]
fn initial_scores_hold_a_zero_for_each_form_and_nothing_else() {
    let plan = build_plan(configuration(
        &["boys", "girls"],
        vec![year("y7", "7")],
        vec![form("f1"), form("f2")],
        vec![event("a", "A", ApplicabilityRules::All, ApplicabilityRules::All)],
    ));
    assert_eq!(plan.year_plans[0].events.len(), 2);
    for entry in plan.year_plans[0].events.iter() {
        let parsed: serde_json::Value = serde_json::from_str(&entry.scores).unwrap();
        let object = parsed.as_object().unwrap();
        assert_eq!(object.len(), 2);
        assert_eq!(object.get("f1").and_then(|score| score.as_i64()), Some(0));
        assert_eq!(object.get("f2").and_then(|score| score.as_i64()), Some(0));
        assert_eq!(entry.scores, "{\"f1\":0,\"f2\":0}");
    }
}

#[test]
fn empty_scores_without_forms_is_the_empty_object() {
    assert_eq!(empty_scores(&vec![]), "{}");
}

#[test]
fn empty_scores_names_each_form_once() {
    let scores = empty_scores(&vec![form("blue"), form("amber"), form("blue")]);
    assert_eq!(scores, "{\"amber\":0,\"blue\":0}");
}

#[test]
fn empty_scores_escapes_identifiers() {
    let scores = empty_scores(&vec![form("a\"b")]);
    let parsed: serde_json::Value = serde_json::from_str(&scores).unwrap();
    assert_eq!(parsed.as_object().unwrap().get("a\"b").unwrap().as_i64(), Some(0));
}

#[test]
fn given_scores_go_into_every_entry() {
    let config = configuration(
        &["boys", "girls"],
        vec![year("y7", "7"), year("y8", "8")],
        vec![form("red")],
        vec![event("a", "A", ApplicabilityRules::All, ApplicabilityRules::All)],
    );
    let plan = build_plan_with_scores(&config, &"{\"red\":5}".to_string());
    assert_eq!(plan.year_plans.len(), 2);
    for year_plan in plan.year_plans.iter() {
        assert_eq!(year_plan.events.len(), 2);
        for entry in year_plan.events.iter() {
            assert_eq!(entry.scores, "{\"red\":5}");
        }
    }
}

#[test]
fn duplicate_identifiers_are_kept_as_they_are() {
    let plan = build_plan(configuration(
        &["boys", "boys"],
        vec![year("y7", "7"), year("y7", "7 again")],
        vec![],
        vec![event("a", "A", ApplicabilityRules::All, ApplicabilityRules::All)],
    ));
    assert_eq!(plan.year_plans.len(), 2);
    assert_eq!(plan.year_plans[1].name, "7 again");
    assert_eq!(
        entry_ids(&plan, 0),
        vec!["y7-boys-a".to_string(), "y7-boys-a".to_string()]
    );
}
