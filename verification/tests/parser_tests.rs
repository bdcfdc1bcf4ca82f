use sportsday_scoreboard_v2::configurator::parser::{
    contains_id, ApplicabilityRules, Configuration, Event,
};

fn empty_configuration() -> Configuration {
    Configuration {
        version: "1.0.0".to_string(),
        genders: vec![],
        scores: vec![],
        years: vec![],
        forms: vec![],
        events: vec![],
    }
}

fn event_with(years: ApplicabilityRules, genders: ApplicabilityRules) -> Event {
    Event {
        id: "test".to_string(),
        name: "Test".to_string(),
        applicable_years: years,
        applicable_genders: genders,
    }
}

#[test]
fn test_configuration_is_event_applicable_to_year_all() {
    let config = Configuration {
        version: "1.0.0".to_string(),
        genders: vec![],
        scores: vec![],
        years: vec![],
        forms: vec![],
        events: vec![],
    };

    let event = Event {
        id: "test".to_string(),
        name: "Test".to_string(),
        applicable_years: ApplicabilityRules::All,
        applicable_genders: ApplicabilityRules::All,
    };

    assert!(config.is_event_applicable_to_year(&event, "year7"));
    assert!(config.is_event_applicable_to_year(&event, "year8"));
}

#[test]
fn test_configuration_is_event_applicable_to_year_none() {
    let config = Configuration {
        version: "1.0.0".to_string(),
        genders: vec![],
        scores: vec![],
        years: vec![],
        forms: vec![],
        events: vec![],
    };

    let event = Event {
        id: "test".to_string(),
        name: "Test".to_string(),
        applicable_years: ApplicabilityRules::Nothing,
        applicable_genders: ApplicabilityRules::All,
    };

    assert!(!config.is_event_applicable_to_year(&event, "year7"));
}

#[test]
fn test_configuration_is_event_applicable_to_year_include() {
    let config = Configuration {
        version: "1.0.0".to_string(),
        genders: vec![],
        scores: vec![],
        years: vec![],
        forms: vec![],
        events: vec![],
    };

    let event = Event {
        id: "test".to_string(),
        name: "Test".to_string(),
        applicable_years: ApplicabilityRules::Include {
            ids: vec!["year7".to_string(), "year8".to_string()],
        },
        applicable_genders: ApplicabilityRules::All,
    };

    assert!(config.is_event_applicable_to_year(&event, "year7"));
    assert!(config.is_event_applicable_to_year(&event, "year8"));
    assert!(!config.is_event_applicable_to_year(&event, "year9"));
}

#[test]
fn test_configuration_is_event_applicable_to_year_exclude() {
    let config = Configuration {
        version: "1.0.0".to_string(),
        genders: vec![],
        scores: vec![],
        years: vec![],
        forms: vec![],
        events: vec![],
    };

    let event = Event {
        id: "test".to_string(),
        name: "Test".to_string(),
        applicable_years: ApplicabilityRules::Exclude {
            ids: vec!["year7".to_string()],
        },
        applicable_genders: ApplicabilityRules::All,
    };

    assert!(!config.is_event_applicable_to_year(&event, "year7"));
    assert!(config.is_event_applicable_to_year(&event, "year8"));
    assert!(config.is_event_applicable_to_year(&event, "year9"));
}

#[test]
fn test_configuration_is_event_applicable_to_gender_all() {
    let config = Configuration {
        version: "1.0.0".to_string(),
        genders: vec![],
        scores: vec![],
        years: vec![],
        forms: vec![],
        events: vec![],
    };

    let event = Event {
        id: "test".to_string(),
        name: "Test".to_string(),
        applicable_years: ApplicabilityRules::All,
        applicable_genders: ApplicabilityRules::All,
    };

    assert!(config.is_event_applicable_to_gender(&event, "boys"));
    assert!(config.is_event_applicable_to_gender(&event, "girls"));
    assert!(config.is_event_applicable_to_gender(&event, "mixed"));
}

#[test]
fn test_configuration_is_event_applicable_to_gender_include() {
    let config = Configuration {
        version: "1.0.0".to_string(),
        genders: vec![],
        scores: vec![],
        years: vec![],
        forms: vec![],
        events: vec![],
    };

    let event = Event {
        id: "test".to_string(),
        name: "Test".to_string(),
        applicable_years: ApplicabilityRules::All,
        applicable_genders: ApplicabilityRules::Include {
            ids: vec!["boys".to_string()],
        },
    };

    assert!(config.is_event_applicable_to_gender(&event, "boys"));
    assert!(!config.is_event_applicable_to_gender(&event, "girls"));
}

#[test]
fn test_configuration_get_version() {
    let config = Configuration {
        version: "2.5.3".to_string(),
        genders: vec![],
        scores: vec![],
        years: vec![],
        forms: vec![],
        events: vec![],
    };

    assert_eq!(config.get_version(), "2.5.3");
}

#[test]
fn gender_rule_nothing_applies_to_no_gender() {
    let config = empty_configuration();
    let event = event_with(ApplicabilityRules::All, ApplicabilityRules::Nothing);
    assert!(!config.is_event_applicable_to_gender(&event, "boys"));
    assert!(!config.is_event_applicable_to_gender(&event, ""));
}

#[test]
fn gender_rule_exclude_applies_to_the_others() {
    let config = empty_configuration();
    let event = event_with(
        ApplicabilityRules::All,
        ApplicabilityRules::Exclude {
            ids: vec!["girls".to_string(), "mixed".to_string()],
        },
    );
    assert!(config.is_event_applicable_to_gender(&event, "boys"));
    assert!(!config.is_event_applicable_to_gender(&event, "girls"));
    assert!(!config.is_event_applicable_to_gender(&event, "mixed"));
    assert!(config.is_event_applicable_to_gender(&event, "unknown"));
}

#[test]
fn year_rule_looks_at_years_only() {
    let config = empty_configuration();
    let event = event_with(ApplicabilityRules::Nothing, ApplicabilityRules::All);
    assert!(!config.is_event_applicable_to_year(&event, "year7"));
    assert!(config.is_event_applicable_to_gender(&event, "year7"));
}

#[test]
fn empty_lists_include_nothing_and_exclude_nothing() {
    let only_listed = ApplicabilityRules::Include { ids: vec![] };
    let all_but_listed = ApplicabilityRules::Exclude { ids: vec![] };
    assert!(!only_listed.applies_to("year7"));
    assert!(all_but_listed.applies_to("year7"));
}

#[test]
fn identifiers_are_compared_exactly() {
    let ids = vec!["year7".to_string(), "year8".to_string()];
    assert!(contains_id(&ids, "year8"));
    assert!(!contains_id(&ids, "Year8"));
    assert!(!contains_id(&ids, "year"));
    assert!(!contains_id(&ids, "year8 "));
    assert!(!contains_id(&[].to_vec(), "year8"));
}

#[test]
fn rules_apply_by_variant() {
    assert!(ApplicabilityRules::All.applies_to("anything"));
    assert!(!ApplicabilityRules::Nothing.applies_to("anything"));
}
