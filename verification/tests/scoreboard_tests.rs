use sportsday_scoreboard_v2::configurator::parser::Form;
use sportsday_scoreboard_v2::db::events::Events;
use sportsday_scoreboard_v2::db::years::Years;
use sportsday_scoreboard_v2::utils::scoreboard::{
    read_points, scoreboard, tally, total, Point, Selection, Total,
};

fn form(id: &str) -> Form {
    Form { id: id.to_string(), name: id.to_uppercase(), colour: "red".to_string() }
}

fn event(year: &str, scores: &str) -> Events {
    Events::new(
        format!("{}-x", year),
        "X".to_string(),
        year.to_string(),
        "mixed".to_string(),
        "x".to_string(),
        scores.to_string(),
    )
}

fn point(year: &str, form: &str, score: i64) -> Point {
    Point { year_id: year.to_string(), form_id: form.to_string(), score }
}

fn sum(id: &str, total: i64) -> Total {
    Total { id: id.to_string(), total }
}

#[test]
fn scoreboard_without_events_is_empty() {
    let board = scoreboard(vec![form("red")], vec![], &vec![]).unwrap();
    assert_eq!(board.scores, vec![]);
    assert_eq!(board.year_totals, vec![]);
    assert_eq!(board.form_totals, vec![sum("red", 0)]);
    assert_eq!(board.grand_total, 0);
    assert_eq!(board.forms.len(), 1);
    assert_eq!(board.years.len(), 0);
}

#[test]
fn scoreboard_sums_by_year_and_form() {
    let events = vec![
        event("y7", "{\"red\":\"10\",\"blue\":\"8\"}"),
        event("y7", "{\"red\":\"6\",\"blue\":\"10\"}"),
        event("y8", "{\"red\":\"4\"}"),
    ];
    let years = vec![
        Years::new("y7".to_string(), "Year 7".to_string()),
        Years::new("y8".to_string(), "Year 8".to_string()),
    ];
    let board = scoreboard(vec![form("red"), form("blue")], years, &events).unwrap();
    assert_eq!(
        board.scores,
        vec![point("y7", "blue", 18), point("y7", "red", 16), point("y8", "red", 4)]
    );
    assert_eq!(board.year_totals, vec![sum("y7", 34), sum("y8", 4)]);
    assert_eq!(board.form_totals, vec![sum("red", 20), sum("blue", 18)]);
    assert_eq!(board.grand_total, 38);
    assert_eq!(board.years.len(), 2);
}

#[test]
fn initial_scores_are_numbers_and_are_passed_over() {
    let events = vec![event("y7", "{\"red\":0,\"blue\":0}"), event("y8", "{\"red\":\"5\"}")];
    let board = scoreboard(vec![form("red"), form("blue")], vec![], &events).unwrap();
    assert_eq!(board.scores, vec![point("y8", "red", 5)]);
    assert_eq!(board.year_totals, vec![sum("y8", 5)]);
    assert_eq!(board.form_totals, vec![sum("red", 5), sum("blue", 0)]);
    assert_eq!(board.grand_total, 5);
}

#[test]
fn a_year_with_readable_scores_and_no_points_has_a_total_of_zero() {
    let events = vec![event("y7", "{}"), event("y8", "{\"red\":\"first\"}"), event("y9", "[]")];
    let board = scoreboard(vec![form("red")], vec![], &events).unwrap();
    assert_eq!(board.scores, vec![]);
    assert_eq!(board.year_totals, vec![sum("y7", 0), sum("y8", 0)]);
    assert_eq!(board.grand_total, 0);
}

#[test]
fn points_of_unconfigured_forms_count_for_the_year_only() {
    let events = vec![event("y7", "{\"red\":\"3\",\"green\":\"4\"}")];
    let board = scoreboard(vec![form("red")], vec![], &events).unwrap();
    assert_eq!(board.scores, vec![point("y7", "green", 4), point("y7", "red", 3)]);
    assert_eq!(board.year_totals, vec![sum("y7", 7)]);
    assert_eq!(board.form_totals, vec![sum("red", 3)]);
    assert_eq!(board.grand_total, 3);
}

#[test]
fn a_form_configured_twice_counts_once() {
    let events = vec![event("y7", "{\"red\":\"3\"}")];
    let board = scoreboard(vec![form("red"), form("red")], vec![], &events).unwrap();
    assert_eq!(board.form_totals, vec![sum("red", 3)]);
    assert_eq!(board.grand_total, 3);
}

#[test]
fn score_texts_are_whole_numbers_with_an_optional_sign() {
    let scores = "{\"a\":\"+7\",\"b\":\"-7\",\"c\":\"007\",\"d\":\" 7\",\"e\":\"7 \",\"f\":\"7.0\",\"g\":\"\",\"h\":\"-\",\"i\":\"1_0\",\"j\":\"-0\",\"k\":\"9223372036854775808\",\"l\":\"-9223372036854775808\"}";
    let reading = read_points(&vec![event("y", scores)]);
    assert_eq!(
        reading.points,
        vec![
            point("y", "a", 7),
            point("y", "b", -7),
            point("y", "c", 7),
            point("y", "j", 0),
            point("y", "l", i64::MIN),
        ]
    );
    assert_eq!(reading.sheet_years, vec!["y".to_string()]);
}

#[test]
fn unreadable_scores_give_no_sheet() {
    let reading = read_points(&vec![
        event("a", "not json"),
        event("b", "{\"red\":1}"),
        event("c", "{\"red\":\"1\"}"),
        event("d", ""),
        event("c", "{\"red\":null}"),
    ]);
    assert_eq!(reading.sheet_years, vec!["c".to_string()]);
    assert_eq!(reading.points, vec![point("c", "red", 1)]);
}

#[test]
fn negative_points_are_subtracted() {
    let points = vec![point("y", "red", 5), point("y", "red", -8), point("z", "red", 1)];
    assert_eq!(
        total(&points, &Selection::Cell { year_id: "y".to_string(), form_id: "red".to_string() }),
        Some(-3)
    );
    assert_eq!(total(&points, &Selection::Year("z".to_string())), Some(1));
    assert_eq!(total(&points, &Selection::Form("red".to_string())), Some(-2));
    assert_eq!(total(&points, &Selection::Forms(vec!["blue".to_string()])), Some(0));
    assert_eq!(
        total(&points, &Selection::Forms(vec!["blue".to_string(), "red".to_string()])),
        Some(-2)
    );
    assert_eq!(total(&vec![], &Selection::Year("y".to_string())), Some(0));
}

#[test]
fn a_total_is_there_exactly_where_it_fits() {
    let year = Selection::Year("y".to_string());
    assert_eq!(total(&vec![point("y", "a", i64::MAX)], &year), Some(i64::MAX));
    assert_eq!(total(&vec![point("y", "a", i64::MIN)], &year), Some(i64::MIN));
    assert_eq!(total(&vec![point("y", "a", i64::MAX), point("y", "b", 1)], &year), None);
    assert_eq!(total(&vec![point("y", "a", i64::MIN), point("y", "b", -1)], &year), None);
    assert_eq!(
        total(&vec![point("y", "a", i64::MAX), point("z", "b", 1)], &year),
        Some(i64::MAX)
    );
}

#[test]
fn sums_on_the_way_may_leave_the_range() {
    let year = Selection::Year("y".to_string());
    let points = vec![
        point("y", "a", i64::MAX),
        point("y", "a", i64::MAX),
        point("y", "a", i64::MIN),
        point("y", "a", i64::MIN),
        point("y", "a", 3),
    ];
    assert_eq!(total(&points, &year), Some(1));
}

#[test]
fn points_that_cancel_each_other_are_shown() {
    let events = vec![event(
        "y7",
        "{\"red\":\"6000000000000000000\",\"blue\":\"-6000000000000000000\"}",
    )];
    let board = scoreboard(vec![form("red"), form("blue")], vec![], &events).unwrap();
    assert_eq!(
        board.scores,
        vec![
            point("y7", "blue", -6000000000000000000),
            point("y7", "red", 6000000000000000000)
        ]
    );
    assert_eq!(board.year_totals, vec![sum("y7", 0)]);
    assert_eq!(
        board.form_totals,
        vec![sum("red", 6000000000000000000), sum("blue", -6000000000000000000)]
    );
    assert_eq!(board.grand_total, 0);
}

#[test]
fn the_largest_score_beside_points_elsewhere_is_shown() {
    let events = vec![
        event("y7", "{\"red\":\"9223372036854775807\"}"),
        event("y8", "{\"blue\":\"1\"}"),
    ];
    let board = scoreboard(vec![form("red")], vec![], &events).unwrap();
    assert_eq!(board.scores, vec![point("y7", "red", i64::MAX), point("y8", "blue", 1)]);
    assert_eq!(board.year_totals, vec![sum("y7", i64::MAX), sum("y8", 1)]);
    assert_eq!(board.form_totals, vec![sum("red", i64::MAX)]);
    assert_eq!(board.grand_total, i64::MAX);
}

#[test]
fn no_scoreboard_where_a_score_does_not_fit() {
    let events = vec![
        event("y7", "{\"red\":\"9223372036854775807\"}"),
        event("y7", "{\"red\":\"1\"}"),
    ];
    assert!(scoreboard(vec![form("red")], vec![], &events).is_none());
    assert!(scoreboard(vec![], vec![], &events).is_none());
}

#[test]
fn no_scoreboard_where_a_year_total_does_not_fit() {
    let events = vec![event("y7", "{\"red\":\"9223372036854775807\",\"blue\":\"1\"}")];
    assert!(scoreboard(vec![], vec![], &events).is_none());
}

#[test]
fn no_scoreboard_where_a_form_total_does_not_fit() {
    let events = vec![
        event("y7", "{\"red\":\"-9223372036854775808\"}"),
        event("y8", "{\"red\":\"-1\"}"),
    ];
    assert!(scoreboard(vec![form("red")], vec![], &events).is_none());
    let board = scoreboard(vec![form("blue")], vec![], &events).unwrap();
    assert_eq!(board.year_totals, vec![sum("y7", i64::MIN), sum("y8", -1)]);
    assert_eq!(board.grand_total, 0);
}

#[test]
fn no_scoreboard_where_the_grand_total_does_not_fit() {
    let events = vec![
        event("y7", "{\"red\":\"9223372036854775807\"}"),
        event("y8", "{\"blue\":\"1\"}"),
    ];
    assert!(scoreboard(vec![form("red"), form("blue")], vec![], &events).is_none());
}

#[test]
fn tally_lists_years_and_forms_where_they_first_occur() {
    let points = vec![
        point("y8", "blue", 1),
        point("y7", "red", 2),
        point("y8", "blue", 3),
        point("y8", "red", 4),
    ];
    let sheet_years =
        vec!["y8".to_string(), "y7".to_string(), "y8".to_string(), "y9".to_string()];
    let board =
        tally(vec![form("red"), form("blue"), form("gold")], vec![], &sheet_years, &points).unwrap();
    assert_eq!(
        board.scores,
        vec![point("y8", "blue", 4), point("y7", "red", 2), point("y8", "red", 4)]
    );
    assert_eq!(board.year_totals, vec![sum("y8", 8), sum("y7", 2), sum("y9", 0)]);
    assert_eq!(board.form_totals, vec![sum("red", 6), sum("blue", 4), sum("gold", 0)]);
    assert_eq!(board.grand_total, 10);
}
