use sportsday_scoreboard_v2::configurator::parser::Year;
use sportsday_scoreboard_v2::db::events::Events;
use sportsday_scoreboard_v2::routes::admin::sqlite::{
    is_dangerous_command, names_dangerous_pattern, Execution, SqliteCommand, SqliteResult,
};
use sportsday_scoreboard_v2::routes::admin::users::{is_ticked, UpdateProps};
use sportsday_scoreboard_v2::routes::results::{year_name, ResultsEvent};

fn years() -> Vec<Year> {
    vec![
        Year { id: "y7".to_string(), name: "Year 7".to_string() },
        Year { id: "y8".to_string(), name: "Year 8".to_string() },
        Year { id: "y7".to_string(), name: "Year 7 again".to_string() },
    ]
}

#[test]
fn every_pattern_is_dangerous() {
    for command in [
        ".quit",
        ".exit",
        ".shell ls",
        ".system ls",
        ".load ext",
        ".import a b",
        ".output file",
        ".backup main file",
        ".restore main file",
        "attach database 'x' as y",
        "detach database y",
    ] {
        assert!(is_dangerous_command(command), "{}", command);
    }
}

#[test]
fn patterns_are_found_anywhere_and_in_any_case() {
    assert!(is_dangerous_command("select 1; .QUIT"));
    assert!(is_dangerous_command("ATTACH DATABASE 'x' AS y"));
    assert!(is_dangerous_command("  .Shell rm"));
    assert!(is_dangerous_command("x.exitx"));
}

#[test]
fn ordinary_queries_are_not_dangerous() {
    assert!(!is_dangerous_command("select * from events"));
    assert!(!is_dangerous_command(".tables"));
    assert!(!is_dangerous_command(".schema"));
    assert!(!is_dangerous_command(""));
    assert!(!is_dangerous_command("attach  database"));
    assert!(!is_dangerous_command("attachdatabase"));
    assert!(!is_dangerous_command("quit"));
}

#[test]
fn lowered_text_is_searched_as_it_is() {
    assert!(names_dangerous_pattern(".quit"));
    assert!(!names_dangerous_pattern(".QUIT"));
    assert!(!names_dangerous_pattern("select 1"));
}

#[test]
fn dangerous_command_is_blocked() {
    let command = SqliteCommand { query: "  .shell ls  ".to_string() };
    match command.prepare() {
        Execution::Blocked(report) => {
            assert!(!report.success);
            assert_eq!(report.output, "");
            assert_eq!(
                report.error,
                Some("Dangerous command blocked for security reasons".to_string())
            );
        }
        Execution::Run(_) => panic!("a dangerous command is not run"),
    }
}

#[test]
fn ordinary_command_runs_without_its_outer_white_space() {
    let command = SqliteCommand { query: "  select 1;\n".to_string() };
    match command.prepare() {
        Execution::Run(query) => assert_eq!(query, "select 1;"),
        Execution::Blocked(_) => panic!("an ordinary command is run"),
    }
    match SqliteCommand::decide(" select 1 ") {
        Execution::Run(query) => assert_eq!(query, " select 1 "),
        Execution::Blocked(_) => panic!("an ordinary command is run"),
    }
}

#[test]
fn report_of_a_command_that_ended_well() {
    let report = SqliteResult::finished(true, "1\n".to_string(), "warning".to_string());
    assert!(report.success);
    assert_eq!(report.output, "1\n");
    assert_eq!(report.error, None);
}

#[test]
fn report_of_a_command_that_ended_badly() {
    let report = SqliteResult::finished(false, "".to_string(), "no such table".to_string());
    assert!(!report.success);
    assert_eq!(report.output, "");
    assert_eq!(report.error, Some("no such table".to_string()));
}

#[test]
fn report_of_a_command_that_did_not_start() {
    let report = SqliteResult::failed("No such file or directory");
    assert!(!report.success);
    assert_eq!(report.output, "");
    assert_eq!(
        report.error,
        Some("Failed to execute command: No such file or directory".to_string())
    );
}

#[test]
fn a_box_is_ticked_only_with_on() {
    assert!(is_ticked(&Some("on".to_string())));
    assert!(!is_ticked(&Some("On".to_string())));
    assert!(!is_ticked(&Some("off".to_string())));
    assert!(!is_ticked(&Some("".to_string())));
    assert!(!is_ticked(&None));
}

#[test]
fn form_describes_a_user_that_is_not_stored() {
    let form = UpdateProps {
        email: "a@example.com".to_string(),
        has_admin: Some("on".to_string()),
        has_set_score: None,
    };
    let user = form.user();
    assert_eq!(user.id, None);
    assert_eq!(user.email, "a@example.com");
    assert!(user.has_admin);
    assert!(!user.has_set_score);
}

#[test]
fn year_name_is_that_of_the_first_year_with_the_identifier() {
    assert_eq!(year_name(&years(), &"y7".to_string()), Some("Year 7".to_string()));
    assert_eq!(year_name(&years(), &"y8".to_string()), Some("Year 8".to_string()));
    assert_eq!(year_name(&years(), &"y9".to_string()), None);
    assert_eq!(year_name(&vec![], &"y7".to_string()), None);
}

#[test]
fn results_line_names_the_year() {
    let event = Events::new(
        "y8-boys-run".to_string(),
        "Run".to_string(),
        "y8".to_string(),
        "boys".to_string(),
        "run".to_string(),
        "{\"red\":\"3\"}".to_string(),
    );
    let line = ResultsEvent::of(&event, &years()).unwrap();
    assert_eq!(line.name, "Run");
    assert_eq!(line.year, "Year 8");
    assert_eq!(line.group, "boys");
    assert_eq!(line.scores, "{\"red\":\"3\"}");
}

#[test]
fn no_results_line_for_an_unknown_year() {
    let event = Events::new(
        "y9-boys-run".to_string(),
        "Run".to_string(),
        "y9".to_string(),
        "boys".to_string(),
        "run".to_string(),
        "{}".to_string(),
    );
    assert!(ResultsEvent::of(&event, &years()).is_none());
}
