//! The admin console's SQLite prompt: which commands are refused, and what
//! is reported of a command that ran.

use vstd::prelude::*;
use vstd::string::StringExecFns;

verus! {

/// A command for the SQLite prompt.
pub struct SqliteCommand {
    pub query: String,
}

/// What the prompt reports of a command.
pub struct SqliteResult {
    /// Whether the command ran and ended well.
    pub success: bool,
    /// What the command printed.
    pub output: String,
    /// What went wrong, if anything did.
    pub error: Option<String>,
}

/// Mathematical content of a [`SqliteResult`].
pub struct SqliteResultView {
    pub success: bool,
    pub output: Seq<char>,
    pub error: Option<Seq<char>>,
}

impl View for SqliteResult {
    type V = SqliteResultView;

    open spec fn view(&self) -> SqliteResultView {
        SqliteResultView {
            success: self.success,
            output: self.output@,
            error: match self.error {
                Some(error) => Some(error@),
                None => None,
            },
        }
    }
}

/// What to do with a command.
pub enum Execution {
    /// Refuse it, with this report.
    Blocked(SqliteResult),
    /// Run this query.
    Run(String),
}

/// The lower-case form of a text, as `str::to_lowercase` gives it.
pub uninterp spec fn lowercased(text: Seq<char>) -> Seq<char>;

/// A text without the white space at its two ends, as `str::trim` gives it.
pub uninterp spec fn trimmed(text: Seq<char>) -> Seq<char>;

/// Whether `pattern` occurs in `text` as a run of consecutive characters.
pub open spec fn occurs_in(pattern: Seq<char>, text: Seq<char>) -> bool {
    exists|start: int|
        0 <= start <= text.len() - pattern.len() && #[trigger] text.subrange(
            start,
            start + pattern.len(),
        ) == pattern
}

/// The patterns that make a command dangerous: the dot commands that leave
/// the prompt, reach the shell or the file system, and the statements that
/// attach or detach a database.
pub open spec fn dangerous_patterns() -> Seq<Seq<char>> {
    seq![
        ".quit"@,
        ".exit"@,
        ".shell"@,
        ".system"@,
        ".load"@,
        ".import"@,
        ".output"@,
        ".backup"@,
        ".restore"@,
        "attach database"@,
        "detach database"@,
    ]
}

/// Whether a text in lower case holds one of the dangerous patterns.
pub open spec fn holds_dangerous_pattern(lowered: Seq<char>) -> bool {
    exists|k: int|
        0 <= k < dangerous_patterns().len() && occurs_in(#[trigger] dangerous_patterns()[k], lowered)
}

/// `str::to_lowercase`: the text with every character in lower case, by
/// Unicode's rules.
#[verifier::external_body]
fn to_lowercase(text: &str) -> (lowered: String)
    ensures
        lowered@ == lowercased(text@),
{
    text.to_lowercase()
}

/// `str::trim`: the text without leading and trailing white space, by
/// Unicode's definition of white space.
#[verifier::external_body]
fn trim(text: &str) -> (inner: &str)
    ensures
        inner@ == trimmed(text@),
{
    text.trim()
}

/// `str::contains` with a string pattern: whether the pattern matches a part
/// of the text.
#[verifier::external_body]
fn contains(text: &str, pattern: &str) -> (found: bool)
    ensures
        found == occurs_in(pattern@, text@),
{
    text.contains(pattern)
}

/// Whether `lowered`, a command in lower case, holds a dangerous pattern.
pub fn names_dangerous_pattern(lowered: &str) -> (dangerous: bool)
    ensures
        dangerous == holds_dangerous_pattern(lowered@),
{
    let dangerous = contains(lowered, ".quit") || contains(lowered, ".exit") || contains(
        lowered,
        ".shell",
    ) || contains(lowered, ".system") || contains(lowered, ".load") || contains(
        lowered,
        ".import",
    ) || contains(lowered, ".output") || contains(lowered, ".backup") || contains(
        lowered,
        ".restore",
    ) || contains(lowered, "attach database") || contains(lowered, "detach database");
    proof {
        let patterns = dangerous_patterns();
        assert(patterns.len() == 11);
        if dangerous {
            let k = if occurs_in(patterns[0], lowered@) {
                0int
            } else if occurs_in(patterns[1], lowered@) {
                1
            } else if occurs_in(patterns[2], lowered@) {
                2
            } else if occurs_in(patterns[3], lowered@) {
                3
            } else if occurs_in(patterns[4], lowered@) {
                4
            } else if occurs_in(patterns[5], lowered@) {
                5
            } else if occurs_in(patterns[6], lowered@) {
                6
            } else if occurs_in(patterns[7], lowered@) {
                7
            } else if occurs_in(patterns[8], lowered@) {
                8
            } else if occurs_in(patterns[9], lowered@) {
                9
            } else {
                10
            };
            assert(occurs_in(patterns[k], lowered@));
        }
    }
    dangerous
}

/// Whether the prompt refuses `query`: whether its lower-case form holds a
/// dangerous pattern. Capitals do not hide a pattern.
pub fn is_dangerous_command(query: &str) -> (dangerous: bool)
    ensures
        dangerous == holds_dangerous_pattern(lowercased(query@)),
{
    let lowered = to_lowercase(query);
    names_dangerous_pattern(lowered.as_str())
}

/// The report on a refused command.
pub open spec fn blocked_report() -> SqliteResultView {
    SqliteResultView {
        success: false,
        output: Seq::empty(),
        error: Some("Dangerous command blocked for security reasons"@),
    }
}

impl SqliteResult {
    /// The report on a refused command.
    pub fn blocked() -> (report: Self)
        ensures
            report@ == blocked_report(),
    {
        Self {
            success: false,
            output: String::new(),
            error: Some("Dangerous command blocked for security reasons".to_owned()),
        }
    }

    /// The report on a command that ran: what it printed, and, where it
    /// ended badly, what it printed as errors.
    pub fn finished(succeeded: bool, printed: String, errors: String) -> (report: Self)
        ensures
            report@ == (SqliteResultView {
                success: succeeded,
                output: printed@,
                error: if succeeded {
                    None
                } else {
                    Some(errors@)
                },
            }),
    {
        if succeeded {
            Self { success: true, output: printed, error: None }
        } else {
            Self { success: false, output: printed, error: Some(errors) }
        }
    }

    /// The report on a command that could not be started, for the given
    /// reason.
    pub fn failed(reason: &str) -> (report: Self)
        ensures
            report@ == (SqliteResultView {
                success: false,
                output: Seq::empty(),
                error: Some("Failed to execute command: "@ + reason@),
            }),
    {
        let mut error = "Failed to execute command: ".to_owned();
        error.append(reason);
        Self { success: false, output: String::new(), error: Some(error) }
    }
}

impl SqliteCommand {
    /// Decides what to do with the command, given its query without the
    /// white space at its ends: a dangerous query is refused, any other is to
    /// be run as it is.
    pub fn decide(query: &str) -> (execution: Execution)
        ensures
            match execution {
                Execution::Blocked(report) => holds_dangerous_pattern(lowercased(query@))
                    && report@ == blocked_report(),
                Execution::Run(accepted) => !holds_dangerous_pattern(lowercased(query@))
                    && accepted@ == query@,
            },
    {
        if is_dangerous_command(query) {
            Execution::Blocked(SqliteResult::blocked())
        } else {
            Execution::Run(query.to_owned())
        }
    }

    /// Decides what to do with the command: its query is first taken without
    /// the white space at its ends.
    pub fn prepare(&self) -> (execution: Execution)
        ensures
            match execution {
                Execution::Blocked(report) => holds_dangerous_pattern(
                    lowercased(trimmed(self.query@)),
                ) && report@ == blocked_report(),
                Execution::Run(accepted) => !holds_dangerous_pattern(
                    lowercased(trimmed(self.query@)),
                ) && accepted@ == trimmed(self.query@),
            },
    {
        Self::decide(trim(self.query.as_str()))
    }
}

} // verus!
