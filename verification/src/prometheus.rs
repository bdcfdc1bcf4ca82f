//! Process metrics: what the kernel's `stat` and `status` texts say of the
//! time and memory that this process uses.

use vstd::prelude::*;

use crate::model::texts;
use crate::utils::numbers::{count_of, optional_count, parse_count};

verus! {

/// The lines of a text, as `str::lines` gives them.
pub uninterp spec fn lines_of(text: Seq<char>) -> Seq<Seq<char>>;

/// The words of a text, as `str::split_whitespace` gives them: its parts
/// between white space.
pub uninterp spec fn words_of(text: Seq<char>) -> Seq<Seq<char>>;

/// Whether `text` begins with `prefix`.
pub open spec fn begins_with(text: Seq<char>, prefix: Seq<char>) -> bool {
    prefix.len() <= text.len() && text.subrange(0, prefix.len() as int) == prefix
}

/// `str::lines`, each line as a string of its own.
#[verifier::external_body]
fn lines(text: &str) -> (lines: Vec<String>)
    ensures
        texts(lines@) == lines_of(text@),
{
    text.lines().map(str::to_owned).collect()
}

/// `str::split_whitespace`, each word as a string of its own.
#[verifier::external_body]
fn words(text: &str) -> (words: Vec<String>)
    ensures
        texts(words@) == words_of(text@),
{
    text.split_whitespace().map(str::to_owned).collect()
}

/// `str::starts_with` with a string pattern.
#[verifier::external_body]
fn starts_with(text: &str, prefix: &str) -> (begins: bool)
    ensures
        begins == begins_with(text@, prefix@),
{
    text.starts_with(prefix)
}

/// The sum of the counts among the words, where it fits a count, and the
/// largest count where it does not. Words that denote no count add nothing.
pub open spec fn counts_sum(words: Seq<Seq<char>>) -> int
    decreases words.len(),
{
    if words.len() == 0 {
        0
    } else {
        let before = counts_sum(words.drop_last());
        let sum = match count_of(words.last()) {
            Some(count) => before + count,
            None => before,
        };
        if sum > u64::MAX {
            u64::MAX as int
        } else {
            sum
        }
    }
}

/// The words of a line but the first.
pub open spec fn fields(words: Seq<Seq<char>>) -> Seq<Seq<char>> {
    if words.len() > 0 {
        words.skip(1)
    } else {
        words
    }
}

/// The time that all processors have spent, by the first line of `lines`
/// that begins with `cpu` and a space: the sum of the counts after its first
/// word. There is none where no line begins so.
pub open spec fn total_jiffies_in(lines: Seq<Seq<char>>) -> Option<int>
    decreases lines.len(),
{
    if lines.len() == 0 {
        None
    } else if begins_with(lines[0], "cpu "@) {
        Some(counts_sum(fields(words_of(lines[0]))))
    } else {
        total_jiffies_in(lines.drop_first())
    }
}

/// The time that this process has spent, by the words of its `stat` text:
/// the sum of the fourteenth and fifteenth word, its time in user and in
/// kernel mode, or the largest count where the sum does not fit. There is
/// none where the text has fewer than sixteen words, or where one of the two
/// denotes no count.
pub open spec fn proc_jiffies_in(words: Seq<Seq<char>>) -> Option<int> {
    if words.len() > 15 {
        match (count_of(words[13]), count_of(words[14])) {
            (Some(user), Some(kernel)) => Some(
                if user + kernel > u64::MAX {
                    u64::MAX as int
                } else {
                    user + kernel
                },
            ),
            _ => None,
        }
    } else {
        None
    }
}

/// The resident memory in kilobytes that a line of the `status` text states:
/// the count in the second word of a line that begins with `VmRSS:`.
pub open spec fn resident_kilobytes(line: Seq<char>) -> Option<int> {
    if begins_with(line, "VmRSS:"@) && words_of(line).len() >= 2 {
        count_of(words_of(line)[1])
    } else {
        None
    }
}

/// The resident memory in bytes, by the first line of `lines` that states
/// it. There is none where no line states it, or where the number of bytes
/// does not fit a count.
pub open spec fn rss_bytes_in(lines: Seq<Seq<char>>) -> Option<int>
    decreases lines.len(),
{
    if lines.len() == 0 {
        None
    } else {
        match resident_kilobytes(lines[0]) {
            Some(kilobytes) => if kilobytes * 1024 <= u64::MAX {
                Some(kilobytes * 1024)
            } else {
                None
            },
            None => rss_bytes_in(lines.drop_first()),
        }
    }
}

/// The sum of the counts among `words` from position `from` on, at most the
/// largest count.
fn sum_counts(words: &Vec<String>, from: usize) -> (sum: u64)
    requires
        from <= words.len(),
    ensures
        sum == counts_sum(texts(words@).skip(from as int)),
{
    let ghost all = texts(words@).skip(from as int);
    let mut sum: u64 = 0;
    let mut i: usize = from;
    assert(all.take(0).len() == 0);
    while i < words.len()
        invariant
            from <= i <= words.len(),
            all == texts(words@).skip(from as int),
            sum == counts_sum(all.take(i - from)),
        decreases words.len() - i,
    {
        assert(all.take(i - from + 1).drop_last() == all.take(i - from));
        assert(all.take(i - from + 1).last() == words[i as int]@);
        match parse_count(words[i].as_str()) {
            Some(count) => {
                sum = sum.saturating_add(count);
            },
            None => {},
        }
        i += 1;
    }
    assert(all.take(i - from) == all);
    sum
}

/// The time that all processors have spent, in jiffies, by the kernel's
/// `stat` text.
pub fn read_total_jiffies(stat: &str) -> (jiffies: Option<u64>)
    ensures
        optional_count(jiffies) == total_jiffies_in(lines_of(stat@)),
{
    let lines = lines(stat);
    let mut i: usize = 0;
    assert(texts(lines@).skip(0) == texts(lines@));
    while i < lines.len()
        invariant
            i <= lines.len(),
            texts(lines@) == lines_of(stat@),
            total_jiffies_in(texts(lines@)) == total_jiffies_in(texts(lines@).skip(i as int)),
        decreases lines.len() - i,
    {
        let ghost rest = texts(lines@).skip(i as int);
        assert(rest[0] == lines[i as int]@);
        assert(rest.drop_first() == texts(lines@).skip(i + 1));
        if starts_with(lines[i].as_str(), "cpu ") {
            let words = words(lines[i].as_str());
            if words.len() > 0 {
                return Some(sum_counts(&words, 1));
            } else {
                assert(texts(words@).skip(0) == texts(words@));
                return Some(sum_counts(&words, 0));
            }
        }
        i += 1;
    }
    assert(texts(lines@).skip(i as int).len() == 0);
    None
}

/// The time that this process has spent, in jiffies, by its `stat` text.
pub fn read_proc_jiffies(stat: &str) -> (jiffies: Option<u64>)
    ensures
        optional_count(jiffies) == proc_jiffies_in(words_of(stat@)),
{
    let words = words(stat);
    if words.len() > 15 {
        assert(texts(words@)[13] == words[13]@);
        assert(texts(words@)[14] == words[14]@);
        match parse_count(words[13].as_str()) {
            Some(user) => match parse_count(words[14].as_str()) {
                Some(kernel) => Some(user.saturating_add(kernel)),
                None => None,
            },
            None => None,
        }
    } else {
        None
    }
}

/// The resident memory of this process, in bytes, by its `status` text.
pub fn read_proc_rss_bytes(status: &str) -> (bytes: Option<u64>)
    ensures
        optional_count(bytes) == rss_bytes_in(lines_of(status@)),
{
    let lines = lines(status);
    let mut i: usize = 0;
    assert(texts(lines@).skip(0) == texts(lines@));
    while i < lines.len()
        invariant
            i <= lines.len(),
            texts(lines@) == lines_of(status@),
            rss_bytes_in(texts(lines@)) == rss_bytes_in(texts(lines@).skip(i as int)),
        decreases lines.len() - i,
    {
        let ghost rest = texts(lines@).skip(i as int);
        assert(rest[0] == lines[i as int]@);
        assert(rest.drop_first() == texts(lines@).skip(i + 1));
        if starts_with(lines[i].as_str(), "VmRSS:") {
            let words = words(lines[i].as_str());
            if words.len() >= 2 {
                assert(texts(words@)[1] == words[1]@);
                match parse_count(words[1].as_str()) {
                    Some(kilobytes) => {
                        return kilobytes.checked_mul(1024);
                    },
                    None => {},
                }
            }
        }
        i += 1;
    }
    assert(texts(lines@).skip(i as int).len() == 0);
    None
}

/// The time spent up to some moment, in jiffies.
#[derive(Clone, Copy, PartialEq, Eq, Debug)]
pub struct Jiffies {
    /// By all processors.
    pub total: u64,
    /// By this process.
    pub process: u64,
}

/// The time spent between two moments, in jiffies.
#[derive(Clone, Copy, PartialEq, Eq, Debug)]
pub struct Usage {
    /// By all processors: more than none.
    pub total: u64,
    /// By this process.
    pub process: u64,
}

/// The difference of two counts, and none where the first is the smaller.
pub open spec fn elapsed(now: u64, before: u64) -> u64 {
    if now >= before {
        (now - before) as u64
    } else {
        0
    }
}

impl Jiffies {
    /// The time spent since `previous`, where the processors spent any: only
    /// then is there a share that the process had of it.
    pub fn since(&self, previous: &Jiffies) -> (usage: Option<Usage>)
        ensures
            usage == if elapsed(self.total, previous.total) > 0 {
                Some(
                    Usage {
                        total: elapsed(self.total, previous.total),
                        process: elapsed(self.process, previous.process),
                    },
                )
            } else {
                None
            },
    {
        let total = self.total.saturating_sub(previous.total);
        let process = self.process.saturating_sub(previous.process);
        if total > 0 {
            Some(Usage { total, process })
        } else {
            None
        }
    }
}

} // verus!
