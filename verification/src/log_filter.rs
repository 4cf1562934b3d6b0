//! Filtering an indexer's log: what is passed on to a subscriber, and what is held back
//! as noise or repetition.

use vstd::prelude::*;
use vstd::string::*;

verus! {

use crate::decimal::{decimal, decimal_chars};
use crate::envio_utils::project::{
    option_text,
    IndexerLogMessage,
    IndexerProgress,
    ProgressView,
};
use crate::text::{
    chars_of,
    contains,
    contains_str,
    push_chars,
    push_str_chars,
    same_chars,
    string_of,
    trim,
    trimmed,
};

/// A message of an indexer's log as a mathematical value.
pub enum LogMessageView {
    Stdout(Seq<char>),
    Stderr(Seq<char>),
    Progress(ProgressView),
}

impl View for IndexerLogMessage {
    type V = LogMessageView;

    open spec fn view(&self) -> LogMessageView {
        match self {
            IndexerLogMessage::Stdout(line) => LogMessageView::Stdout(line@),
            IndexerLogMessage::Stderr(line) => LogMessageView::Stderr(line@),
            IndexerLogMessage::Progress(progress) => LogMessageView::Progress(progress@),
        }
    }
}

/// The state of a filter as a mathematical value.
pub struct FilterView {
    /// The lines of standard output that were passed on.
    pub seen: Set<Seq<char>>,
    /// Whether the logo was announced.
    pub shown_logo: bool,
    /// The progress that was passed on last.
    pub last_progress: Option<ProgressView>,
}

/// The first line of the indexer's logo, which announces it.
pub open spec fn logo_top() -> Seq<char> {
    "\u{2588}\u{2588}\u{2588}\u{2588}\u{2588}\u{2588}\u{2588}\u{2557}"@
}

/// The line is part of the indexer's logo.
pub open spec fn is_logo_line(line: Seq<char>) -> bool {
    ||| contains(line, logo_top())
    ||| contains(line, "\u{2588}\u{2588}\u{2554}\u{2550}\u{2550}\u{2550}\u{2550}\u{255d}"@)
    ||| contains(line, "\u{2588}\u{2588}\u{2588}\u{2588}\u{2588}\u{2557}"@)
    ||| contains(line, "\u{2588}\u{2588}\u{2554}\u{2550}\u{2550}\u{255d}"@)
    ||| contains(line, "\u{255a}\u{2550}\u{2550}\u{2550}\u{2550}\u{2550}\u{2550}\u{255d}"@)
}

/// The line reports on the indexer's state, and is passed on even if it repeats itself.
pub open spec fn always_shown(line: Seq<char>) -> bool {
    ||| contains(line, "Events Processed:"@)
    ||| contains(line, "Sync Time ETA:"@)
    ||| contains(line, "GraphQL:"@)
    ||| contains(line, "Chain ID:"@)
}

/// The distance between two numbers.
pub open spec fn distance(a: usize, b: usize) -> int {
    if a > b {
        a - b
    } else {
        b - a
    }
}

/// The progress differs from the last one that was passed on in a way that matters: in
/// the events processed, the chain or the estimate, or by five or more points of
/// percentage. The first progress always matters.
pub open spec fn significant(progress: ProgressView, last: Option<ProgressView>) -> bool {
    match last {
        None => true,
        Some(last) => {
            ||| progress.events_processed != last.events_processed
            ||| progress.chain_id != last.chain_id
            ||| progress.eta != last.eta
            ||| (progress.percentage is Some && last.percentage is Some && distance(
                progress.percentage->0,
                last.percentage->0,
            ) >= 5)
        },
    }
}

/// A number, or zero where there is none, as a numeral.
pub open spec fn count_text(count: Option<usize>) -> Seq<char> {
    match count {
        Some(n) => decimal(n as nat),
        None => decimal(0),
    }
}

/// A text, or `unknown` where there is none.
pub open spec fn known_text(text: Option<Seq<char>>) -> Seq<char> {
    match text {
        Some(text) => text,
        None => "unknown"@,
    }
}

/// The line that reports a progress.
pub open spec fn progress_message(progress: ProgressView) -> Seq<char> {
    "PROGRESS: Events: "@ + count_text(progress.events_processed) + ", Blocks: "@ + count_text(
        progress.blocks_current,
    ) + "/"@ + count_text(progress.blocks_total) + ", Chain: "@ + known_text(progress.chain_id)
        + ", "@ + count_text(progress.percentage) + "%, ETA: "@ + known_text(progress.eta)
}

/// What a filter makes of a message that arrives `elapsed_nanos` nanoseconds after the
/// last progress was passed on: its next state, and the line to pass on if there is one.
///
/// Of standard output, blank lines are dropped; the logo is replaced by one
/// announcement; a line is passed on if it reports on the indexer's state or was not
/// passed on before. Standard error is passed on as an error. Progress is passed on if
/// it matters or if more than five seconds have gone by.
pub open spec fn filter_step(f: FilterView, message: LogMessageView, elapsed_nanos: u128) -> (
    FilterView,
    Option<Seq<char>>,
) {
    match message {
        LogMessageView::Stdout(line) => {
            if trim(line).len() == 0 {
                (f, None)
            } else if is_logo_line(line) {
                if !f.shown_logo && contains(line, logo_top()) {
                    (FilterView { shown_logo: true, ..f }, Some("[Indexer Logo displayed]"@))
                } else {
                    (f, None)
                }
            } else if always_shown(line) || !f.seen.contains(line) {
                (FilterView { seen: f.seen.insert(line), ..f }, Some(line))
            } else {
                (f, None)
            }
        },
        LogMessageView::Stderr(line) => (f, Some("ERROR: "@ + line)),
        LogMessageView::Progress(progress) => {
            if elapsed_nanos > 5_000_000_000 || significant(progress, f.last_progress) {
                (
                    FilterView { last_progress: Some(progress), ..f },
                    Some(progress_message(progress)),
                )
            } else {
                (f, None)
            }
        },
    }
}

/// The texts of the lines, as a set.
pub open spec fn seen_set(lines: Seq<String>) -> Set<Seq<char>> {
    Set::new(|text: Seq<char>| exists|i: int| 0 <= i < lines.len() && lines[i]@ == text)
}

/// The progress of an optional record.
pub open spec fn optional_progress(progress: Option<IndexerProgress>) -> Option<ProgressView> {
    match progress {
        Some(progress) => Some(progress@),
        None => None,
    }
}

/// Whether the line is part of the indexer's logo.
pub fn logo_line(line: &Vec<char>) -> (r: bool)
    ensures
        r == is_logo_line(line@),
{
    contains_str(line, "\u{2588}\u{2588}\u{2588}\u{2588}\u{2588}\u{2588}\u{2588}\u{2557}")
        || contains_str(line, "\u{2588}\u{2588}\u{2554}\u{2550}\u{2550}\u{2550}\u{2550}\u{255d}")
        || contains_str(line, "\u{2588}\u{2588}\u{2588}\u{2588}\u{2588}\u{2557}") || contains_str(
        line,
        "\u{2588}\u{2588}\u{2554}\u{2550}\u{2550}\u{255d}",
    ) || contains_str(line, "\u{255a}\u{2550}\u{2550}\u{2550}\u{2550}\u{2550}\u{2550}\u{255d}")
}

/// Whether the line reports on the indexer's state.
pub fn state_line(line: &Vec<char>) -> (r: bool)
    ensures
        r == always_shown(line@),
{
    contains_str(line, "Events Processed:") || contains_str(line, "Sync Time ETA:")
        || contains_str(line, "GraphQL:") || contains_str(line, "Chain ID:")
}

/// Whether two optional strings hold the same text, or both none.
pub fn same_text(a: &Option<String>, b: &Option<String>) -> (r: bool)
    ensures
        r == (option_text(*a) == option_text(*b)),
{
    match (a, b) {
        (Some(x), Some(y)) => {
            let xs = chars_of(x.as_str());
            let ys = chars_of(y.as_str());
            same_chars(&xs, &ys)
        },
        (None, None) => true,
        _ => false,
    }
}

/// Whether two optional numbers are the same, or both none.
pub fn same_count(a: Option<usize>, b: Option<usize>) -> (r: bool)
    ensures
        r == (a == b),
{
    match (a, b) {
        (Some(x), Some(y)) => x == y,
        (None, None) => true,
        _ => false,
    }
}

/// Whether the progress differs from the last one in a way that matters.
pub fn is_significant(progress: &IndexerProgress, last: &Option<IndexerProgress>) -> (r: bool)
    ensures
        r == significant(progress@, optional_progress(*last)),
{
    match last {
        None => true,
        Some(last) => {
            if !same_count(progress.events_processed, last.events_processed) {
                return true;
            }
            if !same_text(&progress.chain_id, &last.chain_id) {
                return true;
            }
            if !same_text(&progress.eta, &last.eta) {
                return true;
            }
            match (progress.percentage, last.percentage) {
                (Some(now), Some(before)) => {
                    let diff = if now > before {
                        now - before
                    } else {
                        before - now
                    };
                    diff >= 5
                },
                _ => false,
            }
        },
    }
}

/// Appends the numeral of a number, or of zero where there is none.
pub fn push_count(out: &mut Vec<char>, count: Option<usize>)
    ensures
        final(out)@ == old(out)@ + count_text(count),
{
    let n: u64 = match count {
        Some(n) => n as u64,
        None => 0,
    };
    let digits = decimal_chars(n);
    push_chars(out, &digits);
}

/// Appends a text, or `unknown` where there is none.
pub fn push_known(out: &mut Vec<char>, text: &Option<String>)
    ensures
        final(out)@ == old(out)@ + known_text(option_text(*text)),
{
    match text {
        Some(text) => push_str_chars(out, text.as_str()),
        None => push_str_chars(out, "unknown"),
    }
}

/// The line that reports a progress.
pub fn progress_line(progress: &IndexerProgress) -> (r: String)
    ensures
        r@ == progress_message(progress@),
{
    let mut out = chars_of("PROGRESS: Events: ");
    push_count(&mut out, progress.events_processed);
    push_str_chars(&mut out, ", Blocks: ");
    push_count(&mut out, progress.blocks_current);
    push_str_chars(&mut out, "/");
    push_count(&mut out, progress.blocks_total);
    push_str_chars(&mut out, ", Chain: ");
    push_known(&mut out, &progress.chain_id);
    push_str_chars(&mut out, ", ");
    push_count(&mut out, progress.percentage);
    push_str_chars(&mut out, "%, ETA: ");
    push_known(&mut out, &progress.eta);
    string_of(&out)
}

/// A filter for the log of one indexer.
pub struct LogFilter {
    seen_lines: Vec<String>,
    shown_logo: bool,
    last_progress: Option<IndexerProgress>,
}

impl View for LogFilter {
    type V = FilterView;

    closed spec fn view(&self) -> FilterView {
        FilterView {
            seen: seen_set(self.seen_lines@),
            shown_logo: self.shown_logo,
            last_progress: optional_progress(self.last_progress),
        }
    }
}

impl LogFilter {
    /// A filter that has passed on nothing yet.
    pub fn new() -> (r: Self)
        ensures
            r@ == (FilterView { seen: Set::empty(), shown_logo: false, last_progress: None }),
    {
        let r = LogFilter { seen_lines: Vec::new(), shown_logo: false, last_progress: None };
        assert(seen_set(r.seen_lines@) =~= Set::<Seq<char>>::empty());
        r
    }

    fn has_seen(&self, line: &Vec<char>) -> (r: bool)
        ensures
            r == self@.seen.contains(line@),
    {
        let mut i: usize = 0;
        while i < self.seen_lines.len()
            invariant
                i <= self.seen_lines.len(),
                forall|k: int| 0 <= k < i ==> (#[trigger] self.seen_lines@[k])@ != line@,
            decreases self.seen_lines.len() - i,
        {
            let candidate = chars_of(self.seen_lines[i].as_str());
            if same_chars(&candidate, line) {
                return true;
            }
            i += 1;
        }
        false
    }

    /// Takes a message that arrives `elapsed_nanos` nanoseconds after the last progress
    /// was passed on, and returns the line to pass on, if there is one. Where the
    /// message is a progress and a line is returned, the time starts anew.
    pub fn accept(&mut self, message: IndexerLogMessage, elapsed_nanos: u128) -> (r: Option<
        String,
    >)
        ensures
            final(self)@ == filter_step(old(self)@, message@, elapsed_nanos).0,
            option_text(r) == filter_step(old(self)@, message@, elapsed_nanos).1,
    {
        match message {
            IndexerLogMessage::Stdout(line) => {
                let chars = chars_of(line.as_str());
                if trimmed(&chars).len() == 0 {
                    return None;
                }
                if logo_line(&chars) {
                    if !self.shown_logo && contains_str(
                        &chars,
                        "\u{2588}\u{2588}\u{2588}\u{2588}\u{2588}\u{2588}\u{2588}\u{2557}",
                    ) {
                        self.shown_logo = true;
                        return Some(String::from_str("[Indexer Logo displayed]"));
                    }
                    return None;
                }
                let seen = self.has_seen(&chars);
                if state_line(&chars) || !seen {
                    let copy = line.clone();
                    if !seen {
                        let ghost before = self.seen_lines@;
                        self.seen_lines.push(line);
                        assert(seen_set(self.seen_lines@) =~= seen_set(before).insert(line@)) by {
                            assert forall|text: Seq<char>|
                                seen_set(before).insert(line@).contains(text) implies seen_set(
                                self.seen_lines@,
                            ).contains(text) by {
                                if text == line@ {
                                    assert(self.seen_lines@[before.len() as int]@ == text);
                                } else {
                                    let i = choose|i: int|
                                        0 <= i < before.len() && before[i]@ == text;
                                    assert(self.seen_lines@[i]@ == text);
                                }
                            }
                            assert forall|text: Seq<char>|
                                seen_set(self.seen_lines@).contains(text) implies seen_set(
                                before,
                            ).insert(line@).contains(text) by {
                                let i = choose|i: int|
                                    0 <= i < self.seen_lines@.len() && self.seen_lines@[i]@
                                        == text;
                                if i < before.len() {
                                    assert(before[i]@ == text);
                                }
                            }
                        }
                    } else {
                        assert(seen_set(self.seen_lines@).insert(line@) =~= seen_set(
                            self.seen_lines@,
                        ));
                    }
                    return Some(copy);
                }
                None
            },
            IndexerLogMessage::Stderr(line) => {
                let mut out = String::from_str("ERROR: ");
                out.append(line.as_str());
                Some(out)
            },
            IndexerLogMessage::Progress(progress) => {
                if elapsed_nanos > 5_000_000_000 || is_significant(&progress, &self.last_progress) {
                    let line = progress_line(&progress);
                    self.last_progress = Some(progress);
                    Some(line)
                } else {
                    None
                }
            },
        }
    }
}

} // verus!
