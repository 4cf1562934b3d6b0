//! Classifying what the wizard is asking.
//!
//! The wizard's output is unstructured text. The prompt to answer is the most recent
//! line that holds a question mark; it is matched against an ordered table of
//! signatures, and the first row that matches decides its kind.

use vstd::prelude::*;
use vstd::string::*;

verus! {

use crate::text::{
    chars_of,
    contains,
    find,
    find_char_from,
    index_of_char,
    lemma_index_of_char,
    slice_chars,
    string_of,
    texts,
    trim,
    trim_range,
};

/// What the wizard is asking for.
#[derive(Debug, Clone, PartialEq, Eq)]
pub enum PromptKind {
    AskFolderName,
    AskLanguage,
    AskEcosystem,
    AskEventSelection,
    AskAbiPath,
    AskImportSource,
    AskBlockchainFromList,
    AskNetworkChoiceGeneric,
    AskNetworkId,
    AskContractName,
    AskContractAddress,
    AskAddAnotherContract,
    AskApiToken,
    TemplateReady,
    FinalDone,
    /// A prompt that no signature matches, with its text; the text is empty when the
    /// output holds no question at all.
    Unrecognized(String),
}

/// A prompt kind as a mathematical value.
pub enum PromptView {
    AskFolderName,
    AskLanguage,
    AskEcosystem,
    AskEventSelection,
    AskAbiPath,
    AskImportSource,
    AskBlockchainFromList,
    AskNetworkChoiceGeneric,
    AskNetworkId,
    AskContractName,
    AskContractAddress,
    AskAddAnotherContract,
    AskApiToken,
    TemplateReady,
    FinalDone,
    Unrecognized(Seq<char>),
}

impl View for PromptKind {
    type V = PromptView;

    open spec fn view(&self) -> PromptView {
        match self {
            PromptKind::AskFolderName => PromptView::AskFolderName,
            PromptKind::AskLanguage => PromptView::AskLanguage,
            PromptKind::AskEcosystem => PromptView::AskEcosystem,
            PromptKind::AskEventSelection => PromptView::AskEventSelection,
            PromptKind::AskAbiPath => PromptView::AskAbiPath,
            PromptKind::AskImportSource => PromptView::AskImportSource,
            PromptKind::AskBlockchainFromList => PromptView::AskBlockchainFromList,
            PromptKind::AskNetworkChoiceGeneric => PromptView::AskNetworkChoiceGeneric,
            PromptKind::AskNetworkId => PromptView::AskNetworkId,
            PromptKind::AskContractName => PromptView::AskContractName,
            PromptKind::AskContractAddress => PromptView::AskContractAddress,
            PromptKind::AskAddAnotherContract => PromptView::AskAddAnotherContract,
            PromptKind::AskApiToken => PromptView::AskApiToken,
            PromptKind::TemplateReady => PromptView::TemplateReady,
            PromptKind::FinalDone => PromptView::FinalDone,
            PromptKind::Unrecognized(text) => PromptView::Unrecognized(text@),
        }
    }
}

impl PromptKind {
    /// A copy of this prompt kind.
    pub fn duplicate(&self) -> (r: PromptKind)
        ensures
            r@ == self@,
    {
        match self {
            PromptKind::AskFolderName => PromptKind::AskFolderName,
            PromptKind::AskLanguage => PromptKind::AskLanguage,
            PromptKind::AskEcosystem => PromptKind::AskEcosystem,
            PromptKind::AskEventSelection => PromptKind::AskEventSelection,
            PromptKind::AskAbiPath => PromptKind::AskAbiPath,
            PromptKind::AskImportSource => PromptKind::AskImportSource,
            PromptKind::AskBlockchainFromList => PromptKind::AskBlockchainFromList,
            PromptKind::AskNetworkChoiceGeneric => PromptKind::AskNetworkChoiceGeneric,
            PromptKind::AskNetworkId => PromptKind::AskNetworkId,
            PromptKind::AskContractName => PromptKind::AskContractName,
            PromptKind::AskContractAddress => PromptKind::AskContractAddress,
            PromptKind::AskAddAnotherContract => PromptKind::AskAddAnotherContract,
            PromptKind::AskApiToken => PromptKind::AskApiToken,
            PromptKind::TemplateReady => PromptKind::TemplateReady,
            PromptKind::FinalDone => PromptKind::FinalDone,
            PromptKind::Unrecognized(text) => PromptKind::Unrecognized(text.clone()),
        }
    }

    /// Whether this is the report that the output holds no question yet.
    pub fn is_silence(&self) -> (r: bool)
        ensures
            r == (self@ == PromptView::Unrecognized(Seq::<char>::empty())),
    {
        match self {
            PromptKind::Unrecognized(text) => {
                let n = text.as_str().unicode_len();
                assert(n == 0 ==> text@ =~= Seq::<char>::empty());
                n == 0
            },
            _ => false,
        }
    }
}

/// One row of the signature table: a prompt has the row's kind if every one of the
/// row's needles occurs in it.
#[derive(Debug, Clone, PartialEq, Eq)]
pub struct Signature {
    pub needles: Vec<String>,
    pub kind: PromptKind,
}

/// A signature as a mathematical value.
pub struct SignatureView {
    pub needles: Seq<Seq<char>>,
    pub kind: PromptView,
}

impl View for Signature {
    type V = SignatureView;

    open spec fn view(&self) -> SignatureView {
        SignatureView { needles: texts(self.needles@), kind: self.kind@ }
    }
}

/// The rows of a signature table as mathematical values.
pub open spec fn table_view(table: Seq<Signature>) -> Seq<SignatureView> {
    Seq::new(table.len(), |i: int| table[i]@)
}

/// Every needle of `row` occurs in `prompt`.
pub open spec fn row_matches(row: SignatureView, prompt: Seq<char>) -> bool {
    forall|k: int| 0 <= k < row.needles.len() ==> contains(prompt, #[trigger] row.needles[k])
}

/// The index of the first row at or after `from` that matches `prompt`; `table.len()` if
/// none does.
pub open spec fn first_match_from(table: Seq<SignatureView>, prompt: Seq<char>, from: int) -> int
    decreases table.len() - from,
{
    if from >= table.len() {
        table.len() as int
    } else if row_matches(table[from], prompt) {
        from
    } else {
        first_match_from(table, prompt, from + 1)
    }
}

/// The kind of the prompt text `prompt`: that of the first row that matches it, and
/// `Unrecognized` with the text itself if no row does.
pub open spec fn classify_prompt(table: Seq<SignatureView>, prompt: Seq<char>) -> PromptView {
    let i = first_match_from(table, prompt, 0);
    if i < table.len() {
        table[i].kind
    } else {
        PromptView::Unrecognized(prompt)
    }
}

/// The index of the last `c` in `s`; `-1` if there is none.
pub open spec fn last_index_of(s: Seq<char>, c: char) -> int
    decreases s.len(),
{
    if s.len() == 0 {
        -1
    } else if s.last() == c {
        s.len() - 1
    } else {
        last_index_of(s.drop_last(), c)
    }
}

/// The line of `window` that holds the character at index `at`, without its line ending.
pub open spec fn line_around(window: Seq<char>, at: int) -> Seq<char> {
    window.subrange(
        last_index_of(window.take(at), '\n') + 1,
        at + index_of_char(window.skip(at), '\n'),
    )
}

/// The prompt to answer: the last line of `window` that holds a question mark, without
/// surrounding whitespace; empty if no line holds one.
pub open spec fn current_prompt(window: Seq<char>) -> Seq<char> {
    let q = last_index_of(window, '?');
    if q < 0 {
        Seq::empty()
    } else {
        trim(line_around(window, q))
    }
}

/// The kind of the prompt that the output `window` ends with.
pub open spec fn classify_window(table: Seq<SignatureView>, window: Seq<char>) -> PromptView {
    if last_index_of(window, '?') < 0 {
        PromptView::Unrecognized(Seq::empty())
    } else {
        classify_prompt(table, current_prompt(window))
    }
}

pub proof fn lemma_last_index_of(s: Seq<char>, c: char, k: int)
    requires
        -1 <= k < s.len(),
        k >= 0 ==> s[k] == c,
        forall|j: int| k < j < s.len() ==> s[j] != c,
    ensures
        last_index_of(s, c) == k,
    decreases s.len(),
{
    if s.len() > 0 && k < s.len() - 1 {
        let t = s.drop_last();
        assert forall|j: int| k < j < t.len() implies t[j] != c by {
            assert(t[j] == s[j]);
        }
        lemma_last_index_of(t, c, k);
    }
}

/// The index of the last `c` in `s[..end]`, if there is one.
pub fn rfind_char(s: &Vec<char>, c: char, end: usize) -> (r: Option<usize>)
    requires
        end <= s.len(),
    ensures
        match r {
            Some(i) => i < end && i == last_index_of(s@.take(end as int), c),
            None => last_index_of(s@.take(end as int), c) == -1,
        },
{
    let ghost p = s@.take(end as int);
    let mut i: usize = end;
    while i > 0
        invariant
            i <= end <= s.len(),
            p == s@.take(end as int),
            forall|j: int| i <= j < end ==> s@[j] != c,
        decreases i,
    {
        if s[i - 1] == c {
            proof {
                assert forall|j: int| i - 1 < j < p.len() implies p[j] != c by {
                    assert(p[j] == s@[j]);
                }
                lemma_last_index_of(p, c, i - 1);
            }
            return Some(i - 1);
        }
        i -= 1;
    }
    proof {
        assert forall|j: int| -1 < j < p.len() implies p[j] != c by {
            assert(p[j] == s@[j]);
        }
        lemma_last_index_of(p, c, -1);
    }
    None
}

/// The prompt to answer in `window`, if a line of it holds a question mark.
pub fn extract_prompt(window: &Vec<char>) -> (r: Option<Vec<char>>)
    ensures
        r is Some <==> last_index_of(window@, '?') >= 0,
        r is Some ==> r->0@ == current_prompt(window@),
{
    assert(window@.take(window.len() as int) == window@);
    match rfind_char(window, '?', window.len()) {
        None => None,
        Some(q) => {
            let start = match rfind_char(window, '\n', q) {
                Some(n) => n + 1,
                None => 0,
            };
            let end = find_char_from(window, '\n', q);
            proof {
                let rest = window@.skip(q as int);
                assert forall|j: int| 0 <= j < end - q implies rest[j] != '\n' by {
                    assert(rest[j] == window@[q + j]);
                }
                assert(end < window.len() ==> rest[end - q] == window@[end as int]);
                lemma_index_of_char(rest, '\n', end - q);
            }
            let (a, b) = trim_range(window, start, end);
            Some(slice_chars(window, a, b))
        },
    }
}

/// Whether every needle of `row` occurs in `prompt`.
pub fn matches_row(row: &Signature, prompt: &Vec<char>) -> (r: bool)
    ensures
        r == row_matches(row@, prompt@),
{
    let mut k: usize = 0;
    while k < row.needles.len()
        invariant
            k <= row.needles.len(),
            forall|j: int| 0 <= j < k ==> contains(prompt@, #[trigger] row@.needles[j]),
        decreases row.needles.len() - k,
    {
        let needle = chars_of(row.needles[k].as_str());
        assert(row@.needles[k as int] == needle@);
        if find(prompt, &needle).is_none() {
            return false;
        }
        k += 1;
    }
    true
}

/// The kind of the prompt text `prompt` by the signature table `table`.
pub fn classify_text(table: &Vec<Signature>, prompt: &Vec<char>) -> (r: PromptKind)
    ensures
        r@ == classify_prompt(table_view(table@), prompt@),
{
    let ghost rows = table_view(table@);
    let mut i: usize = 0;
    while i < table.len()
        invariant
            i <= table.len(),
            rows == table_view(table@),
            first_match_from(rows, prompt@, 0) == first_match_from(rows, prompt@, i as int),
        decreases table.len() - i,
    {
        assert(rows[i as int] == table@[i as int]@);
        if matches_row(&table[i], prompt) {
            return table[i].kind.duplicate();
        }
        i += 1;
    }
    PromptKind::Unrecognized(string_of(prompt))
}

/// Classifies the output accumulated since the last classification.
///
/// The result depends on `table` and `window` alone: the same window always yields the
/// same kind.
pub fn classify(table: &Vec<Signature>, window: &str) -> (r: PromptKind)
    ensures
        r@ == classify_window(table_view(table@), window@),
{
    let w = chars_of(window);
    classify_chars(table, &w)
}

/// Classifies the output accumulated since the last classification, given as characters.
pub fn classify_chars(table: &Vec<Signature>, window: &Vec<char>) -> (r: PromptKind)
    ensures
        r@ == classify_window(table_view(table@), window@),
{
    match extract_prompt(window) {
        None => PromptKind::Unrecognized(String::new()),
        Some(prompt) => classify_text(table, &prompt),
    }
}

/// Equal windows are classified alike, whatever was classified before.
pub proof fn law_classification_is_a_function_of_the_window(
    table: Seq<SignatureView>,
    first: Seq<char>,
    second: Seq<char>,
)
    requires
        first == second,
    ensures
        classify_window(table, first) == classify_window(table, second),
{
}

/// A window without a question mark is classified as unrecognized with empty text,
/// whatever the table holds.
pub proof fn law_no_question_is_silence(table: Seq<SignatureView>, window: Seq<char>)
    requires
        forall|i: int| 0 <= i < window.len() ==> window[i] != '?',
    ensures
        classify_window(table, window) == PromptView::Unrecognized(Seq::<char>::empty()),
{
    lemma_last_index_of(window, '?', -1);
}

} // verus!
