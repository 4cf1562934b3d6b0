//! Reading an event signature such as
//! `Transfer(address indexed from, address indexed to, uint256 value)`.

use vstd::prelude::*;
use vstd::string::*;

verus! {

use crate::text::{
    chars_of,
    find_char_from,
    index_of_char,
    lemma_index_of_char,
    push_chars,
    rows,
    same_chars,
    slice_chars,
    split_chars,
    split_on,
    split_words,
    string_of,
    trim,
    trim_range,
    trimmed,
    words,
};
use crate::types::{parse_type, type_from_chars, EventParam, EventParamView};

/// `c` is a parenthesis.
pub open spec fn is_paren(c: char) -> bool {
    c == '(' || c == ')'
}

/// The number of parentheses at the start of `s`.
pub open spec fn leading_parens(s: Seq<char>) -> nat
    decreases s.len(),
{
    if s.len() > 0 && is_paren(s[0]) {
        1 + leading_parens(s.skip(1))
    } else {
        0
    }
}

/// The number of parentheses at the end of `s`.
pub open spec fn trailing_parens(s: Seq<char>) -> nat
    decreases s.len(),
{
    if s.len() > 0 && is_paren(s.last()) {
        1 + trailing_parens(s.drop_last())
    } else {
        0
    }
}

/// `s` without the parentheses at its start and at its end.
pub open spec fn strip_parens(s: Seq<char>) -> Seq<char> {
    let inner = s.skip(leading_parens(s) as int);
    inner.take(inner.len() - trailing_parens(inner))
}

pub proof fn lemma_leading_parens(s: Seq<char>, k: int)
    requires
        0 <= k <= s.len(),
        forall|j: int| 0 <= j < k ==> is_paren(s[j]),
        k < s.len() ==> !is_paren(s[k]),
    ensures
        leading_parens(s) == k,
    decreases k,
{
    if k > 0 {
        let t = s.skip(1);
        assert forall|j: int| 0 <= j < k - 1 implies is_paren(t[j]) by {
            assert(t[j] == s[j + 1]);
        }
        lemma_leading_parens(t, k - 1);
    }
}

pub proof fn lemma_trailing_parens(s: Seq<char>, k: int)
    requires
        0 <= k <= s.len(),
        forall|j: int| s.len() - k <= j < s.len() ==> is_paren(s[j]),
        k < s.len() ==> !is_paren(s[s.len() - k - 1]),
    ensures
        trailing_parens(s) == k,
    decreases k,
{
    if k > 0 {
        let t = s.drop_last();
        assert forall|j: int| t.len() - (k - 1) <= j < t.len() implies is_paren(t[j]) by {
            assert(t[j] == s[j]);
        }
        lemma_trailing_parens(t, k - 1);
    }
}

/// The parameter that a text describes: a type and a name, with the word `indexed`
/// between them or not.
pub open spec fn param_of(text: Seq<char>) -> Result<EventParamView, Seq<char>> {
    let parts = words(text);
    if parts.len() == 0 {
        Err("Empty parameter"@)
    } else if parts.len() == 2 {
        Ok(EventParamView { name: parts[1], param_type: parse_type(parts[0]), indexed: false })
    } else if parts.len() == 3 && parts[1] == "indexed"@ {
        Ok(EventParamView { name: parts[2], param_type: parse_type(parts[0]), indexed: true })
    } else {
        Err("Invalid parameter format: "@ + text)
    }
}

/// The parameters that the pieces of a parameter list describe, each piece trimmed; or
/// the error of the first piece that describes none.
pub open spec fn params_of(pieces: Seq<Seq<char>>) -> Result<Seq<EventParamView>, Seq<char>>
    decreases pieces.len(),
{
    if pieces.len() == 0 {
        Ok(Seq::empty())
    } else {
        match params_of(pieces.drop_last()) {
            Err(error) => Err(error),
            Ok(params) => match param_of(trim(pieces.last())) {
                Ok(param) => Ok(params.push(param)),
                Err(error) => Err(error),
            },
        }
    }
}

/// The name in a signature: what stands before the first opening parenthesis, trimmed.
pub open spec fn signature_name(signature: Seq<char>) -> Seq<char> {
    trim(signature.take(index_of_char(signature, '(') as int))
}

/// The parameter list in a signature: what stands from the first opening parenthesis
/// on, without the parentheses at its ends, trimmed.
pub open spec fn signature_params(signature: Seq<char>) -> Seq<char> {
    trim(strip_parens(signature.skip(index_of_char(signature, '(') as int)))
}

/// A parsed event as a mathematical value: its name and its parameters.
pub struct ParsedEventView {
    pub name: Seq<char>,
    pub params: Seq<EventParamView>,
}

/// The event that a signature describes.
pub open spec fn event_of(signature: Seq<char>) -> Result<ParsedEventView, Seq<char>> {
    if index_of_char(signature, '(') >= signature.len() {
        Err("Invalid event signature: missing opening parenthesis"@)
    } else if signature_name(signature).len() == 0 {
        Err("Invalid event signature: empty name"@)
    } else if signature_params(signature).len() == 0 {
        Ok(ParsedEventView { name: signature_name(signature), params: Seq::empty() })
    } else {
        match params_of(split_on(signature_params(signature), ',')) {
            Ok(params) => Ok(ParsedEventView { name: signature_name(signature), params }),
            Err(error) => Err(error),
        }
    }
}

/// The parameters as mathematical values.
pub open spec fn params_view(params: Seq<EventParam>) -> Seq<EventParamView> {
    Seq::new(params.len(), |i: int| params[i]@)
}

/// Whether an outcome is the one that the model gives.
pub open spec fn param_agrees(r: Result<EventParam, String>, model: Result<
    EventParamView,
    Seq<char>,
>) -> bool {
    match model {
        Ok(param) => r is Ok && r->Ok_0@ == param,
        Err(error) => r is Err && r->Err_0@ == error,
    }
}

/// Whether an outcome is the one that the model gives.
pub open spec fn event_agrees(r: Result<(String, Vec<EventParam>), String>, model: Result<
    ParsedEventView,
    Seq<char>,
>) -> bool {
    match model {
        Ok(event) => r is Ok && r->Ok_0.0@ == event.name && params_view(r->Ok_0.1@)
            == event.params,
        Err(error) => r is Err && r->Err_0@ == error,
    }
}

/// The parameter that the text `param` describes.
pub fn param_from_chars(param: &Vec<char>) -> (r: Result<EventParam, String>)
    ensures
        param_agrees(r, param_of(param@)),
{
    let parts = split_words(param);
    if parts.len() == 0 {
        return Err(String::from_str("Empty parameter"));
    }
    assert(rows(parts@)[0] == parts@[0]@);
    if parts.len() == 2 {
        assert(rows(parts@)[1] == parts@[1]@);
        return Ok(
            EventParam {
                name: string_of(&parts[1]),
                param_type: type_from_chars(&parts[0]),
                indexed: false,
            },
        );
    }
    if parts.len() == 3 {
        assert(rows(parts@)[1] == parts@[1]@);
        assert(rows(parts@)[2] == parts@[2]@);
        let indexed = chars_of("indexed");
        if same_chars(&parts[1], &indexed) {
            return Ok(
                EventParam {
                    name: string_of(&parts[2]),
                    param_type: type_from_chars(&parts[0]),
                    indexed: true,
                },
            );
        }
    }
    let mut message = chars_of("Invalid parameter format: ");
    push_chars(&mut message, param);
    Err(string_of(&message))
}

/// The parameter that the text `param` describes.
pub fn parse_param(param: &str) -> (r: Result<EventParam, String>)
    ensures
        param_agrees(r, param_of(param@)),
{
    let chars = chars_of(param);
    param_from_chars(&chars)
}

/// The bounds `(from, to)` of `s[open..]` once the parentheses at its ends are removed.
pub fn strip_parens_range(s: &Vec<char>, open: usize) -> (r: (usize, usize))
    requires
        open <= s.len(),
    ensures
        open <= r.0 <= r.1 <= s.len(),
        s@.subrange(r.0 as int, r.1 as int) == strip_parens(s@.skip(open as int)),
{
    let n = s.len();
    let ghost tail = s@.skip(open as int);
    let mut from: usize = open;
    while from < n && (s[from] == '(' || s[from] == ')')
        invariant
            open <= from <= n,
            n == s.len(),
            forall|j: int| open <= j < from ==> is_paren(s@[j]),
        decreases n - from,
    {
        from += 1;
    }
    proof {
        assert forall|j: int| 0 <= j < from - open implies is_paren(tail[j]) by {
            assert(tail[j] == s@[open + j]);
        }
        assert(from < n ==> tail[from - open] == s@[from as int]);
        lemma_leading_parens(tail, from - open);
    }
    let ghost inner = s@.skip(from as int);
    assert(inner == tail.skip(leading_parens(tail) as int));
    let mut to: usize = n;
    while to > from && (s[to - 1] == '(' || s[to - 1] == ')')
        invariant
            from <= to <= n,
            n == s.len(),
            forall|j: int| to <= j < n ==> is_paren(s@[j]),
        decreases to - from,
    {
        to -= 1;
    }
    proof {
        assert forall|j: int| inner.len() - (n - to) <= j < inner.len() implies is_paren(
            inner[j],
        ) by {
            assert(inner[j] == s@[from + j]);
        }
        assert(n - to < inner.len() ==> inner[inner.len() - (n - to) - 1] == s@[to - 1]);
        lemma_trailing_parens(inner, n - to);
        assert(inner.take(inner.len() - (n - to)) == s@.subrange(from as int, to as int));
    }
    (from, to)
}

/// Whether an outcome is the one that the model gives.
pub open spec fn params_agree(r: Result<Vec<EventParam>, String>, model: Result<
    Seq<EventParamView>,
    Seq<char>,
>) -> bool {
    match model {
        Ok(params) => r is Ok && params_view(r->Ok_0@) == params,
        Err(error) => r is Err && r->Err_0@ == error,
    }
}

/// The parameters that the pieces of a parameter list describe.
pub fn params_from_pieces(pieces: &Vec<Vec<char>>) -> (r: Result<Vec<EventParam>, String>)
    ensures
        params_agree(r, params_of(rows(pieces@))),
{
    let ghost all = rows(pieces@);
    let mut params: Vec<EventParam> = Vec::new();
    let mut i: usize = 0;
    assert(all.take(0) =~= Seq::<Seq<char>>::empty());
    assert(params_view(params@) =~= Seq::<EventParamView>::empty());
    while i < pieces.len()
        invariant
            i <= pieces.len(),
            all == rows(pieces@),
            params_of(all.take(i as int)) == Ok::<Seq<EventParamView>, Seq<char>>(
                params_view(params@),
            ),
        decreases pieces.len() - i,
    {
        let piece = trimmed(&pieces[i]);
        proof {
            let upto = all.take(i + 1);
            assert(upto.drop_last() =~= all.take(i as int));
            assert(upto.last() == pieces@[i as int]@);
        }
        match param_from_chars(&piece) {
            Ok(param) => {
                let ghost before = params_view(params@);
                params.push(param);
                assert(params_view(params@) =~= before.push(param@));
            },
            Err(error) => {
                proof {
                    lemma_params_error_stays(all, i + 1);
                }
                return Err(error);
            },
        }
        i += 1;
    }
    assert(all.take(pieces.len() as int) =~= all);
    Ok(params)
}

/// The event that the signature describes: its name and its parameters.
pub fn parse_event_from_string(signature: &str) -> (r: Result<(String, Vec<EventParam>), String>)
    ensures
        event_agrees(r, event_of(signature@)),
{
    let s = chars_of(signature);
    let n = s.len();
    let open = find_char_from(&s, '(', 0);
    proof {
        assert(s@.skip(0) == s@);
        lemma_index_of_char(s@, '(', open as int);
    }
    if open == n {
        return Err(String::from_str("Invalid event signature: missing opening parenthesis"));
    }
    assert(s@.subrange(0, open as int) == s@.take(open as int));
    let (name_from, name_to) = trim_range(&s, 0, open);
    if name_from == name_to {
        return Err(String::from_str("Invalid event signature: empty name"));
    }
    let name = string_of(&slice_chars(&s, name_from, name_to));
    let (from, to) = strip_parens_range(&s, open);
    let (list_from, list_to) = trim_range(&s, from, to);
    let list = slice_chars(&s, list_from, list_to);
    assert(list@ == signature_params(s@));
    if list.len() == 0 {
        let none: Vec<EventParam> = Vec::new();
        assert(params_view(none@) =~= Seq::<EventParamView>::empty());
        return Ok((name, none));
    }
    let pieces = split_chars(&list, ',');
    match params_from_pieces(&pieces) {
        Ok(params) => Ok((name, params)),
        Err(error) => Err(error),
    }
}

/// Once a piece of a parameter list describes no parameter, the list as a whole has
/// that piece's error.
pub proof fn lemma_params_error_stays(pieces: Seq<Seq<char>>, k: int)
    requires
        0 <= k <= pieces.len(),
        params_of(pieces.take(k)) is Err,
    ensures
        params_of(pieces) == params_of(pieces.take(k)),
    decreases pieces.len() - k,
{
    if k < pieces.len() {
        let more = pieces.take(k + 1);
        assert(more.drop_last() =~= pieces.take(k));
        lemma_params_error_stays(pieces, k + 1);
    } else {
        assert(pieces.take(k) =~= pieces);
    }
}

} // verus!
