//! Solidity types as they appear in event signatures, and their GraphQL counterparts.

use vstd::prelude::*;
use vstd::string::*;

verus! {

use crate::decimal::{parse_bounded, parse_unsigned};
use crate::text::{
    chars_of,
    find_char_from,
    has_prefix,
    index_of_char,
    lemma_index_of_char,
    push_chars,
    push_str_chars,
    same_chars,
    slice_chars,
    string_of,
};

/// A parsed parameter of a Solidity event.
#[derive(Debug, Clone, PartialEq)]
pub struct EventParam {
    pub name: String,
    pub param_type: SolidityType,
    pub indexed: bool,
}

/// A Solidity type.
#[derive(Debug, PartialEq)]
pub enum SolidityType {
    Address,
    Bool,
    String,
    /// `bytes` (no width) or `bytesN`.
    Bytes(Option<usize>),
    /// `uintN`.
    Uint(u16),
    /// `intN`.
    Int(u16),
    /// An array of the element type, with its length if that is fixed.
    Array(Box<SolidityType>, Option<usize>),
    Tuple(Vec<SolidityType>),
    /// A type known by name only.
    Custom(String),
}

/// A Solidity type as a mathematical value.
pub enum SolidityTypeView {
    Address,
    Bool,
    String,
    Bytes(Option<usize>),
    Uint(u16),
    Int(u16),
    Array(Box<SolidityTypeView>, Option<usize>),
    Tuple(Seq<SolidityTypeView>),
    Custom(Seq<char>),
}

impl SolidityType {
    /// This type as a mathematical value.
    pub open spec fn model(self) -> SolidityTypeView
        decreases self,
    {
        match self {
            SolidityType::Address => SolidityTypeView::Address,
            SolidityType::Bool => SolidityTypeView::Bool,
            SolidityType::String => SolidityTypeView::String,
            SolidityType::Bytes(width) => SolidityTypeView::Bytes(width),
            SolidityType::Uint(width) => SolidityTypeView::Uint(width),
            SolidityType::Int(width) => SolidityTypeView::Int(width),
            SolidityType::Array(element, length) => SolidityTypeView::Array(
                Box::new((*element).model()),
                length,
            ),
            SolidityType::Tuple(members) => SolidityTypeView::Tuple(
                Seq::new(
                    members.len() as nat,
                    |i: int|
                        if 0 <= i < members.len() {
                            members[i].model()
                        } else {
                            SolidityTypeView::Address
                        },
                ),
            ),
            SolidityType::Custom(name) => SolidityTypeView::Custom(name@),
        }
    }
}

impl SolidityType {
    /// A copy of this type.
    pub fn duplicate(&self) -> (r: Self)
        ensures
            r@ == self@,
        decreases self,
    {
        match self {
            SolidityType::Address => SolidityType::Address,
            SolidityType::Bool => SolidityType::Bool,
            SolidityType::String => SolidityType::String,
            SolidityType::Bytes(width) => SolidityType::Bytes(*width),
            SolidityType::Uint(width) => SolidityType::Uint(*width),
            SolidityType::Int(width) => SolidityType::Int(*width),
            SolidityType::Array(element, length) => SolidityType::Array(
                Box::new((**element).duplicate()),
                *length,
            ),
            SolidityType::Tuple(members) => {
                let mut copies: Vec<SolidityType> = Vec::new();
                let mut i: usize = 0;
                while i < members.len()
                    invariant
                        i <= members.len(),
                        self == SolidityType::Tuple(*members),
                        copies@.len() == i,
                        forall|k: int| 0 <= k < i ==> copies@[k]@ == members@[k]@,
                    decreases members.len() - i,
                {
                    proof {
                        vstd::std_specs::vec::axiom_vec_index_decreases(*members, i as int);
                        assert(self->Tuple_0 == *members);
                    }
                    let member = members[i].duplicate();
                    copies.push(member);
                    i += 1;
                }
                let copy = SolidityType::Tuple(copies);
                assert(copy@->Tuple_0 =~= self@->Tuple_0);
                copy
            },
            SolidityType::Custom(name) => SolidityType::Custom(name.clone()),
        }
    }
}

impl Clone for SolidityType {
    fn clone(&self) -> (r: Self)
        ensures
            r@ == self@,
    {
        self.duplicate()
    }
}

impl View for SolidityType {
    type V = SolidityTypeView;

    open spec fn view(&self) -> SolidityTypeView {
        self.model()
    }
}

/// An event parameter as a mathematical value.
pub struct EventParamView {
    pub name: Seq<char>,
    pub param_type: SolidityTypeView,
    pub indexed: bool,
}

impl View for EventParam {
    type V = EventParamView;

    open spec fn view(&self) -> EventParamView {
        EventParamView { name: self.name@, param_type: self.param_type@, indexed: self.indexed }
    }
}

// ---------------------------------------------------------------------------
// GraphQL names
// ---------------------------------------------------------------------------

/// `s` without the characters `c` at its end.
pub open spec fn strip_trailing(s: Seq<char>, c: char) -> Seq<char>
    decreases s.len(),
{
    if s.len() > 0 && s.last() == c {
        strip_trailing(s.drop_last(), c)
    } else {
        s
    }
}

/// The GraphQL type for a Solidity type. Scalars map to `String!`, `Boolean!` or
/// `BigInt!`; an array to its element's type, without its marks of obligation, in square
/// brackets; a tuple to `Tuple` followed by its members' types, each with a single mark
/// of obligation, joined by underscores; a custom type to its own name. Each ends with a
/// mark of obligation.
pub open spec fn graphql_type(t: SolidityTypeView) -> Seq<char>
    decreases t, 0nat,
{
    match t {
        SolidityTypeView::Address => "String!"@,
        SolidityTypeView::Bool => "Boolean!"@,
        SolidityTypeView::String => "String!"@,
        SolidityTypeView::Bytes(_) => "String!"@,
        SolidityTypeView::Uint(_) => "BigInt!"@,
        SolidityTypeView::Int(_) => "BigInt!"@,
        SolidityTypeView::Array(element, _) => "["@ + strip_trailing(graphql_type(*element), '!')
            + "]!"@,
        SolidityTypeView::Tuple(members) => "Tuple"@ + graphql_members(members, members.len())
            + "!"@,
        SolidityTypeView::Custom(name) => name + "!"@,
    }
}

/// The GraphQL types of the first `count` members, joined by underscores.
pub open spec fn graphql_members(members: Seq<SolidityTypeView>, count: nat) -> Seq<char>
    decreases members, count,
{
    if count == 0 || count > members.len() {
        Seq::empty()
    } else if count == 1 {
        strip_trailing(graphql_type(members[0]), '!') + "!"@
    } else {
        graphql_members(members, (count - 1) as nat) + "_"@ + strip_trailing(
            graphql_type(members[count - 1]),
            '!',
        ) + "!"@
    }
}

/// `s` without the characters `c` at its end.
pub fn stripped_trailing(s: &Vec<char>, c: char) -> (r: Vec<char>)
    ensures
        r@ == strip_trailing(s@, c),
{
    let mut end: usize = s.len();
    assert(s@.take(end as int) == s@);
    while end > 0 && s[end - 1] == c
        invariant
            end <= s.len(),
            strip_trailing(s@, c) == strip_trailing(s@.take(end as int), c),
        decreases end,
    {
        assert(s@.take(end as int).drop_last() == s@.take(end - 1));
        end -= 1;
    }
    slice_chars(s, 0, end)
}

impl SolidityType {
    /// The GraphQL type for this Solidity type, as characters.
    pub fn graphql_chars(&self) -> (r: Vec<char>)
        ensures
            r@ == graphql_type(self@),
        decreases self,
    {
        match self {
            SolidityType::Address => chars_of("String!"),
            SolidityType::Bool => chars_of("Boolean!"),
            SolidityType::String => chars_of("String!"),
            SolidityType::Bytes(_) => chars_of("String!"),
            SolidityType::Uint(_) => chars_of("BigInt!"),
            SolidityType::Int(_) => chars_of("BigInt!"),
            SolidityType::Array(element, _) => {
                let inner = element.graphql_chars();
                let bare = stripped_trailing(&inner, '!');
                let mut out = chars_of("[");
                push_chars(&mut out, &bare);
                push_str_chars(&mut out, "]!");
                out
            },
            SolidityType::Tuple(members) => {
                let ghost views = self@->Tuple_0;
                let mut joined: Vec<char> = Vec::new();
                let mut i: usize = 0;
                while i < members.len()
                    invariant
                        i <= members.len(),
                        views == self@->Tuple_0,
                        self == SolidityType::Tuple(*members),
                        joined@ == graphql_members(views, i as nat),
                    decreases members.len() - i,
                {
                    if i > 0 {
                        joined.push('_');
                    }
                    proof {
                        vstd::std_specs::vec::axiom_vec_index_decreases(*members, i as int);
                    }
                    let member = members[i].graphql_chars();
                    assert(views[i as int] == members@[i as int]@);
                    let bare = stripped_trailing(&member, '!');
                    push_chars(&mut joined, &bare);
                    joined.push('!');
                    proof {
                        reveal_strlit("_");
                        reveal_strlit("!");
                        assert("_"@ =~= seq!['_']);
                        assert("!"@ =~= seq!['!']);
                        if i > 0 {
                            assert(joined@ =~= graphql_members(views, i as nat) + "_"@
                                + strip_trailing(graphql_type(views[i as int]), '!') + "!"@);
                        } else {
                            assert(joined@ =~= strip_trailing(graphql_type(views[0]), '!')
                                + "!"@);
                        }
                    }
                    i += 1;
                }
                let mut out = chars_of("Tuple");
                push_chars(&mut out, &joined);
                push_str_chars(&mut out, "!");
                out
            },
            SolidityType::Custom(name) => {
                let mut out = chars_of(name.as_str());
                push_str_chars(&mut out, "!");
                out
            },
        }
    }

    /// The GraphQL type for this Solidity type. There is one for every type.
    pub fn to_graphql_type(&self) -> (r: Result<String, String>)
        ensures
            r is Ok,
            r->Ok_0@ == graphql_type(self@),
    {
        let chars = self.graphql_chars();
        Ok(string_of(&chars))
    }
}

// ---------------------------------------------------------------------------
// Reading a type from its name
// ---------------------------------------------------------------------------

/// The width of a `uintN` or `intN` whose name ends with the text `digits`: `N` if that
/// is a multiple of 8 from 8 to 256, and 256 for anything else.
pub open spec fn integer_width(digits: Seq<char>) -> u16 {
    match parse_unsigned(digits, u16::MAX as nat) {
        Some(n) => if 8 <= n <= 256 && n % 8 == 0 {
            n as u16
        } else {
            256
        },
        None => 256,
    }
}

/// The width of a `bytesN` whose name ends with the text `digits`: `N` if that is from 1
/// to 32, and 0 for anything else.
pub open spec fn bytes_width(digits: Seq<char>) -> usize {
    match parse_unsigned(digits, usize::MAX as nat) {
        Some(n) => if 1 <= n <= 32 {
            n as usize
        } else {
            0
        },
        None => 0,
    }
}

/// The length that the text between an array's brackets denotes, if it is a numeral.
/// Closing brackets at its end do not count.
pub open spec fn array_length(piece: Seq<char>) -> Option<usize> {
    match parse_unsigned(strip_trailing(piece, ']'), usize::MAX as nat) {
        Some(n) => Some(n as usize),
        None => None,
    }
}

/// The name ends with `[]`.
pub open spec fn is_dynamic_array(s: Seq<char>) -> bool {
    s.len() >= 2 && s[s.len() - 2] == '[' && s[s.len() - 1] == ']'
}

/// The name holds an opening bracket and ends with a closing one.
pub open spec fn is_fixed_array(s: Seq<char>) -> bool {
    index_of_char(s, '[') < s.len() && s.last() == ']'
}

/// What stands between the first opening bracket of `s` and the next one, or the end.
pub open spec fn first_bracket_content(s: Seq<char>) -> Seq<char> {
    let rest = s.skip(index_of_char(s, '[') as int + 1);
    rest.take(index_of_char(rest, '[') as int)
}

/// The Solidity type that a name denotes. The names of the elementary types denote
/// them; a name that ends in brackets denotes an array of what stands before the first
/// opening bracket; `bytes`, `uint` and `int` followed by anything denote the sized
/// types, with the default width where what follows is no valid width; any other name
/// denotes a custom type.
pub open spec fn parse_type(s: Seq<char>) -> SolidityTypeView
    decreases s.len(),
{
    if s == "address"@ {
        SolidityTypeView::Address
    } else if s == "bool"@ {
        SolidityTypeView::Bool
    } else if s == "string"@ {
        SolidityTypeView::String
    } else if s == "bytes"@ {
        SolidityTypeView::Bytes(None)
    } else if s == "tuple"@ {
        SolidityTypeView::Tuple(Seq::empty())
    } else if is_dynamic_array(s) {
        SolidityTypeView::Array(Box::new(parse_type(s.take(s.len() - 2))), None)
    } else if is_fixed_array(s) {
        SolidityTypeView::Array(
            Box::new(parse_type(s.take(index_of_char(s, '[') as int))),
            array_length(first_bracket_content(s)),
        )
    } else if has_prefix(s, "bytes"@) {
        SolidityTypeView::Bytes(Some(bytes_width(s.skip("bytes"@.len() as int))))
    } else if has_prefix(s, "uint"@) {
        SolidityTypeView::Uint(integer_width(s.skip("uint"@.len() as int)))
    } else if has_prefix(s, "int"@) {
        SolidityTypeView::Int(integer_width(s.skip("int"@.len() as int)))
    } else {
        SolidityTypeView::Custom(s)
    }
}

/// Whether `s` is the text `word`.
pub fn is_word(s: &Vec<char>, word: &str) -> (r: bool)
    ensures
        r == (s@ == word@),
{
    let w = chars_of(word);
    same_chars(s, &w)
}

/// The part of `s` after the prefix `prefix`, if `s` begins with it.
pub fn after_prefix(s: &Vec<char>, prefix: &str) -> (r: Option<Vec<char>>)
    ensures
        r is Some <==> has_prefix(s@, prefix@),
        r is Some ==> r->0@ == s@.skip(prefix@.len() as int),
{
    let p = chars_of(prefix);
    if crate::text::matches_at(s, &p, 0) {
        Some(slice_chars(s, p.len(), s.len()))
    } else {
        None
    }
}

/// The width of a `uintN` or `intN` whose name ends with `digits`.
pub fn read_integer_width(digits: &Vec<char>) -> (r: u16)
    ensures
        r == integer_width(digits@),
{
    match parse_bounded(digits, 0xffff) {
        Some(n) => if 8 <= n && n <= 256 && n % 8 == 0 {
            n as u16
        } else {
            256
        },
        None => 256,
    }
}

/// The width of a `bytesN` whose name ends with `digits`.
pub fn read_bytes_width(digits: &Vec<char>) -> (r: usize)
    ensures
        r == bytes_width(digits@),
{
    match parse_bounded(digits, usize::MAX as u64) {
        Some(n) => if 1 <= n && n <= 32 {
            n as usize
        } else {
            0
        },
        None => 0,
    }
}

/// The length that the text between an array's brackets denotes.
pub fn read_array_length(piece: &Vec<char>) -> (r: Option<usize>)
    ensures
        r == array_length(piece@),
{
    let digits = stripped_trailing(piece, ']');
    match parse_bounded(&digits, usize::MAX as u64) {
        Some(n) => Some(n as usize),
        None => None,
    }
}

/// The Solidity type that the name `s` denotes.
pub fn type_from_chars(s: &Vec<char>) -> (r: SolidityType)
    ensures
        r@ == parse_type(s@),
    decreases s.len(),
{
    let n = s.len();
    if is_word(s, "address") {
        return SolidityType::Address;
    }
    if is_word(s, "bool") {
        return SolidityType::Bool;
    }
    if is_word(s, "string") {
        return SolidityType::String;
    }
    if is_word(s, "bytes") {
        return SolidityType::Bytes(None);
    }
    if is_word(s, "tuple") {
        let none: Vec<SolidityType> = Vec::new();
        let tuple = SolidityType::Tuple(none);
        assert(tuple@->Tuple_0 =~= Seq::<SolidityTypeView>::empty());
        return tuple;
    }
    if n >= 2 && s[n - 2] == '[' && s[n - 1] == ']' {
        let base = slice_chars(s, 0, n - 2);
        let element = type_from_chars(&base);
        return SolidityType::Array(Box::new(element), None);
    }
    let open = find_char_from(s, '[', 0);
    proof {
        assert(s@.skip(0) == s@);
        lemma_index_of_char(s@, '[', open as int);
    }
    if open < n && s[n - 1] == ']' {
        let base = slice_chars(s, 0, open);
        let next = find_char_from(s, '[', open + 1);
        proof {
            let rest = s@.skip(open + 1);
            assert forall|j: int| 0 <= j < next - (open + 1) implies rest[j] != '[' by {
                assert(rest[j] == s@[open + 1 + j]);
            }
            assert(next < n ==> rest[next - (open + 1)] == s@[next as int]);
            lemma_index_of_char(rest, '[', next - (open + 1));
            assert(rest.take(next - (open + 1)) == s@.subrange(open + 1, next as int));
        }
        let content = slice_chars(s, open + 1, next);
        let element = type_from_chars(&base);
        return SolidityType::Array(Box::new(element), read_array_length(&content));
    }
    if let Some(digits) = after_prefix(s, "bytes") {
        return SolidityType::Bytes(Some(read_bytes_width(&digits)));
    }
    if let Some(digits) = after_prefix(s, "uint") {
        return SolidityType::Uint(read_integer_width(&digits));
    }
    if let Some(digits) = after_prefix(s, "int") {
        return SolidityType::Int(read_integer_width(&digits));
    }
    SolidityType::Custom(string_of(s))
}

impl SolidityType {
    /// The Solidity type that the name `type_str` denotes.
    pub fn from_type_string(type_str: &str) -> (r: SolidityType)
        ensures
            r@ == parse_type(type_str@),
    {
        let s = chars_of(type_str);
        type_from_chars(&s)
    }

    /// The Solidity type with the canonical name `name`. There is one for every name.
    pub fn from_sol_name(name: &str) -> (r: Result<SolidityType, String>)
        ensures
            r is Ok,
            r->Ok_0@ == parse_type(name@),
    {
        Ok(SolidityType::from_type_string(name))
    }
}

} // verus!
