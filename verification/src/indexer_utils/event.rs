//! Contract events: from a signature or from a contract's ABI, and their topic.

use vstd::prelude::*;
use vstd::string::*;

verus! {

use super::parser::{
    event_agrees,
    event_of,
    params_view,
    parse_event_from_string,
    ParsedEventView,
};
use crate::text::{chars_of, find_char_from, index_of_char, lemma_index_of_char, slice_chars};
use crate::types::{parse_type, EventParam, EventParamView, SolidityType};
use vstd::utf8::encode_utf8;

#[verifier::external_type_specification]
#[verifier::external_body]
pub struct ExJsonAbi(alloy_json_abi::JsonAbi);

/// An input of an event as a contract's ABI lists it.
#[derive(Debug, Clone, PartialEq, Eq)]
pub struct AbiParam {
    pub name: String,
    /// The canonical name of the input's Solidity type.
    pub ty: String,
    pub indexed: bool,
}

/// An event as a contract's ABI lists it.
#[derive(Debug, Clone, PartialEq, Eq)]
pub struct AbiEvent {
    pub name: String,
    pub inputs: Vec<AbiParam>,
}

/// An ABI input as a mathematical value.
pub struct AbiParamView {
    pub name: Seq<char>,
    pub ty: Seq<char>,
    pub indexed: bool,
}

/// An ABI event as a mathematical value.
pub struct AbiEventView {
    pub name: Seq<char>,
    pub inputs: Seq<AbiParamView>,
}

impl View for AbiParam {
    type V = AbiParamView;

    open spec fn view(&self) -> AbiParamView {
        AbiParamView { name: self.name@, ty: self.ty@, indexed: self.indexed }
    }
}

impl View for AbiEvent {
    type V = AbiEventView;

    open spec fn view(&self) -> AbiEventView {
        AbiEventView {
            name: self.name@,
            inputs: Seq::new(self.inputs@.len(), |i: int| self.inputs@[i]@),
        }
    }
}

/// The events as mathematical values.
pub open spec fn events_view(events: Seq<AbiEvent>) -> Seq<AbiEventView> {
    Seq::new(events.len(), |i: int| events[i]@)
}

/// The events that an ABI holds, in the order in which `JsonAbi::events` yields them.
pub uninterp spec fn abi_event_list(abi: alloy_json_abi::JsonAbi) -> Seq<AbiEventView>;

/// The Keccak-256 digest of `data`, as `alloy_primitives::keccak256` computes it.
pub uninterp spec fn keccak256_digest(data: Seq<u8>) -> Seq<u8>;

/// Walks `JsonAbi::events` and hands out each event with its name and, for each of its
/// inputs, the input's name, type name and `indexed` flag, in the iterator's order.
#[verifier::external_body]
pub(crate) fn abi_events(abi: &alloy_json_abi::JsonAbi) -> (r: Vec<AbiEvent>)
    ensures
        events_view(r@) == abi_event_list(*abi),
{
    abi.events().map(|e| AbiEvent {
        name: e.name.clone(),
        inputs: e.inputs.iter().map(|p| AbiParam {
            name: p.name.clone(),
            ty: p.ty.clone(),
            indexed: p.indexed,
        }).collect(),
    }).collect()
}

/// Calls `alloy_primitives::keccak256`, which hashes the bytes with Keccak-256; the
/// digest depends on the bytes alone.
#[verifier::external_body]
pub(crate) fn keccak256(data: &Vec<u8>) -> (r: Vec<u8>)
    ensures
        r@ == keccak256_digest(data@),
{
    alloy_primitives::keccak256(data).to_vec()
}

/// The lowercase hexadecimal digit for `n`, for `n < 16`.
pub open spec fn hex_digit(n: nat) -> char {
    if n < 10 {
        ((0x30 + n) as u8) as char
    } else {
        ((0x61 + n - 10) as u8) as char
    }
}

/// The bytes in hexadecimal: two lowercase digits for each byte, the high one first.
pub open spec fn hex_text(bytes: Seq<u8>) -> Seq<char>
    decreases bytes.len(),
{
    if bytes.len() == 0 {
        Seq::empty()
    } else {
        hex_text(bytes.drop_last()).push(hex_digit((bytes.last() / 16) as nat)).push(
            hex_digit((bytes.last() % 16) as nat),
        )
    }
}

/// Calls `alloy_primitives::hex::encode`, which encodes each byte with two lowercase
/// hexadecimal digits.
#[verifier::external_body]
pub(crate) fn hex_encode(bytes: &Vec<u8>) -> (r: String)
    ensures
        r@ == hex_text(bytes@),
{
    alloy_primitives::hex::encode(bytes)
}

/// The topic for a digest: `0x` followed by the digest in hexadecimal.
pub open spec fn topic_text(digest: Seq<u8>) -> Seq<char> {
    "0x"@ + hex_text(digest)
}

/// The topic for a digest.
pub fn topic_from_digest(digest: &Vec<u8>) -> (r: String)
    ensures
        r@ == topic_text(digest@),
{
    let mut r = String::from_str("0x");
    let hex = hex_encode(digest);
    r.append(hex.as_str());
    r
}

/// What a signature names: what stands before its first opening parenthesis, or all of
/// it if it has none.
pub open spec fn name_in_signature(signature: Seq<char>) -> Seq<char> {
    signature.take(index_of_char(signature, '(') as int)
}

/// The index of the first event at or after `from` with the name `name`; `events.len()`
/// if there is none.
pub open spec fn event_index_from(events: Seq<AbiEventView>, name: Seq<char>, from: int) -> int
    decreases events.len() - from,
{
    if from >= events.len() {
        events.len() as int
    } else if events[from].name == name {
        from
    } else {
        event_index_from(events, name, from + 1)
    }
}

/// The parameters of an ABI event: each input with its name, the type that its type
/// name denotes, and its `indexed` flag.
pub open spec fn params_of_abi(inputs: Seq<AbiParamView>) -> Seq<EventParamView> {
    Seq::new(
        inputs.len(),
        |i: int|
            EventParamView {
                name: inputs[i].name,
                param_type: parse_type(inputs[i].ty),
                indexed: inputs[i].indexed,
            },
    )
}

/// The event that a signature describes, given the events of the contract's ABI if
/// there is one: the ABI's first event with the signature's name, and else what the
/// signature itself says.
pub open spec fn event_by_signature(signature: Seq<char>, events: Option<Seq<AbiEventView>>) -> Result<
    ParsedEventView,
    Seq<char>,
> {
    match events {
        Some(events) => {
            let at = event_index_from(events, name_in_signature(signature), 0);
            if at < events.len() {
                Ok(
                    ParsedEventView {
                        name: events[at].name,
                        params: params_of_abi(events[at].inputs),
                    },
                )
            } else {
                event_of(signature)
            }
        },
        None => event_of(signature),
    }
}

/// The index among `events` of the first event that `signature` names.
pub fn find_event_in_abi(signature: &str, events: &Vec<AbiEvent>) -> (r: Option<usize>)
    ensures
        match r {
            Some(at) => at < events@.len() && at == event_index_from(
                events_view(events@),
                name_in_signature(signature@),
                0,
            ),
            None => event_index_from(events_view(events@), name_in_signature(signature@), 0)
                == events@.len(),
        },
{
    let s = chars_of(signature);
    let open = find_char_from(&s, '(', 0);
    proof {
        assert(s@.skip(0) == s@);
        lemma_index_of_char(s@, '(', open as int);
    }
    let name = slice_chars(&s, 0, open);
    let ghost all = events_view(events@);
    let mut i: usize = 0;
    while i < events.len()
        invariant
            i <= events.len(),
            all == events_view(events@),
            name@ == name_in_signature(signature@),
            event_index_from(all, name@, 0) == event_index_from(all, name@, i as int),
        decreases events.len() - i,
    {
        let candidate = chars_of(events[i].name.as_str());
        assert(all[i as int].name == candidate@);
        if crate::text::same_chars(&candidate, &name) {
            return Some(i);
        }
        i += 1;
    }
    None
}

/// The name and the parameters of an ABI event. There are some for every event.
pub fn parse_event_from_abi(event: &AbiEvent) -> (r: Result<(String, Vec<EventParam>), String>)
    ensures
        r is Ok,
        r->Ok_0.0@ == event@.name,
        params_view(r->Ok_0.1@) == params_of_abi(event@.inputs),
{
    let mut params: Vec<EventParam> = Vec::new();
    let mut i: usize = 0;
    while i < event.inputs.len()
        invariant
            i <= event.inputs.len(),
            params@.len() == i,
            forall|k: int|
                0 <= k < i ==> (#[trigger] params@[k])@ == params_of_abi(event@.inputs)[k],
        decreases event.inputs.len() - i,
    {
        let input = &event.inputs[i];
        assert(event@.inputs[i as int] == input@);
        params.push(
            EventParam {
                name: input.name.clone(),
                param_type: SolidityType::from_type_string(input.ty.as_str()),
                indexed: input.indexed,
            },
        );
        i += 1;
    }
    assert(params_view(params@) =~= params_of_abi(event@.inputs));
    Ok((event.name.clone(), params))
}

/// The event that `signature` describes, given the events of the contract's ABI if
/// there is one.
pub fn event_from_listing(signature: &str, events: Option<&Vec<AbiEvent>>) -> (r: Result<
    (String, Vec<EventParam>),
    String,
>)
    ensures
        event_agrees(
            r,
            event_by_signature(
                signature@,
                match events {
                    Some(events) => Some(events_view(events@)),
                    None => None,
                },
            ),
        ),
{
    match events {
        Some(events) => match find_event_in_abi(signature, events) {
            Some(at) => {
                assert(events_view(events@)[at as int] == events@[at as int]@);
                parse_event_from_abi(&events[at])
            },
            None => parse_event_from_string(signature),
        },
        None => parse_event_from_string(signature),
    }
}

/// The events of an optional ABI.
pub open spec fn listing_of(abi: Option<&alloy_json_abi::JsonAbi>) -> Option<Seq<AbiEventView>> {
    match abi {
        Some(abi) => Some(abi_event_list(*abi)),
        None => None,
    }
}

/// The events of an optional ABI.
pub open spec fn listing_of_owned(abi: Option<alloy_json_abi::JsonAbi>) -> Option<
    Seq<AbiEventView>,
> {
    match abi {
        Some(abi) => Some(abi_event_list(abi)),
        None => None,
    }
}

/// The event that `signature` describes: as the ABI lists it if an ABI is given and
/// lists an event of that name, and as the signature itself says otherwise.
pub fn parse_event_signature(signature: &str, abi: Option<&alloy_json_abi::JsonAbi>) -> (r:
    Result<(String, Vec<EventParam>), String>)
    ensures
        event_agrees(r, event_by_signature(signature@, listing_of(abi))),
{
    match abi {
        Some(abi) => {
            let events = abi_events(abi);
            event_from_listing(signature, Some(&events))
        },
        None => event_from_listing(signature, None),
    }
}

/// An event of a contract.
#[derive(Debug, Clone, PartialEq)]
pub struct ContractEvent {
    pub name: String,
    pub signature: String,
    pub inputs: Vec<EventParam>,
}

impl ContractEvent {
    /// The event that `signature` describes. It keeps the signature as given.
    pub fn from_signature(signature: &str, abi: Option<&alloy_json_abi::JsonAbi>) -> (r: Result<
        Self,
        String,
    >)
        ensures
            match event_by_signature(signature@, listing_of(abi)) {
                Ok(event) => r is Ok && r->Ok_0.name@ == event.name && r->Ok_0.signature@
                    == signature@ && params_view(r->Ok_0.inputs@) == event.params,
                Err(error) => r is Err && r->Err_0@ == error,
            },
    {
        match parse_event_signature(signature, abi) {
            Ok((name, inputs)) => Ok(
                ContractEvent { name, signature: String::from_str(signature), inputs },
            ),
            Err(error) => Err(error),
        }
    }

    /// The event's first topic: the Keccak-256 digest of its signature as given, in
    /// hexadecimal after `0x`.
    pub fn get_topic0(&self) -> (r: String)
        ensures
            r@ == topic_text(keccak256_digest(encode_utf8(self.signature@))),
    {
        let bytes = self.signature.as_str().as_bytes_vec();
        let digest = keccak256(&bytes);
        topic_from_digest(&digest)
    }
}

} // verus!
