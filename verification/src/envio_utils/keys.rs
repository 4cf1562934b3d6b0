//! The bytes that an action puts on the wizard's terminal.

use vstd::prelude::*;
use vstd::string::*;

verus! {

use super::planner::{Action, ActionView, Key};
use vstd::utf8::encode_utf8;

/// The byte that Enter sends: a carriage return.
pub const ENTER: u8 = 0x0d;

/// The byte that interrupts the program in the terminal's foreground: Ctrl-C.
pub const INTERRUPT: u8 = 0x03;

/// The bytes that the key sends.
pub open spec fn key_bytes(key: Key) -> Seq<u8> {
    match key {
        Key::Down => seq![0x1bu8, 0x5bu8, 0x42u8],
        Key::Enter => seq![ENTER],
    }
}

/// The bytes that the keys send, one after the other.
pub open spec fn keys_bytes(keys: Seq<Key>) -> Seq<u8>
    decreases keys.len(),
{
    if keys.len() == 0 {
        Seq::empty()
    } else {
        keys_bytes(keys.drop_last()) + key_bytes(keys.last())
    }
}

/// The bytes that carry out an action: a text in UTF-8 followed by Enter, a lone Enter,
/// the keys as pressed, and nothing for `Finish`.
pub open spec fn action_bytes(action: ActionView) -> Seq<u8> {
    match action {
        ActionView::TypeText(text) => encode_utf8(text).push(ENTER),
        ActionView::PressEnter => seq![ENTER],
        ActionView::PressKeys(keys) => keys_bytes(keys),
        ActionView::Finish(_) => Seq::empty(),
    }
}

/// The bytes that make the wizard leave: after success an Enter that accepts its last
/// message; then an interrupt, and the lines `exit` and `quit`.
pub open spec fn drain_bytes(success: bool) -> Seq<u8> {
    let farewell = seq![INTERRUPT] + encode_utf8("exit\n"@) + encode_utf8("quit\n"@);
    if success {
        seq![ENTER] + farewell
    } else {
        farewell
    }
}

/// Appends the bytes of `tail` to `out`.
pub fn push_bytes(out: &mut Vec<u8>, tail: &Vec<u8>)
    ensures
        final(out)@ == old(out)@ + tail@,
{
    let mut i: usize = 0;
    while i < tail.len()
        invariant
            i <= tail.len(),
            out@ == old(out)@ + tail@.take(i as int),
        decreases tail.len() - i,
    {
        out.push(tail[i]);
        i += 1;
    }
    assert(tail@.take(tail.len() as int) == tail@);
}

/// The bytes that the keys send, one after the other.
pub fn encode_keys(keys: &Vec<Key>) -> (r: Vec<u8>)
    ensures
        r@ == keys_bytes(keys@),
{
    let mut r: Vec<u8> = Vec::new();
    let mut i: usize = 0;
    assert(keys@.take(0) =~= Seq::<Key>::empty());
    while i < keys.len()
        invariant
            i <= keys.len(),
            r@ == keys_bytes(keys@.take(i as int)),
        decreases keys.len() - i,
    {
        proof {
            let p = keys@.take(i + 1);
            assert(p.drop_last() =~= keys@.take(i as int));
            assert(p.last() == keys@[i as int]);
        }
        match keys[i] {
            Key::Down => {
                r.push(0x1b);
                r.push(0x5b);
                r.push(0x42);
                assert(r@ =~= keys_bytes(keys@.take(i as int)) + key_bytes(Key::Down));
            },
            Key::Enter => {
                r.push(ENTER);
                assert(r@ =~= keys_bytes(keys@.take(i as int)) + key_bytes(Key::Enter));
            },
        }
        i += 1;
    }
    assert(keys@.take(keys.len() as int) =~= keys@);
    r
}

impl Action {
    /// The bytes to write to the terminal to carry out this action.
    pub fn encode(&self) -> (r: Vec<u8>)
        ensures
            r@ == action_bytes(self@),
    {
        match self {
            Action::TypeText(text) => {
                let mut r = text.as_str().as_bytes_vec();
                r.push(ENTER);
                r
            },
            Action::PressEnter => {
                let mut r: Vec<u8> = Vec::new();
                r.push(ENTER);
                r
            },
            Action::PressKeys(keys) => encode_keys(keys),
            Action::Finish(_) => Vec::new(),
        }
    }
}

/// The bytes that make the wizard leave.
pub fn encode_drain(success: bool) -> (r: Vec<u8>)
    ensures
        r@ == drain_bytes(success),
{
    let mut r: Vec<u8> = Vec::new();
    if success {
        r.push(ENTER);
    }
    r.push(INTERRUPT);
    let exit = "exit\n".as_bytes_vec();
    push_bytes(&mut r, &exit);
    let quit = "quit\n".as_bytes_vec();
    push_bytes(&mut r, &quit);
    assert(r@ =~= drain_bytes(success));
    r
}

} // verus!
