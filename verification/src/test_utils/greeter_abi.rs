//! The ABI of a greeter contract.

use vstd::prelude::*;

verus! {

/// The ABI of a contract that keeps a greeting: it can be read, and set anew, which is
/// announced by an event.
pub open spec fn greeter_abi_text() -> Seq<char> {
    "[{\"type\":\"constructor\",\"inputs\":[{\"name\":\"_greeting\",\"type\":\"string\",\"internalType\":\"string\"}],\"stateMutability\":\"nonpayable\"},{\"type\":\"function\",\"name\":\"greet\",\"inputs\":[],\"outputs\":[{\"name\":\"\",\"type\":\"string\",\"internalType\":\"string\"}],\"stateMutability\":\"view\"},{\"type\":\"function\",\"name\":\"setGreeting\",\"inputs\":[{\"name\":\"_greeting\",\"type\":\"string\",\"internalType\":\"string\"}],\"outputs\":[],\"stateMutability\":\"nonpayable\"},{\"type\":\"event\",\"name\":\"NewGreeting\",\"inputs\":[{\"name\":\"user\",\"type\":\"address\",\"indexed\":true,\"internalType\":\"address\"},{\"name\":\"greeting\",\"type\":\"string\",\"indexed\":false,\"internalType\":\"string\"}],\"anonymous\":false},{\"type\":\"event\",\"name\":\"ClearGreeting\",\"inputs\":[{\"name\":\"user\",\"type\":\"address\",\"indexed\":true,\"internalType\":\"address\"}],\"anonymous\":false}]"@
}

/// The ABI of a contract that keeps a greeting: it can be read, and set anew, which is
/// announced by an event.
pub fn greeter_abi() -> (r: &'static str)
    ensures
        r@ == greeter_abi_text(),
{
    "[{\"type\":\"constructor\",\"inputs\":[{\"name\":\"_greeting\",\"type\":\"string\",\"internalType\":\"string\"}],\"stateMutability\":\"nonpayable\"},{\"type\":\"function\",\"name\":\"greet\",\"inputs\":[],\"outputs\":[{\"name\":\"\",\"type\":\"string\",\"internalType\":\"string\"}],\"stateMutability\":\"view\"},{\"type\":\"function\",\"name\":\"setGreeting\",\"inputs\":[{\"name\":\"_greeting\",\"type\":\"string\",\"internalType\":\"string\"}],\"outputs\":[],\"stateMutability\":\"nonpayable\"},{\"type\":\"event\",\"name\":\"NewGreeting\",\"inputs\":[{\"name\":\"user\",\"type\":\"address\",\"indexed\":true,\"internalType\":\"address\"},{\"name\":\"greeting\",\"type\":\"string\",\"indexed\":false,\"internalType\":\"string\"}],\"anonymous\":false},{\"type\":\"event\",\"name\":\"ClearGreeting\",\"inputs\":[{\"name\":\"user\",\"type\":\"address\",\"indexed\":true,\"internalType\":\"address\"}],\"anonymous\":false}]"
}

} // verus!
