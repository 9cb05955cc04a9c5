//! Storage for the most recent error message of an FFI call.
//!
//! Errors may occur when a foreign interface function is called. Since a Rust `Result` cannot be
//! returned across language boundaries, FFI crates provide a way for clients to retrieve the last
//! error. `LastError` is that store: the message most recently set, or nothing once cleared. The
//! FFI layer keeps one store per thread and hands the message to clients as a C string.

use vstd::prelude::*;

verus! {

/// The most recent error message, if any.
pub struct LastError {
    msg: Option<String>,
}

impl View for LastError {
    type V = Option<Seq<char>>;

    /// The stored message, if any.
    closed spec fn view(&self) -> Option<Seq<char>> {
        match self.msg {
            Some(m) => Some(m@),
            None => None,
        }
    }
}

impl LastError {
    /// A store that holds no message.
    pub fn new() -> (r: Self)
        ensures
            r@ is None,
    {
        LastError { msg: None }
    }
}

/// Set the stored error message.
///
/// Errors that occur during an FFI function should cause the function to return something that
/// indicates to the client that an error occurred, and to record a description of that error
/// here.
pub fn set_last_err_msg(store: &mut LastError, msg: String)
    ensures
        final(store)@ == Some(msg@),
{
    store.msg = Some(msg);
}

/// Clear any stored error message.
///
/// In general, this should be used at the start of an FFI function so that clients don't end up
/// retrieving earlier errors.
pub fn clear_last_err_msg(store: &mut LastError)
    ensures
        final(store)@ is None,
{
    store.msg = None;
}

/// True when `r` is what a read of a store holding `v` gives: the message it holds, if any.
pub open spec fn read_gives(v: Option<Seq<char>>, r: Option<String>) -> bool {
    match r {
        Some(m) => v == Some(m@),
        None => v is None,
    }
}

/// A copy of the stored error message, if any.
pub fn get_last_err_msg(store: &LastError) -> (r: Option<String>)
    ensures
        read_gives(store@, r),
{
    match &store.msg {
        Some(m) => Some(String::from_str(m.as_str())),
        None => None,
    }
}

/// True when the text holds a NUL character, which a C string cannot hold.
pub open spec fn has_nul(s: Seq<char>) -> bool {
    s.contains('\0')
}

/// True when `s` holds a NUL character.
pub fn contains_nul(s: &str) -> (r: bool)
    ensures
        r == has_nul(s@),
{
    let n = s.unicode_len();
    let mut i: usize = 0;
    while i < n
        invariant
            n == s@.len(),
            i <= n,
            forall|j: int| 0 <= j < i ==> s@[j] != '\0',
        decreases n - i,
    {
        if s.get_char(i) == '\0' {
            assert(s@[i as int] == '\0');
            return true;
        }
        i = i + 1;
    }
    false
}

/// The stored error message, to be handed to a C caller as a C string.
///
/// A message holding a NUL character cannot be handed over: the store then holds `describe`'s
/// description of that message (the reason it cannot become a C string) in its place, and nothing
/// is returned. Otherwise the stored message, if any, is returned and the store is unchanged.
pub fn get_last_err_msg_for_c<F: Fn(String) -> String>(store: &mut LastError, describe: F) -> (r: Option<String>)
    requires
        forall|m: String| has_nul(m@) ==> call_requires(describe, (m,)),
    ensures
        match old(store)@ {
            None => r is None && final(store)@ is None,
            Some(m) => if has_nul(m) {
                &&& r is None
                &&& exists|msg: String, d: String|
                    #![trigger call_ensures(describe, (msg,), d)]
                    msg@ == m && call_ensures(describe, (msg,), d) && final(store)@ == Some(d@)
            } else {
                &&& r matches Some(s) && s@ == m
                &&& final(store)@ == old(store)@
            },
        },
{
    match get_last_err_msg(store) {
        Some(m) => {
            if contains_nul(m.as_str()) {
                let ghost msg = m;
                let d = describe(m);
                set_last_err_msg(store, d);
                assert(msg@ == old(store)@->0 && call_ensures(describe, (msg,), d));
                None
            } else {
                Some(m)
            }
        },
        None => None,
    }
}

/// Reading the store after a message was set gives that message back, whatever the store held
/// before.
pub proof fn lemma_read_after_set(after_set: LastError, msg: String, r: Option<String>)
    requires
        after_set@ == Some(msg@),
        read_gives(after_set@, r),
    ensures
        r matches Some(m) && m@ == msg@,
{
}

/// Reading the store after it was cleared gives nothing.
pub proof fn lemma_read_after_clear(after_clear: LastError, r: Option<String>)
    requires
        after_clear@ is None,
        read_gives(after_clear@, r),
    ensures
        r is None,
{
}

/// Reading does not change the store: two reads of one store give equal messages.
pub proof fn lemma_reads_agree(store: LastError, r1: Option<String>, r2: Option<String>)
    requires
        read_gives(store@, r1),
        read_gives(store@, r2),
    ensures
        r1 is Some <==> r2 is Some,
        r1 matches Some(m1) ==> (r2 matches Some(m2) && m1@ == m2@),
{
}

} // verus!
