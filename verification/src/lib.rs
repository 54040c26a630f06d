//! The greeting that a family of minimal programs writes to standard output.
//!
//! Each such program obtains the operating system's standard-output stream,
//! writes one fixed line of text to it, and exits: with status 0 when the
//! write succeeded, and with status 1 when the failure path runs in an
//! environment without unwinding. This library pins down everything those
//! programs compute — the exact bytes of the line, the well-known integer
//! identifiers of the standard-output stream, and the exit status owed to
//! each outcome of the write — so that the surrounding program is left with
//! nothing but the system calls themselves.

use vstd::prelude::*;

verus! {

/// The well-known POSIX file descriptor of the standard-output stream.
pub const STDOUT_FD: i32 = 1;

/// The well-known identifier of the standard-output pseudo-handle on
/// Windows: the 32-bit representation of -11, handed to `GetStdHandle`.
pub const STD_OUTPUT_HANDLE: u32 = 4294967285;

/// The greeting as text: one line, newline included.
pub open spec fn hello_text() -> Seq<char> {
    "Hello, world!\n"@
}

/// The greeting as the exact byte sequence owed on standard output:
/// the ASCII codes of `Hello, world!` followed by a line feed.
pub open spec fn hello_bytes() -> Seq<u8> {
    seq![
        72u8, 101u8, 108u8, 108u8, 111u8, 44u8, 32u8, 119u8, 111u8, 114u8,
        108u8, 100u8, 33u8, 10u8,
    ]
}

/// The two forms of the greeting spell the same message: byte by byte,
/// `hello_bytes` is the ASCII encoding of `hello_text`.
pub proof fn lemma_hello_bytes_spell_hello_text()
    ensures
        hello_bytes().len() == hello_text().len(),
        forall|i: int|
            0 <= i < hello_bytes().len() ==> hello_bytes()[i] == hello_text()[i] as u8,
{
    reveal_strlit("Hello, world!\n");
}

/// Returns the greeting ready to be written: exactly the bytes of
/// `hello_bytes`, so a caller that writes the whole vector and nothing
/// else puts the exact expected sequence on the stream.
pub fn hello_message() -> (r: Vec<u8>)
    ensures
        r@ == hello_bytes(),
        r@.len() == 14,
{
    let mut r: Vec<u8> = Vec::new();
    r.push(72u8);
    r.push(101u8);
    r.push(108u8);
    r.push(108u8);
    r.push(111u8);
    r.push(44u8);
    r.push(32u8);
    r.push(119u8);
    r.push(111u8);
    r.push(114u8);
    r.push(108u8);
    r.push(100u8);
    r.push(33u8);
    r.push(10u8);
    proof {
        assert(r@ =~= hello_bytes());
    }
    r
}

/// Returns the greeting as text: exactly the characters of `hello_text`.
pub fn hello_str() -> (r: &'static str)
    ensures
        r@ == hello_text(),
{
    "Hello, world!\n"
}

/// The exit status owed for each outcome of the single write: 0 when it
/// succeeded, 1 when it failed — the status the failure handler of a
/// freestanding program reports, since no unwinding is available there.
pub fn exit_status(write_succeeded: bool) -> (r: u32)
    ensures
        r == (if write_succeeded { 0u32 } else { 1u32 }),
{
    if write_succeeded {
        0
    } else {
        1
    }
}

} // verus!
