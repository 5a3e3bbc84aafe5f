//! Turning what the external agent produced into a secret value.
//!
//! Launching the agent is left to the caller; this module classifies the
//! outcome: a launch failure, output that is not UTF-8, or the decoded
//! output with its trailing whitespace removed.

use vstd::prelude::*;
use vstd::string::StringExecFns;
use vstd::utf8::{decode_utf8, valid_utf8};

verus! {

/// True of the characters with the Unicode `White_Space` property.
pub open spec fn is_white_space(c: char) -> bool {
    ('\u{9}' <= c && c <= '\u{d}') || c == ' ' || c == '\u{85}' || c == '\u{a0}' || c
        == '\u{1680}' || ('\u{2000}' <= c && c <= '\u{200a}') || c == '\u{2028}' || c
        == '\u{2029}' || c == '\u{202f}' || c == '\u{205f}' || c == '\u{3000}'
}

/// `s` with all trailing white space removed.
pub open spec fn trimmed_end(s: Seq<char>) -> Seq<char>
    decreases s.len(),
{
    if s.len() > 0 && is_white_space(s.last()) {
        trimmed_end(s.drop_last())
    } else {
        s
    }
}

/// Relies on String::from_utf8: `Some` of the decoded text exactly when the
/// bytes are valid UTF-8.
#[verifier::external_body]
fn decode(bytes: Vec<u8>) -> (r: Option<String>)
    ensures
        r is Some <==> valid_utf8(bytes@),
        r is Some ==> r->0@ == decode_utf8(bytes@),
{
    String::from_utf8(bytes).ok()
}

/// Relies on str::trim_end: the slice without its trailing `White_Space`
/// characters.
#[verifier::external_body]
fn trim_end(s: &str) -> (r: &str)
    ensures
        r@ == trimmed_end(s@),
{
    s.trim_end()
}

/// Why a secret could not be retrieved.
#[derive(Debug, PartialEq, Eq)]
pub enum SecretError {
    /// The external agent could not be launched; carries the system's message.
    ExecutionFailure(String),
    /// The agent's output is not valid UTF-8.
    DecodeFailure,
}

/// A resolved secret: the key vault's base URL.
pub struct SecretManager {
    pub url: String,
}

/// Removes trailing white space, such as the line ending the agent prints.
pub fn trim_secret(text: &str) -> (r: String)
    ensures
        r@ == trimmed_end(text@),
{
    String::from_str(trim_end(text))
}

impl SecretManager {
    /// Builds the secret from the bytes the agent wrote, whatever its exit
    /// status: decoded as UTF-8, with trailing white space removed.
    pub fn from_output(stdout: Vec<u8>) -> (r: Result<SecretManager, SecretError>)
        ensures
            r is Ok <==> valid_utf8(stdout@),
            r is Ok ==> r->Ok_0.url@ == trimmed_end(decode_utf8(stdout@)),
            r is Err ==> r->Err_0 == SecretError::DecodeFailure,
    {
        match decode(stdout) {
            Some(text) => Ok(SecretManager { url: trim_secret(text.as_str()) }),
            None => Err(SecretError::DecodeFailure),
        }
    }

    /// Builds the secret from the outcome of running the agent: a launch
    /// failure becomes `ExecutionFailure` with its message, captured output
    /// goes through `from_output`.
    pub fn from_agent_result(outcome: Result<Vec<u8>, String>) -> (r: Result<
        SecretManager,
        SecretError,
    >)
        ensures
            outcome is Err ==> r is Err && r->Err_0 is ExecutionFailure
                && r->Err_0->ExecutionFailure_0@ == outcome->Err_0@,
            outcome is Ok ==> (r is Ok <==> valid_utf8(outcome->Ok_0@)),
            outcome is Ok && r is Ok ==> r->Ok_0.url@ == trimmed_end(decode_utf8(outcome->Ok_0@)),
            outcome is Ok && r is Err ==> r->Err_0 == SecretError::DecodeFailure,
    {
        match outcome {
            Ok(stdout) => SecretManager::from_output(stdout),
            Err(message) => Err(SecretError::ExecutionFailure(message)),
        }
    }
}

/// Text that ends in something other than white space keeps all of it when
/// the agent's line ending, `\n` or `\r\n`, is trimmed away.
pub proof fn lemma_line_ending_removed(s: Seq<char>)
    requires
        s.len() == 0 || !is_white_space(s.last()),
    ensures
        trimmed_end(s + seq!['\n']) == s,
        trimmed_end(s + seq!['\r', '\n']) == s,
{
    let a = s + seq!['\n'];
    let b = s + seq!['\r', '\n'];
    let c = s + seq!['\r'];
    assert(trimmed_end(s) == s);
    assert(a.drop_last() =~= s);
    assert(a.last() == '\n');
    assert(trimmed_end(a) == trimmed_end(s));
    assert(c.drop_last() =~= s);
    assert(c.last() == '\r');
    assert(trimmed_end(c) == trimmed_end(s));
    assert(b.drop_last() =~= c);
    assert(b.last() == '\n');
    assert(trimmed_end(b) == trimmed_end(c));
}

} // verus!
