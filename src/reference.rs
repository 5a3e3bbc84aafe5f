//! Derivation of a secret reference from a logical key.
//!
//! A logical key that ends with the reserved suffix `_test` names a secret
//! of the test vault; any other key names one of the production vault. The
//! reference handed to the external agent has the shape
//! `op://<Vault>/AzureKeyVault<key without the suffix>/url`.

use vstd::prelude::*;
use vstd::string::StringExecFns;

verus! {

/// The vault partition a secret is looked up in.
#[derive(Clone, Copy, Debug, PartialEq, Eq, Structural)]
pub enum Environment {
    Production,
    Test,
}

/// The reserved suffix that marks a key as belonging to the test vault.
pub open spec fn test_suffix() -> Seq<char> {
    "_test"@
}

/// True when `s` ends with `suffix`.
pub open spec fn ends_with(s: Seq<char>, suffix: Seq<char>) -> bool {
    suffix.len() <= s.len() && s.subrange(s.len() - suffix.len(), s.len() as int) == suffix
}

/// The environment a logical key belongs to.
pub open spec fn environment_of(key: Seq<char>) -> Environment {
    if ends_with(key, test_suffix()) {
        Environment::Test
    } else {
        Environment::Production
    }
}

/// The key with one trailing reserved suffix removed, if it has one.
pub open spec fn normalized_key(key: Seq<char>) -> Seq<char> {
    if ends_with(key, test_suffix()) {
        key.subrange(0, key.len() - test_suffix().len())
    } else {
        key
    }
}

/// The display name of an environment's vault.
pub open spec fn vault_name(env: Environment) -> Seq<char> {
    match env {
        Environment::Production => "Production"@,
        Environment::Test => "Test"@,
    }
}

/// The fully-qualified reference of the URL field of a vault item.
pub open spec fn reference_of(env: Environment, name: Seq<char>) -> Seq<char> {
    "op://"@ + vault_name(env) + "/AzureKeyVault"@ + name + "/url"@
}

/// The reference that a logical key resolves to.
pub open spec fn resolved(key: Seq<char>) -> Seq<char> {
    reference_of(environment_of(key), normalized_key(key))
}

/// Appending the reserved suffix to any key selects the test vault, and
/// resolution removes exactly that one suffix: the item name is the key as
/// it was, even when the key itself already ends with the suffix.
pub proof fn lemma_one_suffix_stripped(key: Seq<char>)
    ensures
        resolved(key + test_suffix()) == reference_of(Environment::Test, key),
{
    let k = key + test_suffix();
    assert(k.subrange(k.len() - test_suffix().len(), k.len() as int) =~= test_suffix());
    assert(k.subrange(0, k.len() - test_suffix().len()) =~= key);
}

/// A key that holds the reserved suffix anywhere but at its end names the
/// production vault and is used unchanged.
pub proof fn lemma_inner_suffix_kept(front: Seq<char>, back: Seq<char>)
    requires
        !ends_with(front + test_suffix() + back, test_suffix()),
    ensures
        resolved(front + test_suffix() + back) == reference_of(
            Environment::Production,
            front + test_suffix() + back,
        ),
{
}

/// Relies on str::strip_suffix: `Some` of the part before the suffix exactly
/// when `s` ends with it, `None` otherwise.
#[verifier::external_body]
fn strip_suffix<'a>(s: &'a str, suffix: &str) -> (r: Option<&'a str>)
    ensures
        r is Some <==> ends_with(s@, suffix@),
        r is Some ==> r->0@ == s@.subrange(0, s@.len() - suffix@.len()),
{
    s.strip_suffix(suffix)
}

impl Environment {
    /// The display name of this environment's vault.
    pub fn vault_name(&self) -> (r: &'static str)
        ensures
            r@ == vault_name(*self),
    {
        match self {
            Environment::Production => "Production",
            Environment::Test => "Test",
        }
    }
}

/// A logical key split into its environment and its normalized name.
pub struct ParsedKey {
    pub environment: Environment,
    pub name: String,
}

/// Splits a logical key: a trailing reserved suffix selects the test vault
/// and is removed once; any other key selects the production vault unchanged.
pub fn parse_key(key: &str) -> (r: ParsedKey)
    ensures
        r.environment == environment_of(key@),
        r.name@ == normalized_key(key@),
{
    match strip_suffix(key, "_test") {
        Some(stem) => ParsedKey { environment: Environment::Test, name: String::from_str(stem) },
        None => ParsedKey { environment: Environment::Production, name: String::from_str(key) },
    }
}

/// Builds the reference of the URL field of item `AzureKeyVault<name>` in
/// the vault of `env`.
pub fn reference_for(env: Environment, name: &str) -> (r: String)
    ensures
        r@ == reference_of(env, name@),
{
    let mut r = String::from_str("op://");
    r.append(env.vault_name());
    r.append("/AzureKeyVault");
    r.append(name);
    r.append("/url");
    r
}

/// Resolves a logical key into the reference the external agent reads.
pub fn resolve(key: &str) -> (r: String)
    ensures
        r@ == resolved(key@),
        !ends_with(key@, test_suffix()) ==> r@ == "op://Production/AzureKeyVault"@ + key@ + "/url"@,
        ends_with(key@, test_suffix()) ==> r@ == "op://Test/AzureKeyVault"@ + key@.subrange(
            0,
            key@.len() - test_suffix().len(),
        ) + "/url"@,
{
    let parsed = parse_key(key);
    let r = reference_for(parsed.environment, parsed.name.as_str());
    proof {
        reveal_strlit("_test");
        reveal_strlit("op://");
        reveal_strlit("Production");
        reveal_strlit("Test");
        reveal_strlit("/AzureKeyVault");
        reveal_strlit("op://Production/AzureKeyVault");
        reveal_strlit("op://Test/AzureKeyVault");
        assert("op://"@ + "Production"@ + "/AzureKeyVault"@ =~= "op://Production/AzureKeyVault"@);
        assert("op://"@ + "Test"@ + "/AzureKeyVault"@ =~= "op://Test/AzureKeyVault"@);
    }
    r
}

/// The program name of the external agent, looked up on the search path.
pub const AGENT_PROGRAM: &'static str = "op";

/// The arguments the external agent is run with to read `reference`: the
/// `read` subcommand and the reference itself.
pub fn agent_arguments(reference: &str) -> (r: Vec<String>)
    ensures
        r@.len() == 2,
        r@[0]@ == "read"@,
        r@[1]@ == reference@,
{
    let mut r: Vec<String> = Vec::new();
    r.push(String::from_str("read"));
    r.push(String::from_str(reference));
    r
}

} // verus!
