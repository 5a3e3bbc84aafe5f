use secret_manager_1password::reference::{
    agent_arguments, parse_key, reference_for, resolve, Environment, AGENT_PROGRAM,
};
use secret_manager_1password::retrieval::{trim_secret, SecretError, SecretManager};

/// A test key resolved and read through an agent that prints the URL with a
/// trailing newline.
#[test]
fn test_new_with_valid_env_var() {
    let reference = resolve("demo_test");
    assert_eq!(reference, "op://Test/AzureKeyVaultdemo/url");
    let result = SecretManager::from_output(b"https://foo.bar.baz.net/\n".to_vec());
    assert!(result.is_ok());
    let secret_manager = result.unwrap();
    assert_eq!(secret_manager.url, "https://foo.bar.baz.net/");
}

/// An agent that could not be launched yields an error, not a value.
#[test]
fn test_new_with_invalid_command() {
    let result = SecretManager::from_agent_result(Err("No such file or directory".to_string()));
    assert!(result.is_err());
}

#[test]
fn production_key_reference() {
    assert_eq!(resolve("Demo"), "op://Production/AzureKeyVaultDemo/url");
}

#[test]
fn test_key_reference() {
    assert_eq!(resolve("demo_test"), "op://Test/AzureKeyVaultdemo/url");
}

#[test]
fn only_one_suffix_is_stripped() {
    assert_eq!(resolve("demo_test_test"), "op://Test/AzureKeyVaultdemo_test/url");
}

#[test]
fn inner_suffix_is_kept() {
    assert_eq!(resolve("demo_testing"), "op://Production/AzureKeyVaultdemo_testing/url");
    assert_eq!(resolve("a_test_b"), "op://Production/AzureKeyVaulta_test_b/url");
}

#[test]
fn bare_suffix_gives_empty_name() {
    assert_eq!(resolve("_test"), "op://Test/AzureKeyVault/url");
}

#[test]
fn upper_case_suffix_is_not_reserved() {
    assert_eq!(resolve("AZURE_KEY_VAULT_TEST"), "op://Production/AzureKeyVaultAZURE_KEY_VAULT_TEST/url");
}

#[test]
fn parse_key_splits_environment_and_name() {
    let parsed = parse_key("svc_test");
    assert_eq!(parsed.environment, Environment::Test);
    assert_eq!(parsed.name, "svc");
    let parsed = parse_key("svc");
    assert_eq!(parsed.environment, Environment::Production);
    assert_eq!(parsed.name, "svc");
}

#[test]
fn vault_names() {
    assert_eq!(Environment::Production.vault_name(), "Production");
    assert_eq!(Environment::Test.vault_name(), "Test");
}

#[test]
fn reference_for_builds_template() {
    assert_eq!(reference_for(Environment::Test, "x"), "op://Test/AzureKeyVaultx/url");
    assert_eq!(reference_for(Environment::Production, ""), "op://Production/AzureKeyVault/url");
}

#[test]
fn agent_invocation() {
    assert_eq!(AGENT_PROGRAM, "op");
    let args = agent_arguments("op://Test/AzureKeyVaultdemo/url");
    assert_eq!(args, vec!["read".to_string(), "op://Test/AzureKeyVaultdemo/url".to_string()]);
}

#[test]
fn carriage_return_line_ending_is_removed() {
    let m = SecretManager::from_output(b"https://foo.bar.baz.net/\r\n".to_vec()).unwrap();
    assert_eq!(m.url, "https://foo.bar.baz.net/");
}

#[test]
fn leading_whitespace_is_kept() {
    let m = SecretManager::from_output(b"  https://x/ \t\n\n".to_vec()).unwrap();
    assert_eq!(m.url, "  https://x/");
}

#[test]
fn empty_output_gives_empty_value() {
    let m = SecretManager::from_output(Vec::new()).unwrap();
    assert_eq!(m.url, "");
    let m = SecretManager::from_output(b"\n".to_vec()).unwrap();
    assert_eq!(m.url, "");
}

#[test]
fn multibyte_output_is_decoded() {
    let m = SecretManager::from_output("h\u{e9}llo\u{3000}\n".as_bytes().to_vec()).unwrap();
    assert_eq!(m.url, "h\u{e9}llo");
}

#[test]
fn diagnostic_text_is_taken_as_value() {
    let m = SecretManager::from_output(b"[ERROR] item not found\n".to_vec()).unwrap();
    assert_eq!(m.url, "[ERROR] item not found");
}

#[test]
fn invalid_utf8_is_a_decode_failure() {
    let r = SecretManager::from_output(vec![0x68, 0xff, 0xfe, 0x0a]);
    assert!(matches!(r, Err(SecretError::DecodeFailure)));
    let r = SecretManager::from_agent_result(Ok(vec![0xc3]));
    assert!(matches!(r, Err(SecretError::DecodeFailure)));
}

#[test]
fn launch_failure_is_an_execution_failure() {
    let r = SecretManager::from_agent_result(Err("not found".to_string()));
    match r {
        Err(SecretError::ExecutionFailure(message)) => assert_eq!(message, "not found"),
        _ => panic!("expected an execution failure"),
    }
}

#[test]
fn captured_output_goes_through_decoding() {
    let m = SecretManager::from_agent_result(Ok(b"https://a.b/\n".to_vec())).unwrap();
    assert_eq!(m.url, "https://a.b/");
}

#[test]
fn trim_secret_removes_unicode_white_space() {
    assert_eq!(trim_secret("abc \u{a0}\u{2028}\r\n"), "abc");
    assert_eq!(trim_secret("a b"), "a b");
}
