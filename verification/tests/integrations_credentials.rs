use openhuman::credentials::rpc::{non_blank_trimmed, provider_name, provider_token, session_token};
use openhuman::integrations::client::{auth_token, bearer, request_url, status_error, unwrap_envelope};
use openhuman::life_capture::runtime::{RuntimeSlot, NOT_INITIALISED};
use openhuman::local_ai::install::{binary_name, common_locations, env_override, install_command, unsupported_platform_error, Platform};

#[test]
fn requests_and_tokens() {
    assert_eq!(request_url("https://api.example", "/agent-integrations/pricing"), "https://api.example/agent-integrations/pricing");
    assert_eq!(bearer("t0k"), "Bearer t0k");
    assert_eq!(auth_token(&Some("  key ".into())), Some("key".to_string()));
    assert_eq!(auth_token(&Some("   ".into())), None);
    assert_eq!(auth_token(&None), None);
    assert_eq!(status_error("GET", "u", "404 Not Found"), "Backend returned 404 Not Found for GET u");
}

#[test]
fn envelopes() {
    assert_eq!(unwrap_envelope("POST", "u", true, None, Some(5)), Ok(5));
    assert_eq!(
        unwrap_envelope::<i32>("POST", "u", false, Some("nope".into()), None),
        Err("Backend error for POST u: nope".to_string())
    );
    assert_eq!(
        unwrap_envelope::<i32>("GET", "u", false, None, Some(1)),
        Err("Backend error for GET u: unknown backend error".to_string())
    );
    assert_eq!(
        unwrap_envelope::<i32>("GET", "u", true, None, None),
        Err("Backend returned success but no data for GET u".to_string())
    );
}

#[test]
fn credential_checks() {
    assert_eq!(session_token("  abc "), Ok("abc".to_string()));
    assert_eq!(session_token("  "), Err("token is required".to_string()));
    assert_eq!(non_blank_trimmed(Some(" u1 ".into())), Some("u1".to_string()));
    assert_eq!(non_blank_trimmed(Some(" ".into())), None);
    assert_eq!(provider_name(""), Err("provider is required".to_string()));
    assert_eq!(provider_token(Some(" t ".into()), Some("f".into()), None, false), Ok("t".to_string()));
    assert_eq!(provider_token(Some(" ".into()), Some("f".into()), Some("k".into()), false), Ok("f".to_string()));
    assert_eq!(provider_token(None, None, Some("k".into()), false), Ok("k".to_string()));
    assert_eq!(provider_token(None, None, None, false), Ok(String::new()));
    assert_eq!(
        provider_token(None, None, None, true),
        Err("provide at least one credential via token or fields".to_string())
    );
}

#[test]
fn runtime_slot_is_set_once() {
    let mut slot: RuntimeSlot<u32> = RuntimeSlot::new();
    assert_eq!(slot.get().err(), Some(NOT_INITIALISED));
    assert!(slot.init(1).is_ok());
    assert!(slot.init(2).is_err());
    assert_eq!(slot.get(), Ok(&1));
}

#[test]
fn ollama_install_and_lookup_rules() {
    let linux = install_command(Platform::Linux).unwrap();
    assert_eq!(linux.program, "sh");
    assert_eq!(linux.args, vec!["-lc", "curl -fsSL https://ollama.com/install.sh | sh"]);
    assert!(install_command(Platform::Other).is_none());
    assert_eq!(install_command(Platform::Windows).unwrap().program, "powershell");
    assert_eq!(unsupported_platform_error("freebsd", "x86_64"), "Unsupported platform for automatic Ollama install: freebsd-x86_64");
    assert_eq!(binary_name(Platform::Windows), "ollama.exe");
    assert_eq!(binary_name(Platform::MacOs), "ollama");
    assert_eq!(common_locations(Platform::MacOs), vec!["/usr/local/bin/ollama", "/opt/homebrew/bin/ollama"]);
    assert!(common_locations(Platform::Windows).is_empty());
    assert_eq!(env_override(Some(" /x/ollama".into())), Some(" /x/ollama".to_string()));
    assert_eq!(env_override(Some("  ".into())), None);
}
