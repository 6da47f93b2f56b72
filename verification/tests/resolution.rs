//! Credential resolution scenarios: each resolver alone, and the
//! chain's precedence and hard-stop behavior.

use platz_client::config::{
    AuthScheme, Credentials, EnvSource, FileRead, PlatzClientConfig, ProfileFileRead,
    ProfileFileSource, ProfileInfo, ResolverOutcome, SecretSource, TomlConfig, VarRead,
};
use platz_client::config::chain_outcomes;
use platz_client::error::PlatzClientError;

fn value(s: &str) -> VarRead {
    VarRead::Value(s.to_string())
}

fn profile(url: &str, credentials: Credentials, default_profile: bool) -> ProfileInfo {
    ProfileInfo {
        url: url.to_string(),
        credentials,
        default_profile,
    }
}

fn bearer(token: &str, expired_at: Option<i64>) -> Credentials {
    Credentials::AccessToken {
        access_token: token.to_string(),
        expired_at,
    }
}

fn user_token(token: &str) -> Credentials {
    Credentials::UserToken {
        user_token: token.to_string(),
    }
}

fn absent_files() -> ProfileFileSource {
    ProfileFileSource {
        primary: ProfileFileRead::Missing,
        fallback: ProfileFileRead::Missing,
    }
}

fn absent_secret() -> SecretSource {
    SecretSource {
        access_token: FileRead::Missing,
        server_url: FileRead::Missing,
        expires_at: FileRead::Missing,
    }
}

fn env_with(url: VarRead, api: VarRead, user: VarRead) -> EnvSource {
    EnvSource {
        url,
        api_token: api,
        user_token: user,
        profile: VarRead::Missing,
    }
}

#[test]
fn api_token_selects_custom_header_scheme() {
    // API token set, user token unset: custom-header scheme, token verbatim.
    let r = PlatzClientConfig::new_from_env(
        &value("https://platz.example.com"),
        &value("tok-123"),
        &VarRead::Missing,
    )
    .unwrap()
    .unwrap();
    assert!(matches!(r.scheme, AuthScheme::XPlatzToken));
    assert_eq!(r.contents, "tok-123");
    assert!(r.expires_at.is_none());
    let (name, val) = r.get_authorization().unwrap();
    assert_eq!(name, "x-platz-token");
    assert_eq!(val, "tok-123");
}

#[test]
fn user_token_selects_bearer_scheme() {
    let r = PlatzClientConfig::new_from_env(
        &value("https://platz.example.com"),
        &VarRead::Missing,
        &value("ut-9"),
    )
    .unwrap()
    .unwrap();
    assert!(matches!(r.scheme, AuthScheme::Bearer));
    let (name, val) = r.get_authorization().unwrap();
    assert_eq!(name, "authorization");
    assert_eq!(val, "Bearer ut-9");
}

#[test]
fn env_url_is_normalized() {
    let r = PlatzClientConfig::new_from_env(
        &value("https://platz.example.com"),
        &value("t"),
        &VarRead::Missing,
    )
    .unwrap()
    .unwrap();
    // the url crate serializes an authority-only URL with a trailing slash
    assert_eq!(r.server_url, "https://platz.example.com/");
}

#[test]
fn env_absent_is_not_applicable() {
    let r = PlatzClientConfig::new_from_env(&VarRead::Missing, &VarRead::Missing, &VarRead::Missing)
        .unwrap();
    assert!(r.is_none());
    // a token alone, with no address, is also not applicable
    let r = PlatzClientConfig::new_from_env(&VarRead::Missing, &value("t"), &VarRead::Missing)
        .unwrap();
    assert!(r.is_none());
}

#[test]
fn env_bad_url_is_hard_error() {
    let r = PlatzClientConfig::new_from_env(
        &value("not a url"),
        &value("tok"),
        &VarRead::Missing,
    );
    assert!(matches!(r, Err(PlatzClientError::EnvVarParseError(v)) if v == "PLATZ_URL"));
}

#[test]
fn env_unreadable_token_is_hard_error() {
    let r = PlatzClientConfig::new_from_env(
        &value("https://x.example"),
        &VarRead::Unreadable,
        &VarRead::Missing,
    );
    assert!(matches!(r, Err(PlatzClientError::EnvVarParseError(v)) if v == "PLATZ_API_TOKEN"));
}

#[test]
fn env_empty_token_is_hard_error() {
    let r = PlatzClientConfig::new_from_env(
        &value("https://x.example"),
        &value(""),
        &VarRead::Missing,
    );
    assert!(matches!(r, Err(PlatzClientError::EnvVarParseError(v)) if v == "PLATZ_API_TOKEN"));
}

#[test]
fn env_hard_error_does_not_fall_through() {
    // the profile file and the mounted secret both hold usable
    // credentials, but the malformed environment aborts resolution
    let files = ProfileFileSource {
        primary: ProfileFileRead::Parsed(TomlConfig {
            profile: vec![(
                "prod".to_string(),
                profile("https://prod.example.com", bearer("ptok", None), true),
            )],
        }),
        fallback: ProfileFileRead::Missing,
    };
    let secret = SecretSource {
        access_token: FileRead::Content("stok".to_string()),
        server_url: FileRead::Content("https://s.example.com".to_string()),
        expires_at: FileRead::Content("2099-01-01T00:00:00Z".to_string()),
    };
    let env = env_with(value("::::"), value("tok"), VarRead::Missing);
    let r = PlatzClientConfig::new(&env, &files, &secret);
    assert!(matches!(r, Err(PlatzClientError::EnvVarParseError(v)) if v == "PLATZ_URL"));
}

#[test]
fn default_profile_round_trip() {
    // a file declaring "prod" as default, nothing requested: the
    // resolved record carries prod's address and credential
    let files = ProfileFileSource {
        primary: ProfileFileRead::Parsed(TomlConfig {
            profile: vec![
                (
                    "dev".to_string(),
                    profile("https://dev.example.com", bearer("dtok", None), false),
                ),
                (
                    "prod".to_string(),
                    profile("https://prod.example.com", bearer("ptok", None), true),
                ),
            ],
        }),
        fallback: ProfileFileRead::Missing,
    };
    let env = env_with(VarRead::Missing, VarRead::Missing, VarRead::Missing);
    let r = PlatzClientConfig::new(&env, &files, &absent_secret()).unwrap();
    assert_eq!(r.server_url, "https://prod.example.com/");
    assert_eq!(r.contents, "ptok");
    assert!(matches!(r.scheme, AuthScheme::Bearer));
}

#[test]
fn two_default_profiles_fail() {
    let files = ProfileFileSource {
        primary: ProfileFileRead::Parsed(TomlConfig {
            profile: vec![
                (
                    "a".to_string(),
                    profile("https://a.example.com", bearer("at", None), true),
                ),
                (
                    "b".to_string(),
                    profile("https://b.example.com", bearer("bt", None), true),
                ),
            ],
        }),
        fallback: ProfileFileRead::Missing,
    };
    let env = env_with(VarRead::Missing, VarRead::Missing, VarRead::Missing);
    let r = PlatzClientConfig::new(&env, &files, &absent_secret());
    assert!(matches!(r, Err(PlatzClientError::ConfigTomlError(m)) if m == "Multiple default profiles"));
}

#[test]
fn requested_profile_wins_over_default() {
    let doc = ProfileFileRead::Parsed(TomlConfig {
        profile: vec![
            (
                "dev".to_string(),
                profile("https://dev.example.com", user_token("du", ), false),
            ),
            (
                "prod".to_string(),
                profile("https://prod.example.com", bearer("pt", None), true),
            ),
        ],
    });
    let r = PlatzClientConfig::from_config_toml(
        &doc,
        &Some("dev".to_string()),
        &VarRead::Missing,
    )
    .unwrap()
    .unwrap();
    assert_eq!(r.server_url, "https://dev.example.com/");
    assert!(matches!(r.scheme, AuthScheme::XPlatzToken));
    assert_eq!(r.contents, "du");
}

#[test]
fn profile_override_variable_is_consulted() {
    let doc = ProfileFileRead::Parsed(TomlConfig {
        profile: vec![(
            "stage".to_string(),
            profile("https://stage.example.com", bearer("st", Some(99)), false),
        )],
    });
    let r = PlatzClientConfig::from_config_toml(&doc, &None, &value("stage"))
        .unwrap()
        .unwrap();
    assert_eq!(r.server_url, "https://stage.example.com/");
    assert_eq!(r.expires_at, Some(99));
}

#[test]
fn missing_requested_profile_is_hard_error() {
    let doc = ProfileFileRead::Parsed(TomlConfig { profile: vec![] });
    let r = PlatzClientConfig::from_config_toml(&doc, &Some("gone".to_string()), &VarRead::Missing);
    assert!(matches!(
        r,
        Err(PlatzClientError::ConfigTomlError(m)) if m == "Requested profile does not exist in configuration"
    ));
}

#[test]
fn no_default_profile_is_hard_error() {
    let doc = ProfileFileRead::Parsed(TomlConfig {
        profile: vec![(
            "only".to_string(),
            profile("https://only.example.com", bearer("ot", None), false),
        )],
    });
    let r = PlatzClientConfig::from_config_toml(&doc, &None, &VarRead::Missing);
    assert!(matches!(r, Err(PlatzClientError::ConfigTomlError(m)) if m == "Not default profile configured"));
}

#[test]
fn fallback_directory_is_tried_when_primary_is_absent() {
    let files = ProfileFileSource {
        primary: ProfileFileRead::Missing,
        fallback: ProfileFileRead::Parsed(TomlConfig {
            profile: vec![(
                "prod".to_string(),
                profile("https://fb.example.com", bearer("ft", None), true),
            )],
        }),
    };
    let r = PlatzClientConfig::new_from_configuration(
        &files.primary,
        &files.fallback,
        &None,
        &VarRead::Missing,
    )
    .unwrap()
    .unwrap();
    assert_eq!(r.server_url, "https://fb.example.com/");
}

#[test]
fn profile_parse_failure_is_hard_error() {
    let files = ProfileFileSource {
        primary: ProfileFileRead::ParseFailed("bad toml at line 3".to_string()),
        fallback: ProfileFileRead::Missing,
    };
    let env = env_with(VarRead::Missing, VarRead::Missing, VarRead::Missing);
    let r = PlatzClientConfig::new(&env, &files, &absent_secret());
    assert!(matches!(
        r,
        Err(PlatzClientError::ConfigDeserializationError(m)) if m == "bad toml at line 3"
    ));
}

#[test]
fn absent_secret_directory_falls_through() {
    // all three mounted files absent: the resolver is not applicable,
    // so the chain reports that no configuration was found at all
    let r = PlatzClientConfig::new_from_secret(
        &FileRead::Missing,
        &FileRead::Missing,
        &FileRead::Missing,
    )
    .unwrap();
    assert!(r.is_none());
    let env = env_with(VarRead::Missing, VarRead::Missing, VarRead::Missing);
    let r = PlatzClientConfig::new(&env, &absent_files(), &absent_secret());
    assert!(matches!(r, Err(PlatzClientError::NoConfigFound)));
}

#[test]
fn mounted_secret_resolves_with_expiry() {
    let r = PlatzClientConfig::new_from_secret(
        &FileRead::Content("mtok".to_string()),
        &FileRead::Content("https://in-cluster.example.com".to_string()),
        &FileRead::Content("2020-01-01T00:00:00Z".to_string()),
    )
    .unwrap()
    .unwrap();
    assert!(matches!(r.scheme, AuthScheme::Bearer));
    assert_eq!(r.contents, "mtok");
    assert_eq!(r.server_url, "https://in-cluster.example.com/");
    assert_eq!(r.expires_at, Some(1_577_836_800));
}

#[test]
fn mounted_secret_bad_url_is_hard_error() {
    let r = PlatzClientConfig::new_from_secret(
        &FileRead::Content("mtok".to_string()),
        &FileRead::Content("nope".to_string()),
        &FileRead::Content("2020-01-01T00:00:00Z".to_string()),
    );
    assert!(matches!(r, Err(PlatzClientError::MountedUrlParseError)));
}

#[test]
fn mounted_secret_bad_expiry_is_hard_error() {
    let r = PlatzClientConfig::new_from_secret(
        &FileRead::Content("mtok".to_string()),
        &FileRead::Content("https://x.example".to_string()),
        &FileRead::Content("yesterday-ish".to_string()),
    );
    assert!(matches!(r, Err(PlatzClientError::MountedExpiryParseError)));
}

#[test]
fn mounted_secret_read_failure_is_hard_error() {
    let r = PlatzClientConfig::new_from_secret(
        &FileRead::Failed("permission denied".to_string()),
        &FileRead::Content("https://x.example".to_string()),
        &FileRead::Content("2020-01-01T00:00:00Z".to_string()),
    );
    assert!(matches!(r, Err(PlatzClientError::ConfigReadError(m)) if m == "permission denied"));
}

#[test]
fn environment_wins_over_other_sources() {
    // every source holds usable credentials: the highest-priority one wins
    let env = env_with(
        value("https://env.example.com"),
        value("etok"),
        VarRead::Missing,
    );
    let files = ProfileFileSource {
        primary: ProfileFileRead::Parsed(TomlConfig {
            profile: vec![(
                "prod".to_string(),
                profile("https://prod.example.com", bearer("ptok", None), true),
            )],
        }),
        fallback: ProfileFileRead::Missing,
    };
    let secret = SecretSource {
        access_token: FileRead::Content("stok".to_string()),
        server_url: FileRead::Content("https://s.example.com".to_string()),
        expires_at: FileRead::Content("2099-01-01T00:00:00Z".to_string()),
    };
    let r = PlatzClientConfig::new(&env, &files, &secret).unwrap();
    assert_eq!(r.server_url, "https://env.example.com/");
    assert_eq!(r.contents, "etok");
}

#[test]
fn chain_takes_first_found_in_any_order() {
    let found = |url: &str| {
        ResolverOutcome::Found(PlatzClientConfig {
            server_url: url.to_string(),
            scheme: AuthScheme::Bearer,
            contents: "t".to_string(),
            expires_at: None,
        })
    };
    let r = chain_outcomes(vec![
        ResolverOutcome::NotApplicable,
        found("https://second.example.com/"),
        found("https://third.example.com/"),
    ])
    .unwrap();
    assert_eq!(r.server_url, "https://second.example.com/");

    let r = chain_outcomes(vec![
        found("https://first.example.com/"),
        ResolverOutcome::HardError(PlatzClientError::NoConfigFound),
    ])
    .unwrap();
    assert_eq!(r.server_url, "https://first.example.com/");
}

#[test]
fn chain_hard_error_aborts() {
    let r = chain_outcomes(vec![
        ResolverOutcome::NotApplicable,
        ResolverOutcome::HardError(PlatzClientError::MountedUrlParseError),
        ResolverOutcome::Found(PlatzClientConfig {
            server_url: "https://late.example.com/".to_string(),
            scheme: AuthScheme::Bearer,
            contents: "t".to_string(),
            expires_at: None,
        }),
    ]);
    assert!(matches!(r, Err(PlatzClientError::MountedUrlParseError)));
}

#[test]
fn empty_chain_finds_nothing() {
    let r = chain_outcomes(vec![]);
    assert!(matches!(r, Err(PlatzClientError::NoConfigFound)));
}
