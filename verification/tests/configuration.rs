use feature_flag::config::{
    require_binding, valid_binding, valid_id, valid_secret_reference, validate_config, D1Config,
    FeatureFlagConfig, FeatureFlagConfigError, PolicyError, INVALID_BINDING, OTHER_BINDING,
};
use feature_flag::qualification::exercise::meant_for;
use lenso_auth_sdk::{
    audience, ActorAssertion, ActorAssertionIssuer, ActorAssertionVerifier, ActorProjectionError,
    AssertionClock, TypedActor, Validity,
};
use lenso_kernel::{CancellationToken, InvocationContext};
use std::collections::BTreeMap;
use time::{Duration, OffsetDateTime};

fn config(
    schema: &str,
    secret: &str,
    policy: Result<(), PolicyError>,
) -> Result<FeatureFlagConfig, FeatureFlagConfigError> {
    FeatureFlagConfig::new(
        schema.to_owned(),
        secret.to_owned(),
        "auth.users".to_owned(),
        "key".to_owned(),
        vec!["feature-api".to_owned()],
        vec!["feature-admin".to_owned()],
        16_384,
        32,
        50,
        policy,
    )
}

#[test]
fn a_sound_configuration_keeps_its_fields() {
    let config = config("feature_flags", "feature-flags/database-url", Ok(())).unwrap();
    assert_eq!(config.schema(), "feature_flags");
    assert_eq!(config.database_url_secret(), "feature-flags/database-url");
    assert_eq!(config.policy().auth_issuer, "auth.users");
    assert_eq!(config.policy().auth_assertion_public_key, "key");
    assert_eq!(config.policy().evaluation_callers, ["feature-api"]);
    assert_eq!(config.policy().admin_callers, ["feature-admin"]);
    assert_eq!(config.policy().max_context_bytes, 16_384);
    assert_eq!(config.policy().max_attributes, 32);
    assert_eq!(config.policy().max_batch_size, 50);
    assert_eq!(config.validate(Err(PolicyError::InvalidBounds)), Err(FeatureFlagConfigError::InvalidBounds));
}

#[test]
fn a_configuration_is_refused_by_schema_then_secret_then_policy() {
    let refused = Err(PolicyError::InvalidAuthIssuer);
    assert_eq!(config("Public", "//", refused), Err(FeatureFlagConfigError::InvalidSchema));
    assert_eq!(
        config("flags", "//", refused),
        Err(FeatureFlagConfigError::InvalidSecretReference)
    );
    for (policy, expected, message) in [
        (PolicyError::InvalidAuthIssuer, FeatureFlagConfigError::InvalidAuthIssuer, "invalid Auth issuer"),
        (
            PolicyError::InvalidAuthPublicKey,
            FeatureFlagConfigError::InvalidAuthPublicKey,
            "invalid Auth assertion public key",
        ),
        (
            PolicyError::InvalidEvaluationCallers,
            FeatureFlagConfigError::InvalidEvaluationCallers,
            "evaluation_callers must contain unique exact Instance keys",
        ),
        (
            PolicyError::InvalidAdminCallers,
            FeatureFlagConfigError::InvalidAdminCallers,
            "admin_callers must contain unique exact Instance keys",
        ),
        (
            PolicyError::InvalidBounds,
            FeatureFlagConfigError::InvalidBounds,
            "invalid context, attribute, or batch bound",
        ),
    ] {
        assert_eq!(config("flags", "secret", Err(policy)), Err(expected));
        assert_eq!(expected.message(), message);
        assert_eq!(
            expected.detail(),
            format!("Feature Flag configuration is invalid: {message}")
        );
    }
    assert_eq!(FeatureFlagConfigError::InvalidSchema.message(), "invalid owned PostgreSQL schema");
    assert_eq!(
        FeatureFlagConfigError::InvalidSecretReference.message(),
        "invalid database URL secret reference"
    );
}

#[test]
fn schemas_are_owned() {
    for schema in ["flags", "f", "feature_flags_2", &"x".repeat(63)] {
        assert!(config(schema, "secret", Ok(())).is_ok(), "{schema}");
    }
    for schema in [
        "", "public", "information_schema", "pg_flags", "Flags", "flags-x", "1flags", "_flags", "flä",
        &"x".repeat(64),
    ] {
        assert_eq!(
            config(schema, "secret", Ok(())),
            Err(FeatureFlagConfigError::InvalidSchema),
            "{schema}"
        );
    }
    assert!(config("publicly", "secret", Ok(())).is_ok());
}

#[test]
fn identifiers_are_short_and_plain() {
    for id in ["a", "a.b_c-d:e", "A9", &"x".repeat(256)] {
        assert!(valid_id(id), "{id}");
    }
    for id in ["", "a b", "a/b", "é", &"x".repeat(257)] {
        assert!(!valid_id(id), "{id}");
    }
}

#[test]
fn secret_references_are_identifiers_or_paths() {
    for reference in ["db:url", "feature-flags/database-url", "a/b.c/d_e", "a/...", "..", "a..b", ".x/y"] {
        assert!(valid_secret_reference(reference), "{reference}");
    }
    for reference in [
        "", "/a", "a/", "a//b", "/", "a/../b", "./a", "a/.", "a/..", "a b", "a:b/c", "a/é", "../a",
        &format!("a/{}", "x".repeat(255)),
    ] {
        assert!(!valid_secret_reference(reference), "{reference}");
    }
    assert!(valid_secret_reference(&format!("a/{}", "x".repeat(254))));
}

fn d1(binding: &str) -> D1Config {
    D1Config {
        binding: binding.to_owned(),
        auth_issuer: "auth.test".to_owned(),
        auth_assertion_public_key: "key".to_owned(),
        evaluation_callers: vec!["caller".to_owned()],
        admin_callers: vec!["caller".to_owned(), "other".to_owned()],
        max_context_bytes: 1,
        max_attributes: 2,
        max_batch_size: 3,
    }
}

#[test]
fn bindings_are_named_like_constants() {
    for name in ["F", "FEATURES", "f_1", &"x".repeat(128)] {
        assert!(valid_binding(name), "{name}");
    }
    for name in ["", "1F", "_F", "F-1", "é", &"x".repeat(129)] {
        assert!(!valid_binding(name), "{name}");
        assert_eq!(
            validate_config(&d1(name), Err("policy".to_owned())),
            Err(INVALID_BINDING.to_owned())
        );
    }
    assert_eq!(validate_config(&d1("F"), Ok(())), Ok(()));
    assert_eq!(validate_config(&d1("F"), Err("policy".to_owned())), Err("policy".to_owned()));
}

#[test]
fn a_factory_needs_its_exact_binding() {
    assert_eq!(require_binding(&d1("FEATURES"), "FEATURES"), Ok(()));
    assert_eq!(require_binding(&d1("FEATURES"), "features"), Err(OTHER_BINDING.to_owned()));
    let policy = d1("F").policy();
    assert_eq!(policy.auth_issuer, "auth.test");
    assert_eq!(policy.admin_callers, ["caller", "other"]);
    assert_eq!((policy.max_context_bytes, policy.max_attributes, policy.max_batch_size), (1, 2, 3));
}

#[derive(Clone, Debug)]
struct FeatureActor {
    subject: String,
}

impl TypedActor for FeatureActor {
    fn from_assertion(assertion: &ActorAssertion) -> Result<Self, ActorProjectionError> {
        Ok(Self { subject: assertion.subject().to_owned() })
    }
}

#[derive(Clone, Copy, Debug)]
struct UtcClock;

impl AssertionClock for UtcClock {
    fn now(&self) -> OffsetDateTime {
        OffsetDateTime::now_utc()
    }
}

const EVALUATION: &str = "lenso.feature-evaluation@1";

fn assertion_verifier(config: &FeatureFlagConfig) -> ActorAssertionVerifier {
    ActorAssertionVerifier::from_public_key_base64(
        config.policy().auth_issuer.clone(),
        &config.policy().auth_assertion_public_key,
    )
    .unwrap()
}

#[test]
fn actor_assertion_is_bound_to_exact_operation() {
    let issuer = ActorAssertionIssuer::new("auth.users", b"feature-flag-test-key");
    let config = FeatureFlagConfig::new(
        "feature_flags".to_owned(),
        "feature-flags/database-url".to_owned(),
        "auth.users".to_owned(),
        issuer.public_key_base64(),
        vec!["feature-api".to_owned()],
        vec!["feature-admin".to_owned()],
        16_384,
        32,
        50,
        Ok(()),
    )
    .unwrap();
    let now = OffsetDateTime::now_utc();
    let assertion = issuer.issue(
        "usr_1",
        "user",
        "strong",
        [audience(EVALUATION, "evaluate")],
        Validity::new(now - Duration::seconds(1), now + Duration::minutes(1)).unwrap(),
        BTreeMap::default(),
    );
    let context = assertion
        .attach(
            InvocationContext::new(1, None, CancellationToken::new())
                .with_caller_instance("feature-api"),
        )
        .unwrap();
    let actor = assertion_verifier(&config)
        .project_context::<FeatureActor>(&context, EVALUATION, "evaluate", &UtcClock)
        .unwrap();
    assert_eq!(actor.subject, "usr_1");
    assert!(assertion_verifier(&config)
        .project_context::<FeatureActor>(&context, EVALUATION, "evaluate_batch", &UtcClock)
        .is_err());
    assert!(meant_for(assertion.audience(), EVALUATION, "evaluate"));
    assert!(!meant_for(assertion.audience(), EVALUATION, "evaluate_batch"));
}
