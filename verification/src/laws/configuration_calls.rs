//! What the functions of the configuration answer, told of the calls themselves.

use vstd::prelude::*;
use vstd::utf8::encode_utf8;
use crate::config::{
    path_valid, require_binding, schema_name_valid, valid_binding, valid_id, valid_secret_reference,
    validate_config, D1Config, FeatureFlagConfig, FeatureFlagConfigError, PolicyConfig, PolicyError,
};
use crate::domain::texts;
use super::configuration::{
    lemma_binding_is_made_of_its_characters, lemma_identifier_is_made_of_its_characters, plain,
};

verus! {

/// A character of an identifier, by its number: a letter, a digit, a dot, an underscore, a hyphen
/// or a colon.
pub open spec fn identifier_character(c: char) -> bool {
    plain(c) || c as int == 46 || c as int == 95 || c as int == 45 || c as int == 58
}

/// One to 256 bytes, each character one of an identifier.
pub open spec fn identifier(text: Seq<char>) -> bool {
    &&& text.len() >= 1
    &&& encode_utf8(text).len() <= 256
    &&& forall|i: int| 0 <= i < text.len() ==> identifier_character(#[trigger] text[i])
}

proof fn lemma_identifier(text: Seq<char>)
    ensures
        crate::config::id_valid(text) <==> identifier(text),
{
    lemma_identifier_is_made_of_its_characters(text);
    if identifier(text) {
        assert forall|i: int| 0 <= i < text.len() implies plain(#[trigger] text[i]) || text[i]
            as int == 46 || text[i] as int == 95 || text[i] as int == 45 || text[i] as int
            == 58 by {
            assert(identifier_character(text[i]));
        }
    }
}

/// A text is taken for an identifier exactly if it is one.
pub proof fn lemma_identifier_is_told(value: &str, valid: bool)
    requires
        call_ensures(valid_id, (value,), valid),
    ensures
        valid <==> identifier(value@),
{
    lemma_identifier(value@);
}

/// A text refers to a secret exactly if it is an identifier or a path of names.
pub proof fn lemma_reference_is_told(value: &str, valid: bool)
    requires
        call_ensures(valid_secret_reference, (value,), valid),
    ensures
        valid <==> identifier(value@) || path_valid(value@),
{
    lemma_identifier(value@);
}

/// One to 128 bytes: a letter, and then letters, digits and underscores.
pub open spec fn binding_name(text: Seq<char>) -> bool {
    &&& text.len() >= 1
    &&& encode_utf8(text).len() <= 128
    &&& 65 <= text[0] as int <= 90 || 97 <= text[0] as int <= 122
    &&& forall|i: int| 0 <= i < text.len() ==> plain(#[trigger] text[i]) || text[i] as int == 95
}

/// A text is taken for a binding's name exactly if it is one.
pub proof fn lemma_binding_is_told(value: &str, valid: bool)
    requires
        call_ensures(valid_binding, (value,), valid),
    ensures
        valid <==> binding_name(value@),
{
    lemma_binding_is_made_of_its_characters(value@);
}

/// A refusal is reported by its message, behind what all of them begin with.
pub proof fn lemma_refusal_is_reported(
    error: &FeatureFlagConfigError,
    message: &'static str,
    detail: String,
)
    requires
        call_ensures(FeatureFlagConfigError::message, (error,), message),
        call_ensures(FeatureFlagConfigError::detail, (error,), detail),
    ensures
        detail@ == "Feature Flag configuration is invalid: "@ + message@,
        message@ == match *error {
            FeatureFlagConfigError::InvalidSchema => "invalid owned PostgreSQL schema"@,
            FeatureFlagConfigError::InvalidSecretReference => {
                "invalid database URL secret reference"@
            },
            FeatureFlagConfigError::InvalidAuthIssuer => "invalid Auth issuer"@,
            FeatureFlagConfigError::InvalidAuthPublicKey => "invalid Auth assertion public key"@,
            FeatureFlagConfigError::InvalidEvaluationCallers => {
                "evaluation_callers must contain unique exact Instance keys"@
            },
            FeatureFlagConfigError::InvalidAdminCallers => {
                "admin_callers must contain unique exact Instance keys"@
            },
            FeatureFlagConfigError::InvalidBounds => "invalid context, attribute, or batch bound"@,
        },
{
}

/// The policy has the callers in the order in which they are given, and everything else as it is
/// given.
pub open spec fn policy_has(
    policy: PolicyConfig,
    auth_issuer: Seq<char>,
    auth_assertion_public_key: Seq<char>,
    evaluation_callers: Seq<String>,
    admin_callers: Seq<String>,
    bounds: (usize, usize, usize),
) -> bool {
    &&& policy.auth_issuer@ == auth_issuer
    &&& policy.auth_assertion_public_key@ == auth_assertion_public_key
    &&& policy.evaluation_callers@.len() == evaluation_callers.len()
    &&& forall|i: int|
        0 <= i < evaluation_callers.len() ==> (#[trigger] policy.evaluation_callers@[i])@
            == evaluation_callers[i]@
    &&& policy.admin_callers@.len() == admin_callers.len()
    &&& forall|i: int|
        0 <= i < admin_callers.len() ==> (#[trigger] policy.admin_callers@[i])@
            == admin_callers[i]@
    &&& policy.max_context_bytes == bounds.0
    &&& policy.max_attributes == bounds.1
    &&& policy.max_batch_size == bounds.2
}

proof fn lemma_same_texts(a: Seq<String>, b: Seq<String>)
    requires
        texts(a) == texts(b),
    ensures
        a.len() == b.len(),
        forall|i: int| 0 <= i < b.len() ==> (#[trigger] a[i])@ == b[i]@,
{
    assert(texts(a).len() == a.len() && texts(b).len() == b.len());
    assert forall|i: int| 0 <= i < b.len() implies (#[trigger] a[i])@ == b[i]@ by {
        assert(texts(a)[i] == a[i]@ && texts(b)[i] == b[i]@);
    }
}

/// A configuration that is accepted hands out what it was made of.
pub proof fn lemma_configuration_hands_out_what_it_has(
    schema: String,
    database_url_secret: String,
    auth_issuer: String,
    auth_assertion_public_key: String,
    evaluation_callers: Vec<String>,
    admin_callers: Vec<String>,
    bounds: (usize, usize, usize),
    found: Result<(), PolicyError>,
    result: Result<FeatureFlagConfig, FeatureFlagConfigError>,
    given_schema: &str,
    given_secret: &str,
    given_policy: &PolicyConfig,
)
    requires
        call_ensures(
            FeatureFlagConfig::new,
            (
                schema,
                database_url_secret,
                auth_issuer,
                auth_assertion_public_key,
                evaluation_callers,
                admin_callers,
                bounds.0,
                bounds.1,
                bounds.2,
                found,
            ),
            result,
        ),
        result is Ok,
        call_ensures(FeatureFlagConfig::schema, (&result->Ok_0,), given_schema),
        call_ensures(FeatureFlagConfig::database_url_secret, (&result->Ok_0,), given_secret),
        call_ensures(FeatureFlagConfig::policy, (&result->Ok_0,), given_policy),
    ensures
        given_schema@ == schema@,
        given_secret@ == database_url_secret@,
        policy_has(
            *given_policy,
            auth_issuer@,
            auth_assertion_public_key@,
            evaluation_callers@,
            admin_callers@,
            bounds,
        ),
{
    assert(given_policy@.evaluation_callers == texts(given_policy.evaluation_callers@));
    assert(given_policy@.admin_callers == texts(given_policy.admin_callers@));
    lemma_same_texts(given_policy.evaluation_callers@, evaluation_callers@);
    lemma_same_texts(given_policy.admin_callers@, admin_callers@);
}

/// A configuration is accepted exactly if its schema can be owned, its secret is referred to by an
/// identifier or a path, and nothing is found wrong with its policy; else it is refused for the
/// first of these that fails, and validating says the same as making it.
pub proof fn lemma_configuration_is_accepted(
    config: &FeatureFlagConfig,
    schema: &str,
    secret: &str,
    found: Result<(), PolicyError>,
    result: Result<(), FeatureFlagConfigError>,
)
    requires
        call_ensures(FeatureFlagConfig::schema, (config,), schema),
        call_ensures(FeatureFlagConfig::database_url_secret, (config,), secret),
        call_ensures(FeatureFlagConfig::validate, (config, found), result),
    ensures
        result is Ok <==> schema_name_valid(schema@) && (identifier(secret@) || path_valid(secret@))
            && found is Ok,
        !schema_name_valid(schema@) ==> result is Err && result->Err_0 is InvalidSchema,
        schema_name_valid(schema@) && !(identifier(secret@) || path_valid(secret@)) ==> result
            is Err && result->Err_0 is InvalidSecretReference,
        schema_name_valid(schema@) && (identifier(secret@) || path_valid(secret@)) && found
            is Err ==> result is Err && match found->Err_0 {
            PolicyError::InvalidAuthIssuer => result->Err_0 is InvalidAuthIssuer,
            PolicyError::InvalidAuthPublicKey => result->Err_0 is InvalidAuthPublicKey,
            PolicyError::InvalidEvaluationCallers => result->Err_0 is InvalidEvaluationCallers,
            PolicyError::InvalidAdminCallers => result->Err_0 is InvalidAdminCallers,
            PolicyError::InvalidBounds => result->Err_0 is InvalidBounds,
        },
{
    lemma_identifier(secret@);
}

/// The policy of a configuration of the store on D1 has what the configuration has.
pub proof fn lemma_d1_configuration_hands_out_its_policy(config: &D1Config, policy: PolicyConfig)
    requires
        call_ensures(D1Config::policy, (config,), policy),
    ensures
        policy_has(
            policy,
            config.auth_issuer@,
            config.auth_assertion_public_key@,
            config.evaluation_callers@,
            config.admin_callers@,
            (config.max_context_bytes, config.max_attributes, config.max_batch_size),
        ),
{
    assert(policy@.evaluation_callers == texts(policy.evaluation_callers@));
    assert(policy@.admin_callers == texts(policy.admin_callers@));
    lemma_same_texts(policy.evaluation_callers@, config.evaluation_callers@);
    lemma_same_texts(policy.admin_callers@, config.admin_callers@);
}

/// A configuration of the store on D1 is accepted exactly if its binding has a binding's name and
/// nothing is found wrong with its policy; a wrong name is reported first, and what is found wrong
/// with the policy is reported as it is.
pub proof fn lemma_d1_configuration_is_accepted(
    config: &D1Config,
    found: Result<(), String>,
    result: Result<(), String>,
)
    requires
        call_ensures(validate_config, (config, found), result),
    ensures
        result is Ok <==> binding_name(config.binding@) && found is Ok,
        !binding_name(config.binding@) ==> result is Err && result->Err_0@
            == "invalid Feature Flag D1 binding name"@,
        binding_name(config.binding@) && found is Err ==> result is Err && result->Err_0@
            == found->Err_0@,
{
    lemma_binding_is_made_of_its_characters(config.binding@);
}

/// A factory's binding is accepted exactly if its name is the configured one.
pub proof fn lemma_factory_binding_is_the_configured_one(
    config: &D1Config,
    name: &str,
    result: Result<(), String>,
)
    requires
        call_ensures(require_binding, (config, name), result),
    ensures
        result is Ok <==> name@ == config.binding@,
        result is Err ==> result->Err_0@
            == "Feature Flag factory requires its exact configured D1 binding"@,
{
}

} // verus!
