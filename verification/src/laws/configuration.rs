//! Which configurations are accepted.

use vstd::prelude::*;
use vstd::utf8::encode_utf8;
use crate::config::{
    binding_valid, configuration_refusal, id_valid, part_at, path_character, path_valid,
    policy_error, schema_name_valid, secret_reference_valid, D1Config, FeatureFlagConfigError,
    PolicyError, INVALID_BINDING, OTHER_BINDING,
};
use crate::domain::texts;

verus! {

/// A letter or a digit of ASCII, by its number.
pub open spec fn plain(c: char) -> bool {
    48 <= c as int <= 57 || 65 <= c as int <= 90 || 97 <= c as int <= 122
}

/// An identifier has one to 256 bytes, and each of its characters is a letter, a digit, a dot, an
/// underscore, a hyphen or a colon.
pub proof fn lemma_identifier_is_made_of_its_characters(text: Seq<char>)
    ensures
        id_valid(text) <==> text.len() >= 1 && encode_utf8(text).len() <= 256 && forall|i: int|
            0 <= i < text.len() ==> plain(#[trigger] text[i]) || text[i] as int == 46
                || text[i] as int == 95 || text[i] as int == 45 || text[i] as int == 58,
{
    if id_valid(text) {
        assert forall|i: int| 0 <= i < text.len() implies plain(#[trigger] text[i]) || text[i]
            as int == 46 || text[i] as int == 95 || text[i] as int == 45 || text[i] as int
            == 58 by {
            assert(crate::config::id_character(text[i]));
        }
    } else if text.len() >= 1 && encode_utf8(text).len() <= 256 {
        let i = choose|i: int|
            0 <= i < text.len() && !crate::config::id_character(#[trigger] text[i]);
        assert(!(plain(text[i]) || text[i] as int == 46 || text[i] as int == 95 || text[i] as int
            == 45 || text[i] as int == 58));
    }
}

/// A binding's name has one to 128 bytes, begins with a letter, and goes on with letters, digits
/// and underscores.
pub proof fn lemma_binding_is_made_of_its_characters(text: Seq<char>)
    ensures
        binding_valid(text) <==> text.len() >= 1 && encode_utf8(text).len() <= 128 && (65
            <= text[0] as int <= 90 || 97 <= text[0] as int <= 122) && forall|i: int|
            0 <= i < text.len() ==> plain(#[trigger] text[i]) || text[i] as int == 95,
{
    if text.len() >= 1 {
        assert(crate::config::is_letter(text[0]) <==> (65 <= text[0] as int <= 90 || 97
            <= text[0] as int <= 122));
    }
    assert(forall|i: int|
        0 <= i < text.len() ==> ((crate::config::is_alphanumeric(#[trigger] text[i]) || text[i]
            == '_') <==> (plain(text[i]) || text[i] as int == 95)));
}

/// A character of a name in a path, by its number.
pub open spec fn name_character(c: char) -> bool {
    plain(c) || c as int == 46 || c as int == 95 || c as int == 45
}

/// A path of one name is valid exactly if the name has one to 256 bytes, of letters, digits, dots,
/// underscores and hyphens, and is neither one dot nor two.
pub proof fn lemma_path_of_one_name(text: Seq<char>)
    requires
        forall|i: int| 0 <= i < text.len() ==> #[trigger] text[i] != '/',
    ensures
        path_valid(text) <==> text.len() >= 1 && encode_utf8(text).len() <= 256 && (forall|i: int|
            0 <= i < text.len() ==> name_character(#[trigger] text[i])) && text != seq!['.']
            && text != seq!['.', '.'],
{
    let n = text.len() as int;
    assert(text.subrange(0, n) =~= text);
    assert(part_at(text, 0, n));
    assert forall|from: int, to: int| #[trigger] part_at(text, from, to) implies from == 0 && to
        == n by {
        if from > 0 {
            assert(text[from - 1] != '/');
        }
        if to < n {
            assert(text[to] != '/');
        }
    }
    assert(forall|i: int|
        0 <= i < text.len() ==> (path_character(#[trigger] text[i]) <==> name_character(text[i])));
}

/// Two texts with a slash between them are a path exactly if both are: every name is looked at, and
/// none for where it stands.
pub proof fn lemma_path_of_two_paths(a: Seq<char>, b: Seq<char>)
    requires
        encode_utf8(a).len() <= 256,
        encode_utf8(b).len() <= 256,
        encode_utf8(a + seq!['/'] + b).len() <= 256,
    ensures
        path_valid(a + seq!['/'] + b) <==> path_valid(a) && path_valid(b),
{
    let whole = a + seq!['/'] + b;
    let k = a.len() as int;
    let shift = k + 1;
    assert(whole[k] == '/');
    assert forall|i: int| 0 <= i < k implies whole[i] == #[trigger] a[i] by {}
    assert forall|i: int| 0 <= i < b.len() implies whole[shift + i] == #[trigger] b[i] by {}
    if path_valid(whole) {
        if a.len() == 0 {
            assert(part_at(whole, 0, 0));
        }
        if b.len() == 0 {
            assert(part_at(whole, whole.len() as int, whole.len() as int));
        }
        assert forall|i: int| 0 <= i < a.len() implies path_character(#[trigger] a[i]) by {
            assert(path_character(whole[i]));
        }
        assert forall|i: int| 0 <= i < b.len() implies path_character(#[trigger] b[i]) by {
            assert(path_character(whole[shift + i]));
        }
        assert forall|from: int, to: int| #[trigger] part_at(a, from, to) implies from < to
            && a.subrange(from, to) != seq!['.'] && a.subrange(from, to) != seq!['.', '.'] by {
            assert forall|i: int| from <= i < to implies #[trigger] whole[i] != '/' by {
                assert(a[i] != '/');
            }
            assert(part_at(whole, from, to));
            assert(whole.subrange(from, to) =~= a.subrange(from, to));
        }
        assert forall|from: int, to: int| #[trigger] part_at(b, from, to) implies from < to
            && b.subrange(from, to) != seq!['.'] && b.subrange(from, to) != seq!['.', '.'] by {
            assert forall|i: int| shift + from <= i < shift + to implies #[trigger] whole[i]
                != '/' by {
                assert(b[i - shift] != '/');
            }
            assert(part_at(whole, shift + from, shift + to));
            assert(whole.subrange(shift + from, shift + to) =~= b.subrange(from, to));
        }
    }
    if path_valid(a) && path_valid(b) {
        assert forall|i: int| 0 <= i < whole.len() implies path_character(#[trigger] whole[i]) by {
            if i < k {
                assert(path_character(a[i]));
            } else if i > k {
                assert(path_character(b[i - shift]));
            }
        }
        assert forall|from: int, to: int| #[trigger] part_at(whole, from, to) implies from < to
            && whole.subrange(from, to) != seq!['.'] && whole.subrange(from, to) != seq![
            '.',
            '.',
        ] by {
            if from <= k {
                if to > k {
                    assert(whole[k] != '/');
                }
                assert forall|i: int| from <= i < to implies #[trigger] a[i] != '/' by {
                    assert(whole[i] != '/');
                }
                if to < k {
                    assert(a[to] == whole[to]);
                }
                if from > 0 {
                    assert(a[from - 1] == whole[from - 1]);
                }
                assert(part_at(a, from, to));
                assert(whole.subrange(from, to) =~= a.subrange(from, to));
            } else {
                assert forall|i: int| from - shift <= i < to - shift implies #[trigger] b[i]
                    != '/' by {
                    assert(whole[shift + i] != '/');
                }
                if to < whole.len() {
                    assert(b[to - shift] == whole[to]);
                }
                if from > shift {
                    assert(b[from - shift - 1] == whole[from - 1]);
                }
                assert(part_at(b, from - shift, to - shift));
                assert(whole.subrange(from, to) =~= b.subrange(from - shift, to - shift));
            }
        }
    }
}

/// A secret is referred to by an identifier or by a path, and by nothing else.
pub proof fn lemma_secret_is_an_identifier_or_a_path(text: Seq<char>)
    ensures
        secret_reference_valid(text) <==> id_valid(text) || path_valid(text),
        secret_reference_valid(text) ==> text.len() >= 1 && encode_utf8(text).len() <= 256,
{
}

/// An owned schema is named by one to 63 bytes: a lower-case letter, and then lower-case letters,
/// digits and underscores. The names that the database keeps for itself cannot be owned.
pub proof fn lemma_schema_is_made_of_its_characters(text: Seq<char>)
    ensures
        schema_name_valid(text) <==> text.len() >= 1 && encode_utf8(text).len() <= 63 && 97
            <= text[0] as int <= 122 && (forall|i: int|
            0 <= i < text.len() ==> 97 <= #[trigger] text[i] as int <= 122 || 48 <= text[i] as int
                <= 57 || text[i] as int == 95) && text != "public"@ && text
            != "information_schema"@ && !"pg_"@.is_prefix_of(text),
        !schema_name_valid("public"@),
        !schema_name_valid("information_schema"@),
        forall|rest: Seq<char>| !#[trigger] schema_name_valid("pg_"@ + rest),
{
    if schema_name_valid(text) {
        assert forall|i: int| 0 <= i < text.len() implies 97 <= #[trigger] text[i] as int <= 122
            || 48 <= text[i] as int <= 57 || text[i] as int == 95 by {
            assert(crate::config::is_lower(text[i]) || ('0' <= text[i] && text[i] <= '9')
                || text[i] == '_');
        }
    }
    assert forall|rest: Seq<char>| !#[trigger] schema_name_valid("pg_"@ + rest) by {
        assert("pg_"@ =~= ("pg_"@ + rest).subrange(0, "pg_"@.len() as int));
    }
}

/// A configuration is refused for its schema first, then for the reference to its secret, then for
/// its policy, and accepted where nothing is wrong with them.
pub proof fn lemma_configuration_is_refused_in_order(
    schema: Seq<char>,
    secret: Seq<char>,
    policy: Result<(), PolicyError>,
)
    ensures
        !schema_name_valid(schema) ==> configuration_refusal(schema, secret, policy) == Some(
            FeatureFlagConfigError::InvalidSchema,
        ),
        schema_name_valid(schema) && !secret_reference_valid(secret) ==> configuration_refusal(
            schema,
            secret,
            policy,
        ) == Some(FeatureFlagConfigError::InvalidSecretReference),
        schema_name_valid(schema) && secret_reference_valid(secret) ==> configuration_refusal(
            schema,
            secret,
            policy,
        ) == match policy {
            Ok(()) => None,
            Err(PolicyError::InvalidAuthIssuer) => Some(FeatureFlagConfigError::InvalidAuthIssuer),
            Err(PolicyError::InvalidAuthPublicKey) => Some(
                FeatureFlagConfigError::InvalidAuthPublicKey,
            ),
            Err(PolicyError::InvalidEvaluationCallers) => Some(
                FeatureFlagConfigError::InvalidEvaluationCallers,
            ),
            Err(PolicyError::InvalidAdminCallers) => Some(
                FeatureFlagConfigError::InvalidAdminCallers,
            ),
            Err(PolicyError::InvalidBounds) => Some(FeatureFlagConfigError::InvalidBounds),
        },
{
}

/// Two refusals of a policy stay apart as refusals of a configuration.
pub proof fn lemma_policy_refusals_stay_apart(a: PolicyError, b: PolicyError)
    ensures
        policy_error(a) == policy_error(b) <==> a == b,
        policy_error(a) != FeatureFlagConfigError::InvalidSchema,
        policy_error(a) != FeatureFlagConfigError::InvalidSecretReference,
{
}

/// The message of each refusal names what is wrong.
pub proof fn lemma_refusals_name_what_is_wrong(error: FeatureFlagConfigError)
    ensures
        error.text() == match error {
            FeatureFlagConfigError::InvalidSchema => "invalid owned PostgreSQL schema"@,
            FeatureFlagConfigError::InvalidSecretReference => {
                "invalid database URL secret reference"@
            },
            FeatureFlagConfigError::InvalidAuthIssuer => "invalid Auth issuer"@,
            FeatureFlagConfigError::InvalidAuthPublicKey => "invalid Auth assertion public key"@,
            FeatureFlagConfigError::InvalidEvaluationCallers => {
                "evaluation_callers must contain unique exact Instance keys"@
            },
            FeatureFlagConfigError::InvalidAdminCallers => {
                "admin_callers must contain unique exact Instance keys"@
            },
            FeatureFlagConfigError::InvalidBounds => "invalid context, attribute, or batch bound"@,
        },
        INVALID_BINDING@ == "invalid Feature Flag D1 binding name"@,
        OTHER_BINDING@ == "Feature Flag factory requires its exact configured D1 binding"@,
{
}

/// The policy of a configuration of the store on D1 repeats it field by field.
pub proof fn lemma_d1_policy_repeats_the_configuration(config: D1Config)
    ensures
        config.policy_view().auth_issuer == config.auth_issuer@,
        config.policy_view().auth_assertion_public_key == config.auth_assertion_public_key@,
        config.policy_view().evaluation_callers == texts(config.evaluation_callers@),
        config.policy_view().admin_callers == texts(config.admin_callers@),
        config.policy_view().max_context_bytes == config.max_context_bytes,
        config.policy_view().max_attributes == config.max_attributes,
        config.policy_view().max_batch_size == config.max_batch_size,
{
}

} // verus!
