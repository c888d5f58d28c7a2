//! What a plugin is configured with, and when a configuration is refused.

use vstd::prelude::*;
use vstd::string::*;
use vstd::utf8::encode_utf8;
use crate::domain::{copy_texts, texts};
use crate::text::{characters, text_equal};

verus! {

/// An ASCII letter.
pub open spec fn is_letter(c: char) -> bool {
    ('a' <= c && c <= 'z') || ('A' <= c && c <= 'Z')
}

/// An ASCII letter or digit.
pub open spec fn is_alphanumeric(c: char) -> bool {
    is_letter(c) || ('0' <= c && c <= '9')
}

fn letter(c: char) -> (yes: bool)
    ensures
        yes == is_letter(c),
{
    ('a' <= c && c <= 'z') || ('A' <= c && c <= 'Z')
}

fn alphanumeric(c: char) -> (yes: bool)
    ensures
        yes == is_alphanumeric(c),
{
    letter(c) || ('0' <= c && c <= '9')
}

/// The most bytes in an identifier or a secret reference.
pub const MAX_REFERENCE_BYTES: usize = 256;

/// The most bytes in a binding's name.
pub const MAX_BINDING_BYTES: usize = 128;

/// A character of an identifier.
pub open spec fn id_character(c: char) -> bool {
    is_alphanumeric(c) || c == '.' || c == '_' || c == '-' || c == ':'
}

/// An identifier: a few characters, each of them allowed.
pub open spec fn id_valid(text: Seq<char>) -> bool {
    &&& text.len() > 0
    &&& encode_utf8(text).len() <= MAX_REFERENCE_BYTES
    &&& forall|i: int| 0 <= i < text.len() ==> id_character(#[trigger] text[i])
}

/// Whether a text is an identifier.
pub fn valid_id(value: &str) -> (valid: bool)
    ensures
        valid == id_valid(value@),
{
    let chars = characters(value);
    if chars.len() == 0 || value.as_bytes().len() > MAX_REFERENCE_BYTES {
        return false;
    }
    let mut i: usize = 0;
    while i < chars.len()
        invariant
            i <= chars@.len(),
            chars@ == value@,
            forall|j: int| 0 <= j < i ==> id_character(#[trigger] value@[j]),
        decreases chars@.len() - i,
    {
        let c = chars[i];
        if !(alphanumeric(c) || c == '.' || c == '_' || c == '-' || c == ':') {
            assert(!id_character(value@[i as int]));
            return false;
        }
        i += 1;
    }
    true
}

/// A character of a path of names.
pub open spec fn path_character(c: char) -> bool {
    is_alphanumeric(c) || c == '.' || c == '_' || c == '-' || c == '/'
}

/// The characters from one place to another are one part of the text: no slash is among them, and
/// on either side there is a slash or the text's end.
pub open spec fn part_at(text: Seq<char>, from: int, to: int) -> bool {
    &&& 0 <= from <= to <= text.len()
    &&& from == 0 || text[from - 1] == '/'
    &&& to == text.len() || text[to] == '/'
    &&& forall|i: int| from <= i < to ==> #[trigger] text[i] != '/'
}

/// A path of names: no part of it is empty, and none is one dot or two.
pub open spec fn path_valid(text: Seq<char>) -> bool {
    &&& text.len() > 0
    &&& encode_utf8(text).len() <= MAX_REFERENCE_BYTES
    &&& forall|i: int| 0 <= i < text.len() ==> path_character(#[trigger] text[i])
    &&& forall|from: int, to: int| #[trigger]
        part_at(text, from, to) ==> from < to && text.subrange(from, to) != seq!['.']
            && text.subrange(from, to) != seq!['.', '.']
}

/// A part that is empty, one dot or two.
spec fn part_bad(text: Seq<char>, from: int, to: int) -> bool {
    ||| from == to
    ||| to - from == 1 && text[from] == '.'
    ||| to - from == 2 && text[from] == '.' && text[from + 1] == '.'
}

proof fn lemma_part_bad(text: Seq<char>, from: int, to: int)
    requires
        0 <= from <= to <= text.len(),
    ensures
        part_bad(text, from, to) == !(from < to && text.subrange(from, to) != seq!['.']
            && text.subrange(from, to) != seq!['.', '.']),
{
    let part = text.subrange(from, to);
    if part_bad(text, from, to) && from < to {
        if to - from == 1 {
            assert(part =~= seq!['.']);
        } else {
            assert(part =~= seq!['.', '.']);
        }
    }
    if part == seq!['.'] {
        assert(part.len() == 1);
        assert(part[0] == text[from]);
    }
    if part == seq!['.', '.'] {
        assert(part.len() == 2);
        assert(part[0] == text[from] && part[1] == text[from + 1]);
    }
}

/// Every part that ends before a place is a good one, and the part that the place is in begins at
/// `start`.
spec fn parts_scanned(text: Seq<char>, start: int, at: int) -> bool {
    &&& 0 <= start <= at <= text.len()
    &&& start == 0 || text[start - 1] == '/'
    &&& forall|i: int| start <= i < at ==> #[trigger] text[i] != '/'
    &&& forall|from: int, to: int| #[trigger]
        part_at(text, from, to) && to < start ==> !part_bad(text, from, to)
}

proof fn lemma_part_begins_at_start(text: Seq<char>, start: int, at: int, from: int, to: int)
    requires
        parts_scanned(text, start, at),
        part_at(text, from, to),
        at == text.len() || text[at] == '/',
        start <= to <= at,
    ensures
        from == start,
        to == at,
{
    if from < start {
        assert(text[start - 1] != '/');
    }
    if from > start {
        assert(text[from - 1] != '/');
    }
    if to < at {
        assert(text[to] != '/');
    }
}

fn valid_path(value: &str) -> (valid: bool)
    ensures
        valid == path_valid(value@),
{
    let chars = characters(value);
    let ghost text = value@;
    if chars.len() == 0 || value.as_bytes().len() > MAX_REFERENCE_BYTES {
        return false;
    }
    let mut start: usize = 0;
    let mut i: usize = 0;
    while i < chars.len()
        invariant
            i <= chars@.len(),
            chars@ == text,
            text == value@,
            parts_scanned(text, start as int, i as int),
            forall|j: int| 0 <= j < i ==> path_character(#[trigger] text[j]),
        decreases chars@.len() - i,
    {
        let c = chars[i];
        if !(alphanumeric(c) || c == '.' || c == '_' || c == '-' || c == '/') {
            assert(!path_character(text[i as int]));
            return false;
        }
        if c == '/' {
            proof {
                assert(part_at(text, start as int, i as int));
                lemma_part_bad(text, start as int, i as int);
            }
            if bad_part(&chars, start, i) {
                return false;
            }
            proof {
                assert forall|from: int, to: int| #[trigger]
                    part_at(text, from, to) && to < i + 1 implies !part_bad(text, from, to) by {
                    if to >= start {
                        lemma_part_begins_at_start(text, start as int, i as int, from, to);
                    }
                }
            }
            start = i + 1;
        }
        i += 1;
    }
    proof {
        assert(part_at(text, start as int, i as int));
        lemma_part_bad(text, start as int, i as int);
        assert forall|from: int, to: int| #[trigger] part_at(text, from, to) && !part_bad(
            text,
            start as int,
            i as int,
        ) implies from < to && text.subrange(from, to) != seq!['.'] && text.subrange(from, to)
            != seq!['.', '.'] by {
            lemma_part_bad(text, from, to);
            if to >= start {
                lemma_part_begins_at_start(text, start as int, i as int, from, to);
            }
        }
    }
    !bad_part(&chars, start, i)
}

fn bad_part(chars: &Vec<char>, from: usize, to: usize) -> (bad: bool)
    requires
        from <= to <= chars@.len(),
    ensures
        bad == part_bad(chars@, from as int, to as int),
{
    from == to || (to - from == 1 && chars[from] == '.') || (to - from == 2 && chars[from] == '.'
        && chars[from + 1] == '.')
}

/// A reference to a secret: an identifier, or a path of names.
pub open spec fn secret_reference_valid(text: Seq<char>) -> bool {
    id_valid(text) || path_valid(text)
}

/// Whether a text refers to a secret.
pub fn valid_secret_reference(value: &str) -> (valid: bool)
    ensures
        valid == secret_reference_valid(value@),
{
    valid_id(value) || valid_path(value)
}

/// A binding's name: a letter, and then letters, digits and underscores.
pub open spec fn binding_valid(text: Seq<char>) -> bool {
    &&& text.len() > 0
    &&& encode_utf8(text).len() <= MAX_BINDING_BYTES
    &&& is_letter(text[0])
    &&& forall|i: int| 0 <= i < text.len() ==> is_alphanumeric(#[trigger] text[i]) || text[i] == '_'
}

/// Whether a text names a binding.
pub fn valid_binding(value: &str) -> (valid: bool)
    ensures
        valid == binding_valid(value@),
{
    let chars = characters(value);
    if chars.len() == 0 || value.as_bytes().len() > MAX_BINDING_BYTES || !letter(chars[0]) {
        return false;
    }
    let mut i: usize = 0;
    while i < chars.len()
        invariant
            i <= chars@.len(),
            chars@ == value@,
            forall|j: int|
                0 <= j < i ==> is_alphanumeric(#[trigger] value@[j]) || value@[j] == '_',
        decreases chars@.len() - i,
    {
        let c = chars[i];
        if !(alphanumeric(c) || c == '_') {
            assert(!(is_alphanumeric(value@[i as int]) || value@[i as int] == '_'));
            return false;
        }
        i += 1;
    }
    true
}

/// An ASCII lower-case letter.
pub open spec fn is_lower(c: char) -> bool {
    'a' <= c && c <= 'z'
}

/// The name of a schema that can be owned: a lower-case letter, and then lower-case letters,
/// digits and underscores, none of the names that the database keeps for itself.
pub open spec fn schema_name_valid(text: Seq<char>) -> bool {
    &&& 0 < text.len()
    &&& encode_utf8(text).len() <= 63
    &&& is_lower(text[0])
    &&& forall|i: int|
        0 <= i < text.len() ==> is_lower(#[trigger] text[i]) || ('0' <= text[i] && text[i] <= '9')
            || text[i] == '_'
    &&& text != "public"@
    &&& text != "information_schema"@
    &&& !"pg_"@.is_prefix_of(text)
}

/// `lenso_postgres_kit::SchemaPlan::new`, on no migrations: it looks at the schema's name first,
/// and reports `InvalidSchemaName` for exactly the names that no owned schema can have.
#[verifier::external_body]
fn schema_name_accepted(schema: &str) -> (accepted: bool)
    ensures
        accepted == schema_name_valid(schema@),
{
    !matches!(
        lenso_postgres_kit::SchemaPlan::new(schema, &[]),
        Err(lenso_postgres_kit::PlanError::InvalidSchemaName { .. })
    )
}

/// What every store's configuration has: who may call, how assertions are verified, and the bounds
/// on requests.
#[derive(Debug, PartialEq)]
pub struct PolicyConfig {
    pub auth_issuer: String,
    pub auth_assertion_public_key: String,
    pub evaluation_callers: Vec<String>,
    pub admin_callers: Vec<String>,
    pub max_context_bytes: usize,
    pub max_attributes: usize,
    pub max_batch_size: usize,
}

/// The model of a `PolicyConfig`.
pub struct PolicyView {
    pub auth_issuer: Seq<char>,
    pub auth_assertion_public_key: Seq<char>,
    pub evaluation_callers: Seq<Seq<char>>,
    pub admin_callers: Seq<Seq<char>>,
    pub max_context_bytes: nat,
    pub max_attributes: nat,
    pub max_batch_size: nat,
}

impl View for PolicyConfig {
    type V = PolicyView;

    open spec fn view(&self) -> PolicyView {
        PolicyView {
            auth_issuer: self.auth_issuer@,
            auth_assertion_public_key: self.auth_assertion_public_key@,
            evaluation_callers: texts(self.evaluation_callers@),
            admin_callers: texts(self.admin_callers@),
            max_context_bytes: self.max_context_bytes as nat,
            max_attributes: self.max_attributes as nat,
            max_batch_size: self.max_batch_size as nat,
        }
    }
}

/// Why a policy is refused.
#[derive(Clone, Copy, Debug, PartialEq, Eq, Structural)]
pub enum PolicyError {
    InvalidAuthIssuer,
    InvalidAuthPublicKey,
    InvalidEvaluationCallers,
    InvalidAdminCallers,
    InvalidBounds,
}

/// Why a configuration is refused.
#[derive(Clone, Copy, Debug, PartialEq, Eq, Structural)]
pub enum FeatureFlagConfigError {
    InvalidSchema,
    InvalidSecretReference,
    InvalidAuthIssuer,
    InvalidAuthPublicKey,
    InvalidEvaluationCallers,
    InvalidAdminCallers,
    InvalidBounds,
}

/// The refusal of a policy, as one of a configuration.
pub open spec fn policy_error(error: PolicyError) -> FeatureFlagConfigError {
    match error {
        PolicyError::InvalidAuthIssuer => FeatureFlagConfigError::InvalidAuthIssuer,
        PolicyError::InvalidAuthPublicKey => FeatureFlagConfigError::InvalidAuthPublicKey,
        PolicyError::InvalidEvaluationCallers => FeatureFlagConfigError::InvalidEvaluationCallers,
        PolicyError::InvalidAdminCallers => FeatureFlagConfigError::InvalidAdminCallers,
        PolicyError::InvalidBounds => FeatureFlagConfigError::InvalidBounds,
    }
}

impl FeatureFlagConfigError {
    /// The message of a refusal.
    pub open spec fn text(self) -> Seq<char> {
        match self {
            FeatureFlagConfigError::InvalidSchema => "invalid owned PostgreSQL schema"@,
            FeatureFlagConfigError::InvalidSecretReference => {
                "invalid database URL secret reference"@
            },
            FeatureFlagConfigError::InvalidAuthIssuer => "invalid Auth issuer"@,
            FeatureFlagConfigError::InvalidAuthPublicKey => "invalid Auth assertion public key"@,
            FeatureFlagConfigError::InvalidEvaluationCallers => {
                "evaluation_callers must contain unique exact Instance keys"@
            },
            FeatureFlagConfigError::InvalidAdminCallers => {
                "admin_callers must contain unique exact Instance keys"@
            },
            FeatureFlagConfigError::InvalidBounds => {
                "invalid context, attribute, or batch bound"@
            },
        }
    }

    /// The message of a refusal.
    pub fn message(&self) -> (message: &'static str)
        ensures
            message@ == self.text(),
    {
        match self {
            FeatureFlagConfigError::InvalidSchema => "invalid owned PostgreSQL schema",
            FeatureFlagConfigError::InvalidSecretReference => {
                "invalid database URL secret reference"
            },
            FeatureFlagConfigError::InvalidAuthIssuer => "invalid Auth issuer",
            FeatureFlagConfigError::InvalidAuthPublicKey => "invalid Auth assertion public key",
            FeatureFlagConfigError::InvalidEvaluationCallers => {
                "evaluation_callers must contain unique exact Instance keys"
            },
            FeatureFlagConfigError::InvalidAdminCallers => {
                "admin_callers must contain unique exact Instance keys"
            },
            FeatureFlagConfigError::InvalidBounds => "invalid context, attribute, or batch bound",
        }
    }

    /// What a plugin reports of a refused configuration.
    pub fn detail(&self) -> (detail: String)
        ensures
            detail@ == "Feature Flag configuration is invalid: "@ + self.text(),
    {
        let mut detail = "Feature Flag configuration is invalid: ".to_owned();
        detail.append(self.message());
        detail
    }
}

/// The configuration of the store on PostgreSQL.
#[derive(Debug, PartialEq)]
pub struct FeatureFlagConfig {
    schema: String,
    database_url_secret: String,
    policy: PolicyConfig,
}

/// The model of a `FeatureFlagConfig`.
pub struct FeatureFlagConfigView {
    pub schema: Seq<char>,
    pub database_url_secret: Seq<char>,
    pub policy: PolicyView,
}

impl View for FeatureFlagConfig {
    type V = FeatureFlagConfigView;

    closed spec fn view(&self) -> FeatureFlagConfigView {
        FeatureFlagConfigView {
            schema: self.schema@,
            database_url_secret: self.database_url_secret@,
            policy: self.policy@,
        }
    }
}

/// Why a configuration is refused, given what is found of its policy; nothing where it is not. The
/// schema is looked at first, then the secret's reference, then the policy.
pub open spec fn configuration_refusal(
    schema: Seq<char>,
    database_url_secret: Seq<char>,
    policy: Result<(), PolicyError>,
) -> Option<FeatureFlagConfigError> {
    if !schema_name_valid(schema) {
        Some(FeatureFlagConfigError::InvalidSchema)
    } else if !secret_reference_valid(database_url_secret) {
        Some(FeatureFlagConfigError::InvalidSecretReference)
    } else {
        match policy {
            Ok(()) => None,
            Err(error) => Some(policy_error(error)),
        }
    }
}

impl FeatureFlagConfig {
    /// A configuration, unless it is refused. What is found of its policy is given.
    pub fn new(
        schema: String,
        database_url_secret: String,
        auth_issuer: String,
        auth_assertion_public_key: String,
        evaluation_callers: Vec<String>,
        admin_callers: Vec<String>,
        max_context_bytes: usize,
        max_attributes: usize,
        max_batch_size: usize,
        policy: Result<(), PolicyError>,
    ) -> (result: Result<FeatureFlagConfig, FeatureFlagConfigError>)
        ensures
            match configuration_refusal(schema@, database_url_secret@, policy) {
                Some(refusal) => result matches Err(error) && error == refusal,
                None => result matches Ok(config) && config@ == (FeatureFlagConfigView {
                    schema: schema@,
                    database_url_secret: database_url_secret@,
                    policy: PolicyView {
                        auth_issuer: auth_issuer@,
                        auth_assertion_public_key: auth_assertion_public_key@,
                        evaluation_callers: texts(evaluation_callers@),
                        admin_callers: texts(admin_callers@),
                        max_context_bytes: max_context_bytes as nat,
                        max_attributes: max_attributes as nat,
                        max_batch_size: max_batch_size as nat,
                    },
                }),
            },
    {
        let config = FeatureFlagConfig {
            schema,
            database_url_secret,
            policy: PolicyConfig {
                auth_issuer,
                auth_assertion_public_key,
                evaluation_callers,
                admin_callers,
                max_context_bytes,
                max_attributes,
                max_batch_size,
            },
        };
        match config.validate(policy) {
            Ok(()) => Ok(config),
            Err(error) => Err(error),
        }
    }

    /// Whether the configuration can be used, given what is found of its policy.
    pub fn validate(&self, policy: Result<(), PolicyError>) -> (result: Result<
        (),
        FeatureFlagConfigError,
    >)
        ensures
            match configuration_refusal(self@.schema, self@.database_url_secret, policy) {
                Some(refusal) => result matches Err(error) && error == refusal,
                None => result is Ok,
            },
    {
        if !schema_name_accepted(self.schema.as_str()) {
            return Err(FeatureFlagConfigError::InvalidSchema);
        }
        if !valid_secret_reference(self.database_url_secret.as_str()) {
            return Err(FeatureFlagConfigError::InvalidSecretReference);
        }
        match policy {
            Ok(()) => Ok(()),
            Err(error) => Err(
                match error {
                    PolicyError::InvalidAuthIssuer => FeatureFlagConfigError::InvalidAuthIssuer,
                    PolicyError::InvalidAuthPublicKey => {
                        FeatureFlagConfigError::InvalidAuthPublicKey
                    },
                    PolicyError::InvalidEvaluationCallers => {
                        FeatureFlagConfigError::InvalidEvaluationCallers
                    },
                    PolicyError::InvalidAdminCallers => {
                        FeatureFlagConfigError::InvalidAdminCallers
                    },
                    PolicyError::InvalidBounds => FeatureFlagConfigError::InvalidBounds,
                },
            ),
        }
    }

    /// The policy.
    pub fn policy(&self) -> (policy: &PolicyConfig)
        ensures
            policy@ == self@.policy,
    {
        &self.policy
    }

    /// The schema.
    pub fn schema(&self) -> (schema: &str)
        ensures
            schema@ == self@.schema,
    {
        self.schema.as_str()
    }

    /// The reference to the secret that holds the database's address.
    pub fn database_url_secret(&self) -> (reference: &str)
        ensures
            reference@ == self@.database_url_secret,
    {
        self.database_url_secret.as_str()
    }
}

/// The configuration of the store on D1.
#[derive(Debug, PartialEq)]
pub struct D1Config {
    pub binding: String,
    pub auth_issuer: String,
    pub auth_assertion_public_key: String,
    pub evaluation_callers: Vec<String>,
    pub admin_callers: Vec<String>,
    pub max_context_bytes: usize,
    pub max_attributes: usize,
    pub max_batch_size: usize,
}

impl D1Config {
    /// The policy of the configuration.
    pub open spec fn policy_view(self) -> PolicyView {
        PolicyView {
            auth_issuer: self.auth_issuer@,
            auth_assertion_public_key: self.auth_assertion_public_key@,
            evaluation_callers: texts(self.evaluation_callers@),
            admin_callers: texts(self.admin_callers@),
            max_context_bytes: self.max_context_bytes as nat,
            max_attributes: self.max_attributes as nat,
            max_batch_size: self.max_batch_size as nat,
        }
    }

    /// The policy of the configuration.
    pub fn policy(&self) -> (policy: PolicyConfig)
        ensures
            policy@ == self.policy_view(),
    {
        PolicyConfig {
            auth_issuer: self.auth_issuer.clone(),
            auth_assertion_public_key: self.auth_assertion_public_key.clone(),
            evaluation_callers: copy_texts(&self.evaluation_callers),
            admin_callers: copy_texts(&self.admin_callers),
            max_context_bytes: self.max_context_bytes,
            max_attributes: self.max_attributes,
            max_batch_size: self.max_batch_size,
        }
    }
}

/// What a plugin reports of a binding whose name is refused.
pub const INVALID_BINDING: &'static str = "invalid Feature Flag D1 binding name";

/// What a plugin reports of a binding that is not the configured one.
pub const OTHER_BINDING: &'static str =
    "Feature Flag factory requires its exact configured D1 binding";

/// Whether a configuration of the store on D1 can be used, given what is found of its policy, a
/// refusal by its message. The binding's name is looked at first.
pub fn validate_config(config: &D1Config, policy: Result<(), String>) -> (result: Result<
    (),
    String,
>)
    ensures
        if !binding_valid(config.binding@) {
            result matches Err(detail) && detail@ == INVALID_BINDING@
        } else {
            match policy {
                Ok(()) => result is Ok,
                Err(refusal) => result matches Err(detail) && detail@ == refusal@,
            }
        },
{
    if !valid_binding(config.binding.as_str()) {
        return Err(INVALID_BINDING.to_owned());
    }
    policy
}

/// Whether a factory's binding is the configured one: the names are the same, letter for letter.
pub fn require_binding(config: &D1Config, name: &str) -> (result: Result<(), String>)
    ensures
        if config.binding@ == name@ {
            result is Ok
        } else {
            result matches Err(detail) && detail@ == OTHER_BINDING@
        },
{
    if text_equal(config.binding.as_str(), name) {
        Ok(())
    } else {
        Err(OTHER_BINDING.to_owned())
    }
}

} // verus!
