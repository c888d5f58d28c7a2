//! The records that the stores keep and answer with, the failures they report, and the model of
//! each.

use vstd::prelude::*;
use crate::json::{json_objects_equal, objects_equal};
use crate::text::text_equal;

verus! {

#[verifier::external_type_specification]
#[verifier::external_body]
pub struct ExJsonError(serde_json::Error);

#[verifier::external_type_specification]
#[verifier::external_body]
pub struct ExFormatError(time::error::Format);

/// The characters of an optional text.
pub open spec fn optional_text(text: Option<String>) -> Option<Seq<char>> {
    match text {
        Some(text) => Some(text@),
        None => None,
    }
}

/// The characters of each text of a list.
pub open spec fn texts(list: Seq<String>) -> Seq<Seq<char>> {
    list.map_values(|text: String| text@)
}

/// The characters of an optional borrowed text.
pub open spec fn optional_str(text: Option<&str>) -> Option<Seq<char>> {
    match text {
        Some(text) => Some(text@),
        None => None,
    }
}

/// An owned copy of an optional text.
pub fn owned_option(text: Option<&str>) -> (owned: Option<String>)
    ensures
        optional_text(owned) == optional_str(text),
{
    match text {
        Some(text) => Some(text.to_owned()),
        None => None,
    }
}

/// A copy of a list of texts.
pub(crate) fn copy_texts(list: &Vec<String>) -> (copy: Vec<String>)
    ensures
        texts(copy@) == texts(list@),
{
    let mut copy: Vec<String> = Vec::new();
    let mut i: usize = 0;
    while i < list.len()
        invariant
            i <= list@.len(),
            copy@.len() == i,
            forall|j: int| 0 <= j < i ==> (#[trigger] copy@[j])@ == list@[j]@,
        decreases list@.len() - i,
    {
        copy.push(list[i].clone());
        i += 1;
    }
    assert(texts(copy@) =~= texts(list@));
    copy
}

/// A double-precision number, held by its IEEE 754 bits. Two of them are compared as numbers, with
/// `==` as for the numbers themselves.
#[derive(Clone, Copy, Debug)]
pub struct Double {
    pub bits: u64,
}

impl Double {
    /// The number is neither infinite nor a NaN: its eleven exponent bits, which stand above the
    /// fifty-two bits of the fraction, are not all ones.
    pub open spec fn finite(self) -> bool {
        (self.bits as int / 0x10_0000_0000_0000) % 0x800 != 0x7ff
    }

    /// Whether the number is neither infinite nor a NaN.
    pub fn is_finite(&self) -> (finite: bool)
        ensures
            finite == self.finite(),
    {
        (self.bits / 0x10_0000_0000_0000) % 0x800 != 0x7ff
    }

    /// The number is a NaN: not finite, and not infinite either, since its fraction is not zero.
    pub open spec fn nan(self) -> bool {
        !self.finite() && self.bits % 0x10_0000_0000_0000 != 0
    }

    /// The number is zero, of either sign: all bits below the sign are zero.
    pub open spec fn zero(self) -> bool {
        self.bits % 0x8000_0000_0000_0000 == 0
    }

    /// The numbers are equal: neither is a NaN, and they have the same bits or are both zero.
    pub open spec fn equals(self, other: Double) -> bool {
        &&& !self.nan()
        &&& !other.nan()
        &&& self.bits == other.bits || (self.zero() && other.zero())
    }

    /// Whether the number is a NaN.
    pub fn is_nan(&self) -> (nan: bool)
        ensures
            nan == self.nan(),
    {
        !self.is_finite() && self.bits % 0x10_0000_0000_0000 != 0
    }

    fn is_zero(&self) -> (zero: bool)
        ensures
            zero == self.zero(),
    {
        self.bits % 0x8000_0000_0000_0000 == 0
    }
}

impl PartialEq for Double {
    fn eq(&self, other: &Self) -> (equal: bool) {
        !self.is_nan() && !other.is_nan() && (self.bits == other.bits || (self.is_zero()
            && other.is_zero()))
    }
}

impl vstd::std_specs::cmp::PartialEqSpecImpl for Double {
    open spec fn obeys_eq_spec() -> bool {
        true
    }

    open spec fn eq_spec(&self, other: &Double) -> bool {
        self.equals(*other)
    }
}

/// One typed value. The value of type `json` is held as JSON text, and compared as the object that
/// the text holds.
#[derive(Debug)]
pub struct ValueRecord {
    pub value_type: String,
    pub boolean_value: Option<bool>,
    pub string_value: Option<String>,
    pub integer_value: Option<String>,
    pub double_value: Option<Double>,
    pub json_value: Option<String>,
}

/// The model of a `ValueRecord`.
pub struct ValueView {
    pub value_type: Seq<char>,
    pub boolean_value: Option<bool>,
    pub string_value: Option<Seq<char>>,
    pub integer_value: Option<Seq<char>>,
    pub double_value: Option<Double>,
    pub json_value: Option<Seq<char>>,
}

impl View for ValueRecord {
    type V = ValueView;

    open spec fn view(&self) -> ValueView {
        ValueView {
            value_type: self.value_type@,
            boolean_value: self.boolean_value,
            string_value: optional_text(self.string_value),
            integer_value: optional_text(self.integer_value),
            double_value: self.double_value,
            json_value: optional_text(self.json_value),
        }
    }
}

/// The optional numbers are equal: both there and equal, or neither there.
pub open spec fn doubles_equal(a: Option<Double>, b: Option<Double>) -> bool {
    match (a, b) {
        (Some(a), Some(b)) => a.equals(b),
        (None, None) => true,
        _ => false,
    }
}

/// What comparing the JSON objects of two values gives; nothing where there are not two of them.
pub open spec fn objects_compared(a: ValueView, b: ValueView) -> Option<bool> {
    match (a.json_value, b.json_value) {
        (Some(a), Some(b)) => json_objects_equal(a, b),
        _ => None,
    }
}

/// The values are equal, field by field: texts by their characters, numbers as numbers, and JSON
/// objects as `objects` says.
pub open spec fn values_agree(a: ValueView, b: ValueView, objects: Option<bool>) -> bool {
    &&& a.value_type == b.value_type
    &&& a.boolean_value == b.boolean_value
    &&& a.string_value == b.string_value
    &&& a.integer_value == b.integer_value
    &&& doubles_equal(a.double_value, b.double_value)
    &&& match (a.json_value, b.json_value) {
        (Some(_), Some(_)) => objects == Some(true),
        (None, None) => true,
        _ => false,
    }
}

/// The values are equal.
pub open spec fn values_equal(a: ValueView, b: ValueView) -> bool {
    values_agree(a, b, objects_compared(a, b))
}

/// Whether two optional texts are the same.
pub(crate) fn same_optional(a: &Option<String>, b: &Option<String>) -> (same: bool)
    ensures
        same == (optional_text(*a) == optional_text(*b)),
{
    match (a, b) {
        (Some(a), Some(b)) => text_equal(a.as_str(), b.as_str()),
        (None, None) => true,
        _ => false,
    }
}

fn same_truth(a: Option<bool>, b: Option<bool>) -> (same: bool)
    ensures
        same == (a == b),
{
    match (a, b) {
        (Some(a), Some(b)) => a == b,
        (None, None) => true,
        _ => false,
    }
}

fn same_double(a: Option<Double>, b: Option<Double>) -> (same: bool)
    ensures
        same == doubles_equal(a, b),
{
    match (a, b) {
        (Some(a), Some(b)) => a == b,
        (None, None) => true,
        _ => false,
    }
}

/// Whether two values are equal, given what comparing their JSON objects gave.
pub fn same_value_given(a: &ValueRecord, b: &ValueRecord, objects: Option<bool>) -> (same: bool)
    ensures
        same == values_agree(a@, b@, objects),
{
    let same_json = match (&a.json_value, &b.json_value) {
        (Some(_), Some(_)) => match objects {
            Some(equal) => equal,
            None => false,
        },
        (None, None) => true,
        _ => false,
    };
    same_json && text_equal(a.value_type.as_str(), b.value_type.as_str()) && same_truth(
        a.boolean_value,
        b.boolean_value,
    ) && same_optional(&a.string_value, &b.string_value) && same_optional(
        &a.integer_value,
        &b.integer_value,
    ) && same_double(a.double_value, b.double_value)
}

/// Whether two values are equal.
pub fn same_value(a: &ValueRecord, b: &ValueRecord) -> (same: bool)
    ensures
        same == values_equal(a@, b@),
{
    let objects = match (&a.json_value, &b.json_value) {
        (Some(a), Some(b)) => objects_equal(a.as_str(), b.as_str()),
        _ => None,
    };
    same_value_given(a, b, objects)
}

impl PartialEq for ValueRecord {
    fn eq(&self, other: &Self) -> (equal: bool) {
        same_value(self, other)
    }
}

impl vstd::std_specs::cmp::PartialEqSpecImpl for ValueRecord {
    open spec fn obeys_eq_spec() -> bool {
        true
    }

    open spec fn eq_spec(&self, other: &ValueRecord) -> bool {
        values_equal(self@, other@)
    }
}

impl Clone for ValueRecord {
    fn clone(&self) -> (copy: Self)
        ensures
            copy@ == self@,
    {
        ValueRecord {
            value_type: self.value_type.clone(),
            boolean_value: self.boolean_value,
            string_value: self.string_value.clone(),
            integer_value: self.integer_value.clone(),
            double_value: self.double_value,
            json_value: self.json_value.clone(),
        }
    }
}

/// A named value that a flag can take.
#[derive(Debug, PartialEq)]
pub struct VariantRecord {
    pub variant_key: String,
    pub value: ValueRecord,
}

/// The model of a `VariantRecord`.
pub struct VariantView {
    pub variant_key: Seq<char>,
    pub value: ValueView,
}

impl View for VariantRecord {
    type V = VariantView;

    open spec fn view(&self) -> VariantView {
        VariantView { variant_key: self.variant_key@, value: self.value@ }
    }
}

impl Clone for VariantRecord {
    fn clone(&self) -> (copy: Self)
        ensures
            copy@ == self@,
    {
        VariantRecord { variant_key: self.variant_key.clone(), value: self.value.clone() }
    }
}

/// A rule that picks a variant by one attribute of the context.
#[derive(Debug, PartialEq)]
pub struct TargetingRuleRecord {
    pub rule_id: String,
    pub attribute: String,
    pub operator: String,
    pub comparison_values: Vec<String>,
    pub variant_key: String,
}

/// The model of a `TargetingRuleRecord`.
pub struct RuleView {
    pub rule_id: Seq<char>,
    pub attribute: Seq<char>,
    pub operator: Seq<char>,
    pub comparison_values: Seq<Seq<char>>,
    pub variant_key: Seq<char>,
}

impl View for TargetingRuleRecord {
    type V = RuleView;

    open spec fn view(&self) -> RuleView {
        RuleView {
            rule_id: self.rule_id@,
            attribute: self.attribute@,
            operator: self.operator@,
            comparison_values: texts(self.comparison_values@),
            variant_key: self.variant_key@,
        }
    }
}

impl Clone for TargetingRuleRecord {
    fn clone(&self) -> (copy: Self)
        ensures
            copy@ == self@,
    {
        TargetingRuleRecord {
            rule_id: self.rule_id.clone(),
            attribute: self.attribute.clone(),
            operator: self.operator.clone(),
            comparison_values: copy_texts(&self.comparison_values),
            variant_key: self.variant_key.clone(),
        }
    }
}

/// The share of the buckets, in basis points, that gets a variant.
#[derive(Debug, PartialEq)]
pub struct RolloutRecord {
    pub variant_key: String,
    pub basis_points: i64,
}

/// The model of a `RolloutRecord`.
pub struct RolloutView {
    pub variant_key: Seq<char>,
    pub basis_points: int,
}

impl View for RolloutRecord {
    type V = RolloutView;

    open spec fn view(&self) -> RolloutView {
        RolloutView { variant_key: self.variant_key@, basis_points: self.basis_points as int }
    }
}

impl Clone for RolloutRecord {
    fn clone(&self) -> (copy: Self)
        ensures
            copy@ == self@,
    {
        RolloutRecord { variant_key: self.variant_key.clone(), basis_points: self.basis_points }
    }
}

/// What a publication fixes for one flag in one environment.
#[derive(Debug, PartialEq)]
pub struct RulesetDefinition {
    pub variants: Vec<VariantRecord>,
    pub targeting_rules: Vec<TargetingRuleRecord>,
    pub percentage_rollout: Vec<RolloutRecord>,
    pub fallthrough_variant: String,
}

/// The model of a `RulesetDefinition`.
pub struct DefinitionView {
    pub variants: Seq<VariantView>,
    pub targeting_rules: Seq<RuleView>,
    pub percentage_rollout: Seq<RolloutView>,
    pub fallthrough_variant: Seq<char>,
}

impl View for RulesetDefinition {
    type V = DefinitionView;

    open spec fn view(&self) -> DefinitionView {
        DefinitionView {
            variants: self.variants@.map_values(|variant: VariantRecord| variant@),
            targeting_rules: self.targeting_rules@.map_values(|rule: TargetingRuleRecord| rule@),
            percentage_rollout: self.percentage_rollout@.map_values(|item: RolloutRecord| item@),
            fallthrough_variant: self.fallthrough_variant@,
        }
    }
}

impl Clone for RulesetDefinition {
    fn clone(&self) -> (copy: Self)
        ensures
            copy@ == self@,
    {
        let mut variants: Vec<VariantRecord> = Vec::new();
        let mut i: usize = 0;
        while i < self.variants.len()
            invariant
                i <= self.variants@.len(),
                variants@.len() == i,
                forall|j: int| 0 <= j < i ==> (#[trigger] variants@[j])@ == self.variants@[j]@,
            decreases self.variants@.len() - i,
        {
            variants.push(self.variants[i].clone());
            i += 1;
        }
        let mut targeting_rules: Vec<TargetingRuleRecord> = Vec::new();
        i = 0;
        while i < self.targeting_rules.len()
            invariant
                i <= self.targeting_rules@.len(),
                targeting_rules@.len() == i,
                forall|j: int|
                    0 <= j < i ==> (#[trigger] targeting_rules@[j])@ == self.targeting_rules@[j]@,
            decreases self.targeting_rules@.len() - i,
        {
            targeting_rules.push(self.targeting_rules[i].clone());
            i += 1;
        }
        let mut percentage_rollout: Vec<RolloutRecord> = Vec::new();
        i = 0;
        while i < self.percentage_rollout.len()
            invariant
                i <= self.percentage_rollout@.len(),
                percentage_rollout@.len() == i,
                forall|j: int|
                    0 <= j < i ==> (#[trigger] percentage_rollout@[j])@
                        == self.percentage_rollout@[j]@,
            decreases self.percentage_rollout@.len() - i,
        {
            percentage_rollout.push(self.percentage_rollout[i].clone());
            i += 1;
        }
        let copy = RulesetDefinition {
            variants,
            targeting_rules,
            percentage_rollout,
            fallthrough_variant: self.fallthrough_variant.clone(),
        };
        assert(copy@.variants =~= self@.variants);
        assert(copy@.targeting_rules =~= self@.targeting_rules);
        assert(copy@.percentage_rollout =~= self@.percentage_rollout);
        copy
    }
}

/// The latest ruleset of a flag in an environment.
#[derive(Debug)]
pub struct PublishedRuleset {
    pub revision: String,
    pub definition: RulesetDefinition,
}

/// The model of a `PublishedRuleset`.
pub struct PublishedView {
    pub revision: Seq<char>,
    pub definition: DefinitionView,
}

impl View for PublishedRuleset {
    type V = PublishedView;

    open spec fn view(&self) -> PublishedView {
        PublishedView { revision: self.revision@, definition: self.definition@ }
    }
}

/// A typed flag of an organization.
#[derive(Debug, PartialEq)]
pub struct FlagRecord {
    pub organization_id: String,
    pub flag_key: String,
    pub name: String,
    pub description: Option<String>,
    pub value_type: String,
    pub archived: bool,
    pub revision: String,
    pub created_at: String,
    pub updated_at: String,
    pub archived_at: Option<String>,
    pub row_seq: i64,
}

/// The model of a `FlagRecord`.
pub struct FlagView {
    pub organization_id: Seq<char>,
    pub flag_key: Seq<char>,
    pub name: Seq<char>,
    pub description: Option<Seq<char>>,
    pub value_type: Seq<char>,
    pub archived: bool,
    pub revision: Seq<char>,
    pub created_at: Seq<char>,
    pub updated_at: Seq<char>,
    pub archived_at: Option<Seq<char>>,
    pub row_seq: int,
}

impl View for FlagRecord {
    type V = FlagView;

    open spec fn view(&self) -> FlagView {
        FlagView {
            organization_id: self.organization_id@,
            flag_key: self.flag_key@,
            name: self.name@,
            description: optional_text(self.description),
            value_type: self.value_type@,
            archived: self.archived,
            revision: self.revision@,
            created_at: self.created_at@,
            updated_at: self.updated_at@,
            archived_at: optional_text(self.archived_at),
            row_seq: self.row_seq as int,
        }
    }
}

impl Clone for FlagRecord {
    fn clone(&self) -> (copy: Self)
        ensures
            copy@ == self@,
    {
        FlagRecord {
            organization_id: self.organization_id.clone(),
            flag_key: self.flag_key.clone(),
            name: self.name.clone(),
            description: self.description.clone(),
            value_type: self.value_type.clone(),
            archived: self.archived,
            revision: self.revision.clone(),
            created_at: self.created_at.clone(),
            updated_at: self.updated_at.clone(),
            archived_at: self.archived_at.clone(),
            row_seq: self.row_seq,
        }
    }
}

/// An environment of an organization.
#[derive(Debug, PartialEq)]
pub struct EnvironmentRecord {
    pub organization_id: String,
    pub environment_key: String,
    pub name: String,
    pub revision: String,
    pub created_at: String,
    pub updated_at: String,
}

/// The model of an `EnvironmentRecord`.
pub struct EnvironmentView {
    pub organization_id: Seq<char>,
    pub environment_key: Seq<char>,
    pub name: Seq<char>,
    pub revision: Seq<char>,
    pub created_at: Seq<char>,
    pub updated_at: Seq<char>,
}

impl View for EnvironmentRecord {
    type V = EnvironmentView;

    open spec fn view(&self) -> EnvironmentView {
        EnvironmentView {
            organization_id: self.organization_id@,
            environment_key: self.environment_key@,
            name: self.name@,
            revision: self.revision@,
            created_at: self.created_at@,
            updated_at: self.updated_at@,
        }
    }
}

impl Clone for EnvironmentRecord {
    fn clone(&self) -> (copy: Self)
        ensures
            copy@ == self@,
    {
        EnvironmentRecord {
            organization_id: self.organization_id.clone(),
            environment_key: self.environment_key.clone(),
            name: self.name.clone(),
            revision: self.revision.clone(),
            created_at: self.created_at.clone(),
            updated_at: self.updated_at.clone(),
        }
    }
}

/// What a publication answers.
#[derive(Debug, PartialEq)]
pub struct PublishRecord {
    pub organization_id: String,
    pub flag_key: String,
    pub environment_key: String,
    pub ruleset_revision: String,
    pub flag_revision: String,
    pub environment_revision: String,
    pub published_by: String,
    pub published_at: String,
}

/// The model of a `PublishRecord`.
pub struct PublishView {
    pub organization_id: Seq<char>,
    pub flag_key: Seq<char>,
    pub environment_key: Seq<char>,
    pub ruleset_revision: Seq<char>,
    pub flag_revision: Seq<char>,
    pub environment_revision: Seq<char>,
    pub published_by: Seq<char>,
    pub published_at: Seq<char>,
}

impl View for PublishRecord {
    type V = PublishView;

    open spec fn view(&self) -> PublishView {
        PublishView {
            organization_id: self.organization_id@,
            flag_key: self.flag_key@,
            environment_key: self.environment_key@,
            ruleset_revision: self.ruleset_revision@,
            flag_revision: self.flag_revision@,
            environment_revision: self.environment_revision@,
            published_by: self.published_by@,
            published_at: self.published_at@,
        }
    }
}

impl Clone for PublishRecord {
    fn clone(&self) -> (copy: Self)
        ensures
            copy@ == self@,
    {
        PublishRecord {
            organization_id: self.organization_id.clone(),
            flag_key: self.flag_key.clone(),
            environment_key: self.environment_key.clone(),
            ruleset_revision: self.ruleset_revision.clone(),
            flag_revision: self.flag_revision.clone(),
            environment_revision: self.environment_revision.clone(),
            published_by: self.published_by.clone(),
            published_at: self.published_at.clone(),
        }
    }
}

/// What an evaluation answers.
#[derive(Debug, PartialEq)]
pub struct EvaluationRecord {
    pub flag_key: String,
    pub environment_key: String,
    pub variant_key: String,
    pub value: ValueRecord,
    pub reason: String,
    pub ruleset_revision: String,
    pub receipt_id: String,
    pub evaluated_at: String,
}

/// The model of an `EvaluationRecord`.
pub struct EvaluationView {
    pub flag_key: Seq<char>,
    pub environment_key: Seq<char>,
    pub variant_key: Seq<char>,
    pub value: ValueView,
    pub reason: Seq<char>,
    pub ruleset_revision: Seq<char>,
    pub receipt_id: Seq<char>,
    pub evaluated_at: Seq<char>,
}

impl View for EvaluationRecord {
    type V = EvaluationView;

    open spec fn view(&self) -> EvaluationView {
        EvaluationView {
            flag_key: self.flag_key@,
            environment_key: self.environment_key@,
            variant_key: self.variant_key@,
            value: self.value@,
            reason: self.reason@,
            ruleset_revision: self.ruleset_revision@,
            receipt_id: self.receipt_id@,
            evaluated_at: self.evaluated_at@,
        }
    }
}

impl Clone for EvaluationRecord {
    fn clone(&self) -> (copy: Self)
        ensures
            copy@ == self@,
    {
        EvaluationRecord {
            flag_key: self.flag_key.clone(),
            environment_key: self.environment_key.clone(),
            variant_key: self.variant_key.clone(),
            value: self.value.clone(),
            reason: self.reason.clone(),
            ruleset_revision: self.ruleset_revision.clone(),
            receipt_id: self.receipt_id.clone(),
            evaluated_at: self.evaluated_at.clone(),
        }
    }
}

/// The audit trail of one evaluation. It holds neither the value nor the context.
#[derive(Debug, PartialEq)]
pub struct ReceiptRecord {
    pub receipt_id: String,
    pub evaluation_id: String,
    pub flag_key: String,
    pub environment_key: String,
    pub variant_key: String,
    pub reason: String,
    pub ruleset_revision: String,
    pub context_hash: String,
    pub evaluated_at: String,
    pub row_seq: i64,
}

/// The model of a `ReceiptRecord`.
pub struct ReceiptView {
    pub receipt_id: Seq<char>,
    pub evaluation_id: Seq<char>,
    pub flag_key: Seq<char>,
    pub environment_key: Seq<char>,
    pub variant_key: Seq<char>,
    pub reason: Seq<char>,
    pub ruleset_revision: Seq<char>,
    pub context_hash: Seq<char>,
    pub evaluated_at: Seq<char>,
    pub row_seq: int,
}

impl View for ReceiptRecord {
    type V = ReceiptView;

    open spec fn view(&self) -> ReceiptView {
        ReceiptView {
            receipt_id: self.receipt_id@,
            evaluation_id: self.evaluation_id@,
            flag_key: self.flag_key@,
            environment_key: self.environment_key@,
            variant_key: self.variant_key@,
            reason: self.reason@,
            ruleset_revision: self.ruleset_revision@,
            context_hash: self.context_hash@,
            evaluated_at: self.evaluated_at@,
            row_seq: self.row_seq as int,
        }
    }
}

impl Clone for ReceiptRecord {
    fn clone(&self) -> (copy: Self)
        ensures
            copy@ == self@,
    {
        ReceiptRecord {
            receipt_id: self.receipt_id.clone(),
            evaluation_id: self.evaluation_id.clone(),
            flag_key: self.flag_key.clone(),
            environment_key: self.environment_key.clone(),
            variant_key: self.variant_key.clone(),
            reason: self.reason.clone(),
            ruleset_revision: self.ruleset_revision.clone(),
            context_hash: self.context_hash.clone(),
            evaluated_at: self.evaluated_at.clone(),
            row_seq: self.row_seq,
        }
    }
}

/// Who asks for a write, under which idempotency key, and the hash of the request.
#[derive(Clone, Copy, Debug)]
pub struct Command<'a> {
    pub caller: &'a str,
    pub actor: &'a str,
    pub key: &'a str,
    pub hash: &'a [u8],
}

/// The model of a `Command`.
pub struct CommandView {
    pub caller: Seq<char>,
    pub actor: Seq<char>,
    pub key: Seq<char>,
    pub hash: Seq<u8>,
}

impl<'a> View for Command<'a> {
    type V = CommandView;

    open spec fn view(&self) -> CommandView {
        CommandView { caller: self.caller@, actor: self.actor@, key: self.key@, hash: self.hash@ }
    }
}

/// Why a request is refused.
#[derive(Clone, Copy, Debug, PartialEq, Eq, Structural)]
pub enum DomainFailure {
    NotFound,
    FlagNotFound,
    EnvironmentNotFound,
    NoPublishedRuleset,
    Archived,
    RevisionConflict,
    IdempotencyConflict,
    OperationInProgress,
    AlreadyExists,
    TypeMismatch,
    InvalidRuleset,
}

/// Why a store operation gives no answer.
#[derive(Debug)]
pub enum StorageError {
    Domain(DomainFailure),
    Backend(String),
    Json(serde_json::Error),
    Time(time::error::Format),
}

/// The model of a `StorageError`.
pub enum ErrorView {
    Domain(DomainFailure),
    Backend(Seq<char>),
    Json(serde_json::Error),
    Time(time::error::Format),
}

impl View for StorageError {
    type V = ErrorView;

    open spec fn view(&self) -> ErrorView {
        match *self {
            StorageError::Domain(failure) => ErrorView::Domain(failure),
            StorageError::Backend(detail) => ErrorView::Backend(detail@),
            StorageError::Json(error) => ErrorView::Json(error),
            StorageError::Time(error) => ErrorView::Time(error),
        }
    }
}

impl From<DomainFailure> for StorageError {
    fn from(value: DomainFailure) -> (error: Self) {
        StorageError::Domain(value)
    }
}

impl vstd::std_specs::convert::FromSpecImpl<DomainFailure> for StorageError {
    open spec fn obeys_from_spec() -> bool {
        true
    }

    open spec fn from_spec(value: DomainFailure) -> StorageError {
        StorageError::Domain(value)
    }
}

/// What an operation gives, with the value and the error taken by their models.
pub open spec fn outcome<T: View>(result: Result<T, StorageError>) -> Result<T::V, ErrorView> {
    match result {
        Ok(value) => Ok(value@),
        Err(error) => Err(error@),
    }
}

} // verus!
