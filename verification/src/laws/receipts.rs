//! What is listed of an evaluation, against what the evaluation answered.

use vstd::prelude::*;
use crate::d1::rows::{
    column_text, field_of, member_columns, member_text, receipt_columns, receipt_of,
    receipt_of_text, row_view, ColumnView, Row,
};
use crate::decimal::{i64_value, integer_text};
use crate::domain::{texts, Command, EvaluationRecord, EvaluationView, ReceiptView};
use crate::evaluation::{receipt_of_evaluation, DraftView, Request};
use crate::json::json_compact;
use crate::postgres::evaluate::{step_of, InstantStamp, NumberedRuleset, Progress, Seen, SeenView};
use crate::postgres::query::{insert_receipt_of, BindView, QueryView, ReceiptFacts};
use crate::postgres::rows::{receipt_of_row, ReceiptRow};
use crate::ruleset::ruleset_failure;
use crate::stamp::rfc3339_text;
use super::evaluation::{
    answers_request, evaluation_name, lemma_postgres_answers_the_request, receipt_repeats,
    request_choice,
};

verus! {

/// The row holds the values that the insertion of a receipt binds, each under its column.
pub open spec fn row_holds(row: ReceiptRow, insertion: QueryView) -> bool {
    &&& insertion.sql
        == "INSERT INTO feature_evaluation_receipts(receipt_id,caller_instance,actor_subject,operation,evaluation_id,organization_id,flag_key,environment_key,variant_key,reason,ruleset_revision,context_hash,evaluated_at) VALUES($1,$2,$3,$4,$5,$6,$7,$8,$9,$10,$11,$12,$13)"@
    &&& insertion.binds.len() == 13
    &&& insertion.binds[0] == BindView::Identifier(row.receipt_id@)
    &&& insertion.binds[4] == BindView::Text(row.evaluation_id@)
    &&& insertion.binds[6] == BindView::Text(row.flag_key@)
    &&& insertion.binds[7] == BindView::Text(row.environment_key@)
    &&& insertion.binds[8] == BindView::Text(row.variant_key@)
    &&& insertion.binds[9] == BindView::Text(row.reason@)
    &&& insertion.binds[10] == BindView::Number(row.ruleset_revision as int)
    &&& insertion.binds[11] == BindView::Text(row.context_hash@)
    &&& insertion.binds[12] == BindView::Instant(row.evaluated_at as int)
}

/// A listed receipt tells what a record answered.
pub open spec fn tells_record(receipt: ReceiptView, record: EvaluationView) -> bool {
    &&& receipt.receipt_id == record.receipt_id
    &&& receipt.flag_key == record.flag_key
    &&& receipt.environment_key == record.environment_key
    &&& receipt.variant_key == record.variant_key
    &&& receipt.reason == record.reason
    &&& receipt.ruleset_revision == record.ruleset_revision
}

/// A receipt is listed as it was inserted: read from a row that holds the values bound by the
/// insertion, it has the receipt id, flag key, environment key, variant key, reason and ruleset
/// revision of the record, the identifier of the evaluation, the hash of the context, and the time.
pub proof fn lemma_receipt_is_listed_as_inserted(
    command: Command<'_>,
    facts: ReceiptFacts<'_>,
    record: EvaluationRecord,
    row: ReceiptRow,
)
    requires
        row_holds(row, insert_receipt_of(command@, facts@, record@)),
        record.ruleset_revision@ == integer_text(facts.ruleset_number as int),
    ensures
        match rfc3339_text(facts.evaluated_at as int) {
            Some(text) => {
                let listed = receipt_of_row(row);
                &&& listed is Some
                &&& listed->0.receipt_id == record.receipt_id@
                &&& listed->0.evaluation_id == facts.evaluation_id@
                &&& listed->0.flag_key == record.flag_key@
                &&& listed->0.environment_key == record.environment_key@
                &&& listed->0.variant_key == record.variant_key@
                &&& listed->0.reason == record.reason@
                &&& listed->0.ruleset_revision == record.ruleset_revision@
                &&& listed->0.context_hash == facts.context_hash@
                &&& listed->0.evaluated_at == text
                &&& listed->0.row_seq == row.row_seq
            },
            None => receipt_of_row(row) is None,
        },
{
}

/// Every insertion can be held by a row: it binds the caller and the actor of the command, the
/// operation and the organization too.
pub proof fn lemma_receipt_is_scoped(
    command: Command<'_>,
    facts: ReceiptFacts<'_>,
    record: EvaluationRecord,
)
    ensures
        ({
            let binds = insert_receipt_of(command@, facts@, record@).binds;
            &&& binds.len() == 13
            &&& binds[1] == BindView::Text(command.caller@)
            &&& binds[2] == BindView::Text(command.actor@)
            &&& binds[3] == BindView::Text(facts.operation@)
            &&& binds[5] == BindView::Text(facts.organization_id@)
        }),
{
}

/// What the store on PostgreSQL lists of an evaluation is what it answered: where a flag's receipt
/// is inserted and its row is read later, the listed receipt tells the record that the flag was
/// answered with, of the request that was made.
pub proof fn lemma_postgres_lists_what_it_answered(
    progress: Progress,
    ruleset: NumberedRuleset,
    stamp: InstantStamp,
    request: Request<'_>,
    flags: Seq<String>,
    row: ReceiptRow,
)
    requires
        progress.stage is ReadingRuleset,
        progress.records@.len() < flags.len(),
        ruleset_failure(
            progress.stage->ReadingRuleset_value_type@,
            ruleset.definition@,
        ) is None,
        request_choice(
            request,
            flags[progress.records@.len() as int]@,
            ruleset.definition@,
        ) is Some,
        rfc3339_text(stamp.nanos as int) is Some,
        ({
            let next = step_of(
                progress@,
                Seen::Ruleset(Some(ruleset), stamp)@,
                request@,
                texts(flags),
                request.command@,
            );
            next.1 is Run && row_holds(row, next.1->Run_0)
        }),
    ensures
        ({
            let index = progress.records@.len() as int;
            let storing = step_of(
                progress@,
                Seen::Ruleset(Some(ruleset), stamp)@,
                request@,
                texts(flags),
                request.command@,
            ).0;
            let stored = step_of(
                storing,
                SeenView::Ran,
                request@,
                texts(flags),
                request.command@,
            );
            let records = if stored.1 is Respond {
                stored.1->Respond_0
            } else {
                stored.0.records
            };
            let record = records.last();
            let listed = receipt_of_row(row)->0;
            &&& records.len() == index + 1
            &&& records.drop_last() == progress@.records
            &&& (stored.1 is Respond <==> index + 1 == flags.len())
            &&& answers_request(record, request, flags[index]@, ruleset.definition@)
            &&& receipt_of_row(row) is Some
            &&& tells_record(listed, record)
            &&& listed.evaluated_at == record.evaluated_at
            &&& record.evaluated_at == rfc3339_text(stamp.nanos as int)->0
            &&& listed.evaluation_id == evaluation_name(request, index)
            &&& listed.context_hash == request.context_hash@
        }),
{
    lemma_postgres_answers_the_request(progress, ruleset, stamp, request, flags);
    let index = progress.records@.len() as int;
    assert(texts(flags)[index] == flags[index]@);
    let storing = step_of(
        progress@,
        Seen::Ruleset(Some(ruleset), stamp)@,
        request@,
        texts(flags),
        request.command@,
    ).0;
    let record = storing.stage->Storing_record;
    let text = rfc3339_text(stamp.nanos as int)->0;
    let records = progress@.records.push(EvaluationView { evaluated_at: text, ..record });
    assert(records.drop_last() =~= progress@.records);
}

/// The receipt of an evaluation repeats what was answered, beside the identifier of the evaluation
/// and the hash of the context.
pub proof fn lemma_receipt_repeats_its_record(
    record: EvaluationView,
    evaluation_id: Seq<char>,
    context_hash: Seq<char>,
)
    ensures
        receipt_repeats(
            receipt_of_evaluation(record, evaluation_id, context_hash),
            record,
            evaluation_id,
            context_hash,
        ),
{
}

/// A stored record holds a receipt, each field under its own name.
pub open spec fn record_holds(record: Row, draft: DraftView) -> bool {
    &&& record@.contains_key("receipt_id"@)
    &&& record@["receipt_id"@]@ == ColumnView::Text(draft.receipt_id)
    &&& record@.contains_key("evaluation_id"@)
    &&& record@["evaluation_id"@]@ == ColumnView::Text(draft.evaluation_id)
    &&& record@.contains_key("flag_key"@)
    &&& record@["flag_key"@]@ == ColumnView::Text(draft.flag_key)
    &&& record@.contains_key("environment_key"@)
    &&& record@["environment_key"@]@ == ColumnView::Text(draft.environment_key)
    &&& record@.contains_key("variant_key"@)
    &&& record@["variant_key"@]@ == ColumnView::Text(draft.variant_key)
    &&& record@.contains_key("reason"@)
    &&& record@["reason"@]@ == ColumnView::Text(draft.reason)
    &&& record@.contains_key("ruleset_revision"@)
    &&& record@["ruleset_revision"@]@ == ColumnView::Text(draft.ruleset_revision)
    &&& record@.contains_key("context_hash"@)
    &&& record@["context_hash"@]@ == ColumnView::Text(draft.context_hash)
    &&& record@.contains_key("evaluated_at"@)
    &&& record@["evaluated_at"@]@ == ColumnView::Text(draft.evaluated_at)
}

/// A JSON text holds a receipt: an object with each field as a string under its own name.
pub open spec fn text_holds(text: Seq<char>, draft: DraftView) -> bool {
    &&& json_compact(text) is Some
    &&& member_text(text, "receipt_id"@) == Some(draft.receipt_id)
    &&& member_text(text, "evaluation_id"@) == Some(draft.evaluation_id)
    &&& member_text(text, "flag_key"@) == Some(draft.flag_key)
    &&& member_text(text, "environment_key"@) == Some(draft.environment_key)
    &&& member_text(text, "variant_key"@) == Some(draft.variant_key)
    &&& member_text(text, "reason"@) == Some(draft.reason)
    &&& member_text(text, "ruleset_revision"@) == Some(draft.ruleset_revision)
    &&& member_text(text, "context_hash"@) == Some(draft.context_hash)
    &&& member_text(text, "evaluated_at"@) == Some(draft.evaluated_at)
}

/// A listed receipt is the one that was drafted.
pub open spec fn lists_draft(receipt: ReceiptView, draft: DraftView) -> bool {
    &&& receipt.receipt_id == draft.receipt_id
    &&& receipt.evaluation_id == draft.evaluation_id
    &&& receipt.flag_key == draft.flag_key
    &&& receipt.environment_key == draft.environment_key
    &&& receipt.variant_key == draft.variant_key
    &&& receipt.reason == draft.reason
    &&& receipt.ruleset_revision == draft.ruleset_revision
    &&& receipt.context_hash == draft.context_hash
    &&& receipt.evaluated_at == draft.evaluated_at
}

/// What the store on D1 lists of an evaluation is what it drafted: read from a record that holds
/// the receipt's fields under their names, the receipt has these fields, and the number of its row.
pub proof fn lemma_d1_lists_what_it_drafted(record: Row, row: Row, draft: DraftView, number: i64)
    requires
        record_holds(record, draft),
        row@.contains_key("row_seq"@),
        row@["row_seq"@] is Text,
        i64_value(row@["row_seq"@]->Text_0@) == Some(number as int),
        number > 0,
    ensures
        ({
            let listed = receipt_of(row_view(record@), row_view(row@));
            &&& listed is Ok
            &&& lists_draft(listed->Ok_0, draft)
            &&& listed->Ok_0.row_seq == number
        }),
{
}

/// The same of a record that is stored as a JSON text.
pub proof fn lemma_d1_lists_what_it_stored(
    text: Seq<char>,
    row: Row,
    draft: DraftView,
    number: i64,
)
    requires
        text_holds(text, draft),
        row@.contains_key("row_seq"@),
        row@["row_seq"@] is Text,
        i64_value(row@["row_seq"@]->Text_0@) == Some(number as int),
        number > 0,
    ensures
        ({
            let listed = receipt_of_text(text, row_view(row@));
            &&& listed is Some
            &&& listed->0 is Ok
            &&& lists_draft(listed->0->Ok_0, draft)
            &&& listed->0->Ok_0.row_seq == number
        }),
{
    let names = receipt_columns();
    assert(names[0] == "receipt_id"@ && names[1] == "evaluation_id"@ && names[2] == "flag_key"@
        && names[3] == "environment_key"@ && names[4] == "variant_key"@ && names[5] == "reason"@
        && names[6] == "ruleset_revision"@ && names[7] == "context_hash"@ && names[8]
        == "evaluated_at"@);
    let columns = member_columns(text, names);
    assert(columns.contains_key(names[0]) && columns.contains_key(names[1])
        && columns.contains_key(names[2]) && columns.contains_key(names[3])
        && columns.contains_key(names[4]) && columns.contains_key(names[5])
        && columns.contains_key(names[6]) && columns.contains_key(names[7])
        && columns.contains_key(names[8]));
}

/// A receipt is never listed in part: where a field of its record or the number of its row is
/// missing or is no text, listing it is a failure.
pub proof fn lemma_partial_receipt_is_a_failure(record: Row, row: Row, name: Seq<char>)
    requires
        receipt_columns().contains(name) && (!record@.contains_key(name) || record@[name] is Other)
            || !row@.contains_key("row_seq"@) || row@["row_seq"@] is Other,
    ensures
        receipt_of(row_view(record@), row_view(row@)) is Err,
{
    if receipt_columns().contains(name) {
        let names = receipt_columns();
        let i = choose|i: int| 0 <= i < names.len() && names[i] == name;
        assert(column_text(row_view(record@), name) is None || record@.contains_key(name));
    }
}

/// A column gives its text exactly if the row has the column and it is a text.
pub proof fn lemma_column_gives_its_text(row: Row, name: Seq<char>)
    ensures
        column_text(row_view(row@), name) is Some <==> row@.contains_key(name)
            && row@[name] is Text,
        row@.contains_key(name) && row@[name] is Text ==> column_text(row_view(row@), name)
            == Some(row@[name]->Text_0@),
        field_of(row_view(row@), name) is Ok <==> column_text(row_view(row@), name) is Some,
        column_text(row_view(row@), name) is Some ==> field_of(row_view(row@), name)->Ok_0
            == column_text(row_view(row@), name)->0,
{
}

} // verus!
