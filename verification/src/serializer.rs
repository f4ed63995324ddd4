//! The report serializer: the report as a text of ten lines.

use vstd::prelude::*;
use crate::ledger::reversed_hex;
use crate::numerals::{
    amount_text,
    decimal,
    format_amount,
    format_decimal,
    lemma_amount_text_shape,
    lemma_decimal_nonempty,
};
use crate::error::{Failure, ReportError, Step};
use crate::report::{ProvenanceReport, ReportModel};
use crate::text::{join_lines, terminated, texts};

verus! {

/// The ten lines of a report, in their fixed order: transaction id, input
/// address, input amount, recipient address, recipient amount, change
/// address, change amount, fee, block height, block hash. Amounts and fee
/// have eight digits after the point; the height is a plain numeral; the
/// two digests are in hexadecimal.
pub open spec fn report_lines(report: ReportModel) -> Seq<Seq<char>> {
    seq![
        reversed_hex(report.txid),
        report.input_address,
        amount_text(report.input_amount),
        report.recipient_address,
        amount_text(report.recipient_amount),
        report.change_address,
        amount_text(report.change_amount),
        amount_text(report.fee),
        decimal(report.block_height),
        reversed_hex(report.block_hash),
    ]
}

/// The whole artifact: the ten lines, each ended by a line end, and nothing else.
pub open spec fn report_text(report: ReportModel) -> Seq<char> {
    terminated(report_lines(report))
}

/// Renders the fields of a report, one text per field, in the fixed order.
pub fn render_lines(report: &ProvenanceReport) -> (lines: Vec<String>)
    ensures
        texts(lines@) == report_lines(report@),
{
    let mut lines: Vec<String> = Vec::new();
    lines.push(report.txid().to_hex());
    lines.push(report.input_address().clone());
    lines.push(format_amount(report.input_amount()));
    lines.push(report.recipient_address().clone());
    lines.push(format_amount(report.recipient_amount()));
    lines.push(report.change_address().clone());
    lines.push(format_amount(report.change_amount()));
    lines.push(format_amount(report.fee()));
    lines.push(format_decimal(report.block_height() as u64));
    lines.push(report.block_hash().to_hex());
    assert(texts(lines@) =~= report_lines(report@));
    lines
}

/// Renders a report as the text of its artifact: one field per line, in the
/// fixed order, every line ended by a line end.
pub fn render(report: &ProvenanceReport) -> (text: String)
    ensures
        text@ == report_text(report@),
{
    let lines = render_lines(report);
    join_lines(&lines)
}

/// The outcome of the serializer, once the artifact was handed to storage:
/// done where it was stored, `ReportWriteFailure` where it was not.
pub fn storage_outcome(stored: bool) -> (outcome: Result<(), Failure>)
    ensures
        outcome == if stored {
            Ok::<(), Failure>(())
        } else {
            Err::<(), Failure>(
                Failure { step: Step::Serializer, error: ReportError::ReportWriteFailure },
            )
        },
{
    if stored {
        Ok(())
    } else {
        Err(Failure { step: Step::Serializer, error: ReportError::ReportWriteFailure })
    }
}

/// Rendering is repeatable: whatever two renderings of one report come to,
/// they are the same text, character for character.
pub proof fn lemma_rendering_repeats(
    first: ProvenanceReport,
    second: ProvenanceReport,
    first_text: Seq<char>,
    second_text: Seq<char>,
)
    requires
        first@ == second@,
        first_text == report_text(first@),
        second_text == report_text(second@),
    ensures
        first_text == second_text,
{
}

/// A report has ten lines. Seven of them are never empty: the two digests
/// have 64 characters each, the height has a digit, and each amount has a
/// digit, the point and eight more digits.
pub proof fn lemma_lines_shape(report: ReportModel)
    requires
        report.txid.len() == 32,
        report.block_hash.len() == 32,
    ensures
        report_lines(report).len() == 10,
        report_lines(report)[0].len() == 64,
        report_lines(report)[2].len() >= 10,
        report_lines(report)[4].len() >= 10,
        report_lines(report)[6].len() >= 10,
        report_lines(report)[7].len() >= 10,
        report_lines(report)[8].len() >= 1,
        report_lines(report)[9].len() == 64,
        report_lines(report)[1] == report.input_address,
        report_lines(report)[3] == report.recipient_address,
        report_lines(report)[5] == report.change_address,
{
    lemma_amount_text_shape(report.input_amount);
    lemma_amount_text_shape(report.recipient_amount);
    lemma_amount_text_shape(report.change_amount);
    lemma_amount_text_shape(report.fee);
    lemma_decimal_nonempty(report.block_height);
}

} // verus!
