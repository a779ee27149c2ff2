//! Avoid points managed by administrators, and their CSV import.
//!
//! The import reads a file as every avoid-point upload is read
//! (`crate::csv_import`); a refused record is reported as `第N行: ...`.
use vstd::prelude::*;
use crate::csv_import::{assemble, items_view, outcome_spec, CsvScan, ParsedRow, ParsedRowView, RowNumbers};
use crate::error::{AppError, ErrorStatus};
use crate::text::{concatenate, decimal, decimal_spec, str_eq};

verus! {

/// A request to switch a point on or off.
#[derive(Debug)]
pub struct EnabledBody {
    pub enabled: bool,
}

/// The refusal when no such system point exists.
pub fn system_point_not_found() -> (e: AppError)
    ensures
        e.status == ErrorStatus::NotFound,
        e.message@ == "系统点不存在"@,
{
    AppError::not_found("系统点不存在")
}

/// Whether a multipart field is taken as the file: one named `file` or `csv`,
/// or any field while none has been taken yet (a later named field replaces
/// it).
pub fn accept_upload_field(name: &str, have_file: bool) -> (b: bool)
    ensures
        b == (name@ == "file"@ || name@ == "csv"@ || !have_file),
{
    str_eq(name, "file") || str_eq(name, "csv") || !have_file
}

/// The message for a refused record: `第{line}行: {reason}`.
pub open spec fn line_message(line: usize, reason: Seq<char>) -> Seq<char> {
    "第"@ + decimal_spec(line as nat) + "行: "@ + reason
}

/// The messages of refused records.
pub open spec fn line_messages(errors: Seq<(usize, Seq<char>)>) -> Seq<Seq<char>> {
    errors.map_values(|e: (usize, Seq<char>)| line_message(e.0, e.1))
}

/// The points to insert and the messages of refused records, in order.
#[derive(Debug)]
pub struct SystemImport {
    pub rows: Vec<ParsedRow>,
    pub errors: Vec<String>,
}

fn line_text(line: usize, reason: &str) -> (m: String)
    ensures
        m@ == line_message(line, reason@),
{
    let n = decimal(line);
    let a = concatenate("第", n.as_str());
    let b = concatenate(a.as_str(), "行: ");
    concatenate(b.as_str(), reason)
}

/// Gathers the rows and errors of a scanned upload, as `assemble` does, and
/// words each error as `第{line}行: {message}`.
pub fn assemble_system(scan: CsvScan, nums: &Vec<RowNumbers>) -> (out: SystemImport)
    requires
        nums@.len() == scan.items@.len(),
    ensures
        out.rows@.map_values(|r: ParsedRow| r@) == outcome_spec(items_view(scan.items@), nums@).0,
        out.errors@.map_values(|e: String| e@) == line_messages(
            outcome_spec(items_view(scan.items@), nums@).1,
        ),
{
    let ghost errs = outcome_spec(items_view(scan.items@), nums@).1;
    let parsed = assemble(scan, nums);
    let mut errors: Vec<String> = Vec::new();
    for k in 0..parsed.errors.len()
        invariant
            parsed.errors@.map_values(|e: crate::csv_import::RowError| e@) == errs,
            errs.len() == parsed.errors@.len(),
            errors@.map_values(|e: String| e@) == line_messages(errs.take(k as int)),
    {
        let e = &parsed.errors[k];
        proof {
            assert(errs[k as int] == parsed.errors@[k as int]@);
        }
        let m = line_text(e.line, e.message.as_str());
        errors.push(m);
        proof {
            assert(errs.take(k + 1).drop_last() =~= errs.take(k as int));
            assert(line_messages(errs.take(k + 1)) =~= line_messages(errs.take(k as int)).push(
                line_message(errs[k as int].0, errs[k as int].1),
            ));
            assert(errors@.map_values(|e: String| e@) =~= line_messages(errs.take(k + 1)));
        }
    }
    proof {
        assert(errs.take(errs.len() as int) =~= errs);
    }
    SystemImport { rows: parsed.rows, errors }
}

} // verus!
