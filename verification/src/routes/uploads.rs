//! User uploads of avoid points and their review by administrators.
use vstd::prelude::*;
use crate::config::opt_view;
use crate::csv_import::RowError;
use crate::error::{AppError, ErrorStatus};
use crate::text::{lower_seq, str_eq, to_ascii_lowercase, trim, trimmed};

verus! {

/// A rejection: the reason shown to the uploader.
#[derive(Debug)]
pub struct RejectBody {
    pub reason: String,
}

/// The review list filter: `pending`, `approved`, `rejected` or `all`
/// (`pending` when absent).
#[derive(Debug)]
pub struct AdminListQuery {
    pub status: Option<String>,
}

/// Whether a filter names one of the four review lists.
pub open spec fn known_status(s: Seq<char>) -> bool {
    s == "pending"@ || s == "approved"@ || s == "rejected"@ || s == "all"@
}

/// The review list asked for: the filter trimmed and lower-cased, `pending`
/// when absent or empty, refused when it names no list.
pub open spec fn admin_status_spec(status: Option<Seq<char>>) -> Result<Seq<char>, Seq<char>> {
    let s = lower_seq(
        trimmed(
            match status {
                Some(v) => v,
                None => "pending"@,
            },
        ),
    );
    if known_status(s) {
        Ok(s)
    } else if s.len() == 0 {
        Ok("pending"@)
    } else {
        Err("status 须为 pending / approved / rejected / all"@)
    }
}

/// Reads the review list filter.
pub fn admin_status(q: &AdminListQuery) -> (r: Result<String, AppError>)
    ensures
        r matches Ok(s) ==> admin_status_spec(opt_view(q.status)) == Ok::<Seq<char>, Seq<char>>(s@),
        r matches Err(e) ==> e.status == ErrorStatus::BadRequest && admin_status_spec(opt_view(q.status)) == Err::<Seq<char>, Seq<char>>(e.message@),
{
    let raw: &str = match &q.status {
        Some(v) => v.as_str(),
        None => "pending",
    };
    let s = to_ascii_lowercase(trim(raw));
    let sv = s.as_str();
    if str_eq(sv, "pending") || str_eq(sv, "approved") || str_eq(sv, "rejected") || str_eq(sv, "all") {
        return Ok(s);
    }
    if sv.unicode_len() == 0 {
        return Ok("pending".to_owned());
    }
    Err(AppError::bad_request("status 须为 pending / approved / rejected / all"))
}

/// Every accepted filter names one of the four review lists.
pub proof fn lemma_admin_status_known(status: Option<Seq<char>>)
    ensures
        admin_status_spec(status) matches Ok(s) ==> known_status(s),
{
}

/// A filter that already names a review list is taken as it is.
pub proof fn lemma_admin_status_fixed(s: Seq<char>)
    requires
        known_status(s),
    ensures
        admin_status_spec(Some(s)) == Ok::<Seq<char>, Seq<char>>(s),
{
    reveal_strlit("pending");
    reveal_strlit("approved");
    reveal_strlit("rejected");
    reveal_strlit("all");
    assert(!crate::text::is_ws(s[0]));
    assert(!crate::text::is_ws(s.last()));
    assert(crate::text::trim_start(s) == s);
    assert(crate::text::trim_end(s) == s);
    assert(lower_seq(s) =~= s);
}

/// The reason of a rejection: trimmed, and not empty.
pub fn reject_reason(body: &RejectBody) -> (r: Result<String, AppError>)
    ensures
        r matches Ok(s) ==> s@ == trimmed(body.reason@) && s@.len() > 0,
        r matches Err(e) ==> trimmed(body.reason@).len() == 0 && e.status == ErrorStatus::BadRequest
            && e.message@ == "驳回须填写原因"@,
        r is Ok <==> trimmed(body.reason@).len() > 0,
{
    let t = trim(body.reason.as_str());
    if t.unicode_len() == 0 {
        Err(AppError::bad_request("驳回须填写原因"))
    } else {
        Ok(t.to_owned())
    }
}

/// The error recorded for an imported row that the database refused.
pub fn insert_failure(line: usize) -> (e: RowError)
    ensures
        e.line == line,
        e.message@ == "写入数据库失败"@,
{
    RowError { line, message: "写入数据库失败".to_owned() }
}

/// The refusal when a pending upload is not found.
pub fn pending_not_found() -> (e: AppError)
    ensures
        e.status == ErrorStatus::NotFound,
        e.message@ == "待审上传不存在"@,
{
    AppError::not_found("待审上传不存在")
}

/// The refusal of an upload without a file.
pub fn missing_file() -> (e: AppError)
    ensures
        e.status == ErrorStatus::BadRequest,
        e.message@ == "请上传 CSV 文件"@,
{
    AppError::bad_request("请上传 CSV 文件")
}

} // verus!
