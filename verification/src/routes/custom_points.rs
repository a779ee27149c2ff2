//! A user's own avoid points.
use vstd::prelude::*;
use crate::error::{AppError, ErrorStatus};

verus! {

/// The refusal when the user has no such point.
pub fn custom_point_not_found() -> (e: AppError)
    ensures
        e.status == ErrorStatus::NotFound,
        e.message@ == "自定义点不存在"@,
{
    AppError::not_found("自定义点不存在")
}

} // verus!
