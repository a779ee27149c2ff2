//! Route planning requests: travel mode, end points, which avoid points apply,
//! and how many.
use vstd::prelude::*;
use crate::coord::{coords_in_range, coords_ok, finite, is_finite};
use crate::error::{AppError, ErrorStatus};
use crate::routing::{spec_travel_mode, TravelMode};
use crate::text::concatenate;

verus! {

/// The most avoid points one plan may apply.
pub const MAX_AVOIDS: usize = 50;

/// The travel mode of a plan request.
pub fn parse_mode(mode: &str) -> (r: Result<TravelMode, AppError>)
    ensures
        r matches Ok(m) ==> spec_travel_mode(mode@) == Some(m),
        r matches Err(e) ==> spec_travel_mode(mode@) is None && e.status == ErrorStatus::BadRequest
            && e.message@ == "出行方式须为 driving|walking|cycling"@,
        r is Err <==> spec_travel_mode(mode@) is None,
{
    match TravelMode::from_str(mode) {
        Some(m) => Ok(m),
        None => Err(AppError::bad_request("出行方式须为 driving|walking|cycling")),
    }
}

/// The rules for an end point named `label`: finite coordinates, then the
/// latitude and longitude ranges.
pub open spec fn endpoint_spec(label: Seq<char>, lat: u64, lon: u64) -> Option<Seq<char>> {
    if !is_finite(lat) || !is_finite(lon) {
        Some(label + "坐标无效"@)
    } else if !coords_ok(lat, lon) {
        Some(label + "经纬度超出范围"@)
    } else {
        None
    }
}

/// Checks an end point (binary64 patterns); `label` names it in the message.
pub fn validate_endpoint(label: &str, lat: u64, lon: u64) -> (r: Result<(), AppError>)
    ensures
        r is Ok <==> endpoint_spec(label@, lat, lon) is None,
        r matches Err(e) ==> e.status == ErrorStatus::BadRequest && endpoint_spec(label@, lat, lon)
            == Some(e.message@),
{
    if !finite(lat) || !finite(lon) {
        let m = concatenate(label, "坐标无效");
        return Err(AppError::bad_request(m.as_str()));
    }
    if !coords_in_range(lat, lon) {
        let m = concatenate(label, "经纬度超出范围");
        return Err(AppError::bad_request(m.as_str()));
    }
    Ok(())
}

/// Which of the user's own points a plan applies.
#[derive(Debug)]
pub enum CustomSelection {
    /// The listed points (those that exist and belong to the user).
    Listed(Vec<String>),
    /// None of them.
    Nothing,
    /// Every point the user has selected.
    AllSelected,
}

/// The user's points a plan applies: the listed ones, none for an empty list,
/// and every selected one when no list is given.
pub fn custom_selection(ids: Option<Vec<String>>) -> (s: CustomSelection)
    ensures
        ids is None ==> s is AllSelected,
        ids matches Some(v) ==> if v@.len() == 0 {
            s is Nothing
        } else {
            s matches CustomSelection::Listed(w) && w@ == v@
        },
{
    match ids {
        None => CustomSelection::AllSelected,
        Some(v) => if v.len() == 0 {
            CustomSelection::Nothing
        } else {
            CustomSelection::Listed(v)
        },
    }
}

/// Refuses a plan with more than `MAX_AVOIDS` avoid points.
pub fn check_avoid_count(n: usize) -> (r: Result<(), AppError>)
    ensures
        r is Ok <==> n <= MAX_AVOIDS,
        r matches Err(e) ==> e.status == ErrorStatus::BadRequest && e.message@
            == "单次规划生效躲避点不能超过 50 个，请缩小集合或分批"@,
{
    if n > MAX_AVOIDS {
        Err(AppError::bad_request("单次规划生效躲避点不能超过 50 个，请缩小集合或分批"))
    } else {
        Ok(())
    }
}

/// The refusal of a plan whose start and end coincide.
pub fn coincident_endpoints() -> (e: AppError)
    ensures
        e.status == ErrorStatus::BadRequest,
        e.message@ == "起点与终点不能重合"@,
{
    AppError::bad_request("起点与终点不能重合")
}

} // verus!
