//! Request rules of the HTTP endpoints: what each handler accepts, refuses and
//! stores, apart from the database and the network.
pub mod auth;
pub mod custom_points;
pub mod geocode;
pub mod plan;
pub mod system_points;
pub mod uploads;

use vstd::prelude::*;
use crate::coord::{coords_in_range, radius_in_range, DEFAULT_RADIUS_BITS};
use crate::csv_import::coords_message;
use crate::error::{AppError, ErrorStatus};
use crate::text::{trim, trimmed};

verus! {

/// Checks a point's coordinates, then its radius (binary64 patterns).
pub fn validate_point(lat: u64, lon: u64, radius_m: u64) -> (r: Result<(), AppError>)
    ensures
        r is Ok <==> coords_message(lat, lon, radius_m) is None,
        r matches Err(e) ==> e.status == ErrorStatus::BadRequest && coords_message(lat, lon, radius_m)
            == Some(e.message@),
{
    if !coords_in_range(lat, lon) {
        return Err(AppError::bad_request("经纬度超出范围"));
    }
    if !radius_in_range(radius_m) {
        return Err(AppError::bad_request("半径必须大于 0 且不超过 50000 米"));
    }
    Ok(())
}

/// A point as submitted, once accepted: trimmed name and radius (eighty
/// metres when none was given).
#[derive(Debug)]
pub struct PointInput {
    pub name: String,
    pub radius_m: u64,
}

/// The rules for a submitted point: a name that is not blank, then the
/// coordinate and radius ranges.
pub open spec fn point_input_spec(name: Seq<char>, lat: u64, lon: u64, radius_m: Option<u64>) -> Result<
    (Seq<char>, u64),
    Seq<char>,
> {
    let r = match radius_m {
        Some(v) => v,
        None => DEFAULT_RADIUS_BITS,
    };
    if trimmed(name).len() == 0 {
        Err("名称必填"@)
    } else {
        match coords_message(lat, lon, r) {
            Some(m) => Err(m),
            None => Ok((trimmed(name), r)),
        }
    }
}

/// Accepts or refuses a submitted point (name, latitude, longitude, optional
/// radius).
pub fn point_input(name: &str, lat: u64, lon: u64, radius_m: Option<u64>) -> (r: Result<
    PointInput,
    AppError,
>)
    ensures
        r matches Ok(p) ==> point_input_spec(name@, lat, lon, radius_m) == Ok::<(Seq<char>, u64), Seq<char>>((p.name@, p.radius_m)),
        r matches Err(e) ==> e.status == ErrorStatus::BadRequest && point_input_spec(name@, lat, lon, radius_m) == Err::<(Seq<char>, u64), Seq<char>>(e.message@),
        r matches Ok(p) ==> p.name@ == trimmed(name@),
        r matches Ok(p) ==> (radius_m matches Some(v) ==> p.radius_m == v),
        r matches Ok(p) ==> (radius_m is None ==> p.radius_m == 0x4054_0000_0000_0000u64),
{
    let n = trim(name);
    if n.unicode_len() == 0 {
        return Err(AppError::bad_request("名称必填"));
    }
    let radius = match radius_m {
        Some(v) => v,
        None => DEFAULT_RADIUS_BITS,
    };
    validate_point(lat, lon, radius)?;
    Ok(PointInput { name: n.to_owned(), radius_m: radius })
}

/// An accepted point keeps the radius it was given; only a point given no
/// radius gets eighty metres (the pattern 0x4054_0000_0000_0000). Its name is
/// the given one trimmed, and it is accepted exactly when that name is not
/// blank and its coordinates and radius pass the range rules shared with the
/// CSV import.
pub proof fn lemma_point_input_keeps_given_values(name: Seq<char>, lat: u64, lon: u64, radius_m: Option<u64>)
    ensures
        point_input_spec(name, lat, lon, radius_m) matches Ok((n, r)) ==> {
            &&& n == trimmed(name)
            &&& n.len() > 0
            &&& (radius_m matches Some(v) ==> r == v)
            &&& (radius_m is None ==> r == 0x4054_0000_0000_0000u64)
            &&& crate::coord::coords_ok(lat, lon)
            &&& crate::coord::radius_ok(r)
        },
        trimmed(name).len() > 0 && crate::coord::coords_ok(lat, lon) && (radius_m matches Some(v)
            ==> crate::coord::radius_ok(v)) ==> point_input_spec(name, lat, lon, radius_m) is Ok,
{
    reveal_strlit("名称必填");
}

/// A flag as submitted, `true` when absent.
pub fn flag_or_default(v: Option<bool>) -> (b: bool)
    ensures
        b == match v {
            Some(x) => x,
            None => true,
        },
{
    match v {
        Some(x) => x,
        None => true,
    }
}

/// A flag as stored in an integer column.
pub fn flag_to_int(b: bool) -> (v: i64)
    ensures
        v == (if b {
            1int
        } else {
            0int
        }),
{
    if b {
        1
    } else {
        0
    }
}

/// A flag read back from an integer column: set unless zero.
pub fn int_to_flag(v: i64) -> (b: bool)
    ensures
        b == (v != 0),
{
    v != 0
}

/// Reading back a stored flag gives the flag.
pub proof fn lemma_flag_round_trip(b: bool)
    ensures
        (if b {
            1int
        } else {
            0int
        } != 0) == b,
{
}

} // verus!
