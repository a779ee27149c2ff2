//! Gaode (Amap) web-service routing: endpoints, request shaping and the rules
//! applied to its answers. Coordinates are `lon,lat` pairs in GCJ-02.
use vstd::prelude::*;
use crate::config::opt_view;
use crate::routing::TravelMode;
use crate::text::{
    chars_of, concatenate, contains, contains_seq, string_from_chars, strip_trailing, trim,
    trim_end_matches, trimmed,
};

verus! {

/// Gaode's driving, walking and cycling endpoints.
pub open spec fn spec_endpoint(mode: TravelMode) -> (Seq<char>, bool) {
    match mode {
        TravelMode::Driving => ("https://restapi.amap.com/v5/direction/driving"@, true),
        TravelMode::Walking => ("https://restapi.amap.com/v5/direction/walking"@, false),
        TravelMode::Cycling => ("https://restapi.amap.com/v5/direction/bicycling"@, false),
    }
}

/// The endpoint for a travel mode, and whether it takes avoid polygons (only
/// driving does).
pub fn endpoint(mode: TravelMode) -> (r: (&'static str, bool))
    ensures
        (r.0@, r.1) == spec_endpoint(mode),
{
    match mode {
        TravelMode::Driving => ("https://restapi.amap.com/v5/direction/driving", true),
        TravelMode::Walking => ("https://restapi.amap.com/v5/direction/walking", false),
        TravelMode::Cycling => ("https://restapi.amap.com/v5/direction/bicycling", false),
    }
}

/// The extra query parameters of a request: `strategy=32` and
/// `avoidpolygons` are sent for driving only, the polygons only when there are
/// avoid points.
pub fn extra_params(mode: TravelMode, n_avoids: usize) -> (r: (bool, bool))
    ensures
        r.0 == (mode == TravelMode::Driving),
        r.1 == (mode == TravelMode::Driving && n_avoids > 0),
{
    let driving = match mode {
        TravelMode::Driving => true,
        _ => false,
    };
    (driving, driving && n_avoids > 0)
}

/// The most avoid polygons Gaode accepts in one request.
pub const MAX_AVOID_POLYGONS: usize = 32;

/// `parts` joined with `sep` between neighbours.
pub open spec fn join_spec(parts: Seq<Seq<char>>, sep: Seq<char>) -> Seq<char>
    decreases parts.len(),
{
    if parts.len() == 0 {
        Seq::empty()
    } else if parts.len() == 1 {
        parts[0]
    } else {
        join_spec(parts.drop_last(), sep) + sep + parts.last()
    }
}

/// The polygons (each `lon,lat;lon,lat;...`) that a request carries: the
/// first `MAX_AVOID_POLYGONS`.
pub open spec fn sent_polygons(polys: Seq<Seq<char>>) -> Seq<Seq<char>> {
    if polys.len() <= MAX_AVOID_POLYGONS {
        polys
    } else {
        polys.take(MAX_AVOID_POLYGONS as int)
    }
}

/// The `avoidpolygons` parameter: the first 32 polygons, joined with `|`.
pub fn join_avoid_polygons(polys: &Vec<String>) -> (r: String)
    ensures
        r@ == join_spec(sent_polygons(polys@.map_values(|p: String| p@)), "|"@),
{
    let ghost all = polys@.map_values(|p: String| p@);
    let n = if polys.len() < MAX_AVOID_POLYGONS {
        polys.len()
    } else {
        MAX_AVOID_POLYGONS
    };
    let mut out = String::new();
    proof {
        reveal_strlit("|");
    }
    for i in 0..n
        invariant
            n <= polys@.len(),
            all == polys@.map_values(|p: String| p@),
            out@ == join_spec(all.take(i as int), "|"@),
    {
        proof {
            assert(all.take(i + 1).drop_last() =~= all.take(i as int));
        }
        if i == 0 {
            out = polys[i].clone();
            proof {
                assert(all.take(1)[0] == all[0]);
            }
        } else {
            out = concatenate(out.as_str(), "|");
            out = concatenate(out.as_str(), polys[i].as_str());
        }
    }
    proof {
        if polys@.len() <= MAX_AVOID_POLYGONS {
            assert(all.take(n as int) =~= all);
        }
    }
    out
}

/// Whether Gaode's `info` says no route avoids the given areas.
pub open spec fn info_means_unavoidable(info: Seq<char>) -> bool {
    ||| contains_seq(info, "ENGINE_RESPONSE_DATA_ERROR"@)
    ||| contains_seq(info, "NO_ROADS"@)
    ||| contains_seq(info, "UNKNOWN_ERROR"@)
}

/// The message for a route that cannot avoid the points.
pub open spec fn unavoidable_message() -> Seq<char> {
    "无法完全避开指定点位，请缩小半径或减少躲避点"@
}

/// The answer given for Gaode's `status` and `info`: success only for status
/// `1`; otherwise the "cannot avoid" message for the engine's no-route errors,
/// or the failure with Gaode's info (`未知错误` when it sends none).
pub open spec fn status_spec(status: Option<Seq<char>>, info: Option<Seq<char>>) -> Result<(), Seq<char>> {
    if status == Some("1"@) {
        Ok(())
    } else {
        let i = match info {
            Some(t) => t,
            None => "未知错误"@,
        };
        if info_means_unavoidable(i) {
            Err(unavoidable_message())
        } else {
            Err("高德算路失败: "@ + i)
        }
    }
}

/// Judges Gaode's `status` and `info` fields.
pub fn check_status(status: &Option<String>, info: &Option<String>) -> (r: Result<(), String>)
    ensures
        r matches Ok(_) ==> status_spec(opt_view(*status), opt_view(*info)) is Ok,
        r matches Err(m) ==> status_spec(opt_view(*status), opt_view(*info)) == Err::<(), Seq<char>>(m@),
        status_spec(opt_view(*status), opt_view(*info)) is Ok ==> r is Ok,
{
    let ok = match status {
        Some(s) => crate::text::str_eq(s.as_str(), "1"),
        None => false,
    };
    if ok {
        return Ok(());
    }
    let i: String = match info {
        Some(t) => t.clone(),
        None => "未知错误".to_owned(),
    };
    if contains(i.as_str(), "ENGINE_RESPONSE_DATA_ERROR") || contains(i.as_str(), "NO_ROADS")
        || contains(i.as_str(), "UNKNOWN_ERROR") {
        return Err("无法完全避开指定点位，请缩小半径或减少躲避点".to_owned());
    }
    Err(concatenate("高德算路失败: ", i.as_str()))
}

/// The message when Gaode's answer holds no path.
pub fn no_path_message() -> (m: String)
    ensures
        m@ == unavoidable_message(),
{
    "无法完全避开指定点位，请缩小半径或减少躲避点".to_owned()
}

/// Refuses a route of fewer than two points.
pub fn check_route_points(n: usize) -> (r: Result<(), String>)
    ensures
        r is Ok <==> n >= 2,
        r matches Err(m) ==> m@ == "高德返回路线无效"@,
{
    if n < 2 {
        Err("高德返回路线无效".to_owned())
    } else {
        Ok(())
    }
}

/// The message when the start (or the end) lies inside an avoid circle.
pub fn endpoint_inside_message(start: bool) -> (m: String)
    ensures
        start ==> m@ == "起点位于躲避圆内，请调整起点或半径"@,
        !start ==> m@ == "终点位于躲避圆内，请调整终点或半径"@,
{
    if start {
        "起点位于躲避圆内，请调整起点或半径".to_owned()
    } else {
        "终点位于躲避圆内，请调整终点或半径".to_owned()
    }
}

/// The refusal of a route that enters an avoid circle: the check's message
/// as it is for driving; for walking and cycling, whose API cannot avoid
/// areas, without its trailing full stops and with that explanation added.
pub open spec fn refusal_spec(message: Seq<char>, supports_avoid: bool) -> Seq<char> {
    if supports_avoid {
        message
    } else {
        strip_trailing(message, '。') + "（当前出行方式高德 API 不支持原生避让区域，已按硬约束拒绝）"@
    }
}

/// Words the refusal of a route that enters an avoid circle.
pub fn refusal_message(message: &str, supports_avoid: bool) -> (m: String)
    ensures
        m@ == refusal_spec(message@, supports_avoid),
{
    if supports_avoid {
        message.to_owned()
    } else {
        concatenate(
            trim_end_matches(message, '。'),
            "（当前出行方式高德 API 不支持原生避让区域，已按硬约束拒绝）",
        )
    }
}

/// Splitting state after reading `s`: finished pieces and the open piece.
pub open spec fn split_fold(s: Seq<char>, c: char) -> (Seq<Seq<char>>, Seq<char>)
    decreases s.len(),
{
    if s.len() == 0 {
        (Seq::empty(), Seq::empty())
    } else {
        let prev = split_fold(s.drop_last(), c);
        if s.last() == c {
            (prev.0.push(prev.1), Seq::empty())
        } else {
            (prev.0, prev.1.push(s.last()))
        }
    }
}

/// The pieces of `s` between occurrences of `c` (`str::split(c)`); there is
/// always at least one.
pub open spec fn split_spec(s: Seq<char>, c: char) -> Seq<Seq<char>> {
    split_fold(s, c).0.push(split_fold(s, c).1)
}

/// The pieces of `s` between occurrences of `c`.
pub fn split_chars(s: &Vec<char>, c: char) -> (r: Vec<Vec<char>>)
    ensures
        r@.map_values(|p: Vec<char>| p@) == split_spec(s@, c),
{
    let mut done: Vec<Vec<char>> = Vec::new();
    let mut cur: Vec<char> = Vec::new();
    for i in 0..s.len()
        invariant
            done@.map_values(|p: Vec<char>| p@) == split_fold(s@.take(i as int), c).0,
            cur@ == split_fold(s@.take(i as int), c).1,
    {
        proof {
            assert(s@.take(i + 1).drop_last() =~= s@.take(i as int));
            assert(s@.take(i + 1).last() == s@[i as int]);
        }
        if s[i] == c {
            let piece = cur;
            done.push(piece);
            cur = Vec::new();
            proof {
                assert(done@.map_values(|p: Vec<char>| p@) =~= split_fold(s@.take(i + 1), c).0);
            }
        } else {
            cur.push(s[i]);
        }
    }
    proof {
        assert(s@.take(s@.len() as int) =~= s@);
    }
    done.push(cur);
    proof {
        assert(done@.map_values(|p: Vec<char>| p@) =~= split_spec(s@, c));
    }
    done
}

/// The `(lon, lat)` texts of a Gaode polyline, points separated by `;` and
/// coordinates by `,`: points are trimmed, empty ones skipped, and a point
/// needs at least two coordinates, of which the first two are taken.
pub open spec fn polyline_texts_spec(pieces: Seq<Seq<char>>) -> Seq<(Seq<char>, Seq<char>)>
    decreases pieces.len(),
{
    if pieces.len() == 0 {
        Seq::empty()
    } else {
        let prev = polyline_texts_spec(pieces.drop_last());
        let t = trimmed(pieces.last());
        let parts = split_spec(t, ',');
        if t.len() > 0 && parts.len() >= 2 {
            prev.push((parts[0], parts[1]))
        } else {
            prev
        }
    }
}

/// The coordinate texts of the points of a polyline `lon,lat;lon,lat;...`.
pub fn polyline_texts(s: &str) -> (r: Vec<(String, String)>)
    ensures
        r@.map_values(|p: (String, String)| (p.0@, p.1@)) == polyline_texts_spec(
            split_spec(s@, ';'),
        ),
{
    let chars = chars_of(s);
    let pieces = split_chars(&chars, ';');
    let ghost pv = pieces@.map_values(|p: Vec<char>| p@);
    let mut out: Vec<(String, String)> = Vec::new();
    for i in 0..pieces.len()
        invariant
            pv == pieces@.map_values(|p: Vec<char>| p@),
            out@.map_values(|p: (String, String)| (p.0@, p.1@)) == polyline_texts_spec(
                pv.take(i as int),
            ),
    {
        proof {
            assert(pv.take(i + 1).drop_last() =~= pv.take(i as int));
            assert(pv.take(i + 1).last() == pieces@[i as int]@);
        }
        let piece = string_from_chars(&pieces[i]);
        let t = trim(piece.as_str());
        let tc = chars_of(t);
        let parts = split_chars(&tc, ',');
        let ghost partv = parts@.map_values(|p: Vec<char>| p@);
        if tc.len() > 0 && parts.len() >= 2 {
            let lon = string_from_chars(&parts[0]);
            let lat = string_from_chars(&parts[1]);
            proof {
                assert(partv[0] == parts@[0]@);
                assert(partv[1] == parts@[1]@);
            }
            out.push((lon, lat));
        }
        proof {
            assert(out@.map_values(|p: (String, String)| (p.0@, p.1@)) =~= polyline_texts_spec(
                pv.take(i + 1),
            ));
        }
    }
    proof {
        assert(pv.take(pieces@.len() as int) =~= pv);
    }
    out
}

/// The points whose two coordinates were read as numbers, as `(lat, lon)`
/// binary64 patterns, in order.
pub open spec fn polyline_points_spec(nums: Seq<(Option<u64>, Option<u64>)>) -> Seq<(u64, u64)>
    decreases nums.len(),
{
    if nums.len() == 0 {
        Seq::empty()
    } else {
        let prev = polyline_points_spec(nums.drop_last());
        match nums.last() {
            (Some(lon), Some(lat)) => prev.push((lat, lon)),
            _ => prev,
        }
    }
}

/// Keeps the points whose longitude and latitude texts were both numbers
/// (`nums[i]` holding the patterns read from point `i`'s `(lon, lat)` texts)
/// and gives them as `(lat, lon)`.
pub fn polyline_points(nums: &Vec<(Option<u64>, Option<u64>)>) -> (r: Vec<(u64, u64)>)
    ensures
        r@ == polyline_points_spec(nums@),
{
    let mut out: Vec<(u64, u64)> = Vec::new();
    for i in 0..nums.len()
        invariant
            out@ == polyline_points_spec(nums@.take(i as int)),
    {
        proof {
            assert(nums@.take(i + 1).drop_last() =~= nums@.take(i as int));
            assert(nums@.take(i + 1).last() == nums@[i as int]);
        }
        match nums[i] {
            (Some(lon), Some(lat)) => out.push((lat, lon)),
            _ => {},
        }
    }
    proof {
        assert(nums@.take(nums@.len() as int) =~= nums@);
    }
    out
}


/// A request carries at most 32 polygons, the first ones given, in order.
pub proof fn lemma_sent_polygons_bounded(polys: Seq<Seq<char>>)
    ensures
        sent_polygons(polys).len() <= MAX_AVOID_POLYGONS,
        sent_polygons(polys).len() == if polys.len() <= MAX_AVOID_POLYGONS {
            polys.len()
        } else {
            MAX_AVOID_POLYGONS as nat
        },
        forall|i: int| 0 <= i < sent_polygons(polys).len() ==> #[trigger] sent_polygons(polys)[i] == polys[i],
{
}

/// Every point read from a polyline comes from a point of it whose two
/// coordinates were numbers, so there are never more points than texts.
pub proof fn lemma_polyline_points_bounded(nums: Seq<(Option<u64>, Option<u64>)>)
    ensures
        polyline_points_spec(nums).len() <= nums.len(),
    decreases nums.len(),
{
    if nums.len() > 0 {
        lemma_polyline_points_bounded(nums.drop_last());
    }
}

} // verus!
