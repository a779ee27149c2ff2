use map_stop_api::routing::gaode::{
    check_route_points, check_status, endpoint, endpoint_inside_message, join_avoid_polygons,
    no_path_message, polyline_points, polyline_texts, refusal_message, MAX_AVOID_POLYGONS,
};
use map_stop_api::routing::TravelMode;

fn number_bits(text: &str) -> Option<u64> {
    text.parse::<f64>().ok().map(f64::to_bits)
}

/// Reads a polyline the way the server does: split and select the texts, read
/// them as numbers, keep the points that are numbers.
fn parse_polyline(s: &str) -> Vec<(f64, f64)> {
    let texts = polyline_texts(s);
    let nums: Vec<(Option<u64>, Option<u64>)> =
        texts.iter().map(|(lon, lat)| (number_bits(lon), number_bits(lat))).collect();
    polyline_points(&nums)
        .into_iter()
        .map(|(lat, lon)| (f64::from_bits(lat), f64::from_bits(lon)))
        .collect()
}

#[test]
fn parse_polyline_basic() {
    let coords = parse_polyline("120.15,30.26;120.16,30.27");
    assert_eq!(coords.len(), 2);
    assert!((coords[0].0 - 30.26).abs() < 1e-6);
    assert!((coords[0].1 - 120.15).abs() < 1e-6);
}

#[test]
fn polyline_skips_empty_short_and_unreadable_points() {
    let texts = polyline_texts(" 120.1,30.1 ;;120.2;abc,30.3;120.4,30.4,7;");
    let got: Vec<(&str, &str)> = texts.iter().map(|(a, b)| (a.as_str(), b.as_str())).collect();
    assert_eq!(got, vec![("120.1", "30.1"), ("abc", "30.3"), ("120.4", "30.4")]);
    let coords = parse_polyline(" 120.1,30.1 ;;120.2;abc,30.3;120.4,30.4,7;");
    assert_eq!(coords, vec![(30.1, 120.1), (30.4, 120.4)]);
    assert!(parse_polyline("").is_empty());
}

#[test]
fn endpoints_per_mode() {
    assert_eq!(
        endpoint(TravelMode::Driving),
        ("https://restapi.amap.com/v5/direction/driving", true)
    );
    assert_eq!(
        endpoint(TravelMode::Walking),
        ("https://restapi.amap.com/v5/direction/walking", false)
    );
    assert_eq!(
        endpoint(TravelMode::Cycling),
        ("https://restapi.amap.com/v5/direction/bicycling", false)
    );
}

#[test]
fn avoid_polygons_are_joined_and_capped() {
    assert_eq!(join_avoid_polygons(&vec![]), "");
    assert_eq!(join_avoid_polygons(&vec!["a".to_string()]), "a");
    assert_eq!(
        join_avoid_polygons(&vec!["1,2;3,4".to_string(), "5,6".to_string()]),
        "1,2;3,4|5,6"
    );
    let many: Vec<String> = (0..40).map(|i| i.to_string()).collect();
    let joined = join_avoid_polygons(&many);
    assert_eq!(joined.split('|').count(), MAX_AVOID_POLYGONS);
    assert!(joined.ends_with("|31"));
}

#[test]
fn status_rules() {
    assert!(check_status(&Some("1".to_string()), &None).is_ok());
    assert_eq!(
        check_status(&Some("0".to_string()), &Some("ENGINE_RESPONSE_DATA_ERROR".to_string())).unwrap_err(),
        "无法完全避开指定点位，请缩小半径或减少躲避点"
    );
    assert_eq!(
        check_status(&None, &Some("x NO_ROADS y".to_string())).unwrap_err(),
        "无法完全避开指定点位，请缩小半径或减少躲避点"
    );
    assert_eq!(
        check_status(&Some("0".to_string()), &Some("INVALID_USER_KEY".to_string())).unwrap_err(),
        "高德算路失败: INVALID_USER_KEY"
    );
    assert_eq!(check_status(&Some("0".to_string()), &None).unwrap_err(), "高德算路失败: 未知错误");
    assert_eq!(no_path_message(), "无法完全避开指定点位，请缩小半径或减少躲避点");
}

#[test]
fn refusals_and_route_checks() {
    let e = "路线校验失败：规划结果进入了躲避圆，请缩小半径或减少躲避点。。";
    assert_eq!(refusal_message(e, true), e);
    assert_eq!(
        refusal_message(e, false),
        "路线校验失败：规划结果进入了躲避圆，请缩小半径或减少躲避点（当前出行方式高德 API 不支持原生避让区域，已按硬约束拒绝）"
    );
    assert_eq!(check_route_points(1).unwrap_err(), "高德返回路线无效");
    assert!(check_route_points(2).is_ok());
    assert_eq!(endpoint_inside_message(true), "起点位于躲避圆内，请调整起点或半径");
    assert_eq!(endpoint_inside_message(false), "终点位于躲避圆内，请调整终点或半径");
}
