use map_stop_api::error::ErrorStatus;
use map_stop_api::routes::auth::{login_key, register_input, registered_user, LoginReq, RegisterReq};
use map_stop_api::routes::custom_points::custom_point_not_found;
use map_stop_api::routes::geocode::{check_query, wait_nanos, GeocodeQuery, MIN_INTERVAL_NANOS};
use map_stop_api::routes::plan::{
    check_avoid_count, coincident_endpoints, custom_selection, parse_mode, validate_endpoint,
    CustomSelection, MAX_AVOIDS,
};
use map_stop_api::routes::uploads::{
    admin_status, insert_failure, missing_file, pending_not_found, reject_reason, AdminListQuery,
    RejectBody,
};
use map_stop_api::routes::{flag_or_default, flag_to_int, int_to_flag, point_input, validate_point};
use map_stop_api::routing::TravelMode;

fn b(x: f64) -> u64 {
    x.to_bits()
}

#[test]
fn registration_rules() {
    let ok = register_input(&RegisterReq {
        username: "  bob  ".to_string(),
        email: Some(" b@x.cn ".to_string()),
        password: "123456".to_string(),
    })
    .unwrap();
    assert_eq!(ok.username, "bob");
    assert_eq!(ok.email.as_deref(), Some("b@x.cn"));
    let e = register_input(&RegisterReq {
        username: " ab ".to_string(),
        email: None,
        password: "123456".to_string(),
    })
    .unwrap_err();
    assert_eq!(e.status, ErrorStatus::BadRequest);
    assert_eq!(e.message, "用户名至少 3 个字符");
    // Two Chinese characters are six bytes, enough for a username.
    let cn = register_input(&RegisterReq {
        username: "张三".to_string(),
        email: Some("   ".to_string()),
        password: "密码".to_string(),
    })
    .unwrap();
    assert_eq!(cn.username, "张三");
    assert_eq!(cn.email, None);
    let e = register_input(&RegisterReq {
        username: "carol".to_string(),
        email: None,
        password: "12345".to_string(),
    })
    .unwrap_err();
    assert_eq!(e.message, "密码至少 6 个字符");
}

#[test]
fn login_and_user_records() {
    let req = LoginReq { login: " alice@x.cn\n".to_string(), password: "p".to_string() };
    assert_eq!(login_key(&req), "alice@x.cn");
    let u = registered_user("id1".to_string(), "bob".to_string(), None);
    assert_eq!(u.role, "user");
    assert_eq!(u.id, "id1");
    assert_eq!(u.username, "bob");
}

#[test]
fn search_rules() {
    let s = check_query(&GeocodeQuery { q: "  西湖 ".to_string(), limit: None }).unwrap();
    assert_eq!(s.query, "西湖");
    assert_eq!(s.limit, 5);
    assert_eq!(check_query(&GeocodeQuery { q: "a".to_string(), limit: Some(0) }).unwrap().limit, 1);
    assert_eq!(check_query(&GeocodeQuery { q: "a".to_string(), limit: Some(100) }).unwrap().limit, 8);
    assert_eq!(check_query(&GeocodeQuery { q: "a".to_string(), limit: Some(3) }).unwrap().limit, 3);
    let e = check_query(&GeocodeQuery { q: " \t".to_string(), limit: None }).unwrap_err();
    assert_eq!(e.message, "请输入搜索关键词");
    let long: String = std::iter::repeat('湖').take(201).collect();
    let e = check_query(&GeocodeQuery { q: long, limit: None }).unwrap_err();
    assert_eq!(e.message, "搜索关键词过长");
    let ok: String = std::iter::repeat('湖').take(200).collect();
    assert!(check_query(&GeocodeQuery { q: ok, limit: None }).is_ok());
}

#[test]
fn search_spacing() {
    assert_eq!(MIN_INTERVAL_NANOS, 1_100_000_000);
    assert_eq!(wait_nanos(None), 0);
    assert_eq!(wait_nanos(Some(100_000_000)), 1_000_000_000);
    assert_eq!(wait_nanos(Some(1_100_000_000)), 0);
    assert_eq!(wait_nanos(Some(5_000_000_000)), 0);
}

#[test]
fn point_rules() {
    let p = point_input(" 断桥 ", b(30.2585), b(120.148), None).unwrap();
    assert_eq!(p.name, "断桥");
    assert_eq!(f64::from_bits(p.radius_m), 80.0);
    let e = point_input("  ", b(30.0), b(120.0), None).unwrap_err();
    assert_eq!(e.status, ErrorStatus::BadRequest);
    assert_eq!(e.message, "名称必填");
    let e = point_input("x", b(-90.5), b(120.0), Some(b(10.0))).unwrap_err();
    assert_eq!(e.message, "经纬度超出范围");
    let e = point_input("x", b(30.0), b(120.0), Some(b(0.0))).unwrap_err();
    assert_eq!(e.message, "半径必须大于 0 且不超过 50000 米");
    assert!(validate_point(b(90.0), b(-180.0), b(50000.0)).is_ok());
    assert!(validate_point(b(f64::NAN), b(0.0), b(1.0)).is_err());
    assert!(validate_point(b(0.0), b(f64::INFINITY), b(1.0)).is_err());
    assert!(validate_point(b(0.0), b(0.0), b(-0.0)).is_err());
    assert!(validate_point(b(0.0), b(0.0), b(50000.000001)).is_err());
    assert!(validate_point(b(0.0), b(0.0), b(f64::INFINITY)).is_err());
    // A NaN radius passes both comparisons, as the range rule reads.
    assert!(validate_point(b(0.0), b(0.0), b(f64::NAN)).is_ok());
}

#[test]
fn flags() {
    assert!(flag_or_default(None));
    assert!(!flag_or_default(Some(false)));
    assert_eq!(flag_to_int(true), 1);
    assert_eq!(flag_to_int(false), 0);
    assert!(int_to_flag(flag_to_int(true)));
    assert!(!int_to_flag(flag_to_int(false)));
    assert!(int_to_flag(-3));
}

#[test]
fn plan_rules() {
    assert_eq!(parse_mode("walking").unwrap(), TravelMode::Walking);
    let e = parse_mode("flying").unwrap_err();
    assert_eq!(e.message, "出行方式须为 driving|walking|cycling");
    assert!(validate_endpoint("起点", b(30.0), b(120.0)).is_ok());
    assert_eq!(validate_endpoint("起点", b(f64::NAN), b(120.0)).unwrap_err().message, "起点坐标无效");
    assert_eq!(
        validate_endpoint("终点", b(30.0), b(f64::NEG_INFINITY)).unwrap_err().message,
        "终点坐标无效"
    );
    assert_eq!(validate_endpoint("终点", b(30.0), b(200.0)).unwrap_err().message, "终点经纬度超出范围");
    assert_eq!(MAX_AVOIDS, 50);
    assert!(check_avoid_count(50).is_ok());
    assert_eq!(
        check_avoid_count(51).unwrap_err().message,
        "单次规划生效躲避点不能超过 50 个，请缩小集合或分批"
    );
    assert!(matches!(custom_selection(None), CustomSelection::AllSelected));
    assert!(matches!(custom_selection(Some(vec![])), CustomSelection::Nothing));
    assert!(matches!(custom_selection(Some(vec!["a".to_string()])), CustomSelection::Listed(v) if v == vec!["a".to_string()]));
    assert_eq!(coincident_endpoints().message, "起点与终点不能重合");
}

#[test]
fn review_rules() {
    let q = |s: Option<&str>| AdminListQuery { status: s.map(String::from) };
    assert_eq!(admin_status(&q(None)).unwrap(), "pending");
    assert_eq!(admin_status(&q(Some(" Approved "))).unwrap(), "approved");
    assert_eq!(admin_status(&q(Some("ALL"))).unwrap(), "all");
    assert_eq!(admin_status(&q(Some("  "))).unwrap(), "pending");
    let e = admin_status(&q(Some("done"))).unwrap_err();
    assert_eq!(e.status, ErrorStatus::BadRequest);
    assert_eq!(e.message, "status 须为 pending / approved / rejected / all");
    assert_eq!(reject_reason(&RejectBody { reason: " 重复 ".to_string() }).unwrap(), "重复");
    assert_eq!(
        reject_reason(&RejectBody { reason: " ".to_string() }).unwrap_err().message,
        "驳回须填写原因"
    );
    let f = insert_failure(7);
    assert_eq!((f.line, f.message.as_str()), (7, "写入数据库失败"));
    assert_eq!(pending_not_found().status, ErrorStatus::NotFound);
    assert_eq!(pending_not_found().message, "待审上传不存在");
    assert_eq!(missing_file().message, "请上传 CSV 文件");
    assert_eq!(custom_point_not_found().message, "自定义点不存在");
}
