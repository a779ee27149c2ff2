use map_stop_api::routing::gaode::extra_params;
use map_stop_api::config::Config;
use map_stop_api::routing::{ProviderKind, RouteBackend, RoutingService, TravelMode};

fn config(provider: Option<&str>, web_key: Option<&str>) -> Config {
    Config {
        database_url: "sqlite://x.db".to_string(),
        jwt_secret: "s".to_string(),
        listen_addr: "0.0.0.0:8080".to_string(),
        admin_username: "admin".to_string(),
        admin_password: "admin123".to_string(),
        cors_origin: "*".to_string(),
        routing_provider: provider.map(String::from),
        amap_web_key: web_key.map(String::from),
        amap_js_key: Some("  ".to_string()),
        amap_security_js_code: Some("code".to_string()),
    }
}

#[test]
fn travel_modes_are_read_exactly() {
    assert_eq!(TravelMode::from_str("driving"), Some(TravelMode::Driving));
    assert_eq!(TravelMode::from_str("walking"), Some(TravelMode::Walking));
    assert_eq!(TravelMode::from_str("cycling"), Some(TravelMode::Cycling));
    assert_eq!(TravelMode::from_str("Driving"), None);
    assert_eq!(TravelMode::from_str(" driving"), None);
    assert_eq!(TravelMode::from_str(""), None);
}

#[test]
fn provider_names_and_aliases() {
    for p in [ProviderKind::Gaode, ProviderKind::Embedded, ProviderKind::Opensource] {
        assert_eq!(ProviderKind::parse(p.as_str()), Some(p));
    }
    assert_eq!(ProviderKind::Gaode.as_str(), "gaode");
    assert_eq!(ProviderKind::Embedded.as_str(), "embedded");
    assert_eq!(ProviderKind::Opensource.as_str(), "opensource");
    assert_eq!(ProviderKind::parse(" AMAP\t"), Some(ProviderKind::Gaode));
    assert_eq!(ProviderKind::parse("Demo"), Some(ProviderKind::Embedded));
    assert_eq!(ProviderKind::parse("OSRM"), Some(ProviderKind::Opensource));
    assert_eq!(ProviderKind::parse("GraphHopper"), Some(ProviderKind::Opensource));
    assert_eq!(ProviderKind::parse("valhalla"), Some(ProviderKind::Opensource));
    assert_eq!(ProviderKind::parse("google"), None);
    assert_eq!(ProviderKind::parse(""), None);
}

#[test]
fn unset_provider_follows_the_web_key() {
    let s = RoutingService::from_config(&config(None, Some("KEY")));
    assert_eq!(s.active, ProviderKind::Gaode);
    assert_eq!(s.requested, ProviderKind::Gaode);
    assert_eq!(s.fallback_warning, None);
    let s = RoutingService::from_config(&config(None, None));
    assert_eq!(s.active, ProviderKind::Embedded);
    assert_eq!(s.requested, ProviderKind::Embedded);
    let s = RoutingService::from_config(&config(None, Some("   ")));
    assert_eq!(s.active, ProviderKind::Embedded);
    assert_eq!(s.amap_web_key, None);
}

#[test]
fn gaode_without_key_falls_back_with_a_warning() {
    let s = RoutingService::from_config(&config(Some("gaode"), None));
    assert_eq!(s.requested, ProviderKind::Gaode);
    assert_eq!(s.active, ProviderKind::Embedded);
    assert_eq!(
        s.fallback_warning.as_deref(),
        Some("ROUTING_PROVIDER=gaode 但未设置 AMAP_WEB_KEY，已回退 embedded")
    );
}

#[test]
fn named_and_unknown_providers() {
    let s = RoutingService::from_config(&config(Some("embedded"), Some("KEY")));
    assert_eq!(s.active, ProviderKind::Embedded);
    let s = RoutingService::from_config(&config(Some("opensource"), None));
    assert_eq!(s.active, ProviderKind::Opensource);
    let s = RoutingService::from_config(&config(Some("nonsense"), Some("KEY")));
    assert_eq!(s.requested, ProviderKind::Gaode);
    assert_eq!(s.active, ProviderKind::Gaode);
    assert_eq!(s.amap_web_key.as_deref(), Some("KEY"));
    assert_eq!(s.amap_js_key, None);
    assert_eq!(s.amap_security_js_code.as_deref(), Some("code"));
}

#[test]
fn crs_engine_and_backend_per_provider() {
    let g = RoutingService::from_config(&config(Some("gaode"), Some("KEY")));
    assert_eq!(g.crs(), "GCJ-02");
    assert_eq!(g.engine_label(), "amap-webservice-v5");
    assert!(matches!(g.route_backend(), Ok(RouteBackend::Gaode(k)) if k == "KEY"));
    assert_eq!(g.geocoder(), "amap");
    let e = RoutingService::from_config(&config(Some("embedded"), None));
    assert_eq!(e.crs(), "GCJ-02-demo");
    assert_eq!(e.engine_label(), "embedded-grid-astar");
    assert!(matches!(e.route_backend(), Ok(RouteBackend::Embedded)));
    assert_eq!(e.geocoder(), "nominatim");
    let o = RoutingService::from_config(&config(Some("opensource"), None));
    assert_eq!(o.crs(), "WGS84");
    assert_eq!(o.engine_label(), "opensource-stub");
    assert_eq!(
        o.route_backend().unwrap_err(),
        "开源路由引擎尚未配置（预留 GraphHopper/Valhalla，二期接入同一 RoutingProvider 接口）"
    );
}

#[test]
fn gaode_without_key_is_refused_when_built_by_hand() {
    let s = RoutingService {
        active: ProviderKind::Gaode,
        requested: ProviderKind::Gaode,
        fallback_warning: None,
        amap_web_key: None,
        amap_js_key: None,
        amap_security_js_code: None,
    };
    assert_eq!(s.route_backend().unwrap_err(), "未配置 AMAP_WEB_KEY");
    assert_eq!(s.geocoder(), "nominatim");
}

#[test]
fn metadata_texts_per_provider() {
    let g = RoutingService::from_config(&config(Some("gaode"), Some("KEY")));
    let l = g.limitations();
    assert_eq!(l.len(), 5);
    assert_eq!(l[0], "单次生效躲避点 ≤ 50");
    assert_eq!(l[2], "驾车：高德 avoidpolygons 原生避让 + Rust 校验");
    assert_eq!(g.region(), "全国（高德覆盖范围）");
    let e = RoutingService::from_config(&config(None, None));
    assert_eq!(e.limitations().len(), 3);
    assert_eq!(e.limitations()[2], "演示区域：杭州西湖附近网格，非全国真实道路");
    assert_eq!(e.region(), "杭州西湖演示路网");
    assert!(e.note().starts_with("内嵌演示路网"));
    let o = RoutingService::from_config(&config(Some("osrm"), None));
    assert_eq!(o.limitations()[2], "开源引擎未配置，规划将返回「未配置」错误");
    assert_eq!(o.region(), "未配置");
}

#[test]
fn opensource_route_is_always_refused() {
    let r: Result<u8, String> = map_stop_api::routing::opensource::route();
    assert!(r.unwrap_err().starts_with("开源路由引擎尚未配置"));
}

#[test]
fn upper_case_names_read_back() {
    for p in [ProviderKind::Gaode, ProviderKind::Embedded, ProviderKind::Opensource] {
        assert_eq!(ProviderKind::parse(&p.as_str().to_ascii_uppercase()), Some(p));
    }
}

#[test]
fn gaode_extra_parameters_for_driving_only() {
    assert_eq!(extra_params(TravelMode::Driving, 3), (true, true));
    assert_eq!(extra_params(TravelMode::Driving, 0), (true, false));
    assert_eq!(extra_params(TravelMode::Walking, 3), (false, false));
    assert_eq!(extra_params(TravelMode::Cycling, 0), (false, false));
}
