//! Routing providers: which one serves `/plan`, how a request reaches it, and
//! what the service reports about it.
pub mod gaode;
pub mod opensource;

use vstd::prelude::*;
use crate::config::{non_blank, opt_view, spec_non_blank, Config};
use crate::text::{is_blank, lower_seq, str_eq, to_ascii_lowercase, trim, trimmed, upper_seq};

verus! {

/// How the route is travelled.
#[derive(Clone, Copy, Debug, PartialEq, Eq, Structural)]
pub enum TravelMode {
    Driving,
    Walking,
    Cycling,
}

/// The travel mode named by `s`, if any.
pub open spec fn spec_travel_mode(s: Seq<char>) -> Option<TravelMode> {
    if s == "driving"@ {
        Some(TravelMode::Driving)
    } else if s == "walking"@ {
        Some(TravelMode::Walking)
    } else if s == "cycling"@ {
        Some(TravelMode::Cycling)
    } else {
        None
    }
}

impl TravelMode {
    /// Reads `driving`, `walking` or `cycling` (exactly, case included).
    pub fn from_str(s: &str) -> (r: Option<TravelMode>)
        ensures
            r == spec_travel_mode(s@),
    {
        if str_eq(s, "driving") {
            Some(TravelMode::Driving)
        } else if str_eq(s, "walking") {
            Some(TravelMode::Walking)
        } else if str_eq(s, "cycling") {
            Some(TravelMode::Cycling)
        } else {
            None
        }
    }
}

/// A routing provider.
#[derive(Clone, Copy, Debug, PartialEq, Eq, Structural)]
pub enum ProviderKind {
    Gaode,
    Embedded,
    Opensource,
}

/// The name of a provider.
pub open spec fn spec_provider_name(p: ProviderKind) -> Seq<char> {
    match p {
        ProviderKind::Gaode => "gaode"@,
        ProviderKind::Embedded => "embedded"@,
        ProviderKind::Opensource => "opensource"@,
    }
}

/// The provider that a trimmed, lower-cased name or alias stands for.
pub open spec fn provider_of_key(k: Seq<char>) -> Option<ProviderKind> {
    if k == "gaode"@ || k == "amap"@ {
        Some(ProviderKind::Gaode)
    } else if k == "embedded"@ || k == "demo"@ {
        Some(ProviderKind::Embedded)
    } else if k == "opensource"@ || k == "osrm"@ || k == "graphhopper"@ || k == "valhalla"@ {
        Some(ProviderKind::Opensource)
    } else {
        None
    }
}

/// The provider named by `s`, ignoring surrounding whitespace and ASCII case.
pub open spec fn spec_provider_parse(s: Seq<char>) -> Option<ProviderKind> {
    provider_of_key(lower_seq(trimmed(s)))
}

impl ProviderKind {
    /// The provider's name.
    pub fn as_str(self) -> (r: &'static str)
        ensures
            r@ == spec_provider_name(self),
    {
        match self {
            ProviderKind::Gaode => "gaode",
            ProviderKind::Embedded => "embedded",
            ProviderKind::Opensource => "opensource",
        }
    }

    /// Reads a provider name or alias: `gaode`/`amap`, `embedded`/`demo`,
    /// `opensource`/`osrm`/`graphhopper`/`valhalla`, ignoring surrounding
    /// whitespace and ASCII case.
    pub fn parse(s: &str) -> (r: Option<ProviderKind>)
        ensures
            r == spec_provider_parse(s@),
    {
        let k = to_ascii_lowercase(trim(s));
        let k = k.as_str();
        if str_eq(k, "gaode") || str_eq(k, "amap") {
            Some(ProviderKind::Gaode)
        } else if str_eq(k, "embedded") || str_eq(k, "demo") {
            Some(ProviderKind::Embedded)
        } else if str_eq(k, "opensource") || str_eq(k, "osrm") || str_eq(k, "graphhopper") || str_eq(
            k,
            "valhalla",
        ) {
            Some(ProviderKind::Opensource)
        } else {
            None
        }
    }
}

/// Whether the configuration holds a Gaode web key that is not blank.
pub open spec fn has_web_key(cfg: Config) -> bool {
    spec_non_blank(opt_view(cfg.amap_web_key)) is Some
}

/// The provider chosen when none is named: Gaode with a key, else embedded.
pub open spec fn auto_provider(has_key: bool) -> ProviderKind {
    if has_key {
        ProviderKind::Gaode
    } else {
        ProviderKind::Embedded
    }
}

/// The provider that the configuration asks for; an unknown name counts as
/// none.
pub open spec fn requested_spec(cfg: Config) -> ProviderKind {
    match cfg.routing_provider {
        Some(s) => match spec_provider_parse(s@) {
            Some(p) => p,
            None => auto_provider(has_web_key(cfg)),
        },
        None => auto_provider(has_web_key(cfg)),
    }
}

/// Whether Gaode is asked for without a key, so that embedded serves instead.
pub open spec fn falls_back(cfg: Config) -> bool {
    requested_spec(cfg) == ProviderKind::Gaode && !has_web_key(cfg)
}

/// The provider that serves route requests.
pub open spec fn active_spec(cfg: Config) -> ProviderKind {
    if falls_back(cfg) {
        ProviderKind::Embedded
    } else {
        requested_spec(cfg)
    }
}

/// The warning given when Gaode falls back to embedded.
pub open spec fn fallback_message() -> Seq<char> {
    "ROUTING_PROVIDER=gaode 但未设置 AMAP_WEB_KEY，已回退 embedded"@
}

/// The routing choice of the service and the keys it hands to the front end.
#[derive(Debug)]
pub struct RoutingService {
    /// The provider used for `/plan`.
    pub active: ProviderKind,
    /// The provider the configuration asked for (differs after a fallback).
    pub requested: ProviderKind,
    pub fallback_warning: Option<String>,
    pub amap_web_key: Option<String>,
    /// Gaode JS API key for the front end.
    pub amap_js_key: Option<String>,
    pub amap_security_js_code: Option<String>,
}

fn clone_opt(v: &Option<String>) -> (r: Option<String>)
    ensures
        opt_view(r) == opt_view(*v),
{
    match v {
        Some(s) => Some(s.clone()),
        None => None,
    }
}

/// Where a route request goes.
#[derive(Debug)]
pub enum RouteBackend {
    /// The embedded demo road graph.
    Embedded,
    /// Gaode's web service, with this key.
    Gaode(String),
}

impl RoutingService {
    /// Chooses the provider: the one named by `routing_provider` (unknown or
    /// unset: Gaode when a non-blank web key is configured, else embedded),
    /// except that Gaode without a key falls back to embedded with a warning.
    /// Blank keys are dropped.
    pub fn from_config(cfg: &Config) -> (r: RoutingService)
        ensures
            r.requested == requested_spec(*cfg),
            r.active == active_spec(*cfg),
            opt_view(r.fallback_warning) == (if falls_back(*cfg) {
                Some(fallback_message())
            } else {
                None
            }),
            opt_view(r.amap_web_key) == spec_non_blank(opt_view(cfg.amap_web_key)),
            opt_view(r.amap_js_key) == spec_non_blank(opt_view(cfg.amap_js_key)),
            opt_view(r.amap_security_js_code) == spec_non_blank(opt_view(cfg.amap_security_js_code)),
    {
        let has_web_key = match &cfg.amap_web_key {
            Some(k) => !is_blank(k.as_str()),
            None => false,
        };
        let auto = if has_web_key {
            ProviderKind::Gaode
        } else {
            ProviderKind::Embedded
        };
        let requested = match &cfg.routing_provider {
            Some(s) => match ProviderKind::parse(s.as_str()) {
                Some(p) => p,
                None => auto,
            },
            None => auto,
        };
        let (active, fallback_warning) = if requested == ProviderKind::Gaode && !has_web_key {
            (
                ProviderKind::Embedded,
                Some("ROUTING_PROVIDER=gaode 但未设置 AMAP_WEB_KEY，已回退 embedded".to_owned()),
            )
        } else {
            (requested, None)
        };
        RoutingService {
            active,
            requested,
            fallback_warning,
            amap_web_key: non_blank(clone_opt(&cfg.amap_web_key)),
            amap_js_key: non_blank(clone_opt(&cfg.amap_js_key)),
            amap_security_js_code: non_blank(clone_opt(&cfg.amap_security_js_code)),
        }
    }

    /// The coordinate reference system of the active provider.
    pub fn crs(&self) -> (r: &'static str)
        ensures
            r@ == spec_crs(self.active),
    {
        match self.active {
            ProviderKind::Gaode => "GCJ-02",
            ProviderKind::Embedded => "GCJ-02-demo",
            ProviderKind::Opensource => "WGS84",
        }
    }

    /// The label of the active routing engine.
    pub fn engine_label(&self) -> (r: &'static str)
        ensures
            r@ == spec_engine_label(self.active),
    {
        match self.active {
            ProviderKind::Gaode => "amap-webservice-v5",
            ProviderKind::Embedded => "embedded-grid-astar",
            ProviderKind::Opensource => "opensource-stub",
        }
    }

    /// Where a route request goes: the embedded graph, Gaode with the web key
    /// (refused when no key is set), or the open-source engine (refused).
    pub fn route_backend(&self) -> (r: Result<RouteBackend, String>)
        ensures
            self.active == ProviderKind::Embedded ==> r matches Ok(RouteBackend::Embedded),
            self.active == ProviderKind::Gaode ==> match self.amap_web_key {
                Some(k) => r matches Ok(RouteBackend::Gaode(key)) && key@ == k@,
                None => r matches Err(m) && m@ == "未配置 AMAP_WEB_KEY"@,
            },
            self.active == ProviderKind::Opensource ==> (r matches Err(m) && m@
                == opensource::unconfigured_message()),
    {
        match self.active {
            ProviderKind::Embedded => Ok(RouteBackend::Embedded),
            ProviderKind::Gaode => match &self.amap_web_key {
                Some(k) => Ok(RouteBackend::Gaode(k.clone())),
                None => Err("未配置 AMAP_WEB_KEY".to_owned()),
            },
            ProviderKind::Opensource => opensource::route(),
        }
    }
}

/// The coordinate reference system of a provider.
pub open spec fn spec_crs(p: ProviderKind) -> Seq<char> {
    match p {
        ProviderKind::Gaode => "GCJ-02"@,
        ProviderKind::Embedded => "GCJ-02-demo"@,
        ProviderKind::Opensource => "WGS84"@,
    }
}

/// The engine label of a provider.
pub open spec fn spec_engine_label(p: ProviderKind) -> Seq<char> {
    match p {
        ProviderKind::Gaode => "amap-webservice-v5"@,
        ProviderKind::Embedded => "embedded-grid-astar"@,
        ProviderKind::Opensource => "opensource-stub"@,
    }
}


/// The limitations the service reports for a provider.
pub open spec fn spec_limitations(p: ProviderKind) -> Seq<Seq<char>> {
    let common = seq!["单次生效躲避点 ≤ 50"@, "服务端对所有 provider 做折线硬避开二次校验"@];
    match p {
        ProviderKind::Gaode => common + seq![
            "驾车：高德 avoidpolygons 原生避让 + Rust 校验"@,
            "步行/骑行：高德 API 无 avoidpolygons，仅 Rust 硬校验（穿行则失败）"@,
            "坐标系 GCJ-02；请使用高德地图点选，勿混用未转换的 WGS84"@,
        ],
        ProviderKind::Embedded => common.push("演示区域：杭州西湖附近网格，非全国真实道路"@),
        ProviderKind::Opensource => common.push("开源引擎未配置，规划将返回「未配置」错误"@),
    }
}

/// The geocoder used: Gaode's when Gaode is active with a key, else Nominatim.
pub open spec fn spec_geocoder(active: ProviderKind, has_key: bool) -> Seq<char> {
    if active == ProviderKind::Gaode && has_key {
        "amap"@
    } else {
        "nominatim"@
    }
}

/// The region a provider covers.
pub open spec fn spec_region(p: ProviderKind) -> Seq<char> {
    match p {
        ProviderKind::Gaode => "全国（高德覆盖范围）"@,
        ProviderKind::Embedded => "杭州西湖演示路网"@,
        ProviderKind::Opensource => "未配置"@,
    }
}

/// The note shown for a provider.
pub open spec fn spec_note(p: ProviderKind) -> Seq<char> {
    match p {
        ProviderKind::Gaode => "v1 使用高德 Web 服务算路；坐标 GCJ-02。二期可切换 ROUTING_PROVIDER=opensource 自托管。"@,
        ProviderKind::Embedded => "内嵌演示路网；设置 AMAP_WEB_KEY 并 ROUTING_PROVIDER=gaode 可切换高德。"@,
        ProviderKind::Opensource => "开源路由接口已预留，请配置自托管引擎后实现 opensource provider。"@,
    }
}

impl RoutingService {
    /// The limitations reported in the routing metadata.
    pub fn limitations(&self) -> (v: Vec<String>)
        ensures
            v@.map_values(|s: String| s@) == spec_limitations(self.active),
    {
        let mut v: Vec<String> = Vec::new();
        v.push("单次生效躲避点 ≤ 50".to_owned());
        v.push("服务端对所有 provider 做折线硬避开二次校验".to_owned());
        match self.active {
            ProviderKind::Gaode => {
                v.push("驾车：高德 avoidpolygons 原生避让 + Rust 校验".to_owned());
                v.push("步行/骑行：高德 API 无 avoidpolygons，仅 Rust 硬校验（穿行则失败）".to_owned());
                v.push("坐标系 GCJ-02；请使用高德地图点选，勿混用未转换的 WGS84".to_owned());
            },
            ProviderKind::Embedded => {
                v.push("演示区域：杭州西湖附近网格，非全国真实道路".to_owned());
            },
            ProviderKind::Opensource => {
                v.push("开源引擎未配置，规划将返回「未配置」错误".to_owned());
            },
        }
        assert(v@.map_values(|s: String| s@) =~= spec_limitations(self.active));
        v
    }

    /// The geocoder the front end should expect.
    pub fn geocoder(&self) -> (r: &'static str)
        ensures
            r@ == spec_geocoder(self.active, self.amap_web_key is Some),
            self.active != ProviderKind::Gaode ==> r@ == "nominatim"@,
            self.amap_web_key is None ==> r@ == "nominatim"@,
            self.active == ProviderKind::Gaode && self.amap_web_key is Some ==> r@ == "amap"@,
    {
        if self.active == ProviderKind::Gaode && self.amap_web_key.is_some() {
            "amap"
        } else {
            "nominatim"
        }
    }

    /// The region the active provider covers.
    pub fn region(&self) -> (r: &'static str)
        ensures
            r@ == spec_region(self.active),
    {
        match self.active {
            ProviderKind::Gaode => "全国（高德覆盖范围）",
            ProviderKind::Embedded => "杭州西湖演示路网",
            ProviderKind::Opensource => "未配置",
        }
    }

    /// The note reported for the active provider.
    pub fn note(&self) -> (r: &'static str)
        ensures
            r@ == spec_note(self.active),
    {
        match self.active {
            ProviderKind::Gaode => "v1 使用高德 Web 服务算路；坐标 GCJ-02。二期可切换 ROUTING_PROVIDER=opensource 自托管。",
            ProviderKind::Embedded => "内嵌演示路网；设置 AMAP_WEB_KEY 并 ROUTING_PROVIDER=gaode 可切换高德。",
            ProviderKind::Opensource => "开源路由接口已预留，请配置自托管引擎后实现 opensource provider。",
        }
    }
}

/// Nominatim is the geocoder whenever Gaode is not the active provider,
/// whatever keys are set; Gaode's geocoder is used exactly when Gaode is active
/// with a key. For a service built from a configuration, that is exactly when
/// Gaode is the active provider.
pub proof fn lemma_geocoder_follows_active_provider(active: ProviderKind, has_key: bool, cfg: Config)
    ensures
        active != ProviderKind::Gaode ==> spec_geocoder(active, has_key) == "nominatim"@,
        !has_key ==> spec_geocoder(active, has_key) == "nominatim"@,
        active == ProviderKind::Gaode && has_key ==> spec_geocoder(active, has_key) == "amap"@,
        (spec_geocoder(active_spec(cfg), spec_non_blank(opt_view(cfg.amap_web_key)) is Some)
            == "amap"@) <==> active_spec(cfg) == ProviderKind::Gaode,
{
    reveal_strlit("amap");
    reveal_strlit("nominatim");
    lemma_gaode_only_with_key(cfg);
    assert("amap"@.len() != "nominatim"@.len());
}

/// Gaode serves routes only when a non-blank web key is configured, so a
/// service built from any configuration never refuses a Gaode route for a
/// missing key.
pub proof fn lemma_gaode_only_with_key(cfg: Config)
    ensures
        active_spec(cfg) == ProviderKind::Gaode ==> spec_non_blank(opt_view(cfg.amap_web_key)) is Some,
{
}

/// With no provider named, Gaode serves exactly when a web key is set, and
/// nothing falls back.
pub proof fn lemma_unset_provider_follows_key(cfg: Config)
    requires
        cfg.routing_provider is None,
    ensures
        !falls_back(cfg),
        active_spec(cfg) == requested_spec(cfg),
        active_spec(cfg) == ProviderKind::Gaode <==> has_web_key(cfg),
        active_spec(cfg) == ProviderKind::Embedded <==> !has_web_key(cfg),
{
}

/// A provider named explicitly is the one that serves, unless it is Gaode
/// without a key, which falls back to embedded.
pub proof fn lemma_named_provider_serves(cfg: Config, p: ProviderKind)
    requires
        cfg.routing_provider matches Some(s) && spec_provider_parse(s@) == Some(p),
    ensures
        requested_spec(cfg) == p,
        active_spec(cfg) == (if p == ProviderKind::Gaode && !has_web_key(cfg) {
            ProviderKind::Embedded
        } else {
            p
        }),
{
}

proof fn lemma_plain_name(s: Seq<char>)
    requires
        s.len() > 0,
        forall|i: int| 0 <= i < s.len() ==> 'a' <= #[trigger] s[i] <= 'z',
    ensures
        lower_seq(trimmed(s)) == s,
{
    assert(!crate::text::is_ws(s[0]));
    assert(!crate::text::is_ws(s.last()));
    assert(crate::text::trim_start(s) == s);
    assert(crate::text::trim_end(s) == s);
    assert(lower_seq(s) =~= s);
}

/// Reading a provider's name gives the provider back.
pub proof fn lemma_provider_name_round_trip(p: ProviderKind)
    ensures
        spec_provider_parse(spec_provider_name(p)) == Some(p),
{
    reveal_strlit("gaode");
    reveal_strlit("amap");
    reveal_strlit("embedded");
    reveal_strlit("demo");
    reveal_strlit("opensource");
    reveal_strlit("osrm");
    reveal_strlit("graphhopper");
    reveal_strlit("valhalla");
    lemma_plain_name(spec_provider_name(p));
    match p {
        ProviderKind::Gaode => {},
        ProviderKind::Embedded => {
            assert("embedded"@ != "gaode"@);
            assert("embedded"@ != "amap"@);
        },
        ProviderKind::Opensource => {
            assert("opensource"@ != "gaode"@);
            assert("opensource"@ != "amap"@);
            assert("opensource"@ != "embedded"@);
            assert("opensource"@ != "demo"@);
        },
    }
}


proof fn lemma_upper_name(s: Seq<char>)
    requires
        s.len() > 0,
        forall|i: int| 0 <= i < s.len() ==> 'a' <= #[trigger] s[i] <= 'z',
    ensures
        lower_seq(trimmed(upper_seq(s))) == s,
{
    let u = upper_seq(s);
    assert(forall|i: int| 0 <= i < u.len() ==> 'A' <= #[trigger] u[i] <= 'Z');
    assert(!crate::text::is_ws(u[0]));
    assert(!crate::text::is_ws(u.last()));
    assert(crate::text::trim_start(u) == u);
    assert(crate::text::trim_end(u) == u);
    assert(lower_seq(u) =~= s);
}

/// Reading a provider's name in upper case gives the provider back.
pub proof fn lemma_provider_upper_name_round_trip(p: ProviderKind)
    ensures
        spec_provider_parse(upper_seq(spec_provider_name(p))) == Some(p),
{
    reveal_strlit("gaode");
    reveal_strlit("amap");
    reveal_strlit("embedded");
    reveal_strlit("demo");
    reveal_strlit("opensource");
    reveal_strlit("osrm");
    reveal_strlit("graphhopper");
    reveal_strlit("valhalla");
    lemma_upper_name(spec_provider_name(p));
    match p {
        ProviderKind::Gaode => {},
        ProviderKind::Embedded => {
            assert("embedded"@ != "gaode"@);
            assert("embedded"@ != "amap"@);
        },
        ProviderKind::Opensource => {
            assert("opensource"@ != "gaode"@);
            assert("opensource"@ != "amap"@);
            assert("opensource"@ != "embedded"@);
            assert("opensource"@ != "demo"@);
        },
    }
}

} // verus!
