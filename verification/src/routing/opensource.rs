//! The self-hosted open-source routing engine, not yet configured.
use vstd::prelude::*;

verus! {

/// The message returned while no open-source engine is configured.
pub open spec fn unconfigured_message() -> Seq<char> {
    "开源路由引擎尚未配置（预留 GraphHopper/Valhalla，二期接入同一 RoutingProvider 接口）"@
}

/// Plans a route with the open-source engine: always refused, with the
/// "not configured" message, whatever the request.
pub fn route<T>() -> (r: Result<T, String>)
    ensures
        r matches Err(m) && m@ == unconfigured_message(),
{
    Err("开源路由引擎尚未配置（预留 GraphHopper/Valhalla，二期接入同一 RoutingProvider 接口）".to_owned())
}

} // verus!
