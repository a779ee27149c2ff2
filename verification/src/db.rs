//! Decisions of the database start-up: when the administrator and the demo
//! points are seeded.
use vstd::prelude::*;

verus! {

/// Whether the administrator account is created: only when no user has the
/// configured administrator name, whatever other administrators exist.
pub fn admin_seed_needed(admin_or_name_exists: bool, name_taken: bool) -> (b: bool)
    ensures
        b == !name_taken,
{
    if admin_or_name_exists && name_taken {
        return false;
    }
    !name_taken
}

/// Whether the demo avoid points are inserted: only into an empty table.
pub fn demo_seed_needed(system_point_count: i64) -> (b: bool)
    ensures
        b == (system_point_count <= 0),
{
    !(system_point_count > 0)
}

} // verus!
