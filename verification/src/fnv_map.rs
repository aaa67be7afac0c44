//! The device's resource tables: std `HashMap`s keyed by GL object name and
//! hashed with FNV, as the renderer has always kept them.
//!
//! vstd models `HashMap` only for hash builders that it knows to be
//! deterministic, and FNV's builder is not among them; so each map operation
//! the device uses is reached through a wrapper below that states what the
//! operation does to the map's contents.

use std::collections::HashMap;
use vstd::prelude::*;

verus! {

/// The FNV hasher of the `fnv` crate.
#[verifier::external_type_specification]
#[verifier::external_body]
pub struct ExFnvHasher(fnv::FnvHasher);

/// std's `BuildHasherDefault`, the builder behind `fnv::FnvBuildHasher`.
#[verifier::external_type_specification]
#[verifier::external_body]
#[verifier::reject_recursive_types(H)]
pub struct ExBuildHasherDefault<H>(std::hash::BuildHasherDefault<H>);

/// A table from GL object names to what the device knows of them.
pub type FnvMap<V> = HashMap<u32, V, fnv::FnvBuildHasher>;

/// Calls `<HashMap<u32, V, FnvBuildHasher> as Default>::default`, which
/// makes an empty map.
#[verifier::external_body]
pub(crate) fn fnv_map_new<V>() -> (r: HashMap<u32, V, fnv::FnvBuildHasher>)
    ensures
        r@.dom() == Set::<u32>::empty(),
{
    HashMap::default()
}

/// Calls `HashMap::insert` on an FNV-hashed map: afterwards `k` maps to `v`
/// and every other key keeps its value. (The displaced value, if any, is
/// dropped.)
#[verifier::external_body]
pub(crate) fn fnv_map_insert<V>(m: &mut FnvMap<V>, k: u32, v: V)
    ensures
        final(m)@ == old(m)@.insert(k, v),
{
    m.insert(k, v);
}

/// Calls `HashMap::get` on an FNV-hashed map: the value stored under `k`,
/// or `None` when `k` has none.
#[verifier::external_body]
pub(crate) fn fnv_map_get<V>(m: &FnvMap<V>, k: u32) -> (r: Option<&V>)
    ensures
        match r {
            Some(v) => m@.contains_key(k) && *v == m@[k],
            None => !m@.contains_key(k),
        },
{
    m.get(&k)
}

/// Calls `HashMap::remove` on an FNV-hashed map: `k` leaves the map and its
/// value, if it had one, is handed back.
#[verifier::external_body]
pub(crate) fn fnv_map_remove<V>(m: &mut FnvMap<V>, k: u32) -> (r: Option<V>)
    ensures
        final(m)@ == old(m)@.remove(k),
        match r {
            Some(v) => old(m)@.contains_key(k) && v == old(m)@[k],
            None => !old(m)@.contains_key(k),
        },
{
    m.remove(&k)
}

/// Calls `HashMap::keys` on an FNV-hashed map and collects the keys: each
/// key of the map exactly once, in the map's (unspecified) iteration order.
#[verifier::external_body]
pub(crate) fn fnv_map_keys<V>(m: &FnvMap<V>) -> (r: Vec<u32>)
    ensures
        r@.no_duplicates(),
        r@.to_set() == m@.dom(),
{
    m.keys().copied().collect()
}

} // verus!
