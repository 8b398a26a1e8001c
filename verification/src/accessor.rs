//! The scope-aware accessor builder: from a resolved capability, an
//! optional explicit namespace and the all-namespaces flag to the one
//! correctly scoped handle for the request.

use vstd::prelude::*;
use crate::catalog::{ResourceCapability, Scope};

verus! {

/// A capability-bound handle over one resource type: cluster-wide, pinned
/// to one explicit namespace, or pinned to the configured default
/// namespace. A cluster-scoped resource never carries a namespace filter.
pub enum ScopedAccessor {
    Cluster,
    Namespaced(String),
    DefaultNamespaced,
}

/// Builds the accessor for a resolved capability. First match wins:
/// a cluster-scoped capability or the all-namespaces flag forces the
/// cluster-wide accessor (any namespace argument is ignored, never an
/// error); otherwise an explicit namespace pins the accessor to it;
/// otherwise the accessor follows the caller's default namespace.
pub fn build_accessor(
    capability: &ResourceCapability,
    explicit_namespace: &Option<String>,
    all_flag: bool,
) -> (r: ScopedAccessor)
    ensures
        capability.scope == Scope::Cluster || all_flag ==> r == ScopedAccessor::Cluster,
        capability.scope == Scope::Namespaced && !all_flag ==> match explicit_namespace {
            Some(ns) => r matches ScopedAccessor::Namespaced(n) && n@ == ns@,
            None => r == ScopedAccessor::DefaultNamespaced,
        },
{
    if capability.scope == Scope::Cluster || all_flag {
        ScopedAccessor::Cluster
    } else {
        match explicit_namespace {
            Some(ns) => ScopedAccessor::Namespaced(ns.clone()),
            None => ScopedAccessor::DefaultNamespaced,
        }
    }
}

} // verus!
