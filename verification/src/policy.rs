//! The package exclusion policy: two host-intrinsic interfaces are never
//! routed over the lattice and are excluded from import stubs, dispatch arms
//! and subject entries regardless of any allow/deny configuration.

use vstd::prelude::*;
use crate::table::str_eq;

verus! {

/// Whether a package is host-intrinsic: the bus-control package or the
/// generic I/O package.
pub open spec fn is_ignored_pkg_spec(ns: Seq<char>, pkg: Seq<char>) -> bool {
    (ns == "wasmcloud"@ && pkg == "bus"@) || (ns == "wasi"@ && pkg == "io"@)
}

/// Checks whether a package should not take part in lattice binding
/// generation.
pub fn is_ignored_invocation_handler_pkg(ns: &str, pkg: &str) -> (r: bool)
    ensures
        r == is_ignored_pkg_spec(ns@, pkg@),
{
    (str_eq(ns, "wasmcloud") && str_eq(pkg, "bus")) || (str_eq(ns, "wasi") && str_eq(pkg, "io"))
}

} // verus!
