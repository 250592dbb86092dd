//! The name of the host that is measured.

use vstd::prelude::*;

verus! {

/// The node name of this host, from `psutil::host::info`.
///
/// Nothing is claimed of the value: it is what the operating system
/// reports, and empty where that is no UTF-8. `psutil` does not return where
/// the operating system refuses to describe itself.
#[verifier::external_body]
fn host_node_name() -> (name: String) {
    psutil::host::info().hostname().to_string()
}

/// The name under which this host reports itself.
pub fn get_hostname() -> (name: String) {
    host_node_name()
}

} // verus!
