use vstd::prelude::*;

verus! {

/// `chrono::Local::now`, written out: the local date and time of the call,
/// with the offset from UTC. Nothing is known of the text. Trusted.
#[verifier::external_body]
pub(crate) fn local_timestamp() -> (stamp: String) {
    chrono::Local::now().to_string()
}

} // verus!
