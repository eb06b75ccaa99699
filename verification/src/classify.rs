//! Destination classification: which routing domain a host name belongs to.

use vstd::prelude::*;
use crate::ascii::ends_with_ignore_ascii_case;
use crate::ascii::eq_ignore_ascii_case;
use crate::ascii::lemma_eq_ignore_ascii_case_is_equivalence;
use crate::ascii::lemma_tails_eq_ignore_ascii_case;
use crate::ascii::str_ends_with_ignore_ascii_case;
use crate::ascii::tail_of;

verus! {

/// Where a connection is to be made.
#[derive(Clone, Copy, Debug, PartialEq, Eq, Structural)]
pub enum RoutingDomain {
    /// Through the anonymizing overlay network.
    Overlay,
    /// Directly, over the public network.
    Clearnet,
}

/// The suffix of the overlay network's private name space.
pub const ONION_SUFFIX: &'static str = ".onion";

/// `ONION_SUFFIX` as a sequence of characters.
pub open spec fn onion_suffix() -> Seq<char> {
    seq!['.', 'o', 'n', 'i', 'o', 'n']
}

/// A host name that lies in the overlay's private name space: it ends with
/// the reserved suffix, in any mix of upper and lower case.
pub open spec fn is_onion_host(host: Seq<char>) -> bool {
    ends_with_ignore_ascii_case(host, onion_suffix())
}

/// The routing domain of a host name.
pub open spec fn spec_classify(host: Seq<char>) -> RoutingDomain {
    if is_onion_host(host) {
        RoutingDomain::Overlay
    } else {
        RoutingDomain::Clearnet
    }
}

/// Classifies a host name. Every string has a domain; the empty one is `Clearnet`.
pub fn classify(host: &str) -> (domain: RoutingDomain)
    ensures
        domain == spec_classify(host@),
        domain == RoutingDomain::Overlay <==> is_onion_host(host@),
        host@.len() == 0 ==> domain == RoutingDomain::Clearnet,
{
    proof {
        reveal_strlit(".onion");
        assert(ONION_SUFFIX@ =~= onion_suffix());
    }
    if str_ends_with_ignore_ascii_case(host, ONION_SUFFIX) {
        RoutingDomain::Overlay
    } else {
        RoutingDomain::Clearnet
    }
}

/// The empty host is no overlay host.
pub proof fn lemma_empty_host_is_clearnet()
    ensures
        !is_onion_host(Seq::<char>::empty()),
        spec_classify(Seq::<char>::empty()) == RoutingDomain::Clearnet,
{
}

/// Classification does not depend on the case of ASCII letters: two host
/// names that differ only in case have the same domain.
pub proof fn lemma_classify_ignores_ascii_case(a: Seq<char>, b: Seq<char>)
    requires
        eq_ignore_ascii_case(a, b),
    ensures
        spec_classify(a) == spec_classify(b),
{
    let suffix = onion_suffix();
    if suffix.len() <= a.len() {
        let ta = tail_of(a, suffix);
        let tb = tail_of(b, suffix);
        lemma_tails_eq_ignore_ascii_case(a, b, suffix);
        lemma_eq_ignore_ascii_case_is_equivalence(ta, tb, suffix);
        lemma_eq_ignore_ascii_case_is_equivalence(tb, ta, suffix);
    }
}

} // verus!
