//! Detection of whether the client itself runs on the managed board.
//!
//! The decision reads two facts about the host — whether the operating
//! system is Linux and what the device-tree model string says — and is
//! verified here over those plain values.  Reading the device-tree file and
//! the OS name is I/O and stays with the surrounding program.

use vstd::prelude::*;

verus! {

/// `p` is an initial segment of `s`.
pub open spec fn is_prefix_of(p: Seq<char>, s: Seq<char>) -> bool {
    p.len() <= s.len() && p == s.subrange(0, p.len() as int)
}

/// Character-by-character prefix test on string slices.
pub fn str_starts_with(s: &str, prefix: &str) -> (r: bool)
    ensures
        r == is_prefix_of(prefix@, s@),
{
    let plen = prefix.unicode_len();
    let slen = s.unicode_len();
    if plen > slen {
        assert(!is_prefix_of(prefix@, s@));
        return false;
    }
    let mut i: usize = 0;
    while i < plen
        invariant
            0 <= i <= plen,
            plen == prefix@.len(),
            slen == s@.len(),
            plen <= slen,
            forall|j: int| 0 <= j < i ==> s@[j] == prefix@[j],
        decreases plen - i,
    {
        if s.get_char(i) != prefix.get_char(i) {
            assert(s@.subrange(0, plen as int)[i as int] != prefix@[i as int]);
            return false;
        }
        i += 1;
    }
    assert(prefix@ =~= s@.subrange(0, plen as int));
    true
}

/// The model string a Turing Pi baseboard reports in its device tree.
pub open spec fn tpi_model_prefix() -> Seq<char> {
    "Turing Pi"@
}

/// Decides whether the client is running on the managed board itself,
/// given the host's OS kind and the device-tree model string.
pub fn is_running_on_tpi_bmc(os_is_linux: bool, device_tree_model: &str) -> (r: bool)
    ensures
        r == (os_is_linux && is_prefix_of(tpi_model_prefix(), device_tree_model@)),
{
    os_is_linux && str_starts_with(device_tree_model, "Turing Pi")
}

} // verus!
