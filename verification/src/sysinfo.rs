use vstd::prelude::*;

verus! {

/// The exact text the system-info command reports for a given operating
/// system identifier and CPU architecture identifier.
pub open spec fn spec_system_info(os: Seq<char>, arch: Seq<char>) -> Seq<char> {
    "OS: "@ + os + ", Arch: "@ + arch
}

/// Render the host's identity. The caller supplies the platform's
/// operating-system and architecture identifiers; the result is a pure
/// function of those two values, in exactly the form
/// `"OS: <os>, Arch: <arch>"`.
pub fn get_system_info(os: &str, arch: &str) -> (r: String)
    ensures
        r@ == spec_system_info(os@, arch@),
{
    let mut out = String::from_str("OS: ");
    out.append(os);
    out.append(", Arch: ");
    out.append(arch);
    out
}

} // verus!
