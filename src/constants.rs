use vstd::prelude::*;

verus! {

/// The version string reported by the service: `<version>-<commit>` when both
/// parts are known, and the empty string otherwise.
pub open spec fn full_version_of(version: Option<Seq<char>>, commit: Option<Seq<char>>) -> Seq<char> {
    match (version, commit) {
        (Some(v), Some(g)) => v + seq!['-'] + g,
        _ => Seq::empty(),
    }
}

/// Joins the release version and the commit hash that the build recorded.
pub fn full_version(version: Option<&str>, commit: Option<&str>) -> (r: String)
    ensures
        r@ == full_version_of(
            match version { Some(v) => Some(v@), None => None },
            match commit { Some(g) => Some(g@), None => None },
        ),
{
    match (version, commit) {
        (Some(v), Some(g)) => {
            let mut s = String::from_str(v);
            s.append("-");
            s.append(g);
            proof {
                reveal_strlit("-");
            }
            s
        },
        _ => String::new(),
    }
}

} // verus!
