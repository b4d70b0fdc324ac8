//! The metric namespace of a scope.

use vstd::prelude::*;
use crate::text::{join3, text_of};
use vstd::string::StringExecFns;

verus! {

/// The namespace of a scope under the root namespace `root`: `root` itself
/// for the enterprise, `root.team.<slug>` for a team.
pub open spec fn namespace_of(root: Seq<char>, team_slug: Option<Seq<char>>) -> Seq<char> {
    match team_slug {
        Some(slug) => root + ".team."@ + slug,
        None => root,
    }
}

/// Computes the namespace of a scope: the enterprise where no team is given,
/// else the team.
pub fn resolve_namespace(root: &str, team_slug: Option<&str>) -> (namespace: String)
    ensures
        namespace@ == namespace_of(root@, text_of(team_slug)),
{
    match team_slug {
        Some(slug) => join3(root, ".team.", slug),
        None => String::from_str(root),
    }
}

/// Under one root namespace, two teams have the same namespace only if they
/// have the same slug.
pub proof fn lemma_team_namespaces_differ(root: Seq<char>, first: Seq<char>, second: Seq<char>)
    requires
        namespace_of(root, Some(first)) == namespace_of(root, Some(second)),
    ensures
        first == second,
{
    let head = root + ".team."@;
    assert((head + first).len() == (head + second).len());
    assert forall|i: int| 0 <= i < first.len() implies first[i] == second[i] by {
        assert((head + first)[head.len() + i] == first[i]);
        assert((head + second)[head.len() + i] == second[i]);
    }
    assert(first =~= second);
}

} // verus!
