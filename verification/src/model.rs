//! The in-memory metadata model: a workspace, its packages and their build
//! targets, together with membership and mode queries that the generators
//! share. The model is built once per run and never mutated afterwards,
//! except for the one-time removal of synthetic helper-task packages from the
//! member set.
use vstd::prelude::*;

verus! {

/// A named, buildable unit of a package, tagged with one or more kinds
/// (such as "lib", "example" or "bin") from an open vocabulary.
pub struct Target {
    pub name: String,
    pub kinds: Vec<String>,
}

/// One package of the workspace: its unique identifier, display name,
/// version, optional project URLs, and its build targets.
pub struct Package {
    pub id: String,
    pub name: String,
    pub version: String,
    pub repository: Option<String>,
    pub documentation: Option<String>,
    pub homepage: Option<String>,
    pub targets: Vec<Target>,
}

/// The whole workspace: root directory, every package the metadata query
/// reported (members and dependencies alike), the identifiers of the member
/// packages, and the two workspace-level settings the generators consult.
pub struct Workspace {
    pub root: String,
    pub packages: Vec<Package>,
    pub members: Vec<String>,
    pub local_install: bool,
    pub simple: Option<bool>,
}

impl Workspace {
    /// Whether a package identifier is in the workspace's member set.
    pub open spec fn spec_is_member(self, id: Seq<char>) -> bool {
        exists|i: int| 0 <= i < self.members@.len() && self.members@[i]@ == id
    }

    /// The effective task-generation mode: the workspace-level flag when it
    /// is set, simple mode otherwise.
    pub open spec fn spec_simple(self) -> bool {
        match self.simple {
            Some(b) => b,
            None => true,
        }
    }

    /// How many of the reported packages are workspace members.
    pub open spec fn spec_member_package_count(self) -> nat {
        count_members(self.packages@, self)
    }

    /// Whether the workspace has at most one member package, in which case
    /// launch-entry names omit the package-name segment.
    pub open spec fn spec_single_member(self) -> bool {
        self.spec_member_package_count() <= 1
    }

    /// Membership test for a package identifier.
    pub fn is_member(&self, id: &String) -> (r: bool)
        ensures
            r == self.spec_is_member(id@),
    {
        let mut i: usize = 0;
        while i < self.members.len()
            invariant
                0 <= i <= self.members@.len(),
                forall|j: int| 0 <= j < i ==> self.members@[j]@ != id@,
            decreases self.members@.len() - i,
        {
            if crate::text::streq(&self.members[i], id.as_str()) {
                return true;
            }
            i = i + 1;
        }
        false
    }

    /// Counts the member packages, to decide name disambiguation.
    pub fn member_package_count(&self) -> (r: usize)
        ensures
            r == self.spec_member_package_count(),
    {
        let mut count: usize = 0;
        let mut i: usize = 0;
        while i < self.packages.len()
            invariant
                0 <= i <= self.packages@.len(),
                count == count_members(self.packages@.take(i as int), *self),
                count <= i,
            decreases self.packages@.len() - i,
        {
            if self.is_member(&self.packages[i].id) {
                count = count + 1;
            }
            proof {
                assert(self.packages@.take(i + 1).drop_last() =~= self.packages@.take(i as int));
                assert(self.packages@.take(i + 1).last() == self.packages@[i as int]);
            }
            i = i + 1;
        }
        proof {
            assert(self.packages@.take(self.packages@.len() as int) =~= self.packages@);
        }
        count
    }
}

/// How many packages of the sequence are members of the workspace.
pub open spec fn count_members(packages: Seq<Package>, ws: Workspace) -> nat
    decreases packages.len(),
{
    if packages.len() == 0 {
        0
    } else {
        count_members(packages.drop_last(), ws) + if ws.spec_is_member(
            packages.last().id@,
        ) {
            1nat
        } else {
            0nat
        }
    }
}

/// The target kinds that yield build and launch entries; every other kind is
/// skipped without error.
pub open spec fn is_launchable_kind(k: Seq<char>) -> bool {
    k == "example"@ || k == "bin"@
}

/// Whether the kind tag is one of the two recognized launchable kinds.
pub fn launchable_kind(k: &String) -> (r: bool)
    ensures
        r == is_launchable_kind(k@),
{
    crate::text::streq(k, "example") || crate::text::streq(k, "bin")
}

/// Whether any target of any reported package, member or not, carries a
/// launchable kind.
pub open spec fn spec_has_launchable(ws: Workspace) -> bool {
    exists|i: int, j: int, k: int|
        0 <= i < ws.packages@.len() && 0 <= j < ws.packages@[i].targets@.len() && 0 <= k
            < ws.packages@[i].targets@[j].kinds@.len() && is_launchable_kind(
            ws.packages@[i].targets@[j].kinds@[k]@,
        )
}

/// Scans every package and target for an example or binary target.
pub fn has_launchable_target(ws: &Workspace) -> (r: bool)
    ensures
        r == spec_has_launchable(*ws),
{
    let mut i: usize = 0;
    while i < ws.packages.len()
        invariant
            0 <= i <= ws.packages@.len(),
            forall|i0: int, j0: int, k0: int|
                0 <= i0 < i && 0 <= j0 < ws.packages@[i0].targets@.len() && 0 <= k0
                    < ws.packages@[i0].targets@[j0].kinds@.len() ==> !is_launchable_kind(
                    ws.packages@[i0].targets@[j0].kinds@[k0]@,
                ),
        decreases ws.packages@.len() - i,
    {
        let targets = &ws.packages[i].targets;
        let mut j: usize = 0;
        while j < targets.len()
            invariant
                0 <= j <= targets@.len(),
                targets@ == ws.packages@[i as int].targets@,
                i < ws.packages@.len(),
                forall|j0: int, k0: int|
                    0 <= j0 < j && 0 <= k0 < targets@[j0].kinds@.len() ==> !is_launchable_kind(
                        targets@[j0].kinds@[k0]@,
                    ),
            decreases targets@.len() - j,
        {
            let kinds = &targets[j].kinds;
            let mut k: usize = 0;
            while k < kinds.len()
                invariant
                    0 <= k <= kinds@.len(),
                    kinds@ == ws.packages@[i as int].targets@[j as int].kinds@,
                    i < ws.packages@.len(),
                    j < ws.packages@[i as int].targets@.len(),
                    forall|k0: int|
                        0 <= k0 < k ==> !is_launchable_kind(kinds@[k0]@),
                decreases kinds@.len() - k,
            {
                if launchable_kind(&kinds[k]) {
                    return true;
                }
                k = k + 1;
            }
            j = j + 1;
        }
        i = i + 1;
    }
    false
}

/// Identifiers of the synthetic helper-task packages that are removed from
/// the member set before generation.
pub open spec fn is_synthetic_member(id: Seq<char>) -> bool {
    id.len() >= 6 && id.take(6) == "xtask "@
}

/// Whether the identifier begins with the reserved helper-task prefix.
pub fn has_synthetic_prefix(id: &String) -> (r: bool)
    ensures
        r == is_synthetic_member(id@),
{
    proof {
        reveal_strlit("xtask ");
    }
    let p = crate::text::prefix_chars(id.as_str(), 6);
    if p.len() < 6 {
        proof {
            assert(!is_synthetic_member(id@));
        }
        return false;
    }
    let r = p[0] == 'x' && p[1] == 't' && p[2] == 'a' && p[3] == 's' && p[4] == 'k'
        && p[5] == ' ';
    proof {
        if r {
            assert(id@.take(6) =~= "xtask "@);
        } else {
            assert(id@.take(6) != "xtask "@);
        }
    }
    r
}

/// The member set with every synthetic helper-task identifier removed;
/// ordinary members are kept in order.
pub fn filter_synthetic_members(members: &Vec<String>) -> (r: Vec<String>)
    ensures
        r@ == members@.filter(|m: String| !is_synthetic_member(m@)),
{
    let mut r: Vec<String> = Vec::new();
    let mut i: usize = 0;
    while i < members.len()
        invariant
            0 <= i <= members@.len(),
            r@ == members@.take(i as int).filter(|m: String| !is_synthetic_member(m@)),
        decreases members@.len() - i,
    {
        let keep = !has_synthetic_prefix(&members[i]);
        if keep {
            r.push(members[i].clone());
        }
        proof {
            reveal(Seq::filter);
            assert(members@.take(i + 1).drop_last() =~= members@.take(i as int));
            assert(members@.take(i + 1).last() == members@[i as int]);
        }
        i = i + 1;
    }
    proof {
        assert(members@.take(members@.len() as int) =~= members@);
    }
    r
}

} // verus!
