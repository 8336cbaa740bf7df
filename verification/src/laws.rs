//! Laws of the generators, stated and proved once for every workspace: the
//! idempotence of generation under the overwrite guard, that non-member
//! packages contribute nothing, and that unrecognized target kinds are
//! skipped.
use vstd::prelude::*;

use crate::extensions::spec_extensions_doc;
use crate::guard::first_line_of;
use crate::guard::lemma_first_line_of_concat;
use crate::guard::lemma_sentinel_has_no_line_break;
use crate::guard::sentinel;
use crate::launch::LaunchEntryV;
use crate::launch::spec_kind_entries;
use crate::launch::spec_launch_doc;
use crate::launch::spec_packages_entries;
use crate::model::Package;
use crate::model::Workspace;
use crate::model::count_members;
use crate::model::is_launchable_kind;
use crate::settings::spec_settings_doc;
use crate::tasks::TaskV;
use crate::tasks::spec_kind_tasks;
use crate::tasks::spec_packages_tasks;
use crate::tasks::spec_tasks_doc;

verus! {

/// A text that starts with the sentinel followed by a line break has the
/// sentinel as its first line.
pub proof fn lemma_sentinel_prefixed_first_line(doc: Seq<char>)
    requires
        doc.len() > sentinel().len(),
        forall|i: int| 0 <= i < sentinel().len() ==> doc[i] == sentinel()[i],
        doc[sentinel().len() as int] == '\n',
    ensures
        first_line_of(doc) == sentinel(),
{
    lemma_sentinel_has_no_line_break();
    let rest = doc.skip(sentinel().len() as int);
    assert(doc =~= sentinel() + rest);
    assert(rest[0] == '\n');
    lemma_first_line_of_concat(sentinel(), rest);
}

/// Law (idempotence): every generated document begins with the sentinel as
/// its first line. The overwrite decision accepts a first line that is
/// exactly the sentinel, and each document is, by its generator's contract,
/// a function of the workspace alone — so a second run over unchanged
/// metadata is allowed to overwrite its own output and writes byte-identical
/// documents.
pub proof fn lemma_generation_idempotent(ws: Workspace)
    ensures
        first_line_of(spec_extensions_doc(ws)) == sentinel(),
        first_line_of(spec_settings_doc()) == sentinel(),
        first_line_of(spec_launch_doc(ws)) == sentinel(),
        first_line_of(spec_tasks_doc(ws)) == sentinel(),
{
    reveal_strlit("\n");
    lemma_sentinel_prefixed_first_line(spec_extensions_doc(ws));
    lemma_sentinel_prefixed_first_line(spec_settings_doc());
    lemma_sentinel_prefixed_first_line(spec_launch_doc(ws));
    lemma_sentinel_prefixed_first_line(spec_tasks_doc(ws));
}

/// Law (membership filtering): a package whose identifier is absent from the
/// member set yields no launch entries and no per-package tasks — removing
/// it from the package list leaves both generated sequences unchanged,
/// whatever its targets, and leaves the member-package count unchanged.
pub proof fn lemma_nonmember_contributes_nothing(
    ws: Workspace,
    packages: Seq<Package>,
    single: bool,
    simple: bool,
    i: int,
)
    requires
        0 <= i < packages.len(),
        !ws.spec_is_member(packages[i].id@),
    ensures
        spec_packages_entries(ws, packages, single) == spec_packages_entries(
            ws,
            packages.remove(i),
            single,
        ),
        spec_packages_tasks(ws, packages, simple) == spec_packages_tasks(
            ws,
            packages.remove(i),
            simple,
        ),
        count_members(packages.remove(i), ws) == count_members(packages, ws),
    decreases packages.len(),
{
    if i == packages.len() - 1 {
        assert(packages.remove(i) =~= packages.drop_last());
    } else {
        let shorter = packages.drop_last();
        lemma_nonmember_contributes_nothing(ws, shorter, single, simple, i);
        assert(packages.remove(i).drop_last() =~= shorter.remove(i));
        assert(packages.remove(i).last() == packages.last());
    }
}

/// Law (kind filtering): a target kind that is not recognized as launchable
/// yields neither a launch entry nor a build task.
pub proof fn lemma_unrecognized_kind_yields_nothing(
    pkg: Seq<char>,
    target: Seq<char>,
    kind: Seq<char>,
    single: bool,
)
    requires
        !is_launchable_kind(kind),
    ensures
        spec_kind_entries(pkg, target, kind, single) == Seq::<LaunchEntryV>::empty(),
        spec_kind_tasks(pkg, target, kind) == Seq::<TaskV>::empty(),
{
}

/// The "lib" kind is not launchable, so a library target yields no build or
/// launch task.
pub proof fn lemma_lib_kind_not_launchable()
    ensures
        !is_launchable_kind("lib"@),
{
    reveal_strlit("lib");
    reveal_strlit("example");
    reveal_strlit("bin");
    assert("lib"@.len() == 3);
    assert("example"@.len() == 7);
    assert("lib"@[0] == 'l' && "bin"@[0] == 'b');
}

} // verus!
