//! The debugger launch-configurations document: for every member package,
//! for every target of a launchable kind, one entry per build profile, with
//! the entry name disambiguated only as far as needed.
use vstd::prelude::*;
use vstd::string::StringExecFns;

use crate::guard::sentinel;
use crate::jsonstr::json_string_of;
use crate::jsonstr::json_quote;
use crate::model::Package;
use crate::model::Target;
use crate::model::Workspace;
use crate::model::is_launchable_kind;
use crate::model::launchable_kind;
use crate::text::streq;

verus! {

/// One debugger launch configuration. The fields that are the same for every
/// entry (debugger type, request, working directory, environment, the
/// symbol-server option, the Windows debugger backend) are supplied by the
/// renderer.
pub struct LaunchEntry {
    pub name: String,
    pub pre_launch_task: String,
    pub program: String,
    pub windows_program: String,
    pub enable_debug_heap: bool,
}

/// The mathematical shape of a launch entry.
#[verifier::ext_equal]
pub ghost struct LaunchEntryV {
    pub name: Seq<char>,
    pub pre_launch_task: Seq<char>,
    pub program: Seq<char>,
    pub windows_program: Seq<char>,
    pub enable_debug_heap: bool,
}

impl DeepView for LaunchEntry {
    type V = LaunchEntryV;

    open spec fn deep_view(&self) -> LaunchEntryV {
        LaunchEntryV {
            name: self.name@,
            pre_launch_task: self.pre_launch_task@,
            program: self.program@,
            windows_program: self.windows_program@,
            enable_debug_heap: self.enable_debug_heap,
        }
    }
}

/// The build profile's name.
pub open spec fn spec_profile(release: bool) -> Seq<char> {
    if release {
        "release"@
    } else {
        "debug"@
    }
}

/// Where the built binary lands below the profile directory: examples get
/// their own subdirectory.
pub open spec fn spec_subdir(kind: Seq<char>) -> Seq<char> {
    if kind == "example"@ {
        "examples/"@
    } else {
        Seq::<char>::empty()
    }
}

/// The build invocation for one target of a launchable kind, debug profile.
pub open spec fn spec_build_command(pkg: Seq<char>, target: Seq<char>, kind: Seq<char>) -> Seq<
    char,
> {
    if kind == "example"@ {
        "cargo build --package "@ + pkg + " --example "@ + target
    } else {
        "cargo build --package "@ + pkg + " --bin "@ + target
    }
}

/// The build invocation for one target and profile.
pub open spec fn spec_profile_build_command(
    pkg: Seq<char>,
    target: Seq<char>,
    kind: Seq<char>,
    release: bool,
) -> Seq<char> {
    if release {
        spec_build_command(pkg, target, kind) + " --release"@
    } else {
        spec_build_command(pkg, target, kind)
    }
}

/// The human-readable entry name: the package name is omitted when the
/// workspace has a single member package, the kind when it is the default
/// "bin", and the target name when it equals the package name and the
/// package segment is present, so that at least one identifying segment
/// stays; the profile is always present.
pub open spec fn spec_entry_name(
    pkg: Seq<char>,
    kind: Seq<char>,
    target: Seq<char>,
    single: bool,
    release: bool,
) -> Seq<char> {
    (if !single {
        pkg + " \u{2022} "@
    } else {
        Seq::<char>::empty()
    }) + (if kind != "bin"@ {
        kind + " \u{2022} "@
    } else {
        Seq::<char>::empty()
    }) + (if single || pkg != target {
        target + " \u{2022} "@
    } else {
        Seq::<char>::empty()
    }) + spec_profile(release)
}

/// The path of the built binary for the current platform.
pub open spec fn spec_program(target: Seq<char>, kind: Seq<char>, release: bool) -> Seq<char> {
    "${workspaceFolder}/target/"@ + spec_profile(release) + "/"@ + spec_subdir(kind) + target
}

/// One launch entry for a target of a launchable kind and one profile.
pub open spec fn spec_launch_entry(
    pkg: Seq<char>,
    target: Seq<char>,
    kind: Seq<char>,
    single: bool,
    release: bool,
) -> LaunchEntryV {
    LaunchEntryV {
        name: spec_entry_name(pkg, kind, target, single, release),
        pre_launch_task: spec_profile_build_command(pkg, target, kind, release),
        program: spec_program(target, kind, release),
        windows_program: spec_program(target, kind, release) + ".exe"@,
        enable_debug_heap: !release,
    }
}

/// The entries one kind tag of a target yields: a debug and a release entry
/// for a launchable kind, nothing for any other kind.
pub open spec fn spec_kind_entries(
    pkg: Seq<char>,
    target: Seq<char>,
    kind: Seq<char>,
    single: bool,
) -> Seq<LaunchEntryV> {
    if is_launchable_kind(kind) {
        seq![
            spec_launch_entry(pkg, target, kind, single, false),
            spec_launch_entry(pkg, target, kind, single, true),
        ]
    } else {
        Seq::<LaunchEntryV>::empty()
    }
}

/// The entries of one target, over its kind tags in order.
pub open spec fn spec_kinds_entries(
    pkg: Seq<char>,
    target: Seq<char>,
    kinds: Seq<String>,
    single: bool,
) -> Seq<LaunchEntryV>
    decreases kinds.len(),
{
    if kinds.len() == 0 {
        Seq::<LaunchEntryV>::empty()
    } else {
        spec_kinds_entries(pkg, target, kinds.drop_last(), single) + spec_kind_entries(
            pkg,
            target,
            kinds.last()@,
            single,
        )
    }
}

/// The entries of one package, over its targets in order.
pub open spec fn spec_targets_entries(
    pkg: Seq<char>,
    targets: Seq<Target>,
    single: bool,
) -> Seq<LaunchEntryV>
    decreases targets.len(),
{
    if targets.len() == 0 {
        Seq::<LaunchEntryV>::empty()
    } else {
        spec_targets_entries(pkg, targets.drop_last(), single) + spec_kinds_entries(
            pkg,
            targets.last().name@,
            targets.last().kinds@,
            single,
        )
    }
}

/// The entries of a package sequence: member packages contribute their
/// targets' entries in order, every other package contributes nothing.
pub open spec fn spec_packages_entries(
    ws: Workspace,
    packages: Seq<Package>,
    single: bool,
) -> Seq<LaunchEntryV>
    decreases packages.len(),
{
    if packages.len() == 0 {
        Seq::<LaunchEntryV>::empty()
    } else {
        spec_packages_entries(ws, packages.drop_last(), single) + (if ws.spec_is_member(
            packages.last().id@,
        ) {
            spec_targets_entries(packages.last().name@, packages.last().targets@, single)
        } else {
            Seq::<LaunchEntryV>::empty()
        })
    }
}

/// Every launch entry of the workspace, in generation order.
pub open spec fn spec_launch_entries(ws: Workspace) -> Seq<LaunchEntryV> {
    spec_packages_entries(ws, ws.packages@, ws.spec_single_member())
}

/// The profile's name.
fn profile_str(release: bool) -> (r: &'static str)
    ensures
        r@ == spec_profile(release),
{
    if release {
        "release"
    } else {
        "debug"
    }
}

/// Builds the build invocation for one target and profile.
pub(crate) fn build_command(pkg: &String, target: &String, kind: &String, release: bool) -> (r: String)
    requires
        is_launchable_kind(kind@),
    ensures
        r@ == spec_profile_build_command(pkg@, target@, kind@, release),
{
    let mut c = String::new();
    c.append("cargo build --package ");
    c.append(pkg.as_str());
    if streq(kind, "example") {
        c.append(" --example ");
    } else {
        c.append(" --bin ");
    }
    c.append(target.as_str());
    if release {
        c.append(" --release");
    }
    proof {
        assert(c@ =~= spec_profile_build_command(pkg@, target@, kind@, release));
    }
    c
}

/// Builds the disambiguated entry name.
fn entry_name(pkg: &String, kind: &String, target: &String, single: bool, release: bool) -> (r:
    String)
    ensures
        r@ == spec_entry_name(pkg@, kind@, target@, single, release),
{
    let mut n = String::new();
    if !single {
        n.append(pkg.as_str());
        n.append(" \u{2022} ");
    }
    if !streq(kind, "bin") {
        n.append(kind.as_str());
        n.append(" \u{2022} ");
    }
    if single || !streq(pkg, target.as_str()) {
        n.append(target.as_str());
        n.append(" \u{2022} ");
    }
    n.append(profile_str(release));
    proof {
        assert(n@ =~= spec_entry_name(pkg@, kind@, target@, single, release));
    }
    n
}

/// Builds the binary path, with the Windows suffix when asked for.
fn program_path(target: &String, kind: &String, release: bool, exe: bool) -> (r: String)
    requires
        is_launchable_kind(kind@),
    ensures
        r@ == if exe {
            spec_program(target@, kind@, release) + ".exe"@
        } else {
            spec_program(target@, kind@, release)
        },
{
    let mut p = String::new();
    p.append("${workspaceFolder}/target/");
    p.append(profile_str(release));
    p.append("/");
    if streq(kind, "example") {
        p.append("examples/");
    }
    p.append(target.as_str());
    if exe {
        p.append(".exe");
    }
    proof {
        assert(p@ =~= if exe {
            spec_program(target@, kind@, release) + ".exe"@
        } else {
            spec_program(target@, kind@, release)
        });
    }
    p
}

/// Builds one launch entry.
fn make_entry(pkg: &String, target: &String, kind: &String, single: bool, release: bool) -> (r:
    LaunchEntry)
    requires
        is_launchable_kind(kind@),
    ensures
        r.deep_view() == spec_launch_entry(pkg@, target@, kind@, single, release),
{
    LaunchEntry {
        name: entry_name(pkg, kind, target, single, release),
        pre_launch_task: build_command(pkg, target, kind, release),
        program: program_path(target, kind, release, false),
        windows_program: program_path(target, kind, release, true),
        enable_debug_heap: !release,
    }
}

/// Computes every launch entry of the workspace: two per member-package
/// target of a launchable kind, none for anything else.
pub fn launch_entries(ws: &Workspace) -> (r: Vec<LaunchEntry>)
    ensures
        r.deep_view() == spec_launch_entries(*ws),
{
    let single = ws.member_package_count() <= 1;
    let mut r: Vec<LaunchEntry> = Vec::new();
    let mut i: usize = 0;
    while i < ws.packages.len()
        invariant
            0 <= i <= ws.packages@.len(),
            single == ws.spec_single_member(),
            r.deep_view() == spec_packages_entries(*ws, ws.packages@.take(i as int), single),
        decreases ws.packages@.len() - i,
    {
        let package = &ws.packages[i];
        if ws.is_member(&package.id) {
            let mut j: usize = 0;
            while j < package.targets.len()
                invariant
                    0 <= j <= package.targets@.len(),
                    single == ws.spec_single_member(),
                    i < ws.packages@.len(),
                    package == &ws.packages@[i as int],
                    ws.spec_is_member(package.id@),
                    r.deep_view() == spec_packages_entries(
                        *ws,
                        ws.packages@.take(i as int),
                        single,
                    ) + spec_targets_entries(
                        package.name@,
                        package.targets@.take(j as int),
                        single,
                    ),
                decreases package.targets@.len() - j,
            {
                let target = &package.targets[j];
                let mut k: usize = 0;
                while k < target.kinds.len()
                    invariant
                        0 <= k <= target.kinds@.len(),
                        single == ws.spec_single_member(),
                        i < ws.packages@.len(),
                        j < package.targets@.len(),
                        package == &ws.packages@[i as int],
                        target == &package.targets@[j as int],
                        ws.spec_is_member(package.id@),
                        r.deep_view() == spec_packages_entries(
                            *ws,
                            ws.packages@.take(i as int),
                            single,
                        ) + spec_targets_entries(
                            package.name@,
                            package.targets@.take(j as int),
                            single,
                        ) + spec_kinds_entries(
                            package.name@,
                            target.name@,
                            target.kinds@.take(k as int),
                            single,
                        ),
                    decreases target.kinds@.len() - k,
                {
                    let kind = &target.kinds[k];
                    let ghost r_before = r.deep_view();
                    if launchable_kind(kind) {
                        let e_debug = make_entry(&package.name, &target.name, kind, single, false);
                        let e_release = make_entry(&package.name, &target.name, kind, single, true);
                        r.push(e_debug);
                        r.push(e_release);
                        proof {
                            assert(r.deep_view() =~= r_before + spec_kind_entries(
                                package.name@,
                                target.name@,
                                kind@,
                                single,
                            ));
                        }
                    }
                    proof {
                        assert(target.kinds@.take(k + 1).drop_last() =~= target.kinds@.take(
                            k as int,
                        ));
                        assert(target.kinds@.take(k + 1).last() == target.kinds@[k as int]);
                        if !is_launchable_kind(kind@) {
                            assert(r.deep_view() =~= r_before);
                        }
                    }
                    k = k + 1;
                }
                proof {
                    assert(package.targets@.take(j + 1).drop_last() =~= package.targets@.take(
                        j as int,
                    ));
                    assert(package.targets@.take(j + 1).last() == package.targets@[j as int]);
                    assert(target.kinds@.take(target.kinds@.len() as int) =~= target.kinds@);
                }
                j = j + 1;
            }
            proof {
                assert(package.targets@.take(package.targets@.len() as int) =~= package.targets@);
            }
        }
        proof {
            assert(ws.packages@.take(i + 1).drop_last() =~= ws.packages@.take(i as int));
            assert(ws.packages@.take(i + 1).last() == ws.packages@[i as int]);
        }
        i = i + 1;
    }
    proof {
        assert(ws.packages@.take(ws.packages@.len() as int) =~= ws.packages@);
    }
    r
}

/// The text "true" or "false".
pub open spec fn spec_bool_text(b: bool) -> Seq<char> {
    if b {
        "true"@
    } else {
        "false"@
    }
}

/// One rendered launch entry.
pub open spec fn spec_render_launch_entry(e: LaunchEntryV) -> Seq<char> {
    "        {\n"@ + "            \"name\":                     "@ + json_string_of(e.name)
        + ",\n"@ + "            \"type\":                     \"cppdbg\",\n"@
        + "            \"request\":                  \"launch\",\n"@
        + "            \"internalConsoleOptions\":   \"openOnSessionStart\",\n"@
        + "            \"preLaunchTask\":            "@ + json_string_of(e.pre_launch_task)
        + ",\n"@ + "            \"program\":                  "@ + json_string_of(e.program)
        + ",\n"@ + "            \"cwd\":                      \"${workspaceFolder}\",\n"@
        + "            \"environment\":              [ { \"name\": \"RUST_BACKTRACE\", \"value\": \"1\" } ],\n"@
        + "            \"windows\": {\n"@
        + "                \"type\":                 \"cppvsdbg\",\n"@
        + "                \"program\":              "@ + json_string_of(e.windows_program)
        + ",\n"@ + "                \"enableDebugHeap\":      "@ + spec_bool_text(
        e.enable_debug_heap,
    ) + ",\n"@ + "            },\n"@ + "            \"symbolOptions\": {\n"@
        + "                \"searchMicrosoftSymbolServer\": true,\n"@ + "            },\n"@
        + "        },\n"@
}

/// The rendered entry list, in order.
pub open spec fn spec_render_launch_entries(es: Seq<LaunchEntryV>) -> Seq<char>
    decreases es.len(),
{
    if es.len() == 0 {
        Seq::<char>::empty()
    } else {
        spec_render_launch_entries(es.drop_last()) + spec_render_launch_entry(es.last())
    }
}

/// Everything of the document before the entries.
pub open spec fn spec_launch_header() -> Seq<char> {
    sentinel() + "\n"@ + "{\n"@ + "    \"version\": \"0.2.0\",\n"@
        + "    \"configurations\": [\n"@
}

/// The whole document: the sentinel line, the version, and the entry list.
pub open spec fn spec_launch_doc(ws: Workspace) -> Seq<char> {
    spec_launch_header() + spec_render_launch_entries(spec_launch_entries(ws)) + "    ]\n"@
        + "}\n"@
}

/// Appends one rendered launch entry.
#[verifier::rlimit(100)]
fn render_launch_entry(o: &mut String, e: &LaunchEntry)
    ensures
        final(o)@ == old(o)@ + spec_render_launch_entry(e.deep_view()),
{
    o.append("        {\n");
    o.append("            \"name\":                     ");
    let q_name = json_quote(e.name.as_str());
    o.append(q_name.as_str());
    o.append(",\n");
    o.append("            \"type\":                     \"cppdbg\",\n");
    o.append("            \"request\":                  \"launch\",\n");
    o.append("            \"internalConsoleOptions\":   \"openOnSessionStart\",\n");
    o.append("            \"preLaunchTask\":            ");
    let q_task = json_quote(e.pre_launch_task.as_str());
    o.append(q_task.as_str());
    o.append(",\n");
    o.append("            \"program\":                  ");
    let q_program = json_quote(e.program.as_str());
    o.append(q_program.as_str());
    o.append(",\n");
    o.append("            \"cwd\":                      \"${workspaceFolder}\",\n");
    o.append(
        "            \"environment\":              [ { \"name\": \"RUST_BACKTRACE\", \"value\": \"1\" } ],\n",
    );
    o.append("            \"windows\": {\n");
    o.append("                \"type\":                 \"cppvsdbg\",\n");
    o.append("                \"program\":              ");
    let q_win = json_quote(e.windows_program.as_str());
    o.append(q_win.as_str());
    o.append(",\n");
    o.append("                \"enableDebugHeap\":      ");
    if e.enable_debug_heap {
        o.append("true");
    } else {
        o.append("false");
    }
    o.append(",\n");
    o.append("            },\n");
    o.append("            \"symbolOptions\": {\n");
    o.append("                \"searchMicrosoftSymbolServer\": true,\n");
    o.append("            },\n");
    o.append("        },\n");
    proof {
        assert(o@ =~= old(o)@ + spec_render_launch_entry(e.deep_view()));
    }
}

/// Renders the launch-configurations document for the workspace.
pub fn create_vscode_launch_json(ws: &Workspace) -> (r: String)
    ensures
        r@ == spec_launch_doc(*ws),
{
    let entries = launch_entries(ws);
    let mut o = String::new();
    o.append(crate::guard::AUTOGEN_JSON);
    o.append("\n");
    o.append("{\n");
    o.append("    \"version\": \"0.2.0\",\n");
    o.append("    \"configurations\": [\n");
    proof {
        assert(o@ =~= spec_launch_header());
    }
    let mut i: usize = 0;
    while i < entries.len()
        invariant
            0 <= i <= entries@.len(),
            entries.deep_view() == spec_launch_entries(*ws),
            o@ == spec_launch_header() + spec_render_launch_entries(
                entries.deep_view().take(i as int),
            ),
        decreases entries@.len() - i,
    {
        render_launch_entry(&mut o, &entries[i]);
        proof {
            assert(entries.deep_view().take(i + 1).drop_last() =~= entries.deep_view().take(
                i as int,
            ));
            assert(entries.deep_view().take(i + 1).last() == entries.deep_view()[i as int]);
            assert(entries.deep_view()[i as int] == entries@[i as int].deep_view());
        }
        i = i + 1;
    }
    o.append("    ]\n");
    o.append("}\n");
    proof {
        assert(entries.deep_view().take(entries.deep_view().len() as int) =~= entries.deep_view());
        assert(o@ =~= spec_launch_doc(*ws));
    }
    o
}

} // verus!
