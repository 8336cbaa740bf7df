//! The task-definitions document: a small offline build graph. Simple mode
//! emits an aggregate verification task, a documentation task and, when the
//! workspace declares a local-install step, an install task the other two
//! depend on. Advanced mode emits the fetch/check/test/build/doc pipeline
//! with a sequenced aggregate task. Both modes then emit, per member package,
//! per-target build tasks for the launchable kinds, in advanced mode a
//! build-and-open-documentation task per target, and up to three open-link
//! tasks for the package's project URLs.
use vstd::prelude::*;
use vstd::string::StringExecFns;

use crate::guard::sentinel;
use crate::jsonstr::json_string_of;
use crate::jsonstr::json_quote;
use crate::launch::spec_build_command;
use crate::model::Package;
use crate::model::Target;
use crate::model::Workspace;
use crate::model::is_launchable_kind;
use crate::model::launchable_kind;
use crate::text::replace_dashes;
use crate::text::spec_underscored;

verus! {

/// How a task's terminal output is presented.
pub struct Presentation {
    pub clear: bool,
    pub group: Option<String>,
    pub shared_panel: bool,
    pub reveal: String,
}

/// The mathematical shape of a presentation.
#[verifier::ext_equal]
pub ghost struct PresentationV {
    pub clear: bool,
    pub group: Option<Seq<char>>,
    pub shared_panel: bool,
    pub reveal: Seq<char>,
}

impl DeepView for Presentation {
    type V = PresentationV;

    open spec fn deep_view(&self) -> PresentationV {
        PresentationV {
            clear: self.clear,
            group: self.group.deep_view(),
            shared_panel: self.shared_panel,
            reveal: self.reveal@,
        }
    }
}

/// One task record. The label doubles as the dependency key. An open-link
/// task has no plain command but one command per desktop platform.
pub struct Task {
    pub label: String,
    pub command: Option<String>,
    pub windows_command: Option<String>,
    pub linux_command: Option<String>,
    pub osx_command: Option<String>,
    pub depends_order_sequence: bool,
    pub depends_on: Vec<String>,
    pub group_default_build: bool,
    pub presentation: Option<Presentation>,
    pub problem_matcher_owner: Option<String>,
}

/// The mathematical shape of a task record.
#[verifier::ext_equal]
pub ghost struct TaskV {
    pub label: Seq<char>,
    pub command: Option<Seq<char>>,
    pub windows_command: Option<Seq<char>>,
    pub linux_command: Option<Seq<char>>,
    pub osx_command: Option<Seq<char>>,
    pub depends_order_sequence: bool,
    pub depends_on: Seq<Seq<char>>,
    pub group_default_build: bool,
    pub presentation: Option<PresentationV>,
    pub problem_matcher_owner: Option<Seq<char>>,
}

impl DeepView for Task {
    type V = TaskV;

    open spec fn deep_view(&self) -> TaskV {
        TaskV {
            label: self.label@,
            command: self.command.deep_view(),
            windows_command: self.windows_command.deep_view(),
            linux_command: self.linux_command.deep_view(),
            osx_command: self.osx_command.deep_view(),
            depends_order_sequence: self.depends_order_sequence,
            depends_on: self.depends_on.deep_view(),
            group_default_build: self.group_default_build,
            presentation: self.presentation.deep_view(),
            problem_matcher_owner: self.problem_matcher_owner.deep_view(),
        }
    }
}

/// A task with neither platform commands nor a presentation beyond what is
/// given.
pub open spec fn spec_task(
    label: Seq<char>,
    command: Option<Seq<char>>,
    depends_on: Seq<Seq<char>>,
    depends_order_sequence: bool,
    group_default_build: bool,
    presentation: Option<PresentationV>,
    problem_matcher_owner: Option<Seq<char>>,
) -> TaskV {
    TaskV {
        label: label,
        command: command,
        windows_command: Option::None,
        linux_command: Option::None,
        osx_command: Option::None,
        depends_order_sequence: depends_order_sequence,
        depends_on: depends_on,
        group_default_build: group_default_build,
        presentation: presentation,
        problem_matcher_owner: problem_matcher_owner,
    }
}

/// A standalone build task: its command is its label, its output pane is
/// shared and cleared.
pub open spec fn spec_cmd_task(cmd: Seq<char>) -> TaskV {
    spec_task(
        cmd,
        Option::Some(cmd),
        Seq::<Seq<char>>::empty(),
        false,
        false,
        Option::Some(
            PresentationV {
                clear: true,
                group: Option::None,
                shared_panel: true,
                reveal: "always"@,
            },
        ),
        Option::None,
    )
}

/// A task that opens a link, with one command line per desktop platform.
pub open spec fn spec_open_link_task(
    title: Seq<char>,
    url: Seq<char>,
    depends_on: Seq<Seq<char>>,
) -> TaskV {
    TaskV {
        label: title,
        command: Option::None,
        windows_command: Option::Some("start \"\"    \""@ + url + "\""@),
        linux_command: Option::Some("xdg-open      \""@ + url + "\""@),
        osx_command: Option::Some("open          \""@ + url + "\""@),
        depends_order_sequence: false,
        depends_on: depends_on,
        group_default_build: false,
        presentation: Option::Some(
            PresentationV {
                clear: true,
                group: Option::None,
                shared_panel: true,
                reveal: "silent"@,
            },
        ),
        problem_matcher_owner: Option::None,
    }
}

/// One stage of the advanced pipeline: its diagnostics are grouped and owned
/// by the stage's name.
pub open spec fn spec_stage_task(label: Seq<char>, command: Seq<char>, stage: Seq<char>) -> TaskV {
    spec_task(
        label,
        Option::Some(command),
        Seq::<Seq<char>>::empty(),
        false,
        false,
        Option::Some(
            PresentationV {
                clear: true,
                group: Option::Some(stage),
                shared_panel: false,
                reveal: "always"@,
            },
        ),
        Option::Some(stage),
    )
}

/// The dependency list of the simple-mode aggregate and documentation tasks:
/// the install task when the workspace has a local-install step, nothing
/// otherwise.
pub open spec fn spec_simple_depends(install: bool) -> Seq<Seq<char>> {
    if install {
        seq!["cargo local-install"@]
    } else {
        Seq::<Seq<char>>::empty()
    }
}

/// The simple-mode header tasks.
pub open spec fn spec_simple_header(install: bool) -> Seq<TaskV> {
    let build = spec_task(
        "build"@,
        Option::Some("cargo test --all-targets"@),
        spec_simple_depends(install),
        false,
        true,
        Option::None,
        Option::None,
    );
    let help = spec_task(
        "help"@,
        Option::Some("cargo doc --no-deps --open"@),
        spec_simple_depends(install),
        false,
        false,
        Option::None,
        Option::None,
    );
    let local_install = spec_task(
        "cargo local-install"@,
        Option::Some("cargo local-install"@),
        Seq::<Seq<char>>::empty(),
        false,
        false,
        Option::None,
        Option::None,
    );
    if install {
        seq![build, help, local_install]
    } else {
        seq![build, help]
    }
}

/// The advanced-mode header tasks: the sequenced aggregate, the fetch stage
/// (with the optional install sub-step ahead of the plain fetch), and the
/// check, test, build, doc and help stages.
pub open spec fn spec_advanced_header(install: bool) -> Seq<TaskV> {
    let default_build = spec_task(
        "default-build"@,
        Option::None,
        seq!["fetch"@, "check"@, "test"@, "build"@, "doc"@],
        true,
        true,
        Option::None,
        Option::None,
    );
    let fetch = spec_task(
        "fetch"@,
        Option::None,
        if install {
            seq!["cargo fetch"@, "cargo local-install"@]
        } else {
            seq!["cargo fetch"@]
        },
        false,
        false,
        Option::None,
        Option::None,
    );
    let cargo_fetch = spec_task(
        "cargo fetch"@,
        Option::Some("cargo fetch"@),
        Seq::<Seq<char>>::empty(),
        false,
        false,
        Option::Some(
            PresentationV {
                clear: true,
                group: Option::Some("fetch"@),
                shared_panel: false,
                reveal: "always"@,
            },
        ),
        Option::None,
    );
    let local_install = spec_task(
        "cargo local-install"@,
        Option::Some("cargo install cargo-local-install && cargo local-install"@),
        Seq::<Seq<char>>::empty(),
        false,
        false,
        Option::Some(
            PresentationV {
                clear: false,
                group: Option::Some("fetch"@),
                shared_panel: false,
                reveal: "always"@,
            },
        ),
        Option::None,
    );
    let check = spec_stage_task("check"@, "cargo c --frozen --all-targets"@, "check"@);
    let test = spec_stage_task("test"@, "cargo t --frozen"@, "test"@);
    let build = spec_stage_task("build"@, "cargo b --frozen --all-targets"@, "build"@);
    let doc = spec_stage_task("doc"@, "cargo doc --frozen --no-deps"@, "doc"@);
    let help = spec_stage_task("help"@, "cargo doc --frozen --no-deps --open"@, "doc"@);
    if install {
        seq![default_build, fetch, cargo_fetch, local_install, check, test, build, doc, help]
    } else {
        seq![default_build, fetch, cargo_fetch, check, test, build, doc, help]
    }
}

/// The mode-independent front of the task list.
pub open spec fn spec_header_tasks(simple: bool, install: bool) -> Seq<TaskV> {
    if simple {
        spec_simple_header(install)
    } else {
        spec_advanced_header(install)
    }
}

/// The local documentation index for a target, with the target's name
/// normalized the way the build tool names modules.
pub open spec fn spec_doc_url(target: Seq<char>) -> Seq<char> {
    "${workspaceFolder}\\target\\doc\\"@ + spec_underscored(target) + "\\index.html"@
}

/// The build tasks one kind tag yields: a debug and a release build for a
/// launchable kind, nothing for any other kind.
pub open spec fn spec_kind_tasks(pkg: Seq<char>, target: Seq<char>, kind: Seq<char>) -> Seq<
    TaskV,
> {
    if is_launchable_kind(kind) {
        seq![
            spec_cmd_task(spec_build_command(pkg, target, kind)),
            spec_cmd_task(spec_build_command(pkg, target, kind) + " --release"@),
        ]
    } else {
        Seq::<TaskV>::empty()
    }
}

/// The build tasks of one target, over its kind tags in order.
pub open spec fn spec_kinds_tasks(pkg: Seq<char>, target: Seq<char>, kinds: Seq<String>) -> Seq<
    TaskV,
>
    decreases kinds.len(),
{
    if kinds.len() == 0 {
        Seq::<TaskV>::empty()
    } else {
        spec_kinds_tasks(pkg, target, kinds.drop_last()) + spec_kind_tasks(
            pkg,
            target,
            kinds.last()@,
        )
    }
}

/// The tasks of one target: its per-kind build tasks and, in advanced mode
/// only, the build-and-open-documentation task depending on the doc stage.
pub open spec fn spec_target_tasks(pkg: Seq<char>, target: Target, simple: bool) -> Seq<TaskV> {
    spec_kinds_tasks(pkg, target.name@, target.kinds@) + (if !simple {
        seq![
            spec_open_link_task(
                "build & open local documentation ("@ + target.name@ + ")"@,
                spec_doc_url(target.name@),
                seq!["doc"@],
            ),
        ]
    } else {
        Seq::<TaskV>::empty()
    })
}

/// The tasks of a target sequence, in order.
pub open spec fn spec_targets_tasks(pkg: Seq<char>, targets: Seq<Target>, simple: bool) -> Seq<
    TaskV,
>
    decreases targets.len(),
{
    if targets.len() == 0 {
        Seq::<TaskV>::empty()
    } else {
        spec_targets_tasks(pkg, targets.drop_last(), simple) + spec_target_tasks(
            pkg,
            targets.last(),
            simple,
        )
    }
}

/// The open-link task an optional project URL yields.
pub open spec fn spec_url_tasks(title: Seq<char>, url: Option<String>) -> Seq<TaskV> {
    match url {
        Option::Some(u) => seq![
            spec_open_link_task(title, u@, Seq::<Seq<char>>::empty()),
        ],
        Option::None => Seq::<TaskV>::empty(),
    }
}

/// The tasks of one member package: its targets' tasks, then up to three
/// open-link tasks for its project URLs.
pub open spec fn spec_package_tasks(p: Package, simple: bool) -> Seq<TaskV> {
    spec_targets_tasks(p.name@, p.targets@, simple) + spec_url_tasks(
        "open repository ("@ + p.name@ + ")"@,
        p.repository,
    ) + spec_url_tasks("open documentation ("@ + p.name@ + ")"@, p.documentation)
        + spec_url_tasks("open homepage ("@ + p.name@ + ")"@, p.homepage)
}

/// The per-package tasks of a package sequence: member packages contribute in
/// order, every other package contributes nothing.
pub open spec fn spec_packages_tasks(
    ws: Workspace,
    packages: Seq<Package>,
    simple: bool,
) -> Seq<TaskV>
    decreases packages.len(),
{
    if packages.len() == 0 {
        Seq::<TaskV>::empty()
    } else {
        spec_packages_tasks(ws, packages.drop_last(), simple) + (if ws.spec_is_member(
            packages.last().id@,
        ) {
            spec_package_tasks(packages.last(), simple)
        } else {
            Seq::<TaskV>::empty()
        })
    }
}

/// Every task of the workspace, in generation order.
pub open spec fn spec_tasks(ws: Workspace) -> Seq<TaskV> {
    spec_header_tasks(ws.spec_simple(), ws.local_install) + spec_packages_tasks(
        ws,
        ws.packages@,
        ws.spec_simple(),
    )
}

/// Builds a task with no platform commands.
fn plain_task(
    label: String,
    command: Option<String>,
    depends_on: Vec<String>,
    depends_order_sequence: bool,
    group_default_build: bool,
    presentation: Option<Presentation>,
    problem_matcher_owner: Option<String>,
) -> (t: Task)
    ensures
        t.deep_view() == spec_task(
            label@,
            command.deep_view(),
            depends_on.deep_view(),
            depends_order_sequence,
            group_default_build,
            presentation.deep_view(),
            problem_matcher_owner.deep_view(),
        ),
{
    let t = Task {
        label,
        command,
        windows_command: Option::None,
        linux_command: Option::None,
        osx_command: Option::None,
        depends_order_sequence,
        depends_on,
        group_default_build,
        presentation,
        problem_matcher_owner,
    };
    proof {
        assert(t.deep_view() =~= spec_task(
            t.label@,
            t.command.deep_view(),
            t.depends_on.deep_view(),
            t.depends_order_sequence,
            t.group_default_build,
            t.presentation.deep_view(),
            t.problem_matcher_owner.deep_view(),
        ));
    }
    t
}

/// Builds a standalone build task from its command.
fn cmd_task(cmd: String) -> (t: Task)
    ensures
        t.deep_view() == spec_cmd_task(cmd@),
{
    let label = cmd.clone();
    let t = Task {
        label,
        command: Option::Some(cmd),
        windows_command: Option::None,
        linux_command: Option::None,
        osx_command: Option::None,
        depends_order_sequence: false,
        depends_on: Vec::new(),
        group_default_build: false,
        presentation: Option::Some(
            Presentation {
                clear: true,
                group: Option::None,
                shared_panel: true,
                reveal: "always".to_owned(),
            },
        ),
        problem_matcher_owner: Option::None,
    };
    proof {
        assert(t.deep_view() =~= spec_cmd_task(t.command->Some_0@));
    }
    t
}

/// Builds an open-link task.
fn open_link_task(title: String, url: &String, depends_on: Vec<String>) -> (t: Task)
    ensures
        t.deep_view() == spec_open_link_task(title@, url@, depends_on.deep_view()),
{
    let mut windows = String::new();
    windows.append("start \"\"    \"");
    windows.append(url.as_str());
    windows.append("\"");
    let mut linux = String::new();
    linux.append("xdg-open      \"");
    linux.append(url.as_str());
    linux.append("\"");
    let mut osx = String::new();
    osx.append("open          \"");
    osx.append(url.as_str());
    osx.append("\"");
    let t = Task {
        label: title,
        command: Option::None,
        windows_command: Option::Some(windows),
        linux_command: Option::Some(linux),
        osx_command: Option::Some(osx),
        depends_order_sequence: false,
        depends_on,
        group_default_build: false,
        presentation: Option::Some(
            Presentation {
                clear: true,
                group: Option::None,
                shared_panel: true,
                reveal: "silent".to_owned(),
            },
        ),
        problem_matcher_owner: Option::None,
    };
    proof {
        assert(t.deep_view() =~= spec_open_link_task(t.label@, url@, t.depends_on.deep_view()));
    }
    t
}

/// Builds one stage of the advanced pipeline.
fn stage_task(label: &str, command: &str, stage: &str) -> (t: Task)
    ensures
        t.deep_view() == spec_stage_task(label@, command@, stage@),
{
    let t = Task {
        label: label.to_owned(),
        command: Option::Some(command.to_owned()),
        windows_command: Option::None,
        linux_command: Option::None,
        osx_command: Option::None,
        depends_order_sequence: false,
        depends_on: Vec::new(),
        group_default_build: false,
        presentation: Option::Some(
            Presentation {
                clear: true,
                group: Option::Some(stage.to_owned()),
                shared_panel: false,
                reveal: "always".to_owned(),
            },
        ),
        problem_matcher_owner: Option::Some(stage.to_owned()),
    };
    proof {
        assert(t.deep_view() =~= spec_stage_task(label@, command@, stage@));
    }
    t
}

/// A title of the form "<prefix><name>)".
fn paren_title(prefix: &str, name: &String) -> (r: String)
    ensures
        r@ == prefix@ + name@ + ")"@,
{
    let mut t = String::new();
    t.append(prefix);
    t.append(name.as_str());
    t.append(")");
    proof {
        assert(t@ =~= prefix@ + name@ + ")"@);
    }
    t
}

/// The local documentation index location for a target.
fn doc_url(target_name: &String) -> (r: String)
    ensures
        r@ == spec_doc_url(target_name@),
{
    let mut u = String::new();
    u.append("${workspaceFolder}\\target\\doc\\");
    let module = replace_dashes(target_name.as_str());
    u.append(module.as_str());
    u.append("\\index.html");
    proof {
        assert(u@ =~= spec_doc_url(target_name@));
    }
    u
}

/// Computes every task of the workspace, in generation order: the header
/// tasks of the selected mode, then the per-member-package tasks.
#[verifier::rlimit(100)]
pub fn task_definitions(ws: &Workspace) -> (r: Vec<Task>)
    ensures
        r.deep_view() == spec_tasks(*ws),
{
    let simple = match ws.simple {
        Option::Some(b) => b,
        Option::None => true,
    };
    let install = ws.local_install;
    let mut r: Vec<Task> = Vec::new();
    if simple {
        let mut deps_build: Vec<String> = Vec::new();
        let mut deps_help: Vec<String> = Vec::new();
        if install {
            deps_build.push("cargo local-install".to_owned());
            deps_help.push("cargo local-install".to_owned());
        }
        proof {
            assert(deps_build.deep_view() =~= spec_simple_depends(install));
            assert(deps_help.deep_view() =~= spec_simple_depends(install));
        }
        r.push(
            plain_task(
                "build".to_owned(),
                Option::Some("cargo test --all-targets".to_owned()),
                deps_build,
                false,
                true,
                Option::None,
                Option::None,
            ),
        );
        r.push(
            plain_task(
                "help".to_owned(),
                Option::Some("cargo doc --no-deps --open".to_owned()),
                deps_help,
                false,
                false,
                Option::None,
                Option::None,
            ),
        );
        if install {
            r.push(
                plain_task(
                    "cargo local-install".to_owned(),
                    Option::Some("cargo local-install".to_owned()),
                    Vec::new(),
                    false,
                    false,
                    Option::None,
                    Option::None,
                ),
            );
        }
        proof {
            assert(r.deep_view() =~~= spec_header_tasks(simple, install));
        }
    } else {
        let mut agg_deps: Vec<String> = Vec::new();
        agg_deps.push("fetch".to_owned());
        agg_deps.push("check".to_owned());
        agg_deps.push("test".to_owned());
        agg_deps.push("build".to_owned());
        agg_deps.push("doc".to_owned());
        proof {
            assert(agg_deps.deep_view() =~= seq![
                "fetch"@,
                "check"@,
                "test"@,
                "build"@,
                "doc"@,
            ]);
        }
        r.push(
            plain_task(
                "default-build".to_owned(),
                Option::None,
                agg_deps,
                true,
                true,
                Option::None,
                Option::None,
            ),
        );
        let mut fetch_deps: Vec<String> = Vec::new();
        fetch_deps.push("cargo fetch".to_owned());
        if install {
            fetch_deps.push("cargo local-install".to_owned());
        }
        proof {
            assert(fetch_deps.deep_view() =~= if install {
                seq!["cargo fetch"@, "cargo local-install"@]
            } else {
                seq!["cargo fetch"@]
            });
        }
        r.push(
            plain_task(
                "fetch".to_owned(),
                Option::None,
                fetch_deps,
                false,
                false,
                Option::None,
                Option::None,
            ),
        );
        r.push(
            plain_task(
                "cargo fetch".to_owned(),
                Option::Some("cargo fetch".to_owned()),
                Vec::new(),
                false,
                false,
                Option::Some(
                    Presentation {
                        clear: true,
                        group: Option::Some("fetch".to_owned()),
                        shared_panel: false,
                        reveal: "always".to_owned(),
                    },
                ),
                Option::None,
            ),
        );
        if install {
            r.push(
                plain_task(
                    "cargo local-install".to_owned(),
                    Option::Some("cargo install cargo-local-install && cargo local-install".to_owned()),
                    Vec::new(),
                    false,
                    false,
                    Option::Some(
                        Presentation {
                            clear: false,
                            group: Option::Some("fetch".to_owned()),
                            shared_panel: false,
                            reveal: "always".to_owned(),
                        },
                    ),
                    Option::None,
                ),
            );
        }
        r.push(stage_task("check", "cargo c --frozen --all-targets", "check"));
        r.push(stage_task("test", "cargo t --frozen", "test"));
        r.push(stage_task("build", "cargo b --frozen --all-targets", "build"));
        r.push(stage_task("doc", "cargo doc --frozen --no-deps", "doc"));
        r.push(stage_task("help", "cargo doc --frozen --no-deps --open", "doc"));
        proof {
            assert(r.deep_view() =~~= spec_header_tasks(simple, install));
        }
    }
    let ghost header = spec_header_tasks(ws.spec_simple(), ws.local_install);
    let mut i: usize = 0;
    while i < ws.packages.len()
        invariant
            0 <= i <= ws.packages@.len(),
            simple == ws.spec_simple(),
            install == ws.local_install,
            header == spec_header_tasks(ws.spec_simple(), ws.local_install),
            r.deep_view() == header + spec_packages_tasks(*ws, ws.packages@.take(i as int), simple),
        decreases ws.packages@.len() - i,
    {
        let package = &ws.packages[i];
        if ws.is_member(&package.id) {
            let mut j: usize = 0;
            while j < package.targets.len()
                invariant
                    0 <= j <= package.targets@.len(),
                    simple == ws.spec_simple(),
                    i < ws.packages@.len(),
                    *package == ws.packages@[i as int],
                    ws.spec_is_member(package.id@),
                    r.deep_view() == header + spec_packages_tasks(
                        *ws,
                        ws.packages@.take(i as int),
                        simple,
                    ) + spec_targets_tasks(package.name@, package.targets@.take(j as int), simple),
                decreases package.targets@.len() - j,
            {
                let target = &package.targets[j];
                let ghost r_target_start = r.deep_view();
                let mut k: usize = 0;
                while k < target.kinds.len()
                    invariant
                        0 <= k <= target.kinds@.len(),
                        j < package.targets@.len(),
                        *target == package.targets@[j as int],
                        r.deep_view() == r_target_start + spec_kinds_tasks(
                            package.name@,
                            target.name@,
                            target.kinds@.take(k as int),
                        ),
                    decreases target.kinds@.len() - k,
                {
                    let kind = &target.kinds[k];
                    let ghost r_before = r.deep_view();
                    if launchable_kind(kind) {
                        let c_debug = crate::launch::build_command(
                            &package.name,
                            &target.name,
                            kind,
                            false,
                        );
                        let c_release = crate::launch::build_command(
                            &package.name,
                            &target.name,
                            kind,
                            true,
                        );
                        r.push(cmd_task(c_debug));
                        r.push(cmd_task(c_release));
                        proof {
                            assert(r.deep_view() =~= r_before + spec_kind_tasks(
                                package.name@,
                                target.name@,
                                kind@,
                            ));
                        }
                    }
                    proof {
                        assert(target.kinds@.take(k + 1).drop_last() =~= target.kinds@.take(
                            k as int,
                        ));
                        assert(target.kinds@.take(k + 1).last() == target.kinds@[k as int]);
                        if !is_launchable_kind(kind@) {
                            assert(r.deep_view() =~= r_before);
                        }
                    }
                    k = k + 1;
                }
                proof {
                    assert(target.kinds@.take(target.kinds@.len() as int) =~= target.kinds@);
                }
                if !simple {
                    let title = paren_title("build & open local documentation (", &target.name);
                    let url = doc_url(&target.name);
                    let mut doc_deps: Vec<String> = Vec::new();
                    doc_deps.push("doc".to_owned());
                    let ghost r_mid = r.deep_view();
                    proof {
                        assert(doc_deps.deep_view() =~= seq!["doc"@]);
                    }
                    let t = open_link_task(title, &url, doc_deps);
                    r.push(t);
                    proof {
                        assert(r.deep_view() =~= r_mid + seq![
                            spec_open_link_task(
                                "build & open local documentation ("@ + target.name@ + ")"@,
                                spec_doc_url(target.name@),
                                seq!["doc"@],
                            ),
                        ]);
                    }
                }
                proof {
                    assert(package.targets@.take(j + 1).drop_last() =~= package.targets@.take(
                        j as int,
                    ));
                    assert(package.targets@.take(j + 1).last() == package.targets@[j as int]);
                    assert(r.deep_view() =~= r_target_start + spec_target_tasks(
                        package.name@,
                        package.targets@[j as int],
                        simple,
                    ));
                }
                j = j + 1;
            }
            proof {
                assert(package.targets@.take(package.targets@.len() as int) =~= package.targets@);
            }
            let ghost r_links = r.deep_view();
            match &package.repository {
                Option::Some(url) => {
                    let t = open_link_task(
                        paren_title("open repository (", &package.name),
                        url,
                        Vec::new(),
                    );
                    r.push(t);
                },
                Option::None => {},
            }
            proof {
                assert(r.deep_view() =~~= r_links + spec_url_tasks(
                    "open repository ("@ + package.name@ + ")"@,
                    package.repository,
                ));
            }
            let ghost r_links2 = r.deep_view();
            match &package.documentation {
                Option::Some(url) => {
                    let t = open_link_task(
                        paren_title("open documentation (", &package.name),
                        url,
                        Vec::new(),
                    );
                    r.push(t);
                },
                Option::None => {},
            }
            proof {
                assert(r.deep_view() =~~= r_links2 + spec_url_tasks(
                    "open documentation ("@ + package.name@ + ")"@,
                    package.documentation,
                ));
            }
            let ghost r_links3 = r.deep_view();
            match &package.homepage {
                Option::Some(url) => {
                    let t = open_link_task(
                        paren_title("open homepage (", &package.name),
                        url,
                        Vec::new(),
                    );
                    r.push(t);
                },
                Option::None => {},
            }
            proof {
                assert(r.deep_view() =~~= r_links3 + spec_url_tasks(
                    "open homepage ("@ + package.name@ + ")"@,
                    package.homepage,
                ));
                assert(r.deep_view() =~= header + spec_packages_tasks(
                    *ws,
                    ws.packages@.take(i as int),
                    simple,
                ) + spec_package_tasks(ws.packages@[i as int], simple));
            }
        }
        proof {
            assert(ws.packages@.take(i + 1).drop_last() =~= ws.packages@.take(i as int));
            assert(ws.packages@.take(i + 1).last() == ws.packages@[i as int]);
        }
        i = i + 1;
    }
    proof {
        assert(ws.packages@.take(ws.packages@.len() as int) =~= ws.packages@);
    }
    r
}

/// An optional rendered fragment quoting one string between fixed texts.
pub open spec fn spec_opt_quoted(prefix: Seq<char>, v: Option<Seq<char>>, suffix: Seq<char>) -> Seq<
    char,
> {
    match v {
        Option::Some(s) => prefix + json_string_of(s) + suffix,
        Option::None => Seq::<char>::empty(),
    }
}

/// The rendered dependency-list items, each quoted and comma-separated.
pub open spec fn spec_render_depends_items(ds: Seq<Seq<char>>) -> Seq<char>
    decreases ds.len(),
{
    if ds.len() == 0 {
        Seq::<char>::empty()
    } else {
        spec_render_depends_items(ds.drop_last()) + json_string_of(ds.last()) + ", "@
    }
}

/// The rendered dependency line, absent when the task depends on nothing.
pub open spec fn spec_render_depends_line(ds: Seq<Seq<char>>) -> Seq<char> {
    if ds.len() > 0 {
        "            \"dependsOn\": [ "@ + spec_render_depends_items(ds) + "],\n"@
    } else {
        Seq::<char>::empty()
    }
}

/// One rendered presentation object.
pub open spec fn spec_render_presentation(p: PresentationV) -> Seq<char> {
    "{ "@ + (if p.clear {
        "\"clear\": true, "@
    } else {
        Seq::<char>::empty()
    }) + (match p.group {
        Option::Some(g) => "\"group\": "@ + json_string_of(g) + ", "@,
        Option::None => Seq::<char>::empty(),
    }) + (if p.shared_panel {
        "\"panel\": \"shared\", "@
    } else {
        Seq::<char>::empty()
    }) + "\"reveal\": "@ + json_string_of(p.reveal) + " }"@
}

/// The rendered presentation line, absent when the task has none.
pub open spec fn spec_render_presentation_line(p: Option<PresentationV>) -> Seq<char> {
    match p {
        Option::Some(pp) => "            \"presentation\": "@ + spec_render_presentation(pp)
            + ",\n"@,
        Option::None => Seq::<char>::empty(),
    }
}

/// The rendered problem-matcher line, absent when the task has no owner.
pub open spec fn spec_render_matcher_line(owner: Option<Seq<char>>) -> Seq<char> {
    match owner {
        Option::Some(ow) => "            \"problemMatcher\": { \"base\": \"$rustc\", \"owner\": "@
            + json_string_of(ow) + ", \"source\": "@ + json_string_of(ow) + " },\n"@,
        Option::None => Seq::<char>::empty(),
    }
}

/// The front of one rendered task record: the label and the command fields.
pub open spec fn spec_render_task_front(t: TaskV) -> Seq<char> {
    "        {\n"@ + "            \"label\": "@ + json_string_of(t.label) + ",\n"@
        + spec_opt_quoted("            \"command\": "@, t.command, ",\n"@) + spec_opt_quoted(
        "            \"windows\": { \"command\": "@,
        t.windows_command,
        " },\n"@,
    ) + spec_opt_quoted("            \"linux\": { \"command\": "@, t.linux_command, " },\n"@)
        + spec_opt_quoted("            \"osx\": { \"command\": "@, t.osx_command, " },\n"@)
}

/// The back of one rendered task record: dependencies, grouping,
/// presentation and problem matcher.
pub open spec fn spec_render_task_back(t: TaskV) -> Seq<char> {
    (if t.depends_order_sequence {
        "            \"dependsOrder\": \"sequence\",\n"@
    } else {
        Seq::<char>::empty()
    }) + spec_render_depends_line(t.depends_on) + (if t.group_default_build {
        "            \"group\": { \"kind\": \"build\", \"isDefault\": true },\n"@
    } else {
        Seq::<char>::empty()
    }) + spec_render_presentation_line(t.presentation) + spec_render_matcher_line(
        t.problem_matcher_owner,
    ) + "        },\n"@
}

/// One rendered task record.
pub open spec fn spec_render_task(t: TaskV) -> Seq<char> {
    spec_render_task_front(t) + spec_render_task_back(t)
}

/// The rendered task list, in order.
pub open spec fn spec_render_tasks(ts: Seq<TaskV>) -> Seq<char>
    decreases ts.len(),
{
    if ts.len() == 0 {
        Seq::<char>::empty()
    } else {
        spec_render_tasks(ts.drop_last()) + spec_render_task(ts.last())
    }
}

/// Everything of the document before the tasks.
pub open spec fn spec_tasks_header() -> Seq<char> {
    sentinel() + "\n"@ + "{\n"@ + "    \"version\": \"2.0.0\",\n"@
        + "    \"problemMatcher\": \"$rustc\",\n"@ + "    \"type\": \"shell\",\n"@
        + "    \"tasks\": [\n"@
}

/// The whole document: the sentinel line, the fixed fields, and the task
/// list.
pub open spec fn spec_tasks_doc(ws: Workspace) -> Seq<char> {
    spec_tasks_header() + spec_render_tasks(spec_tasks(ws)) + "    ]\n"@ + "}\n"@
}

/// Appends an optional quoted fragment.
fn render_opt_quoted(o: &mut String, prefix: &str, v: &Option<String>, suffix: &str)
    ensures
        final(o)@ == old(o)@ + spec_opt_quoted(prefix@, v.deep_view(), suffix@),
{
    match v {
        Option::Some(s) => {
            o.append(prefix);
            let q = json_quote(s.as_str());
            o.append(q.as_str());
            o.append(suffix);
            proof {
                assert(o@ =~= old(o)@ + spec_opt_quoted(prefix@, v.deep_view(), suffix@));
            }
        },
        Option::None => {},
    }
}

/// Appends the dependency line of a task.
fn render_depends_line(o: &mut String, ds: &Vec<String>)
    ensures
        final(o)@ == old(o)@ + spec_render_depends_line(ds.deep_view()),
{
    if ds.len() > 0 {
        o.append("            \"dependsOn\": [ ");
        let mut i: usize = 0;
        while i < ds.len()
            invariant
                0 <= i <= ds@.len(),
                o@ == old(o)@ + "            \"dependsOn\": [ "@ + spec_render_depends_items(
                    ds.deep_view().take(i as int),
                ),
            decreases ds@.len() - i,
        {
            let q = json_quote(ds[i].as_str());
            o.append(q.as_str());
            o.append(", ");
            proof {
                assert(ds.deep_view().take(i + 1).drop_last() =~= ds.deep_view().take(i as int));
                assert(ds.deep_view().take(i + 1).last() == ds@[i as int]@);
                assert(o@ =~= old(o)@ + "            \"dependsOn\": [ "@
                    + spec_render_depends_items(ds.deep_view().take(i + 1)));
            }
            i = i + 1;
        }
        o.append("],\n");
        proof {
            assert(ds.deep_view().take(ds.deep_view().len() as int) =~= ds.deep_view());
            assert(o@ =~= old(o)@ + spec_render_depends_line(ds.deep_view()));
        }
    } else {
        proof {
            assert(o@ =~= old(o)@ + spec_render_depends_line(ds.deep_view()));
        }
    }
}

/// Appends the presentation line of a task.
fn render_presentation_line(o: &mut String, p: &Option<Presentation>)
    ensures
        final(o)@ == old(o)@ + spec_render_presentation_line(p.deep_view()),
{
    match p {
        Option::Some(pp) => {
            o.append("            \"presentation\": ");
            o.append("{ ");
            if pp.clear {
                o.append("\"clear\": true, ");
            }
            match &pp.group {
                Option::Some(g) => {
                    o.append("\"group\": ");
                    let q = json_quote(g.as_str());
                    o.append(q.as_str());
                    o.append(", ");
                },
                Option::None => {},
            }
            if pp.shared_panel {
                o.append("\"panel\": \"shared\", ");
            }
            o.append("\"reveal\": ");
            let q = json_quote(pp.reveal.as_str());
            o.append(q.as_str());
            o.append(" }");
            o.append(",\n");
            proof {
                assert(o@ =~= old(o)@ + spec_render_presentation_line(p.deep_view()));
            }
        },
        Option::None => {},
    }
}

/// Appends the problem-matcher line of a task.
fn render_matcher_line(o: &mut String, owner: &Option<String>)
    ensures
        final(o)@ == old(o)@ + spec_render_matcher_line(owner.deep_view()),
{
    match owner {
        Option::Some(ow) => {
            o.append("            \"problemMatcher\": { \"base\": \"$rustc\", \"owner\": ");
            let q = json_quote(ow.as_str());
            o.append(q.as_str());
            o.append(", \"source\": ");
            let q2 = json_quote(ow.as_str());
            o.append(q2.as_str());
            o.append(" },\n");
            proof {
                assert(o@ =~= old(o)@ + spec_render_matcher_line(owner.deep_view()));
            }
        },
        Option::None => {},
    }
}

/// Appends the front of one rendered task record.
fn render_task_front(o: &mut String, t: &Task)
    ensures
        final(o)@ == old(o)@ + spec_render_task_front(t.deep_view()),
{
    o.append("        {\n");
    o.append("            \"label\": ");
    let q = json_quote(t.label.as_str());
    o.append(q.as_str());
    o.append(",\n");
    render_opt_quoted(o, "            \"command\": ", &t.command, ",\n");
    render_opt_quoted(o, "            \"windows\": { \"command\": ", &t.windows_command, " },\n");
    render_opt_quoted(o, "            \"linux\": { \"command\": ", &t.linux_command, " },\n");
    render_opt_quoted(o, "            \"osx\": { \"command\": ", &t.osx_command, " },\n");
    proof {
        assert(o@ =~= old(o)@ + spec_render_task_front(t.deep_view()));
    }
}

/// Appends the back of one rendered task record.
fn render_task_back(o: &mut String, t: &Task)
    ensures
        final(o)@ == old(o)@ + spec_render_task_back(t.deep_view()),
{
    if t.depends_order_sequence {
        o.append("            \"dependsOrder\": \"sequence\",\n");
    }
    render_depends_line(o, &t.depends_on);
    if t.group_default_build {
        o.append("            \"group\": { \"kind\": \"build\", \"isDefault\": true },\n");
    }
    render_presentation_line(o, &t.presentation);
    render_matcher_line(o, &t.problem_matcher_owner);
    o.append("        },\n");
    proof {
        assert(o@ =~= old(o)@ + spec_render_task_back(t.deep_view()));
    }
}

/// Appends one rendered task record.
fn render_task(o: &mut String, t: &Task)
    ensures
        final(o)@ == old(o)@ + spec_render_task(t.deep_view()),
{
    render_task_front(o, t);
    render_task_back(o, t);
    proof {
        assert(o@ =~= old(o)@ + spec_render_task(t.deep_view()));
    }
}

/// Renders the task-definitions document for the workspace.
pub fn create_vscode_tasks_json(ws: &Workspace) -> (r: String)
    ensures
        r@ == spec_tasks_doc(*ws),
{
    let tasks = task_definitions(ws);
    let mut o = String::new();
    o.append(crate::guard::AUTOGEN_JSON);
    o.append("\n");
    o.append("{\n");
    o.append("    \"version\": \"2.0.0\",\n");
    o.append("    \"problemMatcher\": \"$rustc\",\n");
    o.append("    \"type\": \"shell\",\n");
    o.append("    \"tasks\": [\n");
    proof {
        assert(o@ =~= spec_tasks_header());
    }
    let mut i: usize = 0;
    while i < tasks.len()
        invariant
            0 <= i <= tasks@.len(),
            tasks.deep_view() == spec_tasks(*ws),
            o@ == spec_tasks_header() + spec_render_tasks(tasks.deep_view().take(i as int)),
        decreases tasks@.len() - i,
    {
        render_task(&mut o, &tasks[i]);
        proof {
            assert(tasks.deep_view().take(i + 1).drop_last() =~= tasks.deep_view().take(i as int));
            assert(tasks.deep_view().take(i + 1).last() == tasks.deep_view()[i as int]);
            assert(tasks.deep_view()[i as int] == tasks@[i as int].deep_view());
        }
        i = i + 1;
    }
    o.append("    ]\n");
    o.append("}\n");
    proof {
        assert(tasks.deep_view().take(tasks.deep_view().len() as int) =~= tasks.deep_view());
        assert(o@ =~= spec_tasks_doc(*ws));
    }
    o
}

} // verus!
