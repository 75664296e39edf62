//! The workspace configuration that drives the orchestrator: which tools
//! exist, which projects there are, and which task each tool runs.  The
//! structures mirror the `meta.toml` file; entry lists keep the file's order
//! and are looked up by name.

use vstd::prelude::*;
use vstd::string::StringExecFns;

use crate::text::{
    chars_of, copy_range, find_char_in, find_first, starts_with_seq, str_eq, string_from_chars,
    strip_char, strip_range, trim_range, trim_spec,
};

verus! {

/// The whole orchestrator configuration.
#[derive(Debug)]
pub struct Config {
    pub workspace: WorkspaceConfig,
    /// Tool name to tool, in declaration order.
    pub tools: Vec<(String, ToolConfig)>,
    /// Project name to project, in declaration order.
    pub projects: Vec<(String, ProjectConfig)>,
}

/// The workspace header.
#[derive(Debug)]
pub struct WorkspaceConfig {
    pub name: String,
    pub root: String,
}

/// One runnable tool.
#[derive(Debug)]
pub struct ToolConfig {
    pub enabled: bool,
    pub command: String,
    pub for_languages: Vec<String>,
    pub for_tasks: Vec<String>,
}

/// One project of the workspace.
#[derive(Debug)]
pub struct ProjectConfig {
    pub project_type: String,
    pub path: String,
    /// Task name to task, in declaration order.
    pub tasks: Vec<(String, TaskConfig)>,
}

/// One task of a project: the tool that runs it and the command line handed
/// to that tool.
#[derive(Debug)]
pub struct TaskConfig {
    pub tool: String,
    pub command: String,
}

/// Two task tables describe the same tasks.
pub open spec fn project_eqv(a: ProjectConfig, b: ProjectConfig) -> bool {
    a.project_type == b.project_type && a.path == b.path && a.tasks@ == b.tasks@
}

/// Two project selections agree name by name and project by project.
pub open spec fn projects_eqv(a: Seq<(String, ProjectConfig)>, b: Seq<(String, ProjectConfig)>) -> bool {
    a.len() == b.len() && forall|i: int|
        0 <= i < a.len() ==> (#[trigger] a[i]).0 == b[i].0 && project_eqv(a[i].1, b[i].1)
}

/// The first entry under `key` in an association list, if any.
pub open spec fn spec_get<V>(entries: Seq<(String, V)>, key: Seq<char>) -> Option<V>
    decreases entries.len(),
{
    if entries.len() == 0 {
        None
    } else if entries[0].0@ == key {
        Some(entries[0].1)
    } else {
        spec_get(entries.drop_first(), key)
    }
}

/// Look a name up in an association list.
pub fn get_entry<'a, V>(entries: &'a Vec<(String, V)>, key: &str) -> (r: Option<&'a V>)
    ensures
        match r {
            Some(v) => spec_get(entries@, key@) == Some(*v),
            None => spec_get(entries@, key@) is None,
        },
{
    proof {
        assert(entries@.skip(0) =~= entries@);
    }
    let mut i: usize = 0;
    while i < entries.len()
        invariant
            i <= entries@.len(),
            spec_get(entries@, key@) == spec_get(entries@.skip(i as int), key@),
        decreases entries@.len() - i,
    {
        proof {
            assert(entries@.skip(i as int)[0] == entries@[i as int]);
        }
        if str_eq(entries[i].0.as_str(), key) {
            return Some(&entries[i].1);
        }
        proof {
            assert(entries@.skip(i as int).drop_first() =~= entries@.skip(i + 1));
        }
        i = i + 1;
    }
    None
}

/// Whether a name is present in an association list.
pub fn has_entry<V>(entries: &Vec<(String, V)>, key: &str) -> (r: bool)
    ensures
        r == (spec_get(entries@, key@) is Some),
{
    match get_entry(entries, key) {
        Some(_) => true,
        None => false,
    }
}

impl TaskConfig {
    /// An identical copy.
    pub fn duplicate(&self) -> (r: TaskConfig)
        ensures
            r == *self,
    {
        TaskConfig { tool: self.tool.clone(), command: self.command.clone() }
    }
}

impl ProjectConfig {
    /// An identical copy.
    pub fn duplicate(&self) -> (r: ProjectConfig)
        ensures
            project_eqv(r, *self),
    {
        let mut tasks: Vec<(String, TaskConfig)> = Vec::new();
        let mut i: usize = 0;
        while i < self.tasks.len()
            invariant
                i <= self.tasks@.len(),
                tasks@ == self.tasks@.take(i as int),
            decreases self.tasks@.len() - i,
        {
            tasks.push((self.tasks[i].0.clone(), self.tasks[i].1.duplicate()));
            i = i + 1;
            proof {
                assert(tasks@ =~= self.tasks@.take(i as int));
            }
        }
        proof {
            assert(self.tasks@.take(self.tasks@.len() as int) =~= self.tasks@);
        }
        ProjectConfig { project_type: self.project_type.clone(), path: self.path.clone(), tasks }
    }
}

/// The projects a command runs over: the named ones, in the given order, or
/// every configured project.  An unknown name fails the whole selection
/// before anything runs.
pub fn get_projects_to_run(config: &Config, projects: Option<Vec<String>>) -> (r: Result<
    Vec<(String, ProjectConfig)>,
    String,
>)
    ensures
        match r {
            Ok(sel) => match projects {
                Some(names) => sel@.len() == names@.len() && forall|i: int|
                    0 <= i < names@.len() ==> (#[trigger] sel@[i]).0 == names@[i] && match
                        spec_get(config.projects@, names@[i]@) {
                        Some(p) => project_eqv(sel@[i].1, p),
                        None => false,
                    },
                None => projects_eqv(sel@, config.projects@),
            },
            Err(e) => projects is Some && exists|i: int|
                0 <= i < projects.unwrap()@.len() && spec_get(
                    config.projects@,
                    #[trigger] projects.unwrap()@[i]@,
                ) is None && e@ == "Project not found: "@ + projects.unwrap()@[i]@,
        },
{
    match &projects {
        Some(names) => {
            proof {
                assert(projects == Some(*names));
            }
            let mut sel: Vec<(String, ProjectConfig)> = Vec::new();
            let mut i: usize = 0;
            while i < names.len()
                invariant
                    projects == Some(*names),
                    i <= names@.len(),
                    sel@.len() == i,
                    forall|k: int|
                        0 <= k < i ==> (#[trigger] sel@[k]).0 == names@[k] && match spec_get(
                            config.projects@,
                            names@[k]@,
                        ) {
                            Some(p) => project_eqv(sel@[k].1, p),
                            None => false,
                        },
                decreases names@.len() - i,
            {
                match get_entry(&config.projects, names[i].as_str()) {
                    Some(p) => {
                        sel.push((names[i].clone(), p.duplicate()));
                    },
                    None => {
                        let mut msg = String::from_str("Project not found: ");
                        msg.append(names[i].as_str());
                        proof {
                            assert(spec_get(config.projects@, projects.unwrap()@[i as int]@)
                                is None);
                            assert(msg@ == "Project not found: "@ + projects.unwrap()@[
                                i as int
                            ]@);
                        }
                        return Err(msg);
                    },
                }
                i = i + 1;
            }
            Ok(sel)
        },
        None => {
            let mut sel: Vec<(String, ProjectConfig)> = Vec::new();
            let mut i: usize = 0;
            while i < config.projects.len()
                invariant
                    i <= config.projects@.len(),
                    sel@.len() == i,
                    forall|k: int|
                        0 <= k < i ==> (#[trigger] sel@[k]).0 == config.projects@[k].0
                            && project_eqv(sel@[k].1, config.projects@[k].1),
                decreases config.projects@.len() - i,
            {
                sel.push((config.projects[i].0.clone(), config.projects[i].1.duplicate()));
                i = i + 1;
            }
            Ok(sel)
        },
    }
}

/// The shell command line that launches one dev task: turborepo runs from
/// the workspace root, every other tool runs from the project directory.
pub open spec fn spec_full_command(tool_cmd: Seq<char>, path: Seq<char>, task_cmd: Seq<char>) -> Seq<char> {
    if tool_cmd == "turbo"@ {
        tool_cmd + " "@ + task_cmd
    } else {
        "cd "@ + path + " && "@ + tool_cmd + " "@ + task_cmd
    }
}

/// The dev command lines of a selection, project by project in order: a
/// project without a dev task contributes nothing, and the first dev task
/// whose tool is not configured fails the whole plan.
pub open spec fn spec_dev_commands(
    tools: Seq<(String, ToolConfig)>,
    sel: Seq<(String, ProjectConfig)>,
) -> Result<Seq<(Seq<char>, Seq<char>)>, Seq<char>>
    decreases sel.len(),
{
    if sel.len() == 0 {
        Ok(Seq::empty())
    } else {
        let name = sel[0].0;
        let project = sel[0].1;
        match spec_get(project.tasks@, "dev"@) {
            None => spec_dev_commands(tools, sel.drop_first()),
            Some(task) => match spec_get(tools, task.tool@) {
                None => Err("Tool not found: "@ + task.tool@),
                Some(tool) => match spec_dev_commands(tools, sel.drop_first()) {
                    Err(e) => Err(e),
                    Ok(rest) => Ok(
                        seq![
                            (name@, spec_full_command(tool.command@, project.path@, task.command@)),
                        ] + rest,
                    ),
                },
            },
        }
    }
}

/// The views of a list of named command lines.
pub open spec fn cmds_view(v: Seq<(String, String)>) -> Seq<(Seq<char>, Seq<char>)> {
    v.map_values(|p: (String, String)| (p.0@, p.1@))
}

/// Assemble the dev command line of every selected project, failing fast on
/// the first dev task whose tool is not configured.
pub fn dev_commands(config: &Config, sel: &Vec<(String, ProjectConfig)>) -> (r: Result<
    Vec<(String, String)>,
    String,
>)
    ensures
        match r {
            Ok(cmds) => spec_dev_commands(config.tools@, sel@) == Ok::<_, Seq<char>>(
                cmds_view(cmds@),
            ),
            Err(e) => spec_dev_commands(config.tools@, sel@) == Err::<
                Seq<(Seq<char>, Seq<char>)>,
                _,
            >(e@),
        },
{
    let mut out: Vec<(String, String)> = Vec::new();
    let mut i: usize = 0;
    proof {
        assert(sel@.skip(0) =~= sel@);
    }
    while i < sel.len()
        invariant
            i <= sel@.len(),
            match spec_dev_commands(config.tools@, sel@.skip(i as int)) {
                Ok(rest) => spec_dev_commands(config.tools@, sel@) == Ok::<_, Seq<char>>(
                    cmds_view(out@) + rest,
                ),
                Err(e) => spec_dev_commands(config.tools@, sel@) == Err::<
                    Seq<(Seq<char>, Seq<char>)>,
                    _,
                >(e),
            },
        decreases sel@.len() - i,
    {
        let ghost suf = sel@.skip(i as int);
        proof {
            assert(suf[0] == sel@[i as int]);
            assert(suf.drop_first() =~= sel@.skip(i + 1));
        }
        let name = &sel[i].0;
        let project = &sel[i].1;
        match get_entry(&project.tasks, "dev") {
            None => {},
            Some(task) => {
                match get_entry(&config.tools, task.tool.as_str()) {
                    None => {
                        let mut msg = String::from_str("Tool not found: ");
                        msg.append(task.tool.as_str());
                        return Err(msg);
                    },
                    Some(tool) => {
                        let full = if str_eq(tool.command.as_str(), "turbo") {
                            let mut f = tool.command.clone();
                            f.append(" ");
                            f.append(task.command.as_str());
                            f
                        } else {
                            let mut f = String::from_str("cd ");
                            f.append(project.path.as_str());
                            f.append(" && ");
                            f.append(tool.command.as_str());
                            f.append(" ");
                            f.append(task.command.as_str());
                            f
                        };
                        proof {
                            assert(full@ =~= spec_full_command(
                                tool.command@,
                                project.path@,
                                task.command@,
                            ));
                        }
                        let ghost oldv = cmds_view(out@);
                        out.push((name.clone(), full));
                        proof {
                            assert(cmds_view(out@) =~= oldv + seq![
                                (sel@[i as int].0@, spec_full_command(
                                    tool.command@,
                                    project.path@,
                                    task.command@,
                                )),
                            ]);
                            if spec_dev_commands(config.tools@, sel@.skip(i + 1)) is Ok {
                                let rest = spec_dev_commands(
                                    config.tools@,
                                    sel@.skip(i + 1),
                                )->Ok_0;
                                assert(oldv + (seq![
                                    (sel@[i as int].0@, spec_full_command(
                                        tool.command@,
                                        project.path@,
                                        task.command@,
                                    )),
                                ] + rest) =~= cmds_view(out@) + rest);
                            }
                        }
                    },
                }
            },
        }
        i = i + 1;
    }
    proof {
        assert(sel@.skip(sel@.len() as int) =~= Seq::<(String, ProjectConfig)>::empty());
        assert(cmds_view(out@) + Seq::<(Seq<char>, Seq<char>)>::empty() =~= cmds_view(out@));
    }
    Ok(out)
}

/// A project found by scanning the workspace for manifest files.
#[derive(Debug)]
pub struct DetectedProject {
    pub name: String,
    pub path: String,
    pub project_type: ProjectType,
    /// The package name from `package.json`, where one was found.
    pub package_name: Option<String>,
}

/// The kind of project a manifest file announces.
#[derive(Debug, Clone, Copy, PartialEq, Eq, Structural)]
pub enum ProjectType {
    Rust,
    Next,
    Node,
}

/// The fixed head of a generated `meta.toml`: workspace header and the three
/// standard tool declarations.
pub open spec fn spec_config_header() -> Seq<char> {
    r#"version = "1"

[workspace]
name = "Meta Monorepo"
root = "."

# Tool declarations
[tools.turborepo]
enabled = true
command = "turbo"
for_languages = ["typescript", "javascript"]
for_tasks = ["dev", "build", "lint", "typecheck"]

[tools.bacon]
enabled = true
command = "bacon"
for_languages = ["rust"]
for_tasks = ["dev"]

[tools.cargo]
enabled = true
command = "cargo"
for_languages = ["rust"]
for_tasks = ["build", "test"]

"#@
}

/// The task table of a generated Rust project.
pub open spec fn spec_rust_tasks() -> Seq<char> {
    "dev = { tool = \"bacon\", command = \"run-long\" }\nbuild = { tool = \"cargo\", command = \"build --release\" }\ntest = { tool = \"cargo\", command = \"test\" }\n\n"@
}

/// One generated `[projects.<name>]` section.
pub open spec fn spec_project_section(p: DetectedProject) -> Seq<char> {
    "[projects."@ + p.name@ + "]\n"@ + match p.project_type {
        ProjectType::Rust => "type = \"rust\"\npath = \""@ + p.path@ + "\"\n\n"@ + "[projects."@
            + p.name@ + ".tasks]\n"@ + spec_rust_tasks(),
        ProjectType::Next | ProjectType::Node => {
            let tname = if p.project_type == ProjectType::Next {
                "next"@
            } else {
                "node"@
            };
            "type = \""@ + tname + "\"\npath = \""@ + p.path@ + "\"\n\n"@ + "[projects."@
                + p.name@ + ".tasks]\n"@ + match p.package_name {
                Some(pkg) => "dev = { tool = \"turborepo\", command = \"dev --filter="@ + pkg@
                    + "\" }\n"@ + "build = { tool = \"turborepo\", command = \"build --filter="@
                    + pkg@ + "\" }\n"@
                    + "test = { tool = \"turborepo\", command = \"test --filter="@ + pkg@
                    + "\" }\n\n"@,
                None => "dev = { tool = \"turborepo\", command = \"dev\" }\n"@
                    + "build = { tool = \"turborepo\", command = \"build\" }\n"@
                    + "test = { tool = \"turborepo\", command = \"test\" }\n\n"@,
            }
        },
    }
}

/// The first `n` generated project sections, concatenated.
pub open spec fn spec_sections_upto(ps: Seq<DetectedProject>, n: int) -> Seq<char>
    decreases n,
{
    if n <= 0 {
        Seq::empty()
    } else {
        spec_sections_upto(ps, n - 1) + spec_project_section(ps[n - 1])
    }
}

/// The whole generated configuration file.
pub open spec fn spec_generate_config(ps: Seq<DetectedProject>) -> Seq<char> {
    spec_config_header() + "# Project definitions\n"@ + spec_sections_upto(ps, ps.len() as int)
}

/// The literal head of every generated configuration.
pub fn config_header_text() -> (r: &'static str)
    ensures
        r@ == spec_config_header(),
{
    r#"version = "1"

[workspace]
name = "Meta Monorepo"
root = "."

# Tool declarations
[tools.turborepo]
enabled = true
command = "turbo"
for_languages = ["typescript", "javascript"]
for_tasks = ["dev", "build", "lint", "typecheck"]

[tools.bacon]
enabled = true
command = "bacon"
for_languages = ["rust"]
for_tasks = ["dev"]

[tools.cargo]
enabled = true
command = "cargo"
for_languages = ["rust"]
for_tasks = ["build", "test"]

"#
}

/// The literal task table of a generated Rust project.
pub fn rust_tasks_text() -> (r: &'static str)
    ensures
        r@ == spec_rust_tasks(),
{
    "dev = { tool = \"bacon\", command = \"run-long\" }\nbuild = { tool = \"cargo\", command = \"build --release\" }\ntest = { tool = \"cargo\", command = \"test\" }\n\n"
}

/// Generate the text of a `meta.toml` for the detected projects: the fixed
/// workspace and tool declarations, then one section per project with the
/// standard dev, build and test tasks of its kind.
#[verifier::rlimit(60)]
pub fn generate_config(projects: &Vec<DetectedProject>) -> (r: String)
    ensures
        r@ == spec_generate_config(projects@),
{
    let mut out = String::from_str(config_header_text());
    out.append("# Project definitions\n");
    let mut i: usize = 0;
    while i < projects.len()
        invariant
            i <= projects@.len(),
            out@ == spec_config_header() + "# Project definitions\n"@ + spec_sections_upto(
                projects@,
                i as int,
            ),
        decreases projects@.len() - i,
    {
        let ghost before = out@;
        let p = &projects[i];
        let mut sec = String::from_str("[projects.");
        sec.append(p.name.as_str());
        sec.append("]\n");
        match p.project_type {
            ProjectType::Rust => {
                sec.append("type = \"rust\"\npath = \"");
                sec.append(p.path.as_str());
                sec.append("\"\n\n");
                sec.append("[projects.");
                sec.append(p.name.as_str());
                sec.append(".tasks]\n");
                sec.append(rust_tasks_text());
                proof {
                    assert(sec@ =~= spec_project_section(projects@[i as int]));
                }
            },
            ProjectType::Next | ProjectType::Node => {
                let tname = if matches!(p.project_type, ProjectType::Next) {
                    "next"
                } else {
                    "node"
                };
                sec.append("type = \"");
                sec.append(tname);
                sec.append("\"\npath = \"");
                sec.append(p.path.as_str());
                sec.append("\"\n\n");
                sec.append("[projects.");
                sec.append(p.name.as_str());
                sec.append(".tasks]\n");
                match &p.package_name {
                    Some(pkg) => {
                        sec.append("dev = { tool = \"turborepo\", command = \"dev --filter=");
                        sec.append(pkg.as_str());
                        sec.append("\" }\n");
                        sec.append(
                            "build = { tool = \"turborepo\", command = \"build --filter=",
                        );
                        sec.append(pkg.as_str());
                        sec.append("\" }\n");
                        sec.append(
                            "test = { tool = \"turborepo\", command = \"test --filter=",
                        );
                        sec.append(pkg.as_str());
                        sec.append("\" }\n\n");
                    },
                    None => {
                        sec.append("dev = { tool = \"turborepo\", command = \"dev\" }\n");
                        sec.append("build = { tool = \"turborepo\", command = \"build\" }\n");
                        sec.append("test = { tool = \"turborepo\", command = \"test\" }\n\n");
                    },
                }
                proof {
                    assert(sec@ =~= spec_project_section(projects@[i as int]));
                }
            },
        }
        out.append(sec.as_str());
        i = i + 1;
        proof {
            assert(out@ =~= spec_config_header() + "# Project definitions\n"@
                + spec_sections_upto(projects@, i as int));
        }
    }
    out
}

/// The binary name a manifest line announces, if it is a `name = "..."`
/// line: the part between the first `=` and the next one (or the line end),
/// trimmed and stripped of quotes, where that leaves anything.
pub open spec fn spec_line_name(line: Seq<char>) -> Option<Seq<char>> {
    let t = trim_spec(line);
    if starts_with_seq(t, "name"@) {
        match find_first(t, '=') {
            None => None,
            Some(p) => {
                let after = t.subrange(p + 1, t.len() as int);
                let field = match find_first(after, '=') {
                    None => after,
                    Some(q) => after.subrange(0, q),
                };
                let cand = strip_char(strip_char(trim_spec(field), '"'), '\'');
                if cand.len() > 0 {
                    Some(cand)
                } else {
                    None
                }
            },
        }
    } else {
        None
    }
}

/// The first binary name any line of the manifest announces.
pub open spec fn spec_manifest_name(s: Seq<char>) -> Option<Seq<char>>
    decreases s.len(),
{
    match find_first(s, '\n') {
        None => spec_line_name(s),
        Some(i) => if 0 <= i < s.len() {
            match spec_line_name(s.subrange(0, i)) {
                Some(n) => Some(n),
                None => spec_manifest_name(s.subrange(i + 1, s.len() as int)),
            }
        } else {
            None
        },
    }
}

/// The name range `v[x..y]` that the line `v[a..b]` announces, if any.
fn line_name_range(v: &Vec<char>, a: usize, b: usize) -> (r: Option<(usize, usize)>)
    requires
        a <= b <= v@.len(),
    ensures
        ({
            let line = v@.subrange(a as int, b as int);
            match r {
                Some(xy) => a <= xy.0 <= xy.1 <= b && spec_line_name(line) == Some(
                    v@.subrange(xy.0 as int, xy.1 as int),
                ),
                None => spec_line_name(line) is None,
            }
        }),
{
    let ghost line = v@.subrange(a as int, b as int);
    let (lo, hi) = trim_range(v, a, b);
    let ghost t = trim_spec(line);
    proof {
        assert(t == v@.subrange(lo as int, hi as int));
        reveal_strlit("name");
    }
    if hi - lo < 4 {
        proof {
            assert(!starts_with_seq(t, "name"@));
        }
        return None;
    }
    if !(v[lo] == 'n' && v[lo + 1] == 'a' && v[lo + 2] == 'm' && v[lo + 3] == 'e') {
        proof {
            if starts_with_seq(t, "name"@) {
                assert(t.subrange(0, 4)[0] == t[0]);
                assert(t.subrange(0, 4)[1] == t[1]);
                assert(t.subrange(0, 4)[2] == t[2]);
                assert(t.subrange(0, 4)[3] == t[3]);
            }
        }
        return None;
    }
    proof {
        assert(t.subrange(0, 4) =~= "name"@);
    }
    match find_char_in(v, lo, hi, '=') {
        None => None,
        Some(p) => {
            let ghost after = t.subrange(p - lo + 1, t.len() as int);
            proof {
                assert(after =~= v@.subrange(p + 1, hi as int));
            }
            let fend = match find_char_in(v, p + 1, hi, '=') {
                None => hi,
                Some(q) => q,
            };
            let ghost field = v@.subrange(p + 1, fend as int);
            proof {
                match find_first(after, '=') {
                    None => {},
                    Some(q) => {
                        assert(after.subrange(0, q) =~= v@.subrange(p + 1, p + 1 + q));
                    },
                }
            }
            let (l1, h1) = trim_range(v, p + 1, fend);
            let (l2, h2) = strip_range(v, l1, h1, '"');
            let (l3, h3) = strip_range(v, l2, h2, '\'');
            if h3 > l3 {
                Some((l3, h3))
            } else {
                None
            }
        },
    }
}

/// The binary name of a Rust project, read from the text of its manifest:
/// the first line that starts (after trimming) with `name` and carries an
/// `=` names it, with surrounding quotes stripped; a line whose name comes
/// out empty is passed over.
pub fn rust_binary_name(manifest: &str) -> (r: Option<String>)
    ensures
        match r {
            Some(n) => spec_manifest_name(manifest@) == Some(n@),
            None => spec_manifest_name(manifest@) is None,
        },
{
    let v = chars_of(manifest);
    let n = v.len();
    let mut start: usize = 0;
    proof {
        assert(v@.subrange(0, n as int) =~= v@);
    }
    while start < n
        invariant
            v@ == manifest@,
            start <= n == v@.len(),
            spec_manifest_name(v@) == spec_manifest_name(v@.subrange(start as int, n as int)),
        decreases n - start,
    {
        let ghost rem = v@.subrange(start as int, n as int);
        match find_char_in(&v, start, n, '\n') {
            Some(nl) => {
                proof {
                    assert(rem.subrange(0, nl - start) =~= v@.subrange(start as int, nl as int));
                    assert(rem.subrange(nl - start + 1, rem.len() as int) =~= v@.subrange(
                        nl + 1,
                        n as int,
                    ));
                }
                match line_name_range(&v, start, nl) {
                    Some((x, y)) => {
                        let nm = copy_range(&v, x, y);
                        return Some(string_from_chars(&nm));
                    },
                    None => {
                        start = nl + 1;
                    },
                }
            },
            None => {
                let r = line_name_range(&v, start, n);
                match r {
                    Some((x, y)) => {
                        let nm = copy_range(&v, x, y);
                        return Some(string_from_chars(&nm));
                    },
                    None => {
                        return None;
                    },
                }
            },
        }
    }
    proof {
        assert(v@.subrange(start as int, n as int).len() == 0);
    }
    None
}

} // verus!
