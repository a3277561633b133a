//! What generating a project consists of: the bindings of its templates and
//! the steps that write it out, in order.

use vstd::prelude::*;
use crate::bundle::{
    bundle_paths,
    bundle_templates,
    files,
    lemma_bundle_stays_under_root,
    stays_under_root,
};
use crate::paths::{
    begins_doubly,
    ends_with,
    executable_under,
    starts_with,
    lemma_executables_are_file_names,
    PathError,
    COMPILER_FILE,
    DEBUGGER_FILE,
};
use crate::text::{is_uniform, normalize_separators, normalized};
use crate::template::{render, rendering, Bindings};

verus! {

/// The file that test input is read from.
pub const INPUT_FILE: &'static str = "data.in";

/// The file that test output is written to.
pub const OUTPUT_FILE: &'static str = "data.out";

/// The directory that build output goes to.
pub const BUILD_DIR: &'static str = "target";

/// The file that holds the ignore rules.
pub const IGNORE_FILE: &'static str = ".gitignore";

/// The ignore rules: editor settings and build output stay out of the
/// repository.
pub const IGNORE_RULES: &'static str = ".vscode/\ntarget/\n";

/// The starter source file.
pub const SOURCE_FILE: &'static str = "main.cpp";

/// The text of the starter source file.
pub const STARTER_SOURCE: &'static str =
r#"#include <iostream>
using namespace std;

int main(){
    cout << "Hello, World" << '\n';
    return 0;
}
"#;

/// One thing to do under the project's root. Paths are relative to the root.
#[derive(Debug, Clone, PartialEq, Eq)]
pub enum Step {
    /// Create the directory `path`.
    CreateDir { path: String },
    /// Write `content` to the file `path`, creating its parent directories
    /// and replacing what the file held.
    WriteFile { path: String, content: String },
    /// Initialise a repository in the root.
    InitRepository,
}

/// A step as contracts speak of it.
pub enum StepView {
    CreateDir { path: Seq<char> },
    WriteFile { path: Seq<char>, content: Seq<char> },
    InitRepository,
}

impl View for Step {
    type V = StepView;

    open spec fn view(&self) -> StepView {
        match *self {
            Step::CreateDir { path } => StepView::CreateDir { path: path@ },
            Step::WriteFile { path, content } => StepView::WriteFile {
                path: path@,
                content: content@,
            },
            Step::InitRepository => StepView::InitRepository,
        }
    }
}

/// The views of a list of steps.
pub open spec fn views(steps: Seq<Step>) -> Seq<StepView> {
    steps.map_values(|s: Step| s@)
}

/// The bindings of a project: its name, its root, its standard and the two
/// executables of its toolchain.
pub open spec fn substitution_table(
    name: Seq<char>,
    root: Seq<char>,
    standard: Seq<char>,
    compiler: Seq<char>,
    debugger: Seq<char>,
) -> Map<Seq<char>, Seq<char>> {
    Map::empty().insert("project"@, name).insert("current_dir"@, root).insert(
        "stdc++"@,
        standard,
    ).insert("g++"@, compiler).insert("gdb"@, debugger)
}

/// The steps that write the bundle: one file for each entry, in the bundle's
/// order, holding the entry's template filled in from `table`.
pub open spec fn bundle_steps(table: Map<Seq<char>, Seq<char>>) -> Seq<StepView> {
    Seq::new(
        5,
        |i: int|
            StepView::WriteFile {
                path: bundle_paths()[i],
                content: rendering(bundle_templates()[i], table),
            },
    )
}

/// The steps that are the same for every project: the two empty data files,
/// the build directory, the ignore rules, the starter source, and last the
/// repository.
pub open spec fn fixed_steps() -> Seq<StepView> {
    seq![
        StepView::WriteFile { path: INPUT_FILE@, content: Seq::empty() },
        StepView::WriteFile { path: OUTPUT_FILE@, content: Seq::empty() },
        StepView::CreateDir { path: BUILD_DIR@ },
        StepView::WriteFile { path: IGNORE_FILE@, content: IGNORE_RULES@ },
        StepView::WriteFile { path: SOURCE_FILE@, content: STARTER_SOURCE@ },
        StepView::InitRepository,
    ]
}

/// The bindings of a project bind the five names that the bundle's templates
/// refer to and no other, each to its own value.
pub proof fn lemma_substitution_binds_all(
    name: Seq<char>,
    root: Seq<char>,
    standard: Seq<char>,
    compiler: Seq<char>,
    debugger: Seq<char>,
)
    ensures
        substitution_table(name, root, standard, compiler, debugger).dom() == set![
            "project"@,
            "current_dir"@,
            "stdc++"@,
            "g++"@,
            "gdb"@,
        ],
        substitution_table(name, root, standard, compiler, debugger)["project"@] == name,
        substitution_table(name, root, standard, compiler, debugger)["current_dir"@] == root,
        substitution_table(name, root, standard, compiler, debugger)["stdc++"@] == standard,
        substitution_table(name, root, standard, compiler, debugger)["g++"@] == compiler,
        substitution_table(name, root, standard, compiler, debugger)["gdb"@] == debugger,
{
    reveal_strlit("project");
    reveal_strlit("current_dir");
    reveal_strlit("stdc++");
    reveal_strlit("g++");
    reveal_strlit("gdb");
    assert("project"@.len() == 7 && "current_dir"@.len() == 11 && "stdc++"@.len() == 6);
    assert("g++"@.len() == 3 && "gdb"@.len() == 3 && "g++"@[1] != "gdb"@[1]);
    assert(substitution_table(name, root, standard, compiler, debugger).dom() =~= set![
        "project"@,
        "current_dir"@,
        "stdc++"@,
        "g++"@,
        "gdb"@,
    ]);
}

/// Whether `step` touches nothing but the project: a step that names a path
/// names one under the root.
pub open spec fn is_confined(step: StepView) -> bool {
    match step {
        StepView::CreateDir { path } => stays_under_root(path),
        StepView::WriteFile { path, content } => stays_under_root(path),
        StepView::InitRepository => true,
    }
}

/// Every step of a project is confined to the project's root, whatever is
/// bound; the repository comes last, and no step before it is one.
pub proof fn lemma_steps_are_confined(table: Map<Seq<char>, Seq<char>>)
    ensures
        (bundle_steps(table) + fixed_steps()).len() == 11,
        forall|i: int| 0 <= i < 11 ==> is_confined(#[trigger] (bundle_steps(table) + fixed_steps())[i]),
        forall|i: int|
            0 <= i < 11 ==> ((#[trigger] (bundle_steps(table) + fixed_steps())[i]) is InitRepository
                <==> i == 10),
{
    lemma_bundle_stays_under_root();
    reveal_strlit("data.in");
    reveal_strlit("data.out");
    reveal_strlit("target");
    reveal_strlit(".gitignore");
    reveal_strlit("main.cpp");
    assert(stays_under_root(INPUT_FILE@));
    assert(stays_under_root(OUTPUT_FILE@));
    assert(stays_under_root(BUILD_DIR@));
    assert(stays_under_root(IGNORE_FILE@));
    assert(stays_under_root(SOURCE_FILE@));
    let all = bundle_steps(table) + fixed_steps();
    assert forall|i: int| 0 <= i < 11 implies is_confined(#[trigger] all[i]) && (all[i] is InitRepository
        <==> i == 10) by {
        if i < 5 {
            assert(all[i] == bundle_steps(table)[i]);
            assert(stays_under_root(bundle_paths()[i]));
        } else {
            assert(all[i] == fixed_steps()[i - 5]);
        }
    }
}

/// Builds the bindings of a project.
pub fn substitution(name: &str, root: &str, standard: &str, compiler: &str, debugger: &str) -> (r:
    Bindings)
    ensures
        r@ == substitution_table(name@, root@, standard@, compiler@, debugger@),
{
    let mut table = Bindings::new();
    table.insert("project", name);
    table.insert("current_dir", root);
    table.insert("stdc++", standard);
    table.insert("g++", compiler);
    table.insert("gdb", debugger);
    table
}

/// Renders every file of the bundle with `bindings`.
pub fn render_bundle(bindings: &Bindings) -> (r: Vec<Step>)
    ensures
        r@.len() == 5,
        views(r@) == bundle_steps(bindings@),
{
    let bundle = files();
    let mut steps: Vec<Step> = Vec::new();
    let mut i: usize = 0;
    while i < 5
        invariant
            i <= 5,
            bundle@.len() == 5,
            forall|j: int| 0 <= j < 5 ==> (#[trigger] bundle@[j]).path@ == bundle_paths()[j],
            forall|j: int| 0 <= j < 5 ==> (#[trigger] bundle@[j]).content@ == bundle_templates()[j],
            steps@.len() == i,
            forall|j: int| 0 <= j < i ==> (#[trigger] steps@[j])@ == bundle_steps(bindings@)[j],
        decreases 5 - i,
    {
        let content = render(bundle[i].content, bindings);
        steps.push(Step::WriteFile { path: bundle[i].path.to_owned(), content });
        i = i + 1;
    }
    assert(views(steps@) =~= bundle_steps(bindings@));
    steps
}

/// Adds to the rendered bundle the steps that are the same for every
/// project.
pub fn complete(rendered: Vec<Step>) -> (r: Vec<Step>)
    ensures
        r@.len() == rendered@.len() + 6,
        views(r@) == views(rendered@) + fixed_steps(),
{
    let mut steps = rendered;
    steps.push(Step::WriteFile { path: INPUT_FILE.to_owned(), content: String::new() });
    steps.push(Step::WriteFile { path: OUTPUT_FILE.to_owned(), content: String::new() });
    steps.push(Step::CreateDir { path: BUILD_DIR.to_owned() });
    steps.push(Step::WriteFile { path: IGNORE_FILE.to_owned(), content: IGNORE_RULES.to_owned() });
    steps.push(
        Step::WriteFile { path: SOURCE_FILE.to_owned(), content: STARTER_SOURCE.to_owned() },
    );
    steps.push(Step::InitRepository);
    assert(views(steps@) =~= views(rendered@) + fixed_steps());
    steps
}

/// The steps that write out the project `name` under `root`, for `standard`
/// and the two executables given. Every argument is taken as it is.
pub fn project_steps(
    name: &str,
    root: &str,
    standard: &str,
    compiler: &str,
    debugger: &str,
) -> (r: Vec<Step>)
    ensures
        r@.len() == 11,
        views(r@) == bundle_steps(
            substitution_table(name@, root@, standard@, compiler@, debugger@),
        ) + fixed_steps(),
{
    let bindings = substitution(name, root, standard, compiler, debugger);
    complete(render_bundle(&bindings))
}

/// Whether a failure of `step` ends the generation. Only the repository may
/// fail without harm: a project is complete without it.
pub fn failure_aborts(step: &Step) -> (r: bool)
    ensures
        r == !(step@ is InitRepository),
{
    match step {
        Step::InitRepository => false,
        _ => true,
    }
}

/// What follows a step.
#[derive(Debug, Clone, Copy, PartialEq, Eq, Structural)]
pub enum Progress {
    /// The step at this index is next.
    Next { index: usize },
    /// Every step has been taken: the project stands.
    Finished,
    /// The step at this index failed and the generation ends there; what was
    /// written stays.
    Aborted { at: usize },
}

/// Where a generation stands after the step at `index`, which succeeded or
/// failed: a failure ends it there, unless the step is the repository's;
/// otherwise the next step is due, or none after the last.
pub open spec fn progress_after(steps: Seq<StepView>, index: int, succeeded: bool) -> Progress {
    if 0 <= index < steps.len() && !succeeded && !(steps[index] is InitRepository) {
        Progress::Aborted { at: index as usize }
    } else if index + 1 < steps.len() {
        Progress::Next { index: (index + 1) as usize }
    } else {
        Progress::Finished
    }
}

/// Decides what follows the step at `index`, which has just succeeded or
/// failed.
pub fn after_step(steps: &Vec<Step>, index: usize, succeeded: bool) -> (r: Progress)
    ensures
        r == progress_after(views(steps@), index as int, succeeded),
{
    let count = steps.len();
    if index >= count {
        Progress::Finished
    } else if !succeeded && failure_aborts(&steps[index]) {
        Progress::Aborted { at: index }
    } else if index + 1 < count {
        Progress::Next { index: index + 1 }
    } else {
        Progress::Finished
    }
}

/// Where a generation begins: at the first step, or nowhere without steps.
pub fn first_step(steps: &Vec<Step>) -> (r: Progress)
    ensures
        r == progress_after(views(steps@), -1, true),
{
    if steps.len() > 0 {
        Progress::Next { index: 0 }
    } else {
        Progress::Finished
    }
}

/// A project whose repository cannot be had is still a project: whatever is
/// bound, the last step of a generation never aborts it, and every step
/// before the last does when it fails.
pub proof fn lemma_only_the_repository_may_fail(table: Map<Seq<char>, Seq<char>>, index: int)
    requires
        0 <= index < 11,
    ensures
        progress_after(bundle_steps(table) + fixed_steps(), index, false) == if index == 10 {
            Progress::Finished
        } else {
            Progress::Aborted { at: index as usize }
        },
        progress_after(bundle_steps(table) + fixed_steps(), index, true) == if index == 10 {
            Progress::Finished
        } else {
            Progress::Next { index: (index + 1) as usize }
        },
{
    lemma_steps_are_confined(table);
}

/// A project ready to be written: the two executables that its files refer
/// to, and the steps.
#[derive(Debug, Clone, PartialEq, Eq)]
pub struct Generation {
    pub compiler: String,
    pub debugger: String,
    pub steps: Vec<Step>,
}

/// Plans the project `name`, whose root directory is `root`, for `standard`
/// and the toolchain at `toolchain_path`. The plan is always there. The
/// root's separators are made uniform. The two executables are those of the
/// toolchain directory: each path ends with its file name, and begins with
/// the directory unless that begins with two separators. The steps are those
/// of `project_steps` for these values.
pub fn generate(name: &str, root: &str, standard: &str, toolchain_path: &str) -> (r: Result<
    Generation,
    PathError,
>)
    ensures
        r is Ok,
        is_uniform(r->Ok_0.compiler@),
        is_uniform(r->Ok_0.debugger@),
        ends_with(r->Ok_0.compiler@, COMPILER_FILE@),
        ends_with(r->Ok_0.debugger@, DEBUGGER_FILE@),
        !begins_doubly(toolchain_path@) ==> starts_with(
            r->Ok_0.compiler@,
            normalized(toolchain_path@),
        ) && starts_with(r->Ok_0.debugger@, normalized(toolchain_path@)),
        r->Ok_0.steps@.len() == 11,
        views(r->Ok_0.steps@) == bundle_steps(
            substitution_table(
                name@,
                normalized(root@),
                standard@,
                r->Ok_0.compiler@,
                r->Ok_0.debugger@,
            ),
        ) + fixed_steps(),
{
    proof {
        lemma_executables_are_file_names();
    }
    let compiler = executable_under(toolchain_path, COMPILER_FILE);
    let debugger = executable_under(toolchain_path, DEBUGGER_FILE);
    generation_from(name, root, standard, compiler, debugger)
}

/// The failure that ends a plan: the first among the two executables, the
/// compiler's before the debugger's, or none where both were found.
pub open spec fn first_failure(
    compiler: Result<String, PathError>,
    debugger: Result<String, PathError>,
) -> Option<PathError> {
    match compiler {
        Err(e) => Some(e),
        Ok(_) => match debugger {
            Err(e) => Some(e),
            Ok(_) => None,
        },
    }
}

/// Plans the project `name` from what the search for the two executables
/// gave. A path that could not be had fails the plan, the compiler's first;
/// with both at hand the plan holds them as they are, and the steps of
/// `project_steps` for them and for `root` with uniform separators.
pub fn generation_from(
    name: &str,
    root: &str,
    standard: &str,
    compiler: Result<String, PathError>,
    debugger: Result<String, PathError>,
) -> (r: Result<Generation, PathError>)
    ensures
        match first_failure(compiler, debugger) {
            Some(e) => r == Err::<Generation, PathError>(e),
            None => r is Ok && r->Ok_0.compiler@ == compiler->Ok_0@ && r->Ok_0.debugger@
                == debugger->Ok_0@ && r->Ok_0.steps@.len() == 11 && views(r->Ok_0.steps@)
                == bundle_steps(
                substitution_table(
                    name@,
                    normalized(root@),
                    standard@,
                    compiler->Ok_0@,
                    debugger->Ok_0@,
                ),
            ) + fixed_steps(),
        },
{
    let compiler = match compiler {
        Ok(p) => p,
        Err(e) => {
            return Err(e);
        },
    };
    let debugger = match debugger {
        Ok(p) => p,
        Err(e) => {
            return Err(e);
        },
    };
    let root = normalize_separators(root);
    let steps = project_steps(name, root.as_str(), standard, compiler.as_str(), debugger.as_str());
    Ok(Generation { compiler, debugger, steps })
}

} // verus!
