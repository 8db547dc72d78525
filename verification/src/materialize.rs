//! From a plan to the steps that bring it to disk.
//!
//! Nothing here touches the file system or the network: the steps say what is to
//! be done, in order, and the caller does it, stopping at the first step that
//! fails and leaving in place what earlier steps made.

use crate::config::{ProjectFile, ProjectFileView};
use crate::resolve::{child, child_path, ResolvedPlan, ResolvedPlanView};
use crate::text::{join_lines, joined};
use vstd::prelude::*;

verus! {

/// One action on the file system or the network.
#[derive(Debug, PartialEq, Eq)]
pub enum Step {
    /// Create the directory and every missing parent; leave an existing one alone.
    CreateDir { path: String },
    /// Get `url` once and write the body as it comes to `target`, replacing what
    /// is there. Any failure to get it is an error.
    Download { url: String, target: String },
    /// Write `content` to `target`, replacing what is there.
    WriteFile { target: String, content: String },
}

/// Model of a [`Step`].
#[verifier::ext_equal]
pub enum StepView {
    CreateDir { path: Seq<char> },
    Download { url: Seq<char>, target: Seq<char> },
    WriteFile { target: Seq<char>, content: Seq<char> },
}

impl View for Step {
    type V = StepView;

    open spec fn view(&self) -> StepView {
        match self {
            Step::CreateDir { path } => StepView::CreateDir { path: path@ },
            Step::Download { url, target } => StepView::Download { url: url@, target: target@ },
            Step::WriteFile { target, content } => StepView::WriteFile {
                target: target@,
                content: content@,
            },
        }
    }
}

impl DeepView for Step {
    type V = StepView;

    open spec fn deep_view(&self) -> StepView {
        self@
    }
}

/// The line that keeps the time-tracking marker out of version control, and the
/// name of the marker file.
pub open spec fn wakatime_file() -> Seq<char> {
    ".wakatime-project"@
}

/// The name of the file that lists what version control ignores.
pub open spec fn gitignore_file() -> Seq<char> {
    ".gitignore"@
}

/// The content of `.gitignore`: the patterns, one per line, with a line break
/// between each two. With time tracking the marker file is one more line, and
/// the file then ends in a line break.
pub open spec fn gitignore_content(patterns: Seq<Seq<char>>, wakatime: bool) -> Seq<char> {
    if wakatime {
        joined(patterns.push(wakatime_file()), seq!['\n']) + seq!['\n']
    } else {
        joined(patterns, seq!['\n'])
    }
}

/// Where `file` goes in the project at `root`.
pub open spec fn file_target(root: Seq<char>, file: ProjectFileView) -> Seq<char> {
    child(child(root, file.path), file.name)
}

/// The steps for one template file: its directory, then its content, which is
/// fetched where the file has a URL and empty where it has none.
pub open spec fn file_steps(root: Seq<char>, file: ProjectFileView) -> Seq<StepView> {
    seq![
        StepView::CreateDir { path: child(root, file.path) },
        if file.url.len() == 0 {
            StepView::WriteFile { target: file_target(root, file), content: Seq::empty() }
        } else {
            StepView::Download { url: file.url, target: file_target(root, file) }
        },
    ]
}

/// The steps for the extra directories, in the order in which they are listed.
pub open spec fn dir_steps(root: Seq<char>, dirs: Seq<Seq<char>>) -> Seq<StepView> {
    dirs.map_values(|dir: Seq<char>| StepView::CreateDir { path: child(root, dir) })
}

/// The steps for all template files, file by file in the order of the list.
pub open spec fn files_steps(root: Seq<char>, files: Seq<ProjectFileView>) -> Seq<StepView> {
    files.flat_map(|file: ProjectFileView| file_steps(root, file))
}

/// The last steps: `.gitignore`, and with time tracking the marker file, which
/// holds the project name as the user gave it.
pub open spec fn closing_steps(plan: ResolvedPlanView) -> Seq<StepView> {
    let ignore = StepView::WriteFile {
        target: child(plan.project_root, gitignore_file()),
        content: gitignore_content(plan.project_type.gitignore, plan.wakatime),
    };
    if plan.wakatime {
        seq![
            ignore,
            StepView::WriteFile {
                target: child(plan.project_root, wakatime_file()),
                content: plan.name,
            },
        ]
    } else {
        seq![ignore]
    }
}

/// All steps of a plan, in order: the project root, the extra directories, the
/// template files, `.gitignore`, and the marker file where time is tracked.
pub open spec fn plan_steps(plan: ResolvedPlanView) -> Seq<StepView> {
    seq![StepView::CreateDir { path: plan.project_root }] + dir_steps(
        plan.project_root,
        plan.project_type.extra_dirs,
    ) + files_steps(plan.project_root, plan.project_type.files) + closing_steps(plan)
}

/// The content of `.gitignore` for these patterns.
pub fn gitignore_text(patterns: &Vec<String>, wakatime: bool) -> (out: String)
    ensures
        out@ == gitignore_content(patterns.deep_view(), wakatime),
{
    let mut out = join_lines(patterns);
    if wakatime {
        let ghost all = patterns.deep_view().push(wakatime_file());
        assert(all.drop_last() == patterns.deep_view());
        if patterns.len() > 0 {
            out.push('\n');
        }
        out.append(".wakatime-project");
        out.push('\n');
    }
    out
}

/// Appends the steps for one template file.
fn push_file_steps(steps: &mut Vec<Step>, root: &String, file: &ProjectFile)
    ensures
        final(steps).deep_view() == old(steps).deep_view() + file_steps(root@, file@),
{
    let dir = child_path(root.as_str(), file.path.as_str());
    let target = child_path(dir.as_str(), file.name.as_str());
    steps.push(Step::CreateDir { path: dir });
    if file.url.as_str().is_empty() {
        steps.push(Step::WriteFile { target, content: String::new() });
    } else {
        steps.push(Step::Download { url: file.url.clone(), target });
    }
}

/// The steps that bring `plan` to disk, in the order in which they are to be
/// carried out.
///
/// First the project root; then each extra directory; then, file by file, the
/// file's directory and the file itself, fetched from its URL or written empty
/// where it has none; then `.gitignore`; last, where time is tracked, the
/// marker file with the project's name.
pub fn materialize(plan: &ResolvedPlan) -> (steps: Vec<Step>)
    ensures
        steps.deep_view() == plan_steps(plan@),
{
    let root = &plan.project_root;
    let kind = &plan.project_type;
    let mut steps: Vec<Step> = Vec::new();
    steps.push(Step::CreateDir { path: root.clone() });
    let ghost opening = seq![StepView::CreateDir { path: root@ }];

    let mut i: usize = 0;
    while i < kind.extra_dirs.len()
        invariant
            i <= kind.extra_dirs.len(),
            steps.deep_view() == opening + dir_steps(root@, kind.extra_dirs.deep_view().take(i as int)),
        decreases kind.extra_dirs.len() - i,
    {
        let ghost before = steps.deep_view();
        steps.push(Step::CreateDir { path: child_path(root.as_str(), kind.extra_dirs[i].as_str()) });
        assert(steps.deep_view() =~= before.push(
            StepView::CreateDir { path: child(root@, kind@.extra_dirs[i as int]) },
        ));
        i += 1;
    }
    let ghost dirs = opening + dir_steps(root@, kind@.extra_dirs);

    let mut k: usize = 0;
    while k < kind.files.len()
        invariant
            k <= kind.files.len(),
            steps.deep_view() == dirs + files_steps(root@, kind.files.deep_view().take(k as int)),
        decreases kind.files.len() - k,
    {
        proof {
            kind.files.deep_view().lemma_flat_map_take_append(
                |file: ProjectFileView| file_steps(root@, file),
                k as int,
            );
        }
        push_file_steps(&mut steps, root, &kind.files[k]);
        k += 1;
    }
    assert(kind.files.deep_view().take(k as int) == kind.files.deep_view());

    steps.push(
        Step::WriteFile {
            target: child_path(root.as_str(), ".gitignore"),
            content: gitignore_text(&kind.gitignore.files, plan.wakatime),
        },
    );
    if plan.wakatime {
        steps.push(
            Step::WriteFile {
                target: child_path(root.as_str(), ".wakatime-project"),
                content: plan.name.clone(),
            },
        );
    }
    steps
}

/// Whether a step fetches from the network.
pub open spec fn is_download(step: StepView) -> bool {
    step is Download
}

/// Whether a template file has a URL to fetch it from.
pub open spec fn has_url(file: ProjectFileView) -> bool {
    file.url.len() > 0
}

/// The fetch that a template file with a URL asks for.
pub open spec fn download_of(root: Seq<char>, file: ProjectFileView) -> StepView {
    StepView::Download { url: file.url, target: file_target(root, file) }
}

/// The same patterns and the same flag give the same content.
pub proof fn lemma_gitignore_content_deterministic(
    first: Seq<Seq<char>>,
    second: Seq<Seq<char>>,
    wakatime: bool,
)
    requires
        first == second,
    ensures
        gitignore_content(first, wakatime) == gitignore_content(second, wakatime),
{
}

/// Time tracking adds the marker file as a last line of its own, after all the
/// patterns, and nothing else.
pub proof fn lemma_gitignore_content_with_marker(patterns: Seq<Seq<char>>)
    ensures
        gitignore_content(patterns, false) == joined(patterns, seq!['\n']),
        patterns.len() == 0 ==> gitignore_content(patterns, true) == wakatime_file() + seq!['\n'],
        patterns.len() > 0 ==> gitignore_content(patterns, true) == gitignore_content(
            patterns,
            false,
        ) + seq!['\n'] + wakatime_file() + seq!['\n'],
{
    let all = patterns.push(wakatime_file());
    assert(all.drop_last() == patterns);
}

/// A template file without a URL is written empty at its place in the project,
/// and nothing is fetched for it.
pub proof fn lemma_file_without_url_is_written_empty(root: Seq<char>, file: ProjectFileView)
    requires
        !has_url(file),
    ensures
        file_steps(root, file) == seq![
            StepView::CreateDir { path: child(root, file.path) },
            StepView::WriteFile { target: file_target(root, file), content: Seq::empty() },
        ],
        file_steps(root, file).filter(|step: StepView| is_download(step)) == Seq::<
            StepView,
        >::empty(),
{
    let steps = file_steps(root, file);
    let two = seq![steps[0]].push(steps[1]);
    assert(steps == two);
    lemma_filter_two(steps[0], steps[1]);
}

/// A template file with a URL is fetched once, from that URL to its place in
/// the project.
pub proof fn lemma_file_with_url_is_fetched_once(root: Seq<char>, file: ProjectFileView)
    requires
        has_url(file),
    ensures
        file_steps(root, file) == seq![
            StepView::CreateDir { path: child(root, file.path) },
            download_of(root, file),
        ],
        file_steps(root, file).filter(|step: StepView| is_download(step)) == seq![
            download_of(root, file),
        ],
{
    let steps = file_steps(root, file);
    let two = seq![steps[0]].push(steps[1]);
    assert(steps == two);
    lemma_filter_two(steps[0], steps[1]);
}

/// The fetches among two steps.
proof fn lemma_filter_two(a: StepView, b: StepView)
    ensures
        seq![a].push(b).filter(|step: StepView| is_download(step)) == (if is_download(a) {
            seq![a]
        } else {
            Seq::empty()
        }) + (if is_download(b) {
            seq![b]
        } else {
            Seq::empty()
        }),
{
    let pred = |step: StepView| is_download(step);
    let none = Seq::<StepView>::empty();
    assert(none.filter(pred) == none) by {
        reveal(Seq::filter);
    }
    Seq::lemma_filter_push(none, a, pred);
    Seq::lemma_filter_push(seq![a], b, pred);
}

/// The fetches among the steps of some template files are those of the files
/// that have a URL: one for each, in the order of the files.
pub proof fn lemma_files_fetches(root: Seq<char>, files: Seq<ProjectFileView>)
    ensures
        files_steps(root, files).filter(|step: StepView| is_download(step)) == files.filter(
            |file: ProjectFileView| has_url(file),
        ).map_values(|file: ProjectFileView| download_of(root, file)),
    decreases files.len(),
{
    let pred = |step: StepView| is_download(step);
    let with_url = |file: ProjectFileView| has_url(file);
    let each = |file: ProjectFileView| file_steps(root, file);
    if files.len() == 0 {
        reveal(Seq::filter);
    } else {
        let front = files.drop_last();
        let last = files.last();
        lemma_files_fetches(root, front);
        assert(front.push(last) == files);
        front.lemma_flat_map_push(each, last);
        Seq::filter_distributes_over_add(files_steps(root, front), file_steps(root, last), pred);
        Seq::lemma_filter_push(front, last, with_url);
        if has_url(last) {
            lemma_file_with_url_is_fetched_once(root, last);
        } else {
            lemma_file_without_url_is_written_empty(root, last);
        }
    }
}

/// The fetches among the steps of a plan are those of the template files that
/// have a URL: one for each, in the order of the files, and none besides.
pub proof fn lemma_plan_fetches(plan: ResolvedPlanView)
    ensures
        plan_steps(plan).filter(|step: StepView| is_download(step))
            == plan.project_type.files.filter(|file: ProjectFileView| has_url(file)).map_values(
            |file: ProjectFileView| download_of(plan.project_root, file),
        ),
{
    let pred = |step: StepView| is_download(step);
    let root = plan.project_root;
    let opening = seq![StepView::CreateDir { path: root }];
    let dirs = dir_steps(root, plan.project_type.extra_dirs);
    let files = files_steps(root, plan.project_type.files);
    let closing = closing_steps(plan);
    let none = Seq::<StepView>::empty();
    assert(opening.filter(pred) == none) by {
        lemma_filter_none(opening);
    }
    assert(dirs.filter(pred) == none) by {
        lemma_filter_none(dirs);
    }
    assert(closing.filter(pred) == none) by {
        lemma_filter_none(closing);
    }
    lemma_files_fetches(root, plan.project_type.files);
    Seq::filter_distributes_over_add(opening, dirs, pred);
    Seq::filter_distributes_over_add(opening + dirs, files, pred);
    Seq::filter_distributes_over_add(opening + dirs + files, closing, pred);
}

/// Steps of which none is a fetch have no fetches among them.
proof fn lemma_filter_none(steps: Seq<StepView>)
    requires
        forall|i: int| 0 <= i < steps.len() ==> !is_download(#[trigger] steps[i]),
    ensures
        steps.filter(|step: StepView| is_download(step)) == Seq::<StepView>::empty(),
    decreases steps.len(),
{
    reveal(Seq::filter);
    if steps.len() > 0 {
        lemma_filter_none(steps.drop_last());
    }
}

/// The step that gives a template file its content: a fetch where it has a URL,
/// an empty file where it has none.
pub open spec fn content_step(root: Seq<char>, file: ProjectFileView) -> StepView {
    file_steps(root, file)[1]
}

/// The steps for the template files are two for each file, in the order of the
/// files: the `k`-th file has its directory made at `2 * k` and its content
/// given at `2 * k + 1`.
pub proof fn lemma_files_steps_layout(root: Seq<char>, files: Seq<ProjectFileView>, k: int)
    requires
        0 <= k < files.len(),
    ensures
        files_steps(root, files).len() == 2 * files.len(),
        files_steps(root, files)[2 * k] == (StepView::CreateDir {
            path: child(root, files[k].path),
        }),
        files_steps(root, files)[2 * k + 1] == content_step(root, files[k]),
    decreases files.len(),
{
    let front = files.drop_last();
    assert(front.push(files.last()) == files);
    front.lemma_flat_map_push(|file: ProjectFileView| file_steps(root, file), files.last());
    if 0 < front.len() {
        lemma_files_steps_layout(root, front, if k < front.len() { k } else { 0 });
    }
}

/// Where each step of a plan stands. The root comes first, the extra directories
/// follow in their order, then two steps for each template file in the order of
/// the files, then `.gitignore`, and last, where time is tracked, the marker
/// file; there is no other step.
pub proof fn lemma_plan_layout(plan: ResolvedPlanView, d: int, k: int)
    ensures
        plan_steps(plan).len() == 1 + plan.project_type.extra_dirs.len() + 2
            * plan.project_type.files.len() + (if plan.wakatime {
            2int
        } else {
            1int
        }),
        plan_steps(plan)[0] == (StepView::CreateDir { path: plan.project_root }),
        0 <= d < plan.project_type.extra_dirs.len() ==> plan_steps(plan)[1 + d]
            == (StepView::CreateDir {
            path: child(plan.project_root, plan.project_type.extra_dirs[d]),
        }),
        0 <= k < plan.project_type.files.len() ==> {
            let at = 1 + plan.project_type.extra_dirs.len() + 2 * k;
            &&& plan_steps(plan)[at] == (StepView::CreateDir {
                path: child(plan.project_root, plan.project_type.files[k].path),
            })
            &&& plan_steps(plan)[at + 1] == content_step(
                plan.project_root,
                plan.project_type.files[k],
            )
        },
        ({
            let at = (1 + plan.project_type.extra_dirs.len() + 2
                * plan.project_type.files.len()) as int;
            &&& plan_steps(plan)[at] == (StepView::WriteFile {
                target: child(plan.project_root, gitignore_file()),
                content: gitignore_content(plan.project_type.gitignore, plan.wakatime),
            })
            &&& plan.wakatime ==> plan_steps(plan)[at + 1] == (StepView::WriteFile {
                target: child(plan.project_root, wakatime_file()),
                content: plan.name,
            })
        }),
{
    let root = plan.project_root;
    let files = plan.project_type.files;
    if 0 < files.len() {
        lemma_files_steps_layout(root, files, if 0 <= k < files.len() { k } else { 0 });
    }
}

/// The directory or file that a step makes.
pub open spec fn step_path(step: StepView) -> Seq<char> {
    match step {
        StepView::CreateDir { path } => path,
        StepView::Download { url, target } => target,
        StepView::WriteFile { target, content } => target,
    }
}

/// Whether `path` is `root` itself or `root`, a slash, and more.
pub open spec fn is_under(root: Seq<char>, path: Seq<char>) -> bool {
    path == root || (root + seq!['/']).is_prefix_of(path)
}

/// What lies in a directory under the root lies under the root.
proof fn lemma_child_is_under(root: Seq<char>, dir: Seq<char>, name: Seq<char>)
    requires
        is_under(root, dir),
    ensures
        is_under(root, child(dir, name)),
{
}

/// Each step for a template file makes something under the root.
proof fn lemma_file_steps_under_root(root: Seq<char>, file: ProjectFileView, i: int)
    requires
        0 <= i < file_steps(root, file).len(),
    ensures
        is_under(root, step_path(file_steps(root, file)[i])),
{
    lemma_child_is_under(root, root, file.path);
    lemma_child_is_under(root, child(root, file.path), file.name);
}

/// Each step for the template files makes something under the root.
proof fn lemma_files_steps_under_root(root: Seq<char>, files: Seq<ProjectFileView>, i: int)
    requires
        0 <= i < files_steps(root, files).len(),
    ensures
        is_under(root, step_path(files_steps(root, files)[i])),
    decreases files.len(),
{
    if files.len() > 0 {
        let front = files.drop_last();
        let before = files_steps(root, front);
        assert(front.push(files.last()) == files);
        front.lemma_flat_map_push(|file: ProjectFileView| file_steps(root, file), files.last());
        if i < before.len() {
            lemma_files_steps_under_root(root, front, i);
        } else {
            lemma_file_steps_under_root(root, files.last(), i - before.len());
        }
    }
}

/// Every step of a plan makes the project root or something whose path begins
/// with the root and a slash: the steps name no place elsewhere.
pub proof fn lemma_steps_stay_under_root(plan: ResolvedPlanView, i: int)
    requires
        0 <= i < plan_steps(plan).len(),
    ensures
        is_under(plan.project_root, step_path(plan_steps(plan)[i])),
{
    let root = plan.project_root;
    let dirs = dir_steps(root, plan.project_type.extra_dirs);
    let files = files_steps(root, plan.project_type.files);
    if 1 <= i < 1 + dirs.len() {
        lemma_child_is_under(root, root, plan.project_type.extra_dirs[i - 1]);
    } else if 1 + dirs.len() <= i < 1 + dirs.len() + files.len() {
        lemma_files_steps_under_root(root, plan.project_type.files, i - 1 - dirs.len());
    } else if 1 + dirs.len() + files.len() <= i {
        lemma_child_is_under(root, root, gitignore_file());
        lemma_child_is_under(root, root, wakatime_file());
    }
}

} // verus!
