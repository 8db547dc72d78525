use pjcr::config::{Config, Gitignore, ProjectFile, ProjectType};
use pjcr::materialize::gitignore_text;
use pjcr::{create_project, materialize, Error, ResolvedPlan, Step};

const PYTHON_URL: &str =
    "https://raw.githubusercontent.com/TheSharkhead2/Project_Creator_2/main/templates/python/default/src/main.py";
const LATEX_URL: &str =
    "https://raw.githubusercontent.com/TheSharkhead2/Project_Creator_2/main/templates/latex/default/main.tex";
const HMC_TEX_URL: &str =
    "https://raw.githubusercontent.com/TheSharkhead2/Project_Creator_2/main/templates/latex/hmcmath/main.tex";
const HMC_CLS_URL: &str =
    "https://raw.githubusercontent.com/hmcmathematics/hmcpset-class/master/hmcpset.cls";
const LATEX_IGNORED: &str =
    "main.aux\nmain.fdb_latexmk\nmain.fls\nmain.log\nmain.out\nmain.synctex.gz\nmain.txt";

fn s(text: &str) -> String {
    text.to_string()
}

fn dir(path: &str) -> Step {
    Step::CreateDir { path: s(path) }
}

fn download(url: &str, target: &str) -> Step {
    Step::Download { url: s(url), target: s(target) }
}

fn write(target: &str, content: &str) -> Step {
    Step::WriteFile { target: s(target), content: s(content) }
}

fn file(name: &str, path: &str, url: &str) -> ProjectFile {
    ProjectFile { name: s(name), path: s(path), url: s(url) }
}

fn plan_of(project_type: ProjectType, wakatime: bool) -> ResolvedPlan {
    ResolvedPlan { project_root: s("root"), project_type, wakatime, name: s("The Name") }
}

fn kind(ignored: Vec<&str>, files: Vec<ProjectFile>, extra_dirs: Vec<&str>) -> ProjectType {
    ProjectType {
        name: s("kind"),
        description: s("for tests"),
        gitignore: Gitignore { files: ignored.into_iter().map(s).collect() },
        files,
        extra_dirs: extra_dirs.into_iter().map(s).collect(),
    }
}

fn downloads(steps: &[Step]) -> Vec<&Step> {
    steps.iter().filter(|step| matches!(step, Step::Download { .. })).collect()
}

#[test]
fn gitignore_text_joins_patterns_with_line_breaks() {
    let patterns = vec![s("main.aux"), s("main.log"), s("*.tmp")];
    assert_eq!(gitignore_text(&patterns, false), "main.aux\nmain.log\n*.tmp");
}

#[test]
fn gitignore_text_of_no_patterns_is_empty() {
    assert_eq!(gitignore_text(&Vec::new(), false), "");
}

#[test]
fn gitignore_text_of_one_pattern_has_no_line_break() {
    assert_eq!(gitignore_text(&vec![s("target")], false), "target");
}

#[test]
fn gitignore_text_with_wakatime_and_no_patterns() {
    assert_eq!(gitignore_text(&Vec::new(), true), ".wakatime-project\n");
}

#[test]
fn gitignore_text_with_wakatime_adds_a_line() {
    let patterns = vec![s("main.aux"), s("main.log")];
    assert_eq!(gitignore_text(&patterns, true), "main.aux\nmain.log\n.wakatime-project\n");
    let lines: Vec<&str> = "main.aux\nmain.log\n.wakatime-project\n".lines().collect();
    assert!(lines.contains(&".wakatime-project"));
}

#[test]
fn gitignore_text_is_the_same_each_time() {
    let patterns = vec![s("a"), s(""), s("b")];
    for wakatime in [false, true] {
        let first = gitignore_text(&patterns, wakatime);
        let second = gitignore_text(&patterns.clone(), wakatime);
        assert_eq!(first.as_bytes(), second.as_bytes());
    }
}

#[test]
fn materialize_python_default() {
    let cfg = Config::default();
    let plan = ResolvedPlan {
        project_root: s("./My_Cool_Project"),
        project_type: cfg.languages[1].project_types[0].clone(),
        wakatime: false,
        name: s("My Cool Project"),
    };
    let expected = vec![
        dir("./My_Cool_Project"),
        dir("./My_Cool_Project/./src"),
        download(PYTHON_URL, "./My_Cool_Project/./src/main.py"),
        write("./My_Cool_Project/.gitignore", ""),
    ];
    assert_eq!(materialize(&plan), expected);
}

#[test]
fn materialize_latex_hmcmath_with_wakatime() {
    let cfg = Config::default();
    let plan = ResolvedPlan {
        project_root: s("/home/me/hw_1"),
        project_type: cfg.languages[0].project_types[1].clone(),
        wakatime: true,
        name: s("hw 1"),
    };
    let ignored = format!("{}\n.wakatime-project\n", LATEX_IGNORED);
    let expected = vec![
        dir("/home/me/hw_1"),
        dir("/home/me/hw_1/images"),
        dir("/home/me/hw_1/."),
        download(HMC_TEX_URL, "/home/me/hw_1/./main.tex"),
        dir("/home/me/hw_1/."),
        download(HMC_CLS_URL, "/home/me/hw_1/./hmcpset.cls"),
        write("/home/me/hw_1/.gitignore", &ignored),
        write("/home/me/hw_1/.wakatime-project", "hw 1"),
    ];
    assert_eq!(materialize(&plan), expected);
}

#[test]
fn materialize_type_without_files() {
    let plan = plan_of(kind(vec![], vec![], vec![]), false);
    assert_eq!(materialize(&plan), vec![dir("root"), write("root/.gitignore", "")]);
}

#[test]
fn materialize_type_without_files_with_wakatime() {
    let plan = plan_of(kind(vec![], vec![], vec![]), true);
    let expected = vec![
        dir("root"),
        write("root/.gitignore", ".wakatime-project\n"),
        write("root/.wakatime-project", "The Name"),
    ];
    assert_eq!(materialize(&plan), expected);
}

#[test]
fn materialize_file_without_url_is_written_empty() {
    let plan = plan_of(kind(vec![], vec![file("notes.txt", "docs", "")], vec![]), false);
    let steps = materialize(&plan);
    let expected = vec![
        dir("root"),
        dir("root/docs"),
        write("root/docs/notes.txt", ""),
        write("root/.gitignore", ""),
    ];
    assert_eq!(steps, expected);
    assert!(downloads(&steps).is_empty());
}

#[test]
fn materialize_fetches_once_for_each_file_with_url() {
    let files = vec![
        file("a", ".", "http://host/a"),
        file("b", "x", ""),
        file("c", "x/y", "http://host/c"),
        file("a", ".", "http://host/a"),
    ];
    let plan = plan_of(kind(vec!["t"], files, vec!["e"]), false);
    let steps = materialize(&plan);
    let expected = vec![
        dir("root"),
        dir("root/e"),
        dir("root/."),
        download("http://host/a", "root/./a"),
        dir("root/x"),
        write("root/x/b", ""),
        dir("root/x/y"),
        download("http://host/c", "root/x/y/c"),
        dir("root/."),
        download("http://host/a", "root/./a"),
        write("root/.gitignore", "t"),
    ];
    assert_eq!(steps, expected);
    assert_eq!(
        downloads(&steps),
        vec![
            &download("http://host/a", "root/./a"),
            &download("http://host/c", "root/x/y/c"),
            &download("http://host/a", "root/./a"),
        ]
    );
}

#[test]
fn materialize_creates_extra_dirs_in_listed_order() {
    let plan = plan_of(kind(vec![], vec![], vec!["images", "data/raw", "images"]), false);
    let expected = vec![
        dir("root"),
        dir("root/images"),
        dir("root/data/raw"),
        dir("root/images"),
        write("root/.gitignore", ""),
    ];
    assert_eq!(materialize(&plan), expected);
}

#[test]
fn materialize_writes_the_name_as_given() {
    let plan = ResolvedPlan {
        project_root: s("./_odd_name_"),
        project_type: kind(vec![], vec![], vec![]),
        wakatime: true,
        name: s("  odd   name "),
    };
    let steps = materialize(&plan);
    assert_eq!(steps.last(), Some(&write("./_odd_name_/.wakatime-project", "  odd   name ")));
}

#[test]
fn materialize_is_the_same_each_time() {
    let cfg = Config::default();
    let plan = plan_of(cfg.languages[0].project_types[0].clone(), true);
    assert_eq!(materialize(&plan), materialize(&plan));
}

#[test]
fn create_project_python_end_to_end() {
    let cfg = Config::default();
    let steps =
        create_project(&cfg, s("python"), s("My Cool Project"), None, Some(s(".")), false).unwrap();
    let expected = vec![
        dir("./My_Cool_Project"),
        dir("./My_Cool_Project/./src"),
        download(PYTHON_URL, "./My_Cool_Project/./src/main.py"),
        write("./My_Cool_Project/.gitignore", ""),
    ];
    assert_eq!(steps, expected);
    assert!(!steps.iter().any(|step| matches!(
        step,
        Step::WriteFile { target, .. } if target.ends_with(".wakatime-project")
    )));
}

#[test]
fn create_project_python_end_to_end_with_wakatime() {
    let cfg = Config::default();
    let steps =
        create_project(&cfg, s("python"), s("My Cool Project"), None, Some(s(".")), true).unwrap();
    let expected = vec![
        dir("./My_Cool_Project"),
        dir("./My_Cool_Project/./src"),
        download(PYTHON_URL, "./My_Cool_Project/./src/main.py"),
        write("./My_Cool_Project/.gitignore", ".wakatime-project\n"),
        write("./My_Cool_Project/.wakatime-project", "My Cool Project"),
    ];
    assert_eq!(steps, expected);
}

#[test]
fn create_project_latex_default() {
    let cfg = Config::default();
    let steps = create_project(&cfg, s("latex"), s("paper"), None, None, false).unwrap();
    let expected = vec![
        dir("./paper"),
        dir("./paper/images"),
        dir("./paper/."),
        download(LATEX_URL, "./paper/./main.tex"),
        write("./paper/.gitignore", LATEX_IGNORED),
    ];
    assert_eq!(steps, expected);
}

#[test]
fn create_project_with_unknown_type_uses_the_first() {
    let cfg = Config::default();
    let named = create_project(&cfg, s("latex"), s("p"), Some(s("nonsense")), None, false);
    let plain = create_project(&cfg, s("latex"), s("p"), None, None, false);
    assert!(named.is_ok());
    assert_eq!(named, plain);
}

#[test]
fn create_project_with_named_type() {
    let cfg = Config::default();
    let steps = create_project(&cfg, s("latex"), s("p"), Some(s("hmcmath")), Some(s("w")), false)
        .unwrap();
    let expected = vec![
        dir("w/p"),
        dir("w/p/images"),
        dir("w/p/."),
        download(HMC_TEX_URL, "w/p/./main.tex"),
        dir("w/p/."),
        download(HMC_CLS_URL, "w/p/./hmcpset.cls"),
        write("w/p/.gitignore", LATEX_IGNORED),
    ];
    assert_eq!(steps, expected);
}

#[test]
fn create_project_with_unknown_language_has_no_steps() {
    let cfg = Config::default();
    let steps = create_project(&cfg, s("rust"), s("My Cool Project"), None, Some(s(".")), true);
    assert_eq!(steps, Err(Error::InvalidLanguage(s("rust"))));
}
