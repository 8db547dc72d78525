//! The built-in registry, used where none is stored or the stored one cannot be read.

use crate::config::{
    Config, ConfigView, Gitignore, Language, LanguageView, ProjectFile, ProjectFileView,
    ProjectType, ProjectTypeView,
};
use vstd::prelude::*;

verus! {

/// What a LaTeX build leaves behind beside `main.tex`.
pub open spec fn latex_build_files() -> Seq<Seq<char>> {
    seq![
        "main.aux"@,
        "main.fdb_latexmk"@,
        "main.fls"@,
        "main.log"@,
        "main.out"@,
        "main.synctex.gz"@,
        "main.txt"@,
    ]
}

/// The plain LaTeX project: one `main.tex` and a directory for images.
pub open spec fn latex_default_type() -> ProjectTypeView {
    ProjectTypeView {
        name: "default"@,
        description: "A barebones latex project without a .cls file."@,
        gitignore: latex_build_files(),
        files: seq![
            ProjectFileView {
                name: "main.tex"@,
                path: "."@,
                url: "https://raw.githubusercontent.com/TheSharkhead2/Project_Creator_2/main/templates/latex/default/main.tex"@,
            },
        ],
        extra_dirs: seq!["images"@],
    }
}

/// The Harvey Mudd homework project: `main.tex`, the class file, and a directory
/// for images.
pub open spec fn latex_hmcmath_type() -> ProjectTypeView {
    ProjectTypeView {
        name: "hmcmath"@,
        description: "The Harvey Mudd College LaTeX homework template."@,
        gitignore: latex_build_files(),
        files: seq![
            ProjectFileView {
                name: "main.tex"@,
                path: "."@,
                url: "https://raw.githubusercontent.com/TheSharkhead2/Project_Creator_2/main/templates/latex/hmcmath/main.tex"@,
            },
            ProjectFileView {
                name: "hmcpset.cls"@,
                path: "."@,
                url: "https://raw.githubusercontent.com/hmcmathematics/hmcpset-class/master/hmcpset.cls"@,
            },
        ],
        extra_dirs: seq!["images"@],
    }
}

/// The Python script project: one `src/main.py`, nothing ignored, no other directory.
pub open spec fn python_default_type() -> ProjectTypeView {
    ProjectTypeView {
        name: "default"@,
        description: "A template ideal for a quick python script"@,
        gitignore: Seq::empty(),
        files: seq![
            ProjectFileView {
                name: "main.py"@,
                path: "./src"@,
                url: "https://raw.githubusercontent.com/TheSharkhead2/Project_Creator_2/main/templates/python/default/src/main.py"@,
            },
        ],
        extra_dirs: Seq::empty(),
    }
}

/// The built-in registry: `latex` with the types `default` and `hmcmath`, then
/// `python` with the type `default`.
pub open spec fn default_config() -> ConfigView {
    ConfigView {
        languages: seq![
            LanguageView {
                name: "latex"@,
                project_types: seq![latex_default_type(), latex_hmcmath_type()],
            },
            LanguageView { name: "python"@, project_types: seq![python_default_type()] },
        ],
    }
}

fn template(name: &str, path: &str, url: &str) -> (out: ProjectFile)
    ensures
        out@ == (ProjectFileView { name: name@, path: path@, url: url@ }),
{
    ProjectFile {
        name: String::from_str(name),
        path: String::from_str(path),
        url: String::from_str(url),
    }
}

fn latex_gitignore() -> (out: Gitignore)
    ensures
        out@ == latex_build_files(),
{
    let files = vec![
        String::from_str("main.aux"),
        String::from_str("main.fdb_latexmk"),
        String::from_str("main.fls"),
        String::from_str("main.log"),
        String::from_str("main.out"),
        String::from_str("main.synctex.gz"),
        String::from_str("main.txt"),
    ];
    Gitignore { files }
}

fn latex_default() -> (out: ProjectType)
    ensures
        out@ == latex_default_type(),
{
    let files = vec![
        template(
            "main.tex",
            ".",
            "https://raw.githubusercontent.com/TheSharkhead2/Project_Creator_2/main/templates/latex/default/main.tex",
        ),
    ];
    let extra_dirs = vec![String::from_str("images")];
    ProjectType {
        name: String::from_str("default"),
        description: String::from_str("A barebones latex project without a .cls file."),
        gitignore: latex_gitignore(),
        files,
        extra_dirs,
    }
}

fn latex_hmcmath() -> (out: ProjectType)
    ensures
        out@ == latex_hmcmath_type(),
{
    let files = vec![
        template(
            "main.tex",
            ".",
            "https://raw.githubusercontent.com/TheSharkhead2/Project_Creator_2/main/templates/latex/hmcmath/main.tex",
        ),
        template(
            "hmcpset.cls",
            ".",
            "https://raw.githubusercontent.com/hmcmathematics/hmcpset-class/master/hmcpset.cls",
        ),
    ];
    let extra_dirs = vec![String::from_str("images")];
    ProjectType {
        name: String::from_str("hmcmath"),
        description: String::from_str("The Harvey Mudd College LaTeX homework template."),
        gitignore: latex_gitignore(),
        files,
        extra_dirs,
    }
}

fn python_default() -> (out: ProjectType)
    ensures
        out@ == python_default_type(),
{
    let files = vec![
        template(
            "main.py",
            "./src",
            "https://raw.githubusercontent.com/TheSharkhead2/Project_Creator_2/main/templates/python/default/src/main.py",
        ),
    ];
    let ignored: Vec<String> = Vec::new();
    let extra_dirs: Vec<String> = Vec::new();
    ProjectType {
        name: String::from_str("default"),
        description: String::from_str("A template ideal for a quick python script"),
        gitignore: Gitignore { files: ignored },
        files,
        extra_dirs,
    }
}

impl Default for Config {
    /// The built-in registry.
    fn default() -> (cfg: Config)
        ensures
            cfg@ == default_config(),
            cfg@.well_formed(),
            cfg@.has_defaults(),
    {
        proof {
            lemma_default_config_well_formed();
        }
        let latex_types = vec![latex_default(), latex_hmcmath()];
        let python_types = vec![python_default()];
        assert(latex_types.deep_view() =~= default_config().languages[0].project_types);
        assert(python_types.deep_view() =~= default_config().languages[1].project_types);
        let languages = vec![
            Language { name: String::from_str("latex"), project_types: latex_types },
            Language { name: String::from_str("python"), project_types: python_types },
        ];
        Config { languages }
    }
}

/// The registry to work with, given what reading the stored one gave.
///
/// A stored registry that could be read is taken as it is. Where none could be
/// read, the built-in registry takes its place, and the flag says that the
/// store is to be repaired with it; whether that succeeds does not matter to
/// the registry returned here.
pub fn loaded_or_default(loaded: Option<Config>) -> (out: (Config, bool))
    ensures
        match loaded {
            Some(stored) => out.0 == stored && !out.1,
            None => out.0@ == default_config() && out.0@.well_formed() && out.1,
        },
{
    match loaded {
        Some(stored) => (stored, false),
        None => (Config::default(), true),
    }
}

/// The built-in registry keeps the invariant of a registry.
pub proof fn lemma_default_config_well_formed()
    ensures
        default_config().well_formed(),
{
    reveal_strlit("latex");
    reveal_strlit("python");
    reveal_strlit("default");
    reveal_strlit("hmcmath");
    assert("latex"@.len() != "python"@.len());
    assert("default"@[0] != "hmcmath"@[0]);
}

} // verus!
