//! The registry of languages, project types and template files, and its
//! mathematical model.

use vstd::prelude::*;

verus! {

/// Patterns that a project's `.gitignore` lists.
#[derive(Debug, PartialEq, Eq)]
pub struct Gitignore {
    pub files: Vec<String>,
}

/// A template file of a project type.
#[derive(Debug, PartialEq, Eq)]
pub struct ProjectFile {
    /// Name of the file on disk.
    pub name: String,
    /// Directory of the file, relative to the project root.
    pub path: String,
    /// Where the content comes from; empty where there is none to fetch.
    pub url: String,
}

/// A template variant within a language.
#[derive(Debug, PartialEq, Eq)]
pub struct ProjectType {
    pub name: String,
    /// Shown in the help text.
    pub description: String,
    pub gitignore: Gitignore,
    pub files: Vec<ProjectFile>,
    /// Directories to create even where no file goes into them.
    pub extra_dirs: Vec<String>,
}

/// A supported language. Its first project type is its default.
#[derive(Debug, PartialEq, Eq)]
pub struct Language {
    pub name: String,
    pub project_types: Vec<ProjectType>,
}

/// The whole registry.
#[derive(Debug, PartialEq, Eq)]
pub struct Config {
    pub languages: Vec<Language>,
}

/// Model of a [`ProjectFile`].
#[verifier::ext_equal]
pub struct ProjectFileView {
    pub name: Seq<char>,
    pub path: Seq<char>,
    pub url: Seq<char>,
}

/// Model of a [`ProjectType`].
#[verifier::ext_equal]
pub struct ProjectTypeView {
    pub name: Seq<char>,
    pub description: Seq<char>,
    pub gitignore: Seq<Seq<char>>,
    pub files: Seq<ProjectFileView>,
    pub extra_dirs: Seq<Seq<char>>,
}

/// Model of a [`Language`].
#[verifier::ext_equal]
pub struct LanguageView {
    pub name: Seq<char>,
    pub project_types: Seq<ProjectTypeView>,
}

/// Model of a [`Config`].
#[verifier::ext_equal]
pub struct ConfigView {
    pub languages: Seq<LanguageView>,
}

impl View for Gitignore {
    type V = Seq<Seq<char>>;

    open spec fn view(&self) -> Seq<Seq<char>> {
        self.files.deep_view()
    }
}

impl DeepView for Gitignore {
    type V = Seq<Seq<char>>;

    open spec fn deep_view(&self) -> Seq<Seq<char>> {
        self@
    }
}

impl View for ProjectFile {
    type V = ProjectFileView;

    open spec fn view(&self) -> ProjectFileView {
        ProjectFileView { name: self.name@, path: self.path@, url: self.url@ }
    }
}

impl DeepView for ProjectFile {
    type V = ProjectFileView;

    open spec fn deep_view(&self) -> ProjectFileView {
        self@
    }
}

impl View for ProjectType {
    type V = ProjectTypeView;

    open spec fn view(&self) -> ProjectTypeView {
        ProjectTypeView {
            name: self.name@,
            description: self.description@,
            gitignore: self.gitignore@,
            files: self.files.deep_view(),
            extra_dirs: self.extra_dirs.deep_view(),
        }
    }
}

impl DeepView for ProjectType {
    type V = ProjectTypeView;

    open spec fn deep_view(&self) -> ProjectTypeView {
        self@
    }
}

impl View for Language {
    type V = LanguageView;

    open spec fn view(&self) -> LanguageView {
        LanguageView { name: self.name@, project_types: self.project_types.deep_view() }
    }
}

impl DeepView for Language {
    type V = LanguageView;

    open spec fn deep_view(&self) -> LanguageView {
        self@
    }
}

impl View for Config {
    type V = ConfigView;

    open spec fn view(&self) -> ConfigView {
        ConfigView { languages: self.languages.deep_view() }
    }
}

impl DeepView for Config {
    type V = ConfigView;

    open spec fn deep_view(&self) -> ConfigView {
        self@
    }
}

/// Whether `i` is the first position of `s` that holds `x`.
pub open spec fn is_first_at<A>(s: Seq<A>, x: A, i: int) -> bool {
    &&& 0 <= i < s.len()
    &&& s[i] == x
    &&& forall|j: int| 0 <= j < i ==> s[j] != x
}

/// The first position of `s` that holds `x`, if there is one.
pub open spec fn first_index<A>(s: Seq<A>, x: A) -> Option<int> {
    if s.contains(x) {
        Some(choose|i: int| is_first_at(s, x, i))
    } else {
        None
    }
}

/// A position that is the first to hold `x` is the one that [`first_index`] gives.
pub proof fn lemma_first_index_found<A>(s: Seq<A>, x: A, i: int)
    requires
        is_first_at(s, x, i),
    ensures
        first_index(s, x) == Some(i),
{
}

/// Where no position holds `x`, [`first_index`] gives none.
pub proof fn lemma_first_index_absent<A>(s: Seq<A>, x: A)
    requires
        forall|j: int| 0 <= j < s.len() ==> s[j] != x,
    ensures
        first_index(s, x) is None,
{
}

/// What [`first_index`] gives is in range, holds `x`, and is preceded by no `x`.
pub proof fn lemma_first_index_is_first<A>(s: Seq<A>, x: A)
    ensures
        match first_index(s, x) {
            Some(i) => is_first_at(s, x, i),
            None => !s.contains(x),
        },
{
    if s.contains(x) {
        lemma_least_position(s, x, s.len() as int);
    }
}

/// Among the first `n` positions of `s`, one of which holds `x`, the least that does.
proof fn lemma_least_position<A>(s: Seq<A>, x: A, n: int) -> (w: int)
    requires
        0 <= n <= s.len(),
        exists|i: int| 0 <= i < n && s[i] == x,
    ensures
        is_first_at(s, x, w),
        w < n,
    decreases n,
{
    if exists|i: int| 0 <= i < n - 1 && s[i] == x {
        lemma_least_position(s, x, n - 1)
    } else {
        n - 1
    }
}

impl LanguageView {
    /// The names of the project types, in order.
    pub open spec fn type_names(self) -> Seq<Seq<char>> {
        self.project_types.map_values(|t: ProjectTypeView| t.name)
    }

    /// Whether the language has a first project type, its default.
    pub open spec fn has_default(self) -> bool {
        self.project_types.len() > 0
    }

    /// The invariant of a language: it has a default, and no two of its project
    /// types share a name.
    pub open spec fn well_formed(self) -> bool {
        &&& self.has_default()
        &&& self.type_names().no_duplicates()
    }
}

impl ConfigView {
    /// The names of the languages, in order.
    pub open spec fn names(self) -> Seq<Seq<char>> {
        self.languages.map_values(|l: LanguageView| l.name)
    }

    /// The position of the first language called `name`.
    pub open spec fn find(self, name: Seq<char>) -> Option<int> {
        first_index(self.names(), name)
    }

    /// Whether every language has a default project type.
    pub open spec fn has_defaults(self) -> bool {
        forall|i: int| 0 <= i < self.languages.len() ==> (#[trigger] self.languages[i]).has_default()
    }

    /// The invariant of a registry: no two languages share a name, and each
    /// language is well formed.
    pub open spec fn well_formed(self) -> bool {
        &&& self.names().no_duplicates()
        &&& forall|i: int|
            0 <= i < self.languages.len() ==> (#[trigger] self.languages[i]).well_formed()
    }
}

/// A well-formed registry has a default project type for every language.
pub proof fn lemma_well_formed_has_defaults(cfg: ConfigView)
    requires
        cfg.well_formed(),
    ensures
        cfg.has_defaults(),
{
}

/// In a well-formed registry, each language is the one found under its own name.
pub proof fn lemma_find_own_name(cfg: ConfigView, i: int)
    requires
        cfg.well_formed(),
        0 <= i < cfg.languages.len(),
    ensures
        cfg.find(cfg.languages[i].name) == Some(i),
{
    let names = cfg.names();
    assert(forall|j: int| 0 <= j < i ==> names[j] != names[i]);
    lemma_first_index_found(names, names[i], i);
}

impl Clone for Gitignore {
    fn clone(&self) -> (out: Self)
        ensures
            out@ == self@,
    {
        let files = self.files.clone();
        assert(files.deep_view() =~= self.files.deep_view());
        Gitignore { files }
    }
}

impl Clone for ProjectFile {
    fn clone(&self) -> (out: Self)
        ensures
            out@ == self@,
    {
        ProjectFile { name: self.name.clone(), path: self.path.clone(), url: self.url.clone() }
    }
}

impl Clone for ProjectType {
    fn clone(&self) -> (out: Self)
        ensures
            out@ == self@,
    {
        let files = self.files.clone();
        assert(files.deep_view() =~= self.files.deep_view());
        let extra_dirs = self.extra_dirs.clone();
        assert(extra_dirs.deep_view() =~= self.extra_dirs.deep_view());
        ProjectType {
            name: self.name.clone(),
            description: self.description.clone(),
            gitignore: self.gitignore.clone(),
            files,
            extra_dirs,
        }
    }
}

impl Clone for Language {
    fn clone(&self) -> (out: Self)
        ensures
            out@ == self@,
    {
        let project_types = self.project_types.clone();
        assert(project_types.deep_view() =~= self.project_types.deep_view());
        Language { name: self.name.clone(), project_types }
    }
}

impl Clone for Config {
    fn clone(&self) -> (out: Self)
        ensures
            out@ == self@,
    {
        let languages = self.languages.clone();
        assert(languages.deep_view() =~= self.languages.deep_view());
        Config { languages }
    }
}

impl Config {
    /// The position of the first language called `name`, if the registry has one.
    pub fn find_language(&self, name: &String) -> (found: Option<usize>)
        ensures
            match found {
                Some(i) => i < self.languages.len() && self@.find(name@) == Some(i as int),
                None => self@.find(name@) is None,
            },
    {
        let mut i: usize = 0;
        while i < self.languages.len()
            invariant
                i <= self.languages.len(),
                forall|j: int| 0 <= j < i ==> self@.names()[j] != name@,
            decreases self.languages.len() - i,
        {
            if self.languages[i].name == *name {
                proof {
                    lemma_first_index_found(self@.names(), name@, i as int);
                }
                return Some(i);
            }
            i += 1;
        }
        proof {
            lemma_first_index_absent(self@.names(), name@);
        }
        None
    }

    /// Whether every language has a default project type.
    pub fn check_defaults(&self) -> (ok: bool)
        ensures
            ok == self@.has_defaults(),
    {
        let mut i: usize = 0;
        while i < self.languages.len()
            invariant
                i <= self.languages.len(),
                forall|j: int| 0 <= j < i ==> (#[trigger] self@.languages[j]).has_default(),
            decreases self.languages.len() - i,
        {
            if self.languages[i].project_types.len() == 0 {
                assert(!self@.languages[i as int].has_default());
                return false;
            }
            i += 1;
        }
        true
    }
}

/// The names of the languages of `cfg`, in order.
pub fn get_languages(cfg: &Config) -> (names: Vec<String>)
    ensures
        names.deep_view() == cfg@.names(),
{
    let mut names: Vec<String> = Vec::new();
    let mut i: usize = 0;
    while i < cfg.languages.len()
        invariant
            i <= cfg.languages.len(),
            names.len() == i,
            forall|j: int| 0 <= j < i ==> names[j]@ == cfg.languages[j].name@,
        decreases cfg.languages.len() - i,
    {
        names.push(cfg.languages[i].name.clone());
        i += 1;
    }
    names
}

} // verus!
