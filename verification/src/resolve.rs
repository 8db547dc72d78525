//! From what the user chose to a plan: the language, its project type, and where
//! the project goes.

use crate::config::{
    first_index, lemma_find_own_name, lemma_first_index_absent, lemma_first_index_found, Config,
    ConfigView, Language, LanguageView, ProjectType, ProjectTypeView,
};
use crate::error::{result_view, Error, ErrorView};
use crate::text::{sanitized, sanitized_name};
use vstd::prelude::*;

verus! {

/// Everything that is needed to create one project.
#[derive(Debug, PartialEq, Eq)]
pub struct ResolvedPlan {
    /// The directory of the project: the base path, a slash, the sanitized name.
    pub project_root: String,
    /// The project type that was chosen.
    pub project_type: ProjectType,
    /// Whether time tracking was asked for.
    pub wakatime: bool,
    /// The name of the project as the user gave it.
    pub name: String,
}

/// Model of a [`ResolvedPlan`].
#[verifier::ext_equal]
pub struct ResolvedPlanView {
    pub project_root: Seq<char>,
    pub project_type: ProjectTypeView,
    pub wakatime: bool,
    pub name: Seq<char>,
}

impl View for ResolvedPlan {
    type V = ResolvedPlanView;

    open spec fn view(&self) -> ResolvedPlanView {
        ResolvedPlanView {
            project_root: self.project_root@,
            project_type: self.project_type@,
            wakatime: self.wakatime,
            name: self.name@,
        }
    }
}

impl DeepView for ResolvedPlan {
    type V = ResolvedPlanView;

    open spec fn deep_view(&self) -> ResolvedPlanView {
        self@
    }
}

/// The path of `name` inside `dir`: the two with a slash between them.
pub open spec fn child(dir: Seq<char>, name: Seq<char>) -> Seq<char> {
    dir + seq!['/'] + name
}

/// Where projects go: the path that was given, else the current directory.
pub open spec fn base_path(path: Option<Seq<char>>) -> Seq<char> {
    match path {
        Some(p) => p,
        None => seq!['.'],
    }
}

/// The project type of `language` that `wanted` selects: the first of that
/// name, and the language's first project type where no name is given or none
/// of its types has the name.
pub open spec fn chosen_type(language: LanguageView, wanted: Option<Seq<char>>) -> ProjectTypeView
    recommends
        language.has_default(),
{
    match wanted {
        Some(wanted_name) => match first_index(language.type_names(), wanted_name) {
            Some(i) => language.project_types[i],
            None => language.project_types[0],
        },
        None => language.project_types[0],
    }
}

/// The plan for a selection, or the error for a language that the registry lacks.
pub open spec fn resolved(
    cfg: ConfigView,
    language_name: Seq<char>,
    project_type_name: Option<Seq<char>>,
    path: Option<Seq<char>>,
    name: Seq<char>,
    wakatime: bool,
) -> Result<ResolvedPlanView, ErrorView> {
    match cfg.find(language_name) {
        Some(i) => Ok(
            ResolvedPlanView {
                project_root: child(base_path(path), sanitized(name)),
                project_type: chosen_type(cfg.languages[i], project_type_name),
                wakatime,
                name,
            },
        ),
        None => Err(ErrorView::InvalidLanguage(language_name)),
    }
}

/// The path of `name` inside `dir`.
pub fn child_path(dir: &str, name: &str) -> (out: String)
    ensures
        out@ == child(dir@, name@),
{
    let mut out = String::from_str(dir);
    out.push('/');
    out.append(name);
    out
}

/// The position in `language.project_types` of the type that `wanted` selects.
fn choose_type(language: &Language, wanted: &Option<String>) -> (at: usize)
    requires
        language@.has_default(),
    ensures
        at < language.project_types.len(),
        language@.project_types[at as int] == chosen_type(language@, wanted.deep_view()),
{
    match wanted {
        Some(wanted_name) => {
            let mut i: usize = 0;
            while i < language.project_types.len()
                invariant
                    i <= language.project_types.len(),
                    *wanted == Some(*wanted_name),
                    forall|j: int| 0 <= j < i ==> language@.type_names()[j] != wanted_name@,
                decreases language.project_types.len() - i,
            {
                if language.project_types[i].name == *wanted_name {
                    proof {
                        lemma_first_index_found(language@.type_names(), wanted_name@, i as int);
                    }
                    return i;
                }
                i += 1;
            }
            proof {
                lemma_first_index_absent(language@.type_names(), wanted_name@);
            }
            0
        },
        None => 0,
    }
}

/// Resolves a selection against the registry.
///
/// The language is the first of that name, compared character by character; where
/// the registry has none, the error names what was asked for. The project type is
/// the first of the language with the name given; where no name is given, or the
/// language has no type of that name, it is the language's first. The project
/// root is the path given, or `.`, then a slash and the sanitized project name.
pub fn resolve(
    cfg: &Config,
    language_name: String,
    project_type_name: Option<String>,
    path: Option<String>,
    name: String,
    wakatime: bool,
) -> (plan: Result<ResolvedPlan, Error>)
    requires
        cfg@.has_defaults(),
    ensures
        result_view(plan) == resolved(
            cfg@,
            language_name@,
            project_type_name.deep_view(),
            path.deep_view(),
            name@,
            wakatime,
        ),
{
    match cfg.find_language(&language_name) {
        None => Err(Error::InvalidLanguage(language_name)),
        Some(i) => {
            let language = &cfg.languages[i];
            let base = match path {
                Some(p) => p,
                None => {
                    proof {
                        reveal_strlit(".");
                    }
                    assert("."@ =~= seq!['.']);
                    String::from_str(".")
                },
            };
            let directory = sanitized_name(name.as_str());
            let project_root = child_path(base.as_str(), directory.as_str());
            let at = choose_type(language, &project_type_name);
            let project_type = language.project_types[at].clone();
            Ok(ResolvedPlan { project_root, project_type, wakatime, name })
        },
    }
}

/// A language of a well-formed registry, resolved under its own name and without
/// the name of a project type, gives the first project type that it lists.
pub proof fn lemma_resolve_gives_first_type(
    cfg: ConfigView,
    i: int,
    path: Option<Seq<char>>,
    name: Seq<char>,
    wakatime: bool,
)
    requires
        cfg.well_formed(),
        0 <= i < cfg.languages.len(),
    ensures
        resolved(cfg, cfg.languages[i].name, None, path, name, wakatime) matches Ok(plan)
            && plan.project_type == cfg.languages[i].project_types[0],
{
    lemma_find_own_name(cfg, i);
}

/// A language of a well-formed registry, resolved with a name that none of its
/// project types has, gives its first project type and no error.
pub proof fn lemma_resolve_falls_back_to_first_type(
    cfg: ConfigView,
    i: int,
    wanted: Seq<char>,
    path: Option<Seq<char>>,
    name: Seq<char>,
    wakatime: bool,
)
    requires
        cfg.well_formed(),
        0 <= i < cfg.languages.len(),
        !cfg.languages[i].type_names().contains(wanted),
    ensures
        resolved(cfg, cfg.languages[i].name, Some(wanted), path, name, wakatime) matches Ok(plan)
            && plan.project_type == cfg.languages[i].project_types[0],
{
    lemma_find_own_name(cfg, i);
}

/// A language of a well-formed registry, resolved with the name of one of its
/// project types, gives that project type.
pub proof fn lemma_resolve_gives_named_type(
    cfg: ConfigView,
    i: int,
    k: int,
    path: Option<Seq<char>>,
    name: Seq<char>,
    wakatime: bool,
)
    requires
        cfg.well_formed(),
        0 <= i < cfg.languages.len(),
        0 <= k < cfg.languages[i].project_types.len(),
    ensures
        resolved(
            cfg,
            cfg.languages[i].name,
            Some(cfg.languages[i].project_types[k].name),
            path,
            name,
            wakatime,
        ) matches Ok(plan) && plan.project_type == cfg.languages[i].project_types[k],
{
    lemma_find_own_name(cfg, i);
    let names = cfg.languages[i].type_names();
    assert(forall|j: int| 0 <= j < k ==> names[j] != names[k]);
    lemma_first_index_found(names, names[k], k);
}

/// A name that no language of the registry has resolves to the error that
/// carries this name, whatever else is asked for.
pub proof fn lemma_resolve_rejects_unknown_language(
    cfg: ConfigView,
    language_name: Seq<char>,
    project_type_name: Option<Seq<char>>,
    path: Option<Seq<char>>,
    name: Seq<char>,
    wakatime: bool,
)
    requires
        !cfg.names().contains(language_name),
    ensures
        resolved(cfg, language_name, project_type_name, path, name, wakatime) == Err::<
            ResolvedPlanView,
            ErrorView,
        >(ErrorView::InvalidLanguage(language_name)),
{
}

} // verus!
