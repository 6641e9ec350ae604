//! The two directories that a build needs, and how they are found in the
//! environment.

use crate::cc::io::{directory_exists, is_directory};
use crate::text::{Span, SpanView};
use vstd::prelude::*;
use vstd::string::*;

verus! {

/// The directories that a build reads from.
#[derive(Clone, Debug, PartialEq, Eq)]
pub struct RishkaEnv {
    /// The directory of the library: its headers and its sources.
    pub library: String,
    /// The directory of the linker script and the launcher.
    pub scripts: String,
}

/// What a [`RishkaEnv`] is.
pub struct RishkaEnvView {
    pub library: Seq<char>,
    pub scripts: Seq<char>,
}

impl View for RishkaEnv {
    type V = RishkaEnvView;

    open spec fn view(&self) -> RishkaEnvView {
        RishkaEnvView { library: self.library@, scripts: self.scripts@ }
    }
}

/// Why the environment does not give a build its directories.
#[derive(Clone, Debug, PartialEq, Eq)]
pub enum EnvironmentError {
    /// The variable of this name is not set, or is set to the empty text.
    Missing(String),
    /// The variable of this name is set to this path, which is no directory.
    NotADirectory(String, String),
}

/// What an [`EnvironmentError`] is.
pub enum EnvironmentErrorView {
    Missing(Seq<char>),
    NotADirectory(Seq<char>, Seq<char>),
}

impl View for EnvironmentError {
    type V = EnvironmentErrorView;

    open spec fn view(&self) -> EnvironmentErrorView {
        match self {
            EnvironmentError::Missing(name) => EnvironmentErrorView::Missing(name@),
            EnvironmentError::NotADirectory(name, path) => EnvironmentErrorView::NotADirectory(
                name@,
                path@,
            ),
        }
    }
}

/// What the environment and the file system say of one variable.
#[derive(Clone, Debug, PartialEq, Eq)]
pub struct EnvLookup {
    /// The variable's value; `None` when it is not set or cannot be read.
    pub value: Option<String>,
    /// Whether the value names a directory; `None` when the metadata of that
    /// path cannot be had.
    pub metadata: Option<bool>,
}

/// What an [`EnvLookup`] is.
pub struct EnvLookupView {
    pub value: Option<Seq<char>>,
    pub metadata: Option<bool>,
}

impl View for EnvLookup {
    type V = EnvLookupView;

    open spec fn view(&self) -> EnvLookupView {
        EnvLookupView {
            value: match self.value {
                Some(value) => Some(value@),
                None => None,
            },
            metadata: self.metadata,
        }
    }
}

impl DeepView for EnvLookup {
    type V = EnvLookupView;

    open spec fn deep_view(&self) -> EnvLookupView {
        self@
    }
}

/// Where the resolution of the environment stands.
#[derive(Clone, Debug, PartialEq, Eq)]
pub enum Resolve {
    /// The variable of this name is to be looked up next.
    Lookup(String),
    /// Both variables name directories.
    Resolved(RishkaEnv),
    /// A variable failed its check; no further variable is looked up.
    Failed(EnvironmentError),
}

/// What a [`Resolve`] is.
pub enum ResolveView {
    Lookup(Seq<char>),
    Resolved(RishkaEnvView),
    Failed(EnvironmentErrorView),
}

impl View for Resolve {
    type V = ResolveView;

    open spec fn view(&self) -> ResolveView {
        match self {
            Resolve::Lookup(name) => ResolveView::Lookup(name@),
            Resolve::Resolved(env) => ResolveView::Resolved(env@),
            Resolve::Failed(error) => ResolveView::Failed(error@),
        }
    }
}

/// The name of the variable that holds the library's directory.
pub open spec fn library_variable() -> Seq<char> {
    "RISHKA_LIBPATH"@
}

/// The name of the variable that holds the directory of the scripts.
pub open spec fn scripts_variable() -> Seq<char> {
    "RISHKA_SCRIPTS"@
}

/// The value of a variable: the empty text when it is not set.
pub open spec fn env_value(found: Option<Seq<char>>) -> Seq<char> {
    match found {
        Some(value) => value,
        None => Seq::empty(),
    }
}

/// The check of one variable: its value must not be empty, and must name a
/// directory.
pub open spec fn path_check(key: Seq<char>, lookup: EnvLookupView) -> Result<
    Seq<char>,
    EnvironmentErrorView,
> {
    let path = env_value(lookup.value);
    if path.len() == 0 {
        Err(EnvironmentErrorView::Missing(key))
    } else if !is_directory(lookup.metadata) {
        Err(EnvironmentErrorView::NotADirectory(key, path))
    } else {
        Ok(path)
    }
}

/// The directories that two lookups which pass their checks resolve to.
pub open spec fn resolved(library: EnvLookupView, scripts: EnvLookupView) -> RishkaEnvView {
    RishkaEnvView { library: env_value(library.value), scripts: env_value(scripts.value) }
}

/// Where the resolution stands after the given lookups, the library's
/// variable first. The first variable that fails its check ends the
/// resolution; lookups beyond the second are of no account.
pub open spec fn resolve(lookups: Seq<EnvLookupView>) -> ResolveView {
    if lookups.len() == 0 {
        ResolveView::Lookup(library_variable())
    } else {
        match path_check(library_variable(), lookups[0]) {
            Err(error) => ResolveView::Failed(error),
            Ok(library) => if lookups.len() == 1 {
                ResolveView::Lookup(scripts_variable())
            } else {
                match path_check(scripts_variable(), lookups[1]) {
                    Err(error) => ResolveView::Failed(error),
                    Ok(scripts) => ResolveView::Resolved(RishkaEnvView { library, scripts }),
                }
            },
        }
    }
}

/// The outcome of a check, with its texts as sequences of characters.
pub open spec fn check_view(checked: Result<String, EnvironmentError>) -> Result<
    Seq<char>,
    EnvironmentErrorView,
> {
    match checked {
        Ok(path) => Ok(path@),
        Err(error) => Err(error@),
    }
}

/// The value of a variable, given what looking it up gave: the empty text
/// when the variable is not set.
pub fn get_env(found: &Option<String>) -> (value: String)
    ensures
        value@ == env_value(
            match *found {
                Some(text) => Some(text@),
                None => None,
            },
        ),
{
    match found {
        Some(value) => value.clone(),
        None => String::new(),
    }
}

/// Checks the variable `key` against what was found for it.
///
/// Gives the variable's value when it is not empty and names a directory,
/// [`EnvironmentError::Missing`] when it is empty or not set, and
/// [`EnvironmentError::NotADirectory`] otherwise.
pub fn check_env_path(key: &str, lookup: &EnvLookup) -> (checked: Result<String, EnvironmentError>)
    ensures
        check_view(checked) == path_check(key@, lookup@),
{
    let path = get_env(&lookup.value);
    if !path.as_str().is_empty() {
        if !directory_exists(&lookup.metadata) {
            return Err(EnvironmentError::NotADirectory(String::from_str(key), path));
        }
        Ok(path)
    } else {
        Err(EnvironmentError::Missing(String::from_str(key)))
    }
}

/// Says where the resolution of the environment stands, given what was found
/// for the variables looked up so far, in order.
///
/// The library's variable comes first, the variable of the scripts second. A
/// variable is asked for only when all those before it passed their check.
pub fn check_req_env(lookups: &Vec<EnvLookup>) -> (state: Resolve)
    ensures
        state@ == resolve(lookups.deep_view()),
{
    if lookups.len() == 0 {
        return Resolve::Lookup(String::from_str("RISHKA_LIBPATH"));
    }
    let library = match check_env_path("RISHKA_LIBPATH", &lookups[0]) {
        Ok(path) => path,
        Err(error) => {
            return Resolve::Failed(error);
        },
    };
    if lookups.len() == 1 {
        return Resolve::Lookup(String::from_str("RISHKA_SCRIPTS"));
    }
    match check_env_path("RISHKA_SCRIPTS", &lookups[1]) {
        Ok(scripts) => Resolve::Resolved(RishkaEnv { library, scripts }),
        Err(error) => Resolve::Failed(error),
    }
}

/// What is said before the variable `key` is looked up.
pub open spec fn variable_prompt(key: Seq<char>) -> Seq<SpanView> {
    seq![SpanView::of("Checking '"@), SpanView::of(key).cyan().italic(), SpanView::of("'... "@)]
}

/// What is said of the variable `key` once it is checked: that it was found,
/// that it was found and names no directory, or that it was not found.
pub open spec fn variable_report(
    key: Seq<char>,
    checked: Result<Seq<char>, EnvironmentErrorView>,
) -> Seq<SpanView> {
    match checked {
        Ok(_) => seq![
            SpanView::of("variable "@),
            SpanView::of("found"@).green().bold(),
            SpanView::of(".\n"@),
        ],
        Err(EnvironmentErrorView::NotADirectory(_, _)) => seq![
            SpanView::of("variable "@),
            SpanView::of("found"@).green().bold(),
            SpanView::of(".\nVariable '"@),
            SpanView::of(key).cyan().italic(),
            SpanView::of("' path does "@),
            SpanView::of("not"@).red().bold(),
            SpanView::of(" exists.\n"@),
        ],
        Err(EnvironmentErrorView::Missing(_)) => seq![
            SpanView::of("variable "@),
            SpanView::of("not"@).red().bold(),
            SpanView::of(" found.\n"@),
        ],
    }
}

/// The text that is shown before the variable `key` is looked up.
pub fn print_variable_prompt(key: &str) -> (out: Vec<Span>)
    ensures
        out.deep_view() == variable_prompt(key@),
{
    let out = vec![Span::of("Checking '"), Span::of(key).cyan().italic(), Span::of("'... ")];
    assert(out.deep_view() =~= variable_prompt(key@));
    out
}

/// The text that is shown once the variable `key` is checked.
pub fn print_variable_report(key: &str, checked: &Result<String, EnvironmentError>) -> (out: Vec<
    Span,
>)
    ensures
        out.deep_view() == variable_report(key@, check_view(*checked)),
{
    let out = match checked {
        Ok(_) => vec![Span::of("variable "), Span::of("found").green().bold(), Span::of(".\n")],
        Err(EnvironmentError::NotADirectory(_, _)) => vec![
            Span::of("variable "),
            Span::of("found").green().bold(),
            Span::of(".\nVariable '"),
            Span::of(key).cyan().italic(),
            Span::of("' path does "),
            Span::of("not").red().bold(),
            Span::of(" exists.\n"),
        ],
        Err(EnvironmentError::Missing(_)) => vec![
            Span::of("variable "),
            Span::of("not").red().bold(),
            Span::of(" found.\n"),
        ],
    };
    assert(out.deep_view() =~= variable_report(key@, check_view(*checked)));
    out
}

} // verus!
