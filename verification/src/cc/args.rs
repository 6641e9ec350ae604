//! The options of one build, and how they follow from the command line.

use clap::ArgMatches;
use vstd::prelude::*;
use vstd::string::*;

verus! {

/// What `clap` found on a command line. Nothing of its inside is known here;
/// it is read through [`matched`].
#[verifier::external_type_specification]
#[verifier::external_body]
pub struct ExArgMatches(clap::ArgMatches);

/// What an `ArgMatches` holds: for the name of each argument that was matched
/// and whose values are texts, its occurrences in order, each with its values
/// in order. An argument that was not matched has no entry.
pub uninterp spec fn matched(matches: ArgMatches) -> Map<Seq<char>, Seq<Seq<Seq<char>>>>;

/// The options of one build.
#[derive(Clone, Debug, PartialEq, Eq)]
pub struct Options {
    /// Flags meant for the compiler; empty when none were given.
    pub flags: String,
    /// The name of the output without its extension.
    pub output: String,
    /// The source files, in the order in which they were given.
    pub files: Vec<String>,
}

/// What an [`Options`] is.
pub struct OptionsView {
    pub flags: Seq<char>,
    pub output: Seq<char>,
    pub files: Seq<Seq<char>>,
}

impl View for Options {
    type V = OptionsView;

    open spec fn view(&self) -> OptionsView {
        OptionsView { flags: self.flags@, output: self.output@, files: self.files.deep_view() }
    }
}

/// What the command-line parser found.
#[derive(Clone, Debug, PartialEq, Eq)]
pub struct Matches {
    /// The value of `-f` / `--flags`, if the option was given.
    pub flags: Option<String>,
    /// The value of `-o` / `--output`, if the option was given.
    pub output: Option<String>,
    /// The positional arguments, one group of values for each occurrence;
    /// `None` when there was no occurrence at all.
    pub files: Option<Vec<Vec<String>>>,
}

/// What a [`Matches`] is.
pub struct MatchesView {
    pub flags: Option<Seq<char>>,
    pub output: Option<Seq<char>>,
    pub files: Option<Seq<Seq<Seq<char>>>>,
}

impl View for Matches {
    type V = MatchesView;

    open spec fn view(&self) -> MatchesView {
        MatchesView {
            flags: match self.flags {
                Some(flags) => Some(flags@),
                None => None,
            },
            output: match self.output {
                Some(output) => Some(output@),
                None => None,
            },
            files: match self.files {
                Some(groups) => Some(groups.deep_view()),
                None => None,
            },
        }
    }
}

/// The command line names no input file: the usage text is due, not a build.
#[derive(Clone, Copy, Debug, PartialEq, Eq)]
pub struct UsageError;

/// The name that the output gets when the caller chose none.
pub open spec fn default_output() -> Seq<char> {
    "a"@
}

/// The first value of the argument `id`, over its occurrences taken in order;
/// `None` where the argument was not matched or has no value.
pub open spec fn first_of(contents: Map<Seq<char>, Seq<Seq<Seq<char>>>>, id: Seq<char>) -> Option<
    Seq<char>,
> {
    if contents.dom().contains(id) && contents[id].flatten().len() > 0 {
        Some(contents[id].flatten()[0])
    } else {
        None
    }
}

/// What the options are made of, in what an `ArgMatches` holds: the first
/// value of `flags`, the first value of `output`, and the occurrences of
/// `file`.
pub open spec fn found_in(contents: Map<Seq<char>, Seq<Seq<Seq<char>>>>) -> MatchesView {
    MatchesView {
        flags: first_of(contents, "flags"@),
        output: first_of(contents, "output"@),
        files: if contents.dom().contains("file"@) {
            Some(contents["file"@])
        } else {
            None
        },
    }
}

/// The value of an option, or the empty text where the option was not given.
pub open spec fn given_or_empty(value: Option<Seq<char>>) -> Seq<char> {
    match value {
        Some(text) => text,
        None => Seq::empty(),
    }
}

/// The input files that the command line names: the values of all
/// occurrences, in order.
pub open spec fn named_files(matches: MatchesView) -> Seq<Seq<char>> {
    match matches.files {
        Some(groups) => groups.flatten(),
        None => Seq::empty(),
    }
}

/// The options that a command line with at least one input file stands for:
/// the flags as given, or none; the output name as given, or the default
/// where none was given or the given one is empty; and the files it names.
pub open spec fn options_of(matches: MatchesView) -> OptionsView {
    with_default_output(
        OptionsView {
            flags: given_or_empty(matches.flags),
            output: given_or_empty(matches.output),
            files: named_files(matches),
        },
    )
}

/// The options with the default output name in place of an empty one.
pub open spec fn with_default_output(options: OptionsView) -> OptionsView {
    if options.output.len() == 0 {
        OptionsView { output: default_output(), ..options }
    } else {
        options
    }
}

/// The options of a command line always name an output: the default where
/// none was given or the given name is empty, the given name otherwise.
pub proof fn law_options_name_an_output(matches: MatchesView)
    ensures
        options_of(matches).output.len() > 0,
        given_or_empty(matches.output).len() == 0 ==> options_of(matches).output
            == default_output(),
        given_or_empty(matches.output).len() > 0 ==> options_of(matches).output == given_or_empty(
            matches.output,
        ),
        options_of(matches).flags == given_or_empty(matches.flags),
        options_of(matches).files == named_files(matches),
{
    reveal_strlit("a");
}

/// The values of all groups, in order.
fn flatten(groups: &Vec<Vec<String>>) -> (files: Vec<String>)
    ensures
        files.deep_view() == groups.deep_view().flatten(),
{
    let mut files: Vec<String> = Vec::new();
    let mut i: usize = 0;
    assert(groups.deep_view().take(0) =~= Seq::empty());
    while i < groups.len()
        invariant
            i <= groups.len(),
            files.deep_view() == groups.deep_view().take(i as int).flatten(),
        decreases groups.len() - i,
    {
        let group = &groups[i];
        let ghost before = files.deep_view();
        let mut j: usize = 0;
        while j < group.len()
            invariant
                j <= group.len(),
                files.deep_view() == before + group.deep_view().take(j as int),
            decreases group.len() - j,
        {
            let ghost so_far = files.deep_view();
            files.push(group[j].clone());
            assert(files.deep_view() =~= so_far.push(group[j as int]@));
            assert(group.deep_view().take(j + 1) =~= group.deep_view().take(j as int).push(
                group[j as int]@,
            ));
            j += 1;
        }
        proof {
            let done = groups.deep_view().take(i as int);
            assert(group.deep_view().take(group.len() as int) =~= group.deep_view());
            assert(groups.deep_view().take(i + 1) =~= done.push(group.deep_view()));
            done.lemma_flatten_push(group.deep_view());
        }
        i += 1;
    }
    assert(groups.deep_view().take(groups.len() as int) =~= groups.deep_view());
    files
}

/// The occurrences of the argument `id` in `matches`, each with its values;
/// `None` when the argument was not matched.
///
/// Calls `ArgMatches::try_get_occurrences::<String>` and copies what it hands
/// out. That method gives an iterator over the argument's occurrences where
/// the argument was matched and its values are `String`s, and nothing where it
/// was not matched; its errors, for a name that the command does not know
/// and for values of another type, are taken as "not matched".
#[verifier::external_body]
fn occurrences(matches: &ArgMatches, id: &str) -> (groups: Option<Vec<Vec<String>>>)
    ensures
        match groups {
            Some(groups) => matched(*matches).dom().contains(id@) && groups.deep_view() == matched(
                *matches,
            )[id@],
            None => !matched(*matches).dom().contains(id@),
        },
{
    matches.try_get_occurrences::<String>(id).ok().flatten().map(
        |groups| groups.map(|values| values.cloned().collect()).collect(),
    )
}

/// The first value of the argument `id` in `matches`; `None` when the
/// argument was not matched or has no value.
///
/// Calls `ArgMatches::try_get_one::<String>` and copies what it hands out.
/// That method gives the first value of the argument's occurrences, taken in
/// order, where the argument was matched and its values are `String`s; its
/// errors are taken as "not matched".
#[verifier::external_body]
fn first_value(matches: &ArgMatches, id: &str) -> (value: Option<String>)
    ensures
        match value {
            Some(value) => first_of(matched(*matches), id@) == Some(value@),
            None => first_of(matched(*matches), id@) is None,
        },
{
    matches.try_get_one::<String>(id).ok().flatten().cloned()
}

/// Reads from `argv` what the options are made of: the first value of
/// `flags`, the first value of `output`, and the occurrences of `file`.
pub fn read_matches(argv: &ArgMatches) -> (found: Matches)
    ensures
        found@ == found_in(matched(*argv)),
{
    Matches {
        flags: first_value(argv, "flags"),
        output: first_value(argv, "output"),
        files: occurrences(argv, "file"),
    }
}

/// The options that the command line asks for, given what `clap` found on
/// it.
///
/// A command line that names no input file is answered with [`UsageError`].
/// Flags that were not given are left empty; an output name that was not
/// given, or is empty, is the default.
pub fn get_args(argv: &ArgMatches) -> (result: Result<Options, UsageError>)
    ensures
        named_files(found_in(matched(*argv))).len() == 0 ==> result is Err,
        named_files(found_in(matched(*argv))).len() > 0 ==> result is Ok && result->Ok_0@
            == options_of(found_in(matched(*argv))),
{
    options_from(read_matches(argv))
}

/// The options that the parser's findings ask for.
///
/// Findings that name no input file are answered with [`UsageError`]. Flags
/// that were not given are left empty; an output name that was not given, or
/// is empty, is the default.
pub fn options_from(matches: Matches) -> (result: Result<Options, UsageError>)
    ensures
        named_files(matches@).len() == 0 ==> result is Err,
        named_files(matches@).len() > 0 ==> result is Ok && result->Ok_0@ == options_of(matches@),
{
    let files = match &matches.files {
        Some(groups) => flatten(groups),
        None => Vec::new(),
    };
    if files.len() == 0 {
        return Err(UsageError);
    }
    let flags = match matches.flags {
        Some(flags) => flags,
        None => String::new(),
    };
    let output = match matches.output {
        Some(output) => output,
        None => String::new(),
    };
    Ok(Options { flags, output, files }.or_default_output())
}

impl Options {
    /// The same options, with the default output name where none was chosen.
    pub fn or_default_output(self) -> (options: Options)
        ensures
            options@ == with_default_output(self@),
    {
        if self.output.as_str().is_empty() {
            Options { flags: self.flags, output: String::from_str("a"), files: self.files }
        } else {
            self
        }
    }
}

} // verus!
