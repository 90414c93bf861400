//! The start-up configuration: its record, the places it is looked for, and
//! the resolver that takes the first candidate that reads and parses.

use crate::json::{field_of, json_parse, parse_document, read_field, Json, JsonField, ParseError};
use crate::text::same_text;
use vstd::prelude::*;

verus! {

/// Which windows the shell opens. A field that is unset stands for "yes".
#[derive(Clone, Copy, Debug, PartialEq, Eq)]
pub struct AppConfig {
    pub todo_visible: Option<bool>,
    pub markdown_visible: Option<bool>,
}

/// The configuration used when no candidate yields one: every switch on.
pub open spec fn default_config() -> AppConfig {
    AppConfig { todo_visible: Some(true), markdown_visible: Some(true) }
}

impl Default for AppConfig {
    fn default() -> (config: Self)
        ensures
            config == default_config(),
    {
        AppConfig { todo_visible: Some(true), markdown_visible: Some(true) }
    }
}

impl AppConfig {
    /// Every field has a value.
    pub open spec fn is_resolved(self) -> bool {
        self.todo_visible is Some && self.markdown_visible is Some
    }

    /// The record with each unset field replaced by its default.
    pub open spec fn spec_with_defaults(self) -> AppConfig {
        AppConfig {
            todo_visible: Some(
                match self.todo_visible {
                    Some(flag) => flag,
                    None => true,
                },
            ),
            markdown_visible: Some(
                match self.markdown_visible {
                    Some(flag) => flag,
                    None => true,
                },
            ),
        }
    }

    /// Fills each unset field with its default.
    #[verifier::when_used_as_spec(spec_with_defaults)]
    pub fn with_defaults(self) -> (config: AppConfig)
        ensures
            config == self.spec_with_defaults(),
            config.is_resolved(),
    {
        let todo_visible = match self.todo_visible {
            Some(flag) => flag,
            None => true,
        };
        let markdown_visible = match self.markdown_visible {
            Some(flag) => flag,
            None => true,
        };
        AppConfig { todo_visible: Some(todo_visible), markdown_visible: Some(markdown_visible) }
    }

    /// The record that two members of a document make: each an optional
    /// flag, the record refused when either is of another kind.
    pub open spec fn spec_from_fields(todo: JsonField, markdown: JsonField) -> Result<
        AppConfig,
        ParseError,
    > {
        match (todo.spec_optional_bool(), markdown.spec_optional_bool()) {
            (Ok(todo_visible), Ok(markdown_visible)) => Ok(
                AppConfig { todo_visible, markdown_visible },
            ),
            _ => Err(ParseError::InvalidField),
        }
    }

    /// Makes the record from the two members that it reads.
    #[verifier::when_used_as_spec(spec_from_fields)]
    pub fn from_fields(todo: JsonField, markdown: JsonField) -> (r: Result<AppConfig, ParseError>)
        ensures
            r == AppConfig::spec_from_fields(todo, markdown),
    {
        let todo_visible = match todo.optional_bool() {
            Ok(flag) => flag,
            Err(e) => {
                return Err(e);
            },
        };
        let markdown_visible = match markdown.optional_bool() {
            Ok(flag) => flag,
            Err(e) => {
                return Err(e);
            },
        };
        Ok(AppConfig { todo_visible, markdown_visible })
    }
}

/// The record a parsed document stands for: the document must be an object;
/// of its members only `todo_visible` and `markdown_visible` are read.
pub open spec fn config_of_document(doc: Option<Json>) -> Result<AppConfig, ParseError> {
    match doc {
        None => Err(ParseError::Syntax),
        Some(json) => if json is Object {
            AppConfig::spec_from_fields(
                field_of(json, "todo_visible"@),
                field_of(json, "markdown_visible"@),
            )
        } else {
            Err(ParseError::NotAnObject)
        },
    }
}

/// Parses the text of a configuration file.
pub fn parse_config(text: &str) -> (r: Result<AppConfig, ParseError>)
    ensures
        r == config_of_document(json_parse(text@)),
{
    match parse_document(text) {
        Err(_) => Err(ParseError::Syntax),
        Ok(doc) => {
            if doc.is_object() {
                AppConfig::from_fields(
                    read_field(&doc, "todo_visible"),
                    read_field(&doc, "markdown_visible"),
                )
            } else {
                Err(ParseError::NotAnObject)
            }
        },
    }
}

/// A place where the configuration file may lie.
#[derive(Clone, Copy, Debug, PartialEq, Eq)]
pub enum ConfigLocation {
    /// `config.json` in the directory of the running executable.
    BesideExecutable,
    /// `config.json` in the working directory, as an absolute path.
    WorkingDirectory,
    /// `config.json` two levels above a working directory that is a build
    /// output directory.
    AboveBuildOutput,
    /// The relative path `config.json`.
    RelativeHere,
    /// The relative path `../config.json`.
    RelativeParent,
    /// The relative path `../../config.json`.
    RelativeGrandparent,
}

/// The name of the configuration file in a directory.
pub const CONFIG_FILE_NAME: &'static str = "config.json";

impl ConfigLocation {
    /// The path of a relative candidate, which is tried as it is written.
    /// The other candidates are [`CONFIG_FILE_NAME`] in a directory that
    /// only the running process knows, and have none.
    pub open spec fn spec_relative_path(self) -> Option<Seq<char>> {
        match self {
            ConfigLocation::RelativeHere => Some("config.json"@),
            ConfigLocation::RelativeParent => Some("../config.json"@),
            ConfigLocation::RelativeGrandparent => Some("../../config.json"@),
            _ => None,
        }
    }

    /// The relative path to try, where the candidate is one.
    pub fn relative_path(self) -> (path: Option<&'static str>)
        ensures
            match path {
                Some(text) => self.spec_relative_path() == Some(text@),
                None => self.spec_relative_path() is None,
            },
    {
        match self {
            ConfigLocation::RelativeHere => Some("config.json"),
            ConfigLocation::RelativeParent => Some("../config.json"),
            ConfigLocation::RelativeGrandparent => Some("../../config.json"),
            _ => None,
        }
    }
}

/// What the process knows of where it runs.
#[derive(Clone, Copy, Debug, PartialEq, Eq)]
pub struct Surroundings {
    /// The executable's directory could be determined.
    pub executable_dir_known: bool,
    /// The working directory could be determined.
    pub working_dir_known: bool,
    /// The working directory is a build output directory
    /// (see [`is_build_output_dir`]).
    pub in_build_output: bool,
}

/// Whether a directory named `name`, inside one named `parent_name`, is a
/// build output directory: `debug` inside `target`. Where the platform does
/// not split names at a backslash, the single name `target\debug` counts too.
pub open spec fn spec_is_build_output_dir(
    parent_name: Option<Seq<char>>,
    name: Option<Seq<char>>,
) -> bool {
    match name {
        None => false,
        Some(last) => last == "target\\debug"@ || (last == "debug"@ && parent_name == Some(
            "target"@,
        )),
    }
}

/// Tells whether a directory is a build output directory, from its name
/// and the name of the directory it lies in.
pub fn is_build_output_dir(parent_name: Option<&str>, name: Option<&str>) -> (yes: bool)
    ensures
        yes == spec_is_build_output_dir(
            match parent_name {
                Some(text) => Some(text@),
                None => None,
            },
            match name {
                Some(text) => Some(text@),
                None => None,
            },
        ),
{
    match name {
        None => false,
        Some(last) => {
            if same_text(last, "target\\debug") {
                true
            } else if same_text(last, "debug") {
                match parent_name {
                    Some(parent) => same_text(parent, "target"),
                    None => false,
                }
            } else {
                false
            }
        },
    }
}

/// The candidates in the order in which they are tried: beside the
/// executable, in the working directory, above a build output directory,
/// then the three relative paths. The first three are there only where the
/// surroundings give them.
pub open spec fn candidates_in(s: Surroundings) -> Seq<ConfigLocation> {
    let beside = if s.executable_dir_known {
        seq![ConfigLocation::BesideExecutable]
    } else {
        seq![]
    };
    let working = if s.working_dir_known {
        seq![ConfigLocation::WorkingDirectory]
    } else {
        seq![]
    };
    let above = if s.working_dir_known && s.in_build_output {
        seq![ConfigLocation::AboveBuildOutput]
    } else {
        seq![]
    };
    beside + working + above + seq![
        ConfigLocation::RelativeHere,
        ConfigLocation::RelativeParent,
        ConfigLocation::RelativeGrandparent,
    ]
}

/// Lists the candidate locations for these surroundings, first to last.
pub fn candidate_locations(s: Surroundings) -> (list: Vec<ConfigLocation>)
    ensures
        list@ == candidates_in(s),
{
    let mut list: Vec<ConfigLocation> = Vec::new();
    if s.executable_dir_known {
        list.push(ConfigLocation::BesideExecutable);
    }
    if s.working_dir_known {
        list.push(ConfigLocation::WorkingDirectory);
    }
    if s.working_dir_known && s.in_build_output {
        list.push(ConfigLocation::AboveBuildOutput);
    }
    list.push(ConfigLocation::RelativeHere);
    list.push(ConfigLocation::RelativeParent);
    list.push(ConfigLocation::RelativeGrandparent);
    assert(list@ =~= candidates_in(s));
    list
}

/// What a caller of the resolver does next.
#[derive(Clone, Copy, Debug, PartialEq, Eq)]
pub enum ResolverStep {
    /// Read the file at this location and report what came of it.
    Read(ConfigLocation),
    /// Resolution is over: this is the configuration.
    Done(AppConfig),
}

/// The state of a resolution: the candidates not yet tried, and the
/// configuration once one is found.
pub struct ResolverState {
    pub remaining: Seq<ConfigLocation>,
    pub found: Option<AppConfig>,
}

impl ResolverState {
    /// The state before any candidate is tried.
    pub open spec fn fresh(candidates: Seq<ConfigLocation>) -> ResolverState {
        ResolverState { remaining: candidates, found: None }
    }

    /// A candidate is waiting to be read.
    pub open spec fn awaiting(self) -> bool {
        self.found is None && self.remaining.len() > 0
    }

    /// What is to be done in this state.
    pub open spec fn step(self) -> ResolverStep {
        match self.found {
            Some(config) => ResolverStep::Done(config),
            None => if self.remaining.len() > 0 {
                ResolverStep::Read(self.remaining[0])
            } else {
                ResolverStep::Done(default_config())
            },
        }
    }

    /// The state after the candidate that was waiting gave `outcome`: its
    /// record, or `None` where it could not be read or parsed. A state in
    /// which nothing is waiting stays as it is.
    pub open spec fn after(self, outcome: Option<AppConfig>) -> ResolverState {
        if self.awaiting() {
            ResolverState {
                remaining: self.remaining.skip(1),
                found: match outcome {
                    Some(config) => Some(config.spec_with_defaults()),
                    None => None,
                },
            }
        } else {
            self
        }
    }

    /// The state after a run of outcomes, reported in order.
    pub open spec fn after_all(self, outcomes: Seq<Option<AppConfig>>) -> ResolverState
        decreases outcomes.len(),
    {
        if outcomes.len() == 0 {
            self
        } else {
            self.after(outcomes[0]).after_all(outcomes.skip(1))
        }
    }
}

/// What a candidate's file yields: its record where it was read and parses,
/// `None` where it could not be read (`read` is `None`) or does not parse.
pub open spec fn candidate_config(read: Option<Seq<char>>) -> Option<AppConfig> {
    match read {
        None => None,
        Some(text) => match config_of_document(json_parse(text)) {
            Ok(config) => Some(config),
            Err(_) => None,
        },
    }
}

/// The configuration that a list of outcomes resolves to: the record of the
/// first candidate that has one, its unset fields defaulted; the default
/// configuration where none has.
pub open spec fn resolution(outcomes: Seq<Option<AppConfig>>) -> AppConfig
    decreases outcomes.len(),
{
    if outcomes.len() == 0 {
        default_config()
    } else {
        match outcomes[0] {
            Some(config) => config.spec_with_defaults(),
            None => resolution(outcomes.skip(1)),
        }
    }
}

/// Resolves the start-up configuration, one candidate at a time. The caller
/// asks for the next step, reads the file it names, and reports the outcome,
/// until the step is `Done`.
pub struct ConfigResolver {
    candidates: Vec<ConfigLocation>,
    tried: usize,
    found: Option<AppConfig>,
}

impl View for ConfigResolver {
    type V = ResolverState;

    closed spec fn view(&self) -> ResolverState {
        ResolverState {
            remaining: self.candidates@.skip(self.tried as int),
            found: self.found,
        }
    }
}

impl ConfigResolver {
    #[verifier::type_invariant]
    spec fn well_formed(self) -> bool {
        &&& self.tried <= self.candidates.len()
        &&& self.found matches Some(config) ==> config.is_resolved()
    }

    /// A resolver that will try `candidates` from first to last.
    pub fn new(candidates: Vec<ConfigLocation>) -> (resolver: ConfigResolver)
        ensures
            resolver@ == ResolverState::fresh(candidates@),
    {
        let resolver = ConfigResolver { candidates, tried: 0, found: None };
        assert(resolver.candidates@.skip(0) =~= resolver.candidates@);
        resolver
    }

    /// What the caller is to do next. A configuration handed out is always
    /// resolved.
    pub fn next_step(&self) -> (step: ResolverStep)
        ensures
            step == self@.step(),
            step matches ResolverStep::Done(config) ==> config.is_resolved(),
    {
        proof {
            use_type_invariant(self);
        }
        match self.found {
            Some(config) => ResolverStep::Done(config),
            None => {
                if self.tried < self.candidates.len() {
                    ResolverStep::Read(self.candidates[self.tried])
                } else {
                    ResolverStep::Done(AppConfig::default())
                }
            },
        }
    }

    /// Takes the outcome of the candidate that was waiting: its record, or
    /// `None` where it has none.
    pub fn record(&mut self, outcome: Option<AppConfig>)
        ensures
            final(self)@ == old(self)@.after(outcome),
    {
        proof {
            use_type_invariant(&*self);
        }
        if self.found.is_none() && self.tried < self.candidates.len() {
            assert(self.candidates@.skip(self.tried as int).skip(1) =~= self.candidates@.skip(
                self.tried as int + 1,
            ));
            self.tried = self.tried + 1;
            match outcome {
                Some(config) => {
                    self.found = Some(config.with_defaults());
                },
                None => {},
            }
        }
    }

    /// Takes what reading the waiting candidate gave: the file's text, or
    /// `None` where it could not be read. A text that does not parse counts
    /// like a file that could not be read.
    pub fn supply(&mut self, read: Option<&str>)
        ensures
            final(self)@ == old(self)@.after(
                candidate_config(
                    match read {
                        Some(text) => Some(text@),
                        None => None,
                    },
                ),
            ),
    {
        let outcome = match read {
            None => None,
            Some(text) => match parse_config(text) {
                Ok(config) => Some(config),
                Err(_) => None,
            },
        };
        self.record(outcome);
    }
}

/// The rank of a location in the search: the lower, the earlier it is tried.
pub open spec fn priority(location: ConfigLocation) -> nat {
    match location {
        ConfigLocation::BesideExecutable => 0,
        ConfigLocation::WorkingDirectory => 1,
        ConfigLocation::AboveBuildOutput => 2,
        ConfigLocation::RelativeHere => 3,
        ConfigLocation::RelativeParent => 4,
        ConfigLocation::RelativeGrandparent => 5,
    }
}

/// Whatever the surroundings, the candidates stand in the order of their
/// priority, none of them twice, and the three relative paths end the list.
pub proof fn law_candidates_follow_priority(s: Surroundings)
    ensures
        3 <= candidates_in(s).len() <= 6,
        forall|i: int, j: int|
            0 <= i < j < candidates_in(s).len() ==> priority(#[trigger] candidates_in(s)[i])
                < priority(#[trigger] candidates_in(s)[j]),
        candidates_in(s).subrange(candidates_in(s).len() - 3, candidates_in(s).len() as int)
            == seq![
            ConfigLocation::RelativeHere,
            ConfigLocation::RelativeParent,
            ConfigLocation::RelativeGrandparent,
        ],
        candidates_in(s).contains(ConfigLocation::BesideExecutable) <==> s.executable_dir_known,
        candidates_in(s).contains(ConfigLocation::WorkingDirectory) <==> s.working_dir_known,
        candidates_in(s).contains(ConfigLocation::AboveBuildOutput) <==> s.working_dir_known
            && s.in_build_output,
{
    let list = candidates_in(s);
    let relative = seq![
        ConfigLocation::RelativeHere,
        ConfigLocation::RelativeParent,
        ConfigLocation::RelativeGrandparent,
    ];
    let anchored = list.subrange(0, list.len() - 3);
    assert(list.subrange(list.len() - 3, list.len() as int) =~= relative);
    assert(list =~= anchored + relative);
    if s.executable_dir_known {
        assert(list[0] == ConfigLocation::BesideExecutable);
    }
    if s.working_dir_known {
        let at = if s.executable_dir_known {
            1int
        } else {
            0int
        };
        assert(list[at] == ConfigLocation::WorkingDirectory);
        if s.in_build_output {
            assert(list[at + 1] == ConfigLocation::AboveBuildOutput);
        }
    }
}

/// Once a configuration is found, or when no candidate is left, further
/// outcomes change nothing.
pub proof fn law_settled_state_stays(state: ResolverState, outcomes: Seq<Option<AppConfig>>)
    requires
        !state.awaiting(),
    ensures
        state.after_all(outcomes) == state,
    decreases outcomes.len(),
{
    if outcomes.len() > 0 {
        law_settled_state_stays(state, outcomes.skip(1));
    }
}

/// While every candidate so far has failed, the next one in the list is the
/// one to read: candidates are tried in order, none skipped.
pub proof fn law_candidates_tried_in_order(
    candidates: Seq<ConfigLocation>,
    outcomes: Seq<Option<AppConfig>>,
)
    requires
        outcomes.len() < candidates.len(),
        forall|i: int| 0 <= i < outcomes.len() ==> outcomes[i] is None,
    ensures
        ResolverState::fresh(candidates).after_all(outcomes).step() == ResolverStep::Read(
            candidates[outcomes.len() as int],
        ),
    decreases outcomes.len(),
{
    let start = ResolverState::fresh(candidates);
    if outcomes.len() > 0 {
        let rest = outcomes.skip(1);
        assert(start.after(outcomes[0]) == ResolverState::fresh(candidates.skip(1)));
        assert forall|i: int| 0 <= i < rest.len() implies rest[i] is None by {
            assert(rest[i] == outcomes[i + 1]);
        }
        law_candidates_tried_in_order(candidates.skip(1), rest);
    }
}

/// First success wins: when one outcome per candidate has been reported,
/// the resolver is done, and its configuration is the one that
/// [`resolution`] names. Candidates after the first success are never asked
/// for (see [`law_settled_state_stays`]).
pub proof fn law_resolver_follows_resolution(
    candidates: Seq<ConfigLocation>,
    outcomes: Seq<Option<AppConfig>>,
)
    requires
        outcomes.len() == candidates.len(),
    ensures
        ResolverState::fresh(candidates).after_all(outcomes).step() == ResolverStep::Done(
            resolution(outcomes),
        ),
    decreases outcomes.len(),
{
    let start = ResolverState::fresh(candidates);
    if outcomes.len() > 0 {
        let next = start.after(outcomes[0]);
        match outcomes[0] {
            Some(config) => {
                law_settled_state_stays(next, outcomes.skip(1));
            },
            None => {
                assert(next == ResolverState::fresh(candidates.skip(1)));
                law_resolver_follows_resolution(candidates.skip(1), outcomes.skip(1));
            },
        }
    }
}

/// The resolution is the record of the first candidate that has one, with
/// its unset fields defaulted, whatever later candidates hold.
pub proof fn law_first_success_wins(outcomes: Seq<Option<AppConfig>>, first: int)
    requires
        0 <= first < outcomes.len(),
        outcomes[first] is Some,
        forall|i: int| 0 <= i < first ==> outcomes[i] is None,
    ensures
        resolution(outcomes) == outcomes[first]->0.spec_with_defaults(),
    decreases first,
{
    if first > 0 {
        let rest = outcomes.skip(1);
        assert(rest[first - 1] == outcomes[first]);
        assert forall|i: int| 0 <= i < first - 1 implies rest[i] is None by {
            assert(rest[i] == outcomes[i + 1]);
        }
        law_first_success_wins(rest, first - 1);
    }
}

/// With no candidate that has a record, the resolution is the default
/// configuration: both switches on.
pub proof fn law_no_success_gives_default(outcomes: Seq<Option<AppConfig>>)
    requires
        forall|i: int| 0 <= i < outcomes.len() ==> outcomes[i] is None,
    ensures
        resolution(outcomes) == (AppConfig { todo_visible: Some(true), markdown_visible: Some(true) }),
    decreases outcomes.len(),
{
    if outcomes.len() > 0 {
        let rest = outcomes.skip(1);
        assert forall|i: int| 0 <= i < rest.len() implies rest[i] is None by {
            assert(rest[i] == outcomes[i + 1]);
        }
        law_no_success_gives_default(rest);
    }
}

/// Whatever the outcomes, the resolution leaves no field unset.
pub proof fn law_resolution_is_resolved(outcomes: Seq<Option<AppConfig>>)
    ensures
        resolution(outcomes).is_resolved(),
    decreases outcomes.len(),
{
    if outcomes.len() > 0 {
        law_resolution_is_resolved(outcomes.skip(1));
    }
}

} // verus!
