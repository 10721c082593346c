//! Command descriptors, their single-use builder, and the structured result
//! of matching an input line against a command's declared pattern.

use vstd::prelude::*;

use crate::store::{lookup_cmd, CommandStore, StoreModel};
use crate::text::{
    char_is_reserved, first_segment, first_segment_of, is_reserved, split_tokens, tokens_of,
    valid_variable_name,
};

verus! {

/// Mathematical model of a command descriptor.
#[verifier::ext_equal]
pub struct CommandModel {
    pub name: Seq<char>,
    pub alias: Option<Seq<char>>,
    pub pattern: Seq<char>,
    pub document: Seq<char>,
}

/// An immutable command descriptor: formal name, optional alias, declared
/// grammar pattern, and help text.
#[derive(Debug, Clone, PartialEq, Eq, Hash)]
pub struct Command {
    name: String,
    alias: Option<String>,
    pattern: String,
    document: String,
}

impl View for Command {
    type V = CommandModel;

    closed spec fn view(&self) -> CommandModel {
        CommandModel {
            name: self.name@,
            alias: match self.alias {
                Some(a) => Some(a@),
                None => None,
            },
            pattern: self.pattern@,
            document: self.document@,
        }
    }
}

impl DeepView for Command {
    type V = CommandModel;

    open spec fn deep_view(&self) -> CommandModel {
        self.view()
    }
}

impl Command {
    pub fn name(&self) -> (r: &String)
        ensures
            r@ == self@.name,
    {
        &self.name
    }

    pub fn alias(&self) -> (r: &Option<String>)
        ensures
            (r is Some <==> self@.alias is Some),
            r is Some ==> r->0@ == self@.alias->0,
    {
        &self.alias
    }

    pub fn pattern(&self) -> (r: &String)
        ensures
            r@ == self@.pattern,
    {
        &self.pattern
    }

    pub fn document(&self) -> (r: &String)
        ensures
            r@ == self@.document,
    {
        &self.document
    }

    /// An owned copy of this descriptor, equal to it.
    pub(crate) fn duplicate(&self) -> (r: Command)
        ensures
            r == *self,
    {
        Command {
            name: self.name.clone(),
            alias: match &self.alias {
                Some(a) => Some(a.clone()),
                None => None,
            },
            pattern: self.pattern.clone(),
            document: self.document.clone(),
        }
    }
}

/// A consumed-once construction helper for `Command`. The name is fixed at
/// construction; pattern, document and alias may be set once each, and must
/// be non-empty (alias must be present) when they are set.
#[derive(Clone, PartialEq, Eq, Hash)]
pub struct CommandBuilder {
    command: Command,
}

impl View for CommandBuilder {
    type V = CommandModel;

    closed spec fn view(&self) -> CommandModel {
        self.command@
    }
}

impl CommandBuilder {
    pub fn new(command_name: String) -> (r: Self)
        ensures
            r@.name == command_name@,
            r@.alias is None,
            r@.pattern.len() == 0,
            r@.document.len() == 0,
    {
        CommandBuilder {
            command: Command {
                name: command_name,
                alias: None,
                pattern: String::new(),
                document: String::new(),
            },
        }
    }

    pub fn add_alias(self, alias: Option<String>) -> (r: Self)
        requires
            alias is Some,
        ensures
            r@ == (CommandModel { alias: Some(alias->0@), ..self@ }),
    {
        let a = alias.unwrap();
        let mut command = self.command;
        command.alias = Some(a);
        CommandBuilder { command }
    }

    pub fn add_pattern(self, pattern: String) -> (r: Self)
        requires
            pattern@.len() > 0,
        ensures
            r@ == (CommandModel { pattern: pattern@, ..self@ }),
    {
        let mut command = self.command;
        command.pattern = pattern;
        CommandBuilder { command }
    }

    pub fn add_document(self, document: String) -> (r: Self)
        requires
            document@.len() > 0,
        ensures
            r@ == (CommandModel { document: document@, ..self@ }),
    {
        let mut command = self.command;
        command.document = document;
        CommandBuilder { command }
    }

    pub fn build(self) -> (r: Command)
        requires
            self@.name.len() > 0,
            self@.pattern.len() > 0,
            self@.document.len() > 0,
        ensures
            r@ == self@,
    {
        self.command
    }
}

/// Mathematical model of a `Variables` record.
#[verifier::ext_equal]
pub struct VariablesModel {
    pub explained: Seq<char>,
    pub explaining: Seq<Seq<char>>,
    pub other: Seq<Seq<char>>,
}

/// The structured result of matching a command's pattern against input:
/// the single explained (dependent) token, the ordered explaining tokens,
/// and a field reserved for future pattern features.
#[derive(Debug, Clone)]
pub struct Variables {
    explained: String,
    explaining: Vec<String>,
    other: Vec<String>,
}

impl View for Variables {
    type V = VariablesModel;

    closed spec fn view(&self) -> VariablesModel {
        VariablesModel {
            explained: self.explained@,
            explaining: self.explaining.deep_view(),
            other: self.other.deep_view(),
        }
    }
}

impl Variables {
    pub(crate) fn make(explained: String, explaining: Vec<String>, other: Vec<String>) -> (r:
        Variables)
        ensures
            r@.explained == explained@,
            r@.explaining == explaining.deep_view(),
            r@.other == other.deep_view(),
    {
        Variables { explained, explaining, other }
    }

    pub fn explained(&self) -> (r: &String)
        ensures
            r@ == self@.explained,
    {
        &self.explained
    }

    pub fn explaining(&self) -> (r: &Vec<String>)
        ensures
            r.deep_view() == self@.explaining,
    {
        &self.explaining
    }

    pub fn other(&self) -> (r: &Vec<String>)
        ensures
            r.deep_view() == self@.other,
    {
        &self.other
    }
}

/// The candidate command token of an input line: the first whitespace token
/// of the segment before the first comma, if there is one.
pub open spec fn candidate_of(input: Seq<char>) -> Option<Seq<char>> {
    let toks = tokens_of(first_segment(input));
    if toks.len() == 0 {
        None
    } else {
        Some(toks[0])
    }
}

/// What resolving an input line returns: the descriptor the candidate token
/// leads to (directly or through the alias index), or the reason it leads
/// nowhere.
pub open spec fn resolve_spec(input: Seq<char>, store: StoreModel) -> Result<
    CommandModel,
    ResolveErrorModel,
> {
    match candidate_of(input) {
        None => Err(ResolveErrorModel::NoCommandGiven),
        Some(cand) => if !store.keys.contains(cand) {
            Err(ResolveErrorModel::UnknownCommand(cand))
        } else {
            match store.resolve_name(cand) {
                Some(d) => Ok(d),
                None => Err(ResolveErrorModel::UnknownCommand(cand)),
            }
        },
    }
}

impl Command {
    /// Direct descriptor lookup by formal name alone: an alias has no record
    /// of its own, so an alias yields `None` here.
    fn deserialize_command_by_name(name: &str, store: &CommandStore) -> (r: Option<Command>)
        ensures
            match r {
                Some(c) => lookup_cmd(store@.descriptors, name@) == Some(c@),
                None => lookup_cmd(store@.descriptors, name@) is None,
            },
    {
        match store.find_by_name(name) {
            Some(found) => Some(found.duplicate()),
            None => None,
        }
    }

    /// Descriptor lookup by formal name or alias: direct lookup first; failing
    /// that, the name is read as an alias and the formal name the index maps
    /// it to is looked up directly.
    pub fn deserialize_command(name: &str, store: &CommandStore) -> (r: Option<Command>)
        ensures
            match r {
                Some(c) => store@.resolve_name(name@) == Some(c@),
                None => store@.resolve_name(name@) is None,
            },
    {
        match Self::deserialize_command_by_name(name, store) {
            Some(cmd) => Some(cmd),
            None => match store.alias_target(name) {
                Some(formal) => Self::deserialize_command_by_name(formal.as_str(), store),
                None => None,
            },
        }
    }

    /// Whether the alias/name index knows the candidate token (as a formal
    /// name or an alias); an absent token is not known.
    pub(crate) fn does_exist(name: Option<&str>, store: &CommandStore) -> (r: bool)
        ensures
            r == match name {
                Some(n) => store@.keys.contains(n@),
                None => false,
            },
    {
        match name {
            Some(n) => store.has_key(n),
            None => false,
        }
    }

    /// A variable name is acceptable when it contains no comma and no
    /// semicolon, in either their ASCII or full-width forms: those characters
    /// are reserved as pattern delimiters.
    pub fn check_variable_name(variable_name: &str) -> (r: bool)
        ensures
            r == valid_variable_name(variable_name@),
    {
        let n = variable_name.unicode_len();
        let mut i: usize = 0;
        while i < n
            invariant
                i <= n,
                n == variable_name@.len(),
                forall|j: int| 0 <= j < i ==> !is_reserved(variable_name@[j]),
            decreases n - i,
        {
            if char_is_reserved(variable_name.get_char(i)) {
                return false;
            }
            i += 1;
        }
        true
    }

    /// Extracts the candidate command token from the input line and resolves
    /// it to its formal descriptor.
    pub fn resolve(stdin: &str, store: &CommandStore) -> (r: Result<Command, ResolveError>)
        ensures
            match r {
                Ok(c) => resolve_spec(stdin@, store@) == Ok::<CommandModel, ResolveErrorModel>(c@),
                Err(e) => resolve_spec(stdin@, store@) == Err::<CommandModel, ResolveErrorModel>(
                    e@,
                ),
            },
    {
        let segment = first_segment_of(stdin);
        let tokens = split_tokens(segment);
        if tokens.len() == 0 {
            return Err(ResolveError::NoCommandGiven);
        }
        proof {
            assert(tokens.deep_view()[0] == tokens@[0]@);
        }
        let candidate = tokens[0].clone();
        if !store.has_key(candidate.as_str()) {
            return Err(ResolveError::UnknownCommand(candidate));
        }
        match Self::deserialize_command(candidate.as_str(), store) {
            Some(cmd) => Ok(cmd),
            None => Err(ResolveError::UnknownCommand(candidate)),
        }
    }
}

/// Why a line failed to match a command's declared pattern.
#[derive(Debug, Clone, Copy, PartialEq, Eq, Structural)]
pub enum SyntaxError {
    /// Fewer tokens than the comma-delimited shape needs.
    MissingArguments,
    /// The comma is not the third token of the normalized line.
    CommaNotThird,
    /// The explained variable contains a reserved delimiter character.
    BadExplainedVariable,
    /// No explaining variables follow the comma.
    NoExplainingVariables,
    /// An explaining variable contains a reserved delimiter character.
    BadExplainingVariable,
    /// More arguments than the pattern takes.
    TooManyArguments,
}

/// A non-fatal diagnostic produced while matching; the line is still dispatched.
#[derive(Debug, Clone, Copy, PartialEq, Eq, Structural)]
pub enum MatchDiagnostic {
    /// Extra tokens after a command that takes no parameters were ignored.
    ExtraParameters,
    /// The line did not fit the pattern; the command runs without variables.
    Syntax(SyntaxError),
}

/// Mathematical model of a `MatchResult`.
#[verifier::ext_equal]
pub enum MatchModel {
    NoVariables,
    ExtraIgnored,
    Parsed(VariablesModel),
    Failed(SyntaxError),
}

/// The three-way outcome of matching one input line against a pattern: no
/// variables were needed, no variables were needed and extra tokens were
/// ignored, variables were extracted, or the line was malformed.
#[derive(Debug)]
pub enum MatchResult {
    NoVariables,
    ExtraIgnored,
    Parsed(Variables),
    Failed(SyntaxError),
}

impl View for MatchResult {
    type V = MatchModel;

    open spec fn view(&self) -> MatchModel {
        match self {
            MatchResult::NoVariables => MatchModel::NoVariables,
            MatchResult::ExtraIgnored => MatchModel::ExtraIgnored,
            MatchResult::Parsed(v) => MatchModel::Parsed(v@),
            MatchResult::Failed(e) => MatchModel::Failed(*e),
        }
    }
}

/// Mathematical model of an `Effect`.
#[verifier::ext_equal]
pub enum EffectModel {
    Terminate,
    PrintDocument(Seq<char>),
    MissingTarget(Seq<char>),
    Inspect(VariablesModel),
    Nothing,
}

/// What executing a command asks the hosting process to do: terminate the
/// process, print a command's help text, report that a named help target does
/// not exist, show the parsed variables, or nothing.
#[derive(Debug)]
pub enum Effect {
    Terminate,
    PrintDocument(String),
    MissingTarget(String),
    Inspect(Variables),
    Nothing,
}

impl View for Effect {
    type V = EffectModel;

    open spec fn view(&self) -> EffectModel {
        match self {
            Effect::Terminate => EffectModel::Terminate,
            Effect::PrintDocument(d) => EffectModel::PrintDocument(d@),
            Effect::MissingTarget(n) => EffectModel::MissingTarget(n@),
            Effect::Inspect(v) => EffectModel::Inspect(v@),
            Effect::Nothing => EffectModel::Nothing,
        }
    }
}

/// Mathematical model of a `ResolveError`.
#[verifier::ext_equal]
pub enum ResolveErrorModel {
    NoCommandGiven,
    UnknownCommand(Seq<char>),
}

/// Why an input line named no resolvable command: the line holds no command
/// token at all, or the token is known neither as a formal name nor an alias.
#[derive(Debug)]
pub enum ResolveError {
    NoCommandGiven,
    UnknownCommand(String),
}

impl View for ResolveError {
    type V = ResolveErrorModel;

    open spec fn view(&self) -> ResolveErrorModel {
        match self {
            ResolveError::NoCommandGiven => ResolveErrorModel::NoCommandGiven,
            ResolveError::UnknownCommand(c) => ResolveErrorModel::UnknownCommand(c@),
        }
    }
}

pub open spec fn opt_vars_view(v: Option<Variables>) -> Option<VariablesModel> {
    match v {
        Some(x) => Some(x@),
        None => None,
    }
}

/// What every command variant implements: matching a raw input line against
/// its declared pattern, and performing its effect given the extracted
/// variables (or their absence).
pub trait CommandBehavior {
    /// The variant's pattern-matching function, on views.
    spec fn check_pattern_spec(&self, pattern: Seq<char>, stdin: Seq<char>) -> MatchModel;

    /// The variant's execution function, on views.
    spec fn execute_spec(&self, store: StoreModel, variables: Option<VariablesModel>) -> EffectModel;

    /// Matches one raw input line against the declared pattern.
    fn check_pattern(&self, pattern: &String, stdin: &str) -> (r: MatchResult)
        ensures
            r@ == self.check_pattern_spec(pattern@, stdin@),
    ;

    /// Performs the command's effect, described as a value for the hosting
    /// process to carry out.
    fn execute(&self, store: &CommandStore, variables: Option<Variables>) -> (e: Effect)
        ensures
            e@ == self.execute_spec(store@, opt_vars_view(variables)),
    ;
}

/// The closed set of command variants a registry can bind a descriptor to.
#[derive(Debug, Clone)]
pub enum CommandKind {
    Exit(crate::exit::ExitCommand),
    Help(crate::help::HelpCommand),
    Regression(crate::regression::RegressionCommand),
}

impl CommandKind {
    /// The descriptor the variant was registered with.
    pub open spec fn command_model(&self) -> CommandModel {
        match self {
            CommandKind::Exit(b) => b.command@,
            CommandKind::Help(b) => b.command@,
            CommandKind::Regression(b) => b.command@,
        }
    }

    pub(crate) fn held_command(&self) -> (r: &Command)
        ensures
            r@ == self.command_model(),
    {
        match self {
            CommandKind::Exit(b) => &b.command,
            CommandKind::Help(b) => &b.command,
            CommandKind::Regression(b) => &b.command,
        }
    }

    /// An owned copy of this behavior, equal to it.
    pub(crate) fn duplicate(&self) -> (r: CommandKind)
        ensures
            r == *self,
    {
        match self {
            CommandKind::Exit(b) => CommandKind::Exit(
                crate::exit::ExitCommand { command: b.command.duplicate() },
            ),
            CommandKind::Help(b) => CommandKind::Help(
                crate::help::HelpCommand { command: b.command.duplicate() },
            ),
            CommandKind::Regression(b) => CommandKind::Regression(
                crate::regression::RegressionCommand { command: b.command.duplicate() },
            ),
        }
    }
}

impl CommandBehavior for CommandKind {
    open spec fn check_pattern_spec(&self, pattern: Seq<char>, stdin: Seq<char>) -> MatchModel {
        match self {
            CommandKind::Exit(b) => b.check_pattern_spec(pattern, stdin),
            CommandKind::Help(b) => b.check_pattern_spec(pattern, stdin),
            CommandKind::Regression(b) => b.check_pattern_spec(pattern, stdin),
        }
    }

    open spec fn execute_spec(&self, store: StoreModel, variables: Option<VariablesModel>) -> EffectModel {
        match self {
            CommandKind::Exit(b) => b.execute_spec(store, variables),
            CommandKind::Help(b) => b.execute_spec(store, variables),
            CommandKind::Regression(b) => b.execute_spec(store, variables),
        }
    }

    fn check_pattern(&self, pattern: &String, stdin: &str) -> (r: MatchResult) {
        match self {
            CommandKind::Exit(b) => b.check_pattern(pattern, stdin),
            CommandKind::Help(b) => b.check_pattern(pattern, stdin),
            CommandKind::Regression(b) => b.check_pattern(pattern, stdin),
        }
    }

    fn execute(&self, store: &CommandStore, variables: Option<Variables>) -> (e: Effect) {
        match self {
            CommandKind::Exit(b) => b.execute(store, variables),
            CommandKind::Help(b) => b.execute(store, variables),
            CommandKind::Regression(b) => b.execute(store, variables),
        }
    }
}

/// Mathematical model of a `CommandParser`.
#[verifier::ext_equal]
pub struct ParserModel {
    pub behavior: CommandKind,
    pub variables: Option<VariablesModel>,
    pub diagnostic: Option<MatchDiagnostic>,
}

/// One dispatch result: the behavior bound to the resolved command, the
/// variables the pattern match extracted (absent when none were needed or the
/// line was malformed), and the non-fatal diagnostic the match produced.
pub struct CommandParser {
    specific_command: CommandKind,
    variables: Option<Variables>,
    diagnostic: Option<MatchDiagnostic>,
}

impl View for CommandParser {
    type V = ParserModel;

    closed spec fn view(&self) -> ParserModel {
        ParserModel {
            behavior: self.specific_command,
            variables: opt_vars_view(self.variables),
            diagnostic: self.diagnostic,
        }
    }
}

impl CommandParser {
    pub fn command(&self) -> (r: &CommandKind)
        ensures
            *r == self@.behavior,
    {
        &self.specific_command
    }

    pub fn variables(&self) -> (r: &Option<Variables>)
        ensures
            opt_vars_view(*r) == self@.variables,
    {
        &self.variables
    }

    pub fn diagnostic(&self) -> (r: &Option<MatchDiagnostic>)
        ensures
            *r == self@.diagnostic,
    {
        &self.diagnostic
    }
}

/// How a dispatch result relates to the descriptor it was resolved from: the
/// behavior is the one registered under the descriptor's formal name, and the
/// variables and diagnostic reproduce the outcome of matching `stdin` against
/// the descriptor's pattern.
pub open spec fn parser_matches(
    p: ParserModel,
    d: CommandModel,
    stdin: Seq<char>,
    registry: Seq<CommandKind>,
) -> bool {
    &&& crate::registry::lookup_kind(registry, d.name) == Some(p.behavior)
    &&& {
        let m = p.behavior.check_pattern_spec(d.pattern, stdin);
        &&& p.variables == (match m {
            MatchModel::Parsed(v) => Some(v),
            _ => None::<VariablesModel>,
        })
        &&& p.diagnostic == (match m {
            MatchModel::ExtraIgnored => Some(MatchDiagnostic::ExtraParameters),
            MatchModel::Failed(e) => Some(MatchDiagnostic::Syntax(e)),
            _ => None::<MatchDiagnostic>,
        })
    }
}

impl Command {
    /// Resolves `name` (already known to the index) to its descriptor, matches
    /// `stdin` against that descriptor's pattern with the registered behavior,
    /// and pairs the two; `None` when no descriptor is found.
    pub fn explain_by_pattern(
        name: &str,
        stdin: &String,
        store: &CommandStore,
        registry: &crate::registry::Registry,
    ) -> (r: Option<CommandParser>)
        requires
            crate::registry::registry_covers(registry@, store@),
        ensures
            match store@.resolve_name(name@) {
                Some(d) => r is Some && parser_matches((r->0)@, d, stdin@, registry@),
                None => r is None,
            },
    {
        match Self::deserialize_command(name, store) {
            Some(command) => {
                proof {
                    let dm = command@;
                    if crate::store::lookup_cmd(store@.descriptors, name@) is Some {
                        crate::store::lemma_lookup_cmd_found(store@.descriptors, name@, dm);
                    } else {
                        crate::store::lemma_lookup_cmd_found(
                            store@.descriptors,
                            store@.entries[name@],
                            dm,
                        );
                    }
                    let i = choose|i: int|
                        0 <= i < store@.descriptors.len() && store@.descriptors[i] == dm;
                    assert(crate::registry::lookup_kind(
                        registry@,
                        store@.descriptors[i].name,
                    ) is Some);
                }
                match registry.find_behavior(command.name().as_str()) {
                    Some(found) => {
                        let behavior = found.duplicate();
                        let outcome = behavior.check_pattern(command.pattern(), stdin.as_str());
                        let parser = match outcome {
                            MatchResult::NoVariables => CommandParser {
                                specific_command: behavior,
                                variables: None,
                                diagnostic: None,
                            },
                            MatchResult::ExtraIgnored => CommandParser {
                                specific_command: behavior,
                                variables: None,
                                diagnostic: Some(MatchDiagnostic::ExtraParameters),
                            },
                            MatchResult::Parsed(v) => CommandParser {
                                specific_command: behavior,
                                variables: Some(v),
                                diagnostic: None,
                            },
                            MatchResult::Failed(e) => CommandParser {
                                specific_command: behavior,
                                variables: None,
                                diagnostic: Some(MatchDiagnostic::Syntax(e)),
                            },
                        };
                        Some(parser)
                    },
                    None => None,
                }
            },
            None => None,
        }
    }

    /// Resolves the input line to a command and matches it against that
    /// command's pattern, or says why the line names no command. Requires a
    /// registry that binds a behavior to every descriptor the store holds.
    pub fn explain_from(
        stdin: &String,
        store: &CommandStore,
        registry: &crate::registry::Registry,
    ) -> (r: Result<CommandParser, ResolveError>)
        requires
            crate::registry::registry_covers(registry@, store@),
        ensures
            match r {
                Ok(p) => resolve_spec(stdin@, store@) is Ok && parser_matches(
                    p@,
                    resolve_spec(stdin@, store@)->Ok_0,
                    stdin@,
                    registry@,
                ),
                Err(e) => resolve_spec(stdin@, store@) == Err::<CommandModel, ResolveErrorModel>(
                    e@,
                ),
            },
    {
        let segment = first_segment_of(stdin.as_str());
        let tokens = split_tokens(segment);
        if tokens.len() == 0 {
            return Err(ResolveError::NoCommandGiven);
        }
        proof {
            assert(tokens.deep_view()[0] == tokens@[0]@);
        }
        let candidate = tokens[0].clone();
        if !store.has_key(candidate.as_str()) {
            return Err(ResolveError::UnknownCommand(candidate));
        }
        match Self::explain_by_pattern(candidate.as_str(), stdin, store, registry) {
            Some(parser) => Ok(parser),
            None => Err(ResolveError::UnknownCommand(candidate)),
        }
    }
}

/// Runs one dispatch result: executes the behavior on the extracted variables
/// and hands back the effect for the hosting process to carry out; an absent
/// result does nothing.
pub fn execute_command(parser_option: Option<CommandParser>, store: &CommandStore) -> (e: Effect)
    ensures
        e@ == (match parser_option {
            None => EffectModel::Nothing,
            Some(p) => p@.behavior.execute_spec(store@, p@.variables),
        }),
{
    match parser_option {
        Some(parser) => {
            let CommandParser { specific_command, variables, diagnostic: _ } = parser;
            specific_command.execute(store, variables)
        },
        None => Effect::Nothing,
    }
}

} // verus!
