//! The exit command: takes no parameters and, once reached, always asks the
//! hosting process to terminate.

use vstd::prelude::*;

use crate::command::{
    Command, CommandBehavior, Effect, EffectModel, MatchModel, MatchResult, Variables,
    VariablesModel,
};
use crate::store::{CommandStore, StoreModel};
use crate::text::{split_tokens, tokens_of};

verus! {

/// Behavior of the exit command.
#[derive(Debug, Clone)]
pub struct ExitCommand {
    pub command: Command,
}

impl CommandBehavior for ExitCommand {
    /// The exit command never blocks dispatch: extra tokens beyond the command
    /// name are ignored with a warning, and nothing is a syntax error.
    open spec fn check_pattern_spec(&self, pattern: Seq<char>, stdin: Seq<char>) -> MatchModel {
        if tokens_of(stdin).len() > 1 {
            MatchModel::ExtraIgnored
        } else {
            MatchModel::NoVariables
        }
    }

    /// Executing exit always terminates the process, whatever variables were
    /// captured.
    open spec fn execute_spec(&self, store: StoreModel, variables: Option<VariablesModel>) -> EffectModel {
        EffectModel::Terminate
    }

    fn check_pattern(&self, pattern: &String, stdin: &str) -> (r: MatchResult) {
        let tokens = split_tokens(stdin);
        if tokens.len() > 1 {
            MatchResult::ExtraIgnored
        } else {
            MatchResult::NoVariables
        }
    }

    fn execute(&self, store: &CommandStore, variables: Option<Variables>) -> (e: Effect) {
        Effect::Terminate
    }
}

} // verus!
