//! The help command: with no argument it prints its own document; with one
//! argument naming a known command it prints that command's document.

use vstd::prelude::*;

use crate::command::{
    Command, CommandBehavior, Effect, EffectModel, MatchModel, MatchResult, SyntaxError,
    Variables, VariablesModel,
};
use crate::store::{CommandStore, StoreModel};
use crate::text::{split_tokens, tokens_of};

verus! {

/// Behavior of the help command.
#[derive(Debug, Clone)]
pub struct HelpCommand {
    pub command: Command,
}

impl CommandBehavior for HelpCommand {
    /// The help command takes one optional argument: two tokens capture the
    /// second as the explained name, one token (or none) captures nothing,
    /// and more than two tokens is a syntax error.
    open spec fn check_pattern_spec(&self, pattern: Seq<char>, stdin: Seq<char>) -> MatchModel {
        let toks = tokens_of(stdin);
        if toks.len() > 2 {
            MatchModel::Failed(SyntaxError::TooManyArguments)
        } else if toks.len() == 2 {
            MatchModel::Parsed(
                VariablesModel {
                    explained: toks[1],
                    explaining: Seq::empty(),
                    other: Seq::empty(),
                },
            )
        } else {
            MatchModel::NoVariables
        }
    }

    /// With no variables, help prints its own document (when its own name
    /// still resolves). With an explained name the index knows, it prints
    /// that command's document; otherwise it reports the target missing.
    open spec fn execute_spec(&self, store: StoreModel, variables: Option<VariablesModel>) -> EffectModel {
        match variables {
            None => match store.resolve_name(self.command@.name) {
                Some(d) => EffectModel::PrintDocument(d.document),
                None => EffectModel::Nothing,
            },
            Some(v) => if store.keys.contains(v.explained) {
                match store.resolve_name(v.explained) {
                    Some(d) => EffectModel::PrintDocument(d.document),
                    None => EffectModel::Nothing,
                }
            } else {
                EffectModel::MissingTarget(v.explained)
            },
        }
    }

    fn check_pattern(&self, pattern: &String, stdin: &str) -> (r: MatchResult) {
        let tokens = split_tokens(stdin);
        if tokens.len() > 2 {
            MatchResult::Failed(SyntaxError::TooManyArguments)
        } else if tokens.len() == 2 {
            proof {
                assert(tokens.deep_view()[1] == tokens@[1]@);
            }
            let explained = tokens[1].clone();
            let vars = Variables::make(explained, Vec::new(), Vec::new());
            proof {
                assert(vars@.explaining =~= Seq::<Seq<char>>::empty());
                assert(vars@.other =~= Seq::<Seq<char>>::empty());
                assert(vars@ =~= (VariablesModel {
                    explained: tokens_of(stdin@)[1],
                    explaining: Seq::empty(),
                    other: Seq::empty(),
                }));
            }
            MatchResult::Parsed(vars)
        } else {
            MatchResult::NoVariables
        }
    }

    fn execute(&self, store: &CommandStore, variables: Option<Variables>) -> (e: Effect) {
        match variables {
            None => match Command::deserialize_command(self.command.name().as_str(), store) {
                Some(own) => Effect::PrintDocument(own.document().clone()),
                None => Effect::Nothing,
            },
            Some(v) => {
                if Command::does_exist(Some(v.explained().as_str()), store) {
                    match Command::deserialize_command(v.explained().as_str(), store) {
                        Some(target) => Effect::PrintDocument(target.document().clone()),
                        None => Effect::Nothing,
                    }
                } else {
                    Effect::MissingTarget(v.explained().clone())
                }
            },
        }
    }
}

} // verus!
