//! The regression command: a comma-delimited multi-variable pattern
//! (`reg y, x1 x2 ...`). Matching extracts the explained variable and the
//! ordered explaining variables; execution is an inspection stub, the actual
//! estimator being outside this library's scope.

use vstd::prelude::*;

use crate::command::{
    Command, CommandBehavior, Effect, EffectModel, MatchModel, MatchResult, SyntaxError,
    Variables, VariablesModel,
};
use crate::store::{CommandStore, StoreModel};
use crate::text::{normalize_commas, normalize_commas_str, split_tokens, tokens_of,
    valid_variable_name};

verus! {

/// Matching an input line against the comma-delimited shape: after surrounding
/// every comma with whitespace, the tokens must run command name, explained
/// variable, a lone comma, then at least one explaining variable, and every
/// captured variable name must be free of reserved delimiter characters.
pub open spec fn regression_match(stdin: Seq<char>) -> MatchModel {
    let toks = tokens_of(normalize_commas(stdin));
    if toks.len() < 3 {
        MatchModel::Failed(SyntaxError::MissingArguments)
    } else if toks[2] != seq![','] {
        MatchModel::Failed(SyntaxError::CommaNotThird)
    } else if !valid_variable_name(toks[1]) {
        MatchModel::Failed(SyntaxError::BadExplainedVariable)
    } else if toks.len() == 3 {
        MatchModel::Failed(SyntaxError::NoExplainingVariables)
    } else if exists|k: int| 3 <= k < toks.len() && !valid_variable_name(#[trigger] toks[k]) {
        MatchModel::Failed(SyntaxError::BadExplainingVariable)
    } else {
        MatchModel::Parsed(
            VariablesModel { explained: toks[1], explaining: toks.skip(3), other: Seq::empty() },
        )
    }
}

/// Behavior of the regression command.
#[derive(Debug, Clone)]
pub struct RegressionCommand {
    pub command: Command,
}

impl CommandBehavior for RegressionCommand {
    open spec fn check_pattern_spec(&self, pattern: Seq<char>, stdin: Seq<char>) -> MatchModel {
        regression_match(stdin)
    }

    /// Executing regression only shows the parsed variables: the estimator is
    /// an external concern and nothing runs without variables.
    open spec fn execute_spec(&self, store: StoreModel, variables: Option<VariablesModel>) -> EffectModel {
        match variables {
            None => EffectModel::Nothing,
            Some(v) => EffectModel::Inspect(v),
        }
    }

    fn check_pattern(&self, pattern: &String, stdin: &str) -> (r: MatchResult) {
        let normalized = normalize_commas_str(stdin);
        let tokens = split_tokens(normalized.as_str());
        let ghost toks = tokens_of(normalize_commas(stdin@));
        let n = tokens.len();
        if n < 3 {
            return MatchResult::Failed(SyntaxError::MissingArguments);
        }
        proof {
            assert(tokens.deep_view()[1] == tokens@[1]@);
            assert(tokens.deep_view()[2] == tokens@[2]@);
            reveal_strlit(",");
            assert(","@ =~= seq![',']);
        }
        if !crate::text::str_eq(tokens[2].as_str(), ",") {
            return MatchResult::Failed(SyntaxError::CommaNotThird);
        }
        if !Command::check_variable_name(tokens[1].as_str()) {
            return MatchResult::Failed(SyntaxError::BadExplainedVariable);
        }
        if n == 3 {
            return MatchResult::Failed(SyntaxError::NoExplainingVariables);
        }
        let mut explaining: Vec<String> = Vec::new();
        let mut k: usize = 3;
        proof {
            assert(explaining.deep_view() =~= toks.subrange(3, 3));
        }
        while k < n
            invariant
                3 <= k <= n,
                n == tokens.len(),
                3 < toks.len(),
                toks == tokens_of(normalize_commas(stdin@)),
                tokens.deep_view() == toks,
                toks[2] == seq![','],
                valid_variable_name(toks[1]),
                explaining.deep_view() == toks.subrange(3, k as int),
                forall|m: int| 3 <= m < k ==> valid_variable_name(#[trigger] toks[m]),
            decreases n - k,
        {
            proof {
                assert(tokens.deep_view()[k as int] == tokens@[k as int]@);
            }
            if !Command::check_variable_name(tokens[k].as_str()) {
                proof {
                    assert(3 <= (k as int) && (k as int) < toks.len()
                        && !valid_variable_name(toks[k as int]));
                }
                return MatchResult::Failed(SyntaxError::BadExplainingVariable);
            }
            let ghost pre = explaining.deep_view();
            explaining.push(tokens[k].clone());
            proof {
                assert(explaining.deep_view() =~= pre.push(toks[k as int]));
                assert(pre.push(toks[k as int]) =~= toks.subrange(3, k + 1));
            }
            k += 1;
        }
        let explained = tokens[1].clone();
        let vars = Variables::make(explained, explaining, Vec::new());
        proof {
            assert(vars@.other =~= Seq::<Seq<char>>::empty());
            assert(toks.subrange(3, n as int) =~= toks.skip(3));
            assert(vars@ =~= (VariablesModel {
                explained: toks[1],
                explaining: toks.skip(3),
                other: Seq::empty(),
            }));
        }
        MatchResult::Parsed(vars)
    }

    fn execute(&self, store: &CommandStore, variables: Option<Variables>) -> (e: Effect) {
        match variables {
            None => Effect::Nothing,
            Some(v) => Effect::Inspect(v),
        }
    }
}

} // verus!
