//! The library's stated laws, proved once and for all over the models: how
//! resolution treats formal names, aliases and unknown tokens; that the exit
//! command never blocks; that matching is pure; and that a stored descriptor
//! reads back unchanged.

use vstd::prelude::*;

use crate::command::{
    candidate_of, parser_matches, resolve_spec, CommandBehavior, CommandKind, CommandModel,
    EffectModel, MatchModel, ParserModel, ResolveErrorModel, VariablesModel,
};
use crate::exit::ExitCommand;
use crate::registry::lookup_kind;
use crate::store::{lemma_lookup_cmd_at, lookup_cmd, StoreModel};
use crate::text::{
    first_segment, flush, is_space, lemma_first_segment_append, lemma_tokens_acc_prefix,
    tokens_acc, tokens_of,
};

verus! {

/// A whitespace- and comma-free token `t`, followed by nothing or by
/// whitespace, is the candidate command token of the whole line.
pub proof fn lemma_candidate_token(t: Seq<char>, rest: Seq<char>)
    requires
        t.len() > 0,
        forall|i: int| 0 <= i < t.len() ==> !is_space(#[trigger] t[i]) && t[i] != ',',
        rest.len() == 0 || is_space(rest[0]),
    ensures
        candidate_of(t + rest) == Some(t),
{
    lemma_first_segment_append(t, rest);
    let seg_rest = first_segment(rest);
    lemma_tokens_acc_prefix(t, seg_rest, Seq::empty());
    assert(Seq::<char>::empty() + t =~= t);
    assert(tokens_of(t + seg_rest) == tokens_acc(seg_rest, t));
    if rest.len() == 0 {
        assert(seg_rest =~= Seq::<char>::empty());
        assert(tokens_acc(seg_rest, t) == flush(t));
        assert(flush(t) == seq![t]);
    } else {
        assert(rest[0] != ',');
        assert(seg_rest == seq![rest[0]] + first_segment(rest.skip(1)));
        assert(seg_rest[0] == rest[0]);
        assert(tokens_acc(seg_rest, t) == flush(t) + tokens_acc(seg_rest.skip(1), Seq::empty()));
        assert(flush(t) == seq![t]);
        assert((seq![t] + tokens_acc(seg_rest.skip(1), Seq::empty()))[0] == t);
    }
}

/// Resolution by formal name: when the index knows the non-empty token `n`
/// and the store registers descriptor `d` under `n`, every line that starts
/// with the token `n` resolves to `d`.
pub proof fn lemma_resolve_formal_name(
    store: StoreModel,
    n: Seq<char>,
    rest: Seq<char>,
    d: CommandModel,
)
    requires
        lookup_cmd(store.descriptors, n) == Some(d),
        store.keys.contains(n),
        n.len() > 0,
        forall|i: int| 0 <= i < n.len() ==> !is_space(#[trigger] n[i]) && n[i] != ',',
        rest.len() == 0 || is_space(rest[0]),
    ensures
        resolve_spec(n + rest, store) == Ok::<CommandModel, ResolveErrorModel>(d),
{
    lemma_candidate_token(n, rest);
}

/// Alias indirection: when the token `a` is no formal name itself but the
/// index maps it to the formal name `n`, a line naming `a` resolves to
/// exactly what a line naming `n` resolves to: the descriptor under `n`.
pub proof fn lemma_resolve_alias(
    store: StoreModel,
    a: Seq<char>,
    n: Seq<char>,
    rest_a: Seq<char>,
    rest_n: Seq<char>,
    d: CommandModel,
)
    requires
        store.entries.dom().contains(a),
        store.entries[a] == n,
        lookup_cmd(store.descriptors, a) is None,
        lookup_cmd(store.descriptors, n) == Some(d),
        store.keys.contains(a),
        store.keys.contains(n),
        a.len() > 0,
        forall|i: int| 0 <= i < a.len() ==> !is_space(#[trigger] a[i]) && a[i] != ',',
        n.len() > 0,
        forall|i: int| 0 <= i < n.len() ==> !is_space(#[trigger] n[i]) && n[i] != ',',
        rest_a.len() == 0 || is_space(rest_a[0]),
        rest_n.len() == 0 || is_space(rest_n[0]),
    ensures
        resolve_spec(a + rest_a, store) == Ok::<CommandModel, ResolveErrorModel>(d),
        resolve_spec(a + rest_a, store) == resolve_spec(n + rest_n, store),
{
    lemma_candidate_token(a, rest_a);
    lemma_resolve_formal_name(store, n, rest_n, d);
}

/// Alias and formal name are interchangeable for dispatch, not only for
/// resolution: two lines that name the command by its alias `a` and by its
/// formal name `n` resolve to the same descriptor `d`, and any dispatch
/// results the dispatcher's contract admits for the two lines pair `d` with
/// the same registered behavior.
pub proof fn lemma_dispatch_alias(
    store: StoreModel,
    registry: Seq<CommandKind>,
    a: Seq<char>,
    n: Seq<char>,
    rest_a: Seq<char>,
    rest_n: Seq<char>,
    d: CommandModel,
    pa: ParserModel,
    pn: ParserModel,
)
    requires
        store.entries.dom().contains(a),
        store.entries[a] == n,
        lookup_cmd(store.descriptors, a) is None,
        lookup_cmd(store.descriptors, n) == Some(d),
        store.keys.contains(a),
        store.keys.contains(n),
        a.len() > 0,
        forall|i: int| 0 <= i < a.len() ==> !is_space(#[trigger] a[i]) && a[i] != ',',
        n.len() > 0,
        forall|i: int| 0 <= i < n.len() ==> !is_space(#[trigger] n[i]) && n[i] != ',',
        rest_a.len() == 0 || is_space(rest_a[0]),
        rest_n.len() == 0 || is_space(rest_n[0]),
        parser_matches(pa, resolve_spec(a + rest_a, store)->Ok_0, a + rest_a, registry),
        parser_matches(pn, resolve_spec(n + rest_n, store)->Ok_0, n + rest_n, registry),
    ensures
        resolve_spec(a + rest_a, store) == Ok::<CommandModel, ResolveErrorModel>(d),
        resolve_spec(n + rest_n, store) == Ok::<CommandModel, ResolveErrorModel>(d),
        lookup_kind(registry, d.name) == Some(pa.behavior),
        pa.behavior == pn.behavior,
{
    lemma_resolve_alias(store, a, n, rest_a, rest_n, d);
}

/// A candidate token known neither as a formal name nor as an alias fails
/// with `UnknownCommand` carrying that token.
pub proof fn lemma_resolve_unknown(store: StoreModel, t: Seq<char>, rest: Seq<char>)
    requires
        !store.keys.contains(t),
        t.len() > 0,
        forall|i: int| 0 <= i < t.len() ==> !is_space(#[trigger] t[i]) && t[i] != ',',
        rest.len() == 0 || is_space(rest[0]),
    ensures
        resolve_spec(t + rest, store) == Err::<CommandModel, ResolveErrorModel>(
            ResolveErrorModel::UnknownCommand(t),
        ),
{
    lemma_candidate_token(t, rest);
}

/// A line of whitespace alone (the empty line included) holds no command
/// token and fails with `NoCommandGiven`, whatever the store holds.
pub proof fn lemma_resolve_blank(store: StoreModel, input: Seq<char>)
    requires
        forall|i: int| 0 <= i < input.len() ==> is_space(#[trigger] input[i]),
    ensures
        resolve_spec(input, store) == Err::<CommandModel, ResolveErrorModel>(
            ResolveErrorModel::NoCommandGiven,
        ),
{
    lemma_first_segment_all_space(input);
    lemma_tokens_of_all_space(first_segment(input));
}

/// Whitespace holds no comma, so an all-whitespace line is its own first
/// segment.
proof fn lemma_first_segment_all_space(s: Seq<char>)
    requires
        forall|i: int| 0 <= i < s.len() ==> is_space(#[trigger] s[i]),
    ensures
        first_segment(s) == s,
    decreases s.len(),
{
    if s.len() == 0 {
        assert(first_segment(s) =~= s);
    } else {
        lemma_first_segment_all_space(s.skip(1));
        assert(seq![s[0]] + s.skip(1) =~= s);
    }
}

/// Whitespace alone tokenizes to nothing.
proof fn lemma_tokens_of_all_space(s: Seq<char>)
    requires
        forall|i: int| 0 <= i < s.len() ==> is_space(#[trigger] s[i]),
    ensures
        tokens_of(s) == Seq::<Seq<char>>::empty(),
    decreases s.len(),
{
    if s.len() == 0 {
    } else {
        lemma_tokens_of_all_space(s.skip(1));
        assert(flush(Seq::<char>::empty()) + tokens_acc(s.skip(1), Seq::empty())
            =~= tokens_of(s.skip(1)));
    }
}

/// The exit command never blocks dispatch — no input is a syntax error for
/// it — and, once reached, its execution always terminates the process,
/// whatever variables were captured.
pub proof fn lemma_exit_never_blocks(
    b: ExitCommand,
    pattern: Seq<char>,
    stdin: Seq<char>,
    store: StoreModel,
    variables: Option<VariablesModel>,
)
    ensures
        !(b.check_pattern_spec(pattern, stdin) is Failed),
        b.execute_spec(store, variables) == EffectModel::Terminate,
{
}

/// Matching is pure: for one behavior, pattern and input line, any two results
/// the matcher's contract admits are equal.
pub proof fn lemma_match_deterministic<B: CommandBehavior>(
    b: &B,
    pattern: Seq<char>,
    stdin: Seq<char>,
    r1: MatchModel,
    r2: MatchModel,
)
    requires
        r1 == b.check_pattern_spec(pattern, stdin),
        r2 == b.check_pattern_spec(pattern, stdin),
    ensures
        r1 == r2,
{
}

/// Round trip: a descriptor held by a well-formed store is read back
/// unchanged when looked up under its formal name.
pub proof fn lemma_store_round_trip(store: StoreModel, i: int)
    requires
        store.wf(),
        0 <= i < store.descriptors.len(),
    ensures
        lookup_cmd(store.descriptors, store.descriptors[i].name) == Some(store.descriptors[i]),
        store.resolve_name(store.descriptors[i].name) == Some(store.descriptors[i]),
{
    lemma_lookup_cmd_at(store.descriptors, i);
}

} // verus!
