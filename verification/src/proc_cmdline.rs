//! Kernel parameter parsing: splits the boot command line into
//! whitespace-delimited `key=value` tokens and dispatches each recognized
//! key's handler on the value, left to right, mutating the configuration
//! state that the handler table is registered against.

use vstd::prelude::*;

use crate::strings::is_space;
use crate::strings::is_space_char;
use crate::strings::str_eq;

verus! {

/// Configuration state populated by the boot-parameter handlers: created
/// at startup, mutated only during the parse pass, read thereafter, and
/// always passed by reference rather than held as global state.
#[derive(Debug)]
pub struct ParamContext {
    pub debug: bool,
    pub nvidia_smi_lgc_value: Option<String>,
}

/// Mathematical image of a [`ParamContext`].
pub ghost struct ParamContextView {
    pub debug: bool,
    pub nvidia_smi_lgc_value: Option<Seq<char>>,
}

impl View for ParamContext {
    type V = ParamContextView;

    open spec fn view(&self) -> ParamContextView {
        ParamContextView {
            debug: self.debug,
            nvidia_smi_lgc_value: match self.nvidia_smi_lgc_value {
                Some(s) => Some(s@),
                None => None,
            },
        }
    }
}

/// The registered handlers, one variant per recognized kernel parameter.
/// Adding a parameter means adding a variant and an arm in
/// [`apply_handler`], without touching the dispatch logic.
#[derive(Clone, Copy, Debug, PartialEq, Eq, Structural)]
pub enum ParamHandler {
    /// `nvidia.init.debug`: value `"1"` enables debug logging, anything
    /// else disables it.
    InitDebug,
    /// `nvidia.smi.lgc`: records the requested lock-gpu-clocks value.
    SmiLgc,
}

/// One entry of the handler table: a recognized key and its handler.
pub struct ParamEntry {
    pub key: String,
    pub handler: ParamHandler,
}

impl View for ParamEntry {
    type V = (Seq<char>, ParamHandler);

    open spec fn view(&self) -> (Seq<char>, ParamHandler) {
        (self.key@, self.handler)
    }
}

impl DeepView for ParamEntry {
    type V = (Seq<char>, ParamHandler);

    open spec fn deep_view(&self) -> (Seq<char>, ParamHandler) {
        self.view()
    }
}

/// A parameter handler failed. None of the registered handlers fails,
/// but a failing handler aborts the remaining parse pass at once.
#[derive(Debug)]
pub struct HandlerError;

/// The context after one handler runs on a value.
pub open spec fn apply_handler_spec(
    handler: ParamHandler,
    value: Seq<char>,
    ctx: ParamContextView,
) -> ParamContextView {
    match handler {
        ParamHandler::InitDebug => ParamContextView { debug: value == "1"@, ..ctx },
        ParamHandler::SmiLgc => ParamContextView { nvidia_smi_lgc_value: Some(value), ..ctx },
    }
}

/// The position of the first `=` in a token, if any.
pub open spec fn find_eq_spec(t: Seq<char>) -> Option<int>
    decreases t.len(),
{
    if t.len() == 0 {
        None
    } else if t[0] == '=' {
        Some(0)
    } else {
        match find_eq_spec(t.drop_first()) {
            Some(i) => Some(i + 1),
            None => None,
        }
    }
}

/// The handler registered for a key: the first entry carrying that key.
pub open spec fn lookup_spec(reg: Seq<(Seq<char>, ParamHandler)>, key: Seq<char>) -> Option<
    ParamHandler,
>
    decreases reg.len(),
{
    if reg.len() == 0 {
        None
    } else if reg.first().0 == key {
        Some(reg.first().1)
    } else {
        lookup_spec(reg.drop_first(), key)
    }
}

/// The effect of one token on the context: a token with an `=` whose key
/// is registered runs its handler on the part after the first `=`; every
/// other token is ignored.
pub open spec fn token_effect_spec(
    reg: Seq<(Seq<char>, ParamHandler)>,
    t: Seq<char>,
    ctx: ParamContextView,
) -> ParamContextView {
    match find_eq_spec(t) {
        None => ctx,
        Some(p) => {
            let key = t.subrange(0, p);
            let value = t.subrange(p + 1, t.len() as int);
            match lookup_spec(reg, key) {
                None => ctx,
                Some(h) => apply_handler_spec(h, value, ctx),
            }
        },
    }
}

/// The context after the tokens are processed left to right.
pub open spec fn run_params_spec(
    reg: Seq<(Seq<char>, ParamHandler)>,
    toks: Seq<Seq<char>>,
    ctx: ParamContextView,
) -> ParamContextView
    decreases toks.len(),
{
    if toks.len() == 0 {
        ctx
    } else {
        run_params_spec(reg, toks.drop_first(), token_effect_spec(reg, toks.first(), ctx))
    }
}

/// The whitespace-split tokens of `s`, with `cur` the token accumulated
/// so far.
pub open spec fn tokens_acc(s: Seq<char>, cur: Seq<char>) -> Seq<Seq<char>>
    decreases s.len(),
{
    if s.len() == 0 {
        if cur.len() == 0 {
            Seq::empty()
        } else {
            seq![cur]
        }
    } else if is_space(s[0]) {
        if cur.len() == 0 {
            tokens_acc(s.drop_first(), Seq::empty())
        } else {
            seq![cur] + tokens_acc(s.drop_first(), Seq::empty())
        }
    } else {
        tokens_acc(s.drop_first(), cur.push(s[0]))
    }
}

/// The maximal whitespace-free tokens of the command line, in order.
pub open spec fn tokens_spec(s: Seq<char>) -> Seq<Seq<char>> {
    tokens_acc(s, Seq::empty())
}

/// Splits the command line on ASCII whitespace into its tokens.
fn split_tokens(cmdline: &str) -> (r: Vec<String>)
    ensures
        r.deep_view() == tokens_spec(cmdline@),
{
    let len = cmdline.unicode_len();
    let mut result: Vec<String> = Vec::new();
    let mut i: usize = 0;
    let mut start: usize = 0;
    proof {
        assert(cmdline@.subrange(0, len as int) =~= cmdline@);
        assert(cmdline@.subrange(0, 0) =~= Seq::<char>::empty());
        assert(Seq::<Seq<char>>::empty() + tokens_acc(cmdline@, Seq::empty()) =~= tokens_spec(
            cmdline@,
        ));
    }
    while i < len
        invariant
            len == cmdline@.len(),
            start <= i <= len,
            tokens_spec(cmdline@) == result.deep_view() + tokens_acc(
                cmdline@.subrange(i as int, len as int),
                cmdline@.subrange(start as int, i as int),
            ),
        decreases len - i,
    {
        let ghost rest = cmdline@.subrange(i as int, len as int);
        let ghost cur = cmdline@.subrange(start as int, i as int);
        proof {
            assert(rest[0] == cmdline@[i as int]);
            assert(rest.drop_first() =~= cmdline@.subrange(i + 1, len as int));
        }
        let c = cmdline.get_char(i);
        if is_space_char(c) {
            if start < i {
                let token = cmdline.substring_char(start, i);
                result.push(token.to_owned());
                proof {
                    assert(result.deep_view() =~= result.deep_view().subrange(
                        0,
                        result.deep_view().len() - 1,
                    ).push(cur));
                    assert(tokens_acc(rest, cur) == seq![cur] + tokens_acc(
                        rest.drop_first(),
                        Seq::empty(),
                    ));
                    assert(result.deep_view() + tokens_acc(rest.drop_first(), Seq::empty())
                        =~= result.deep_view().subrange(0, result.deep_view().len() - 1) + (
                    seq![cur] + tokens_acc(rest.drop_first(), Seq::empty())));
                }
            }
            i += 1;
            start = i;
            proof {
                assert(cmdline@.subrange(start as int, i as int) =~= Seq::<char>::empty());
            }
        } else {
            proof {
                assert(cur.push(cmdline@[i as int]) =~= cmdline@.subrange(
                    start as int,
                    i + 1,
                ));
            }
            i += 1;
        }
    }
    proof {
        assert(cmdline@.subrange(i as int, len as int) =~= Seq::<char>::empty());
    }
    if start < i {
        let token = cmdline.substring_char(start, i);
        result.push(token.to_owned());
        proof {
            assert(tokens_acc(
                Seq::empty(),
                cmdline@.subrange(start as int, i as int),
            ) == seq![cmdline@.subrange(start as int, i as int)]);
            assert(result.deep_view() =~= tokens_spec(cmdline@));
        }
    } else {
        proof {
            assert(result.deep_view() + Seq::<Seq<char>>::empty() =~= result.deep_view());
        }
    }
    result
}

/// No `=` anywhere means the token splits into no key and value.
proof fn lemma_find_eq_none(t: Seq<char>)
    requires
        forall|j: int| 0 <= j < t.len() ==> t[j] != '=',
    ensures
        find_eq_spec(t) is None,
    decreases t.len(),
{
    if t.len() > 0 {
        lemma_find_eq_none(t.drop_first());
    }
}

/// The first `=` is found at the first position holding one.
proof fn lemma_find_eq_at(t: Seq<char>, i: int)
    requires
        0 <= i < t.len(),
        t[i] == '=',
        forall|j: int| 0 <= j < i ==> t[j] != '=',
    ensures
        find_eq_spec(t) == Some(i),
    decreases i,
{
    if i > 0 {
        lemma_find_eq_at(t.drop_first(), i - 1);
    }
}

/// Finds the first `=` in a token.
fn find_eq(token: &str) -> (r: Option<usize>)
    ensures
        match r {
            Some(i) => i < token@.len() && token@[i as int] == '=' && find_eq_spec(token@)
                == Some(i as int),
            None => find_eq_spec(token@) is None,
        },
{
    let len = token.unicode_len();
    let mut i: usize = 0;
    while i < len
        invariant
            len == token@.len(),
            i <= len,
            forall|j: int| 0 <= j < i ==> token@[j] != '=',
        decreases len - i,
    {
        if token.get_char(i) == '=' {
            proof {
                lemma_find_eq_at(token@, i as int);
            }
            return Some(i);
        }
        i += 1;
    }
    proof {
        lemma_find_eq_none(token@);
    }
    None
}

/// Looks a key up in the handler table; the first entry with that key
/// decides.
fn lookup_handler(handlers: &Vec<ParamEntry>, key: &str) -> (r: Option<ParamHandler>)
    ensures
        r == lookup_spec(handlers.deep_view(), key@),
{
    let ghost reg = handlers.deep_view();
    proof {
        assert(reg.subrange(0, reg.len() as int) =~= reg);
    }
    let mut i: usize = 0;
    while i < handlers.len()
        invariant
            i <= handlers@.len(),
            reg == handlers.deep_view(),
            lookup_spec(reg, key@) == lookup_spec(
                reg.subrange(i as int, reg.len() as int),
                key@,
            ),
        decreases handlers@.len() - i,
    {
        proof {
            assert(reg.subrange(i as int, reg.len() as int).first() == reg[i as int]);
            assert(reg.subrange(i as int, reg.len() as int).drop_first() =~= reg.subrange(
                i + 1,
                reg.len() as int,
            ));
        }
        if str_eq(handlers[i].key.as_str(), key) {
            return Some(handlers[i].handler);
        }
        i += 1;
    }
    None
}

/// Handler for the debug toggle key: value `"1"` enables debug logging,
/// anything else (the empty value included) disables it.
pub fn nvidia_init_debug(value: &str, context: &mut ParamContext) -> (r: Result<(), HandlerError>)
    ensures
        r is Ok,
        final(context)@ == apply_handler_spec(ParamHandler::InitDebug, value@, old(context)@),
{
    context.debug = str_eq(value, "1");
    Ok(())
}

/// Handler for the lock-gpu-clocks key: records the requested value.
pub fn nvidia_smi_lgc(value: &str, context: &mut ParamContext) -> (r: Result<(), HandlerError>)
    ensures
        r is Ok,
        final(context)@ == apply_handler_spec(ParamHandler::SmiLgc, value@, old(context)@),
{
    context.nvidia_smi_lgc_value = Some(value.to_owned());
    Ok(())
}

/// Runs the handler registered under `handler` on a value.
fn apply_handler(handler: ParamHandler, value: &str, context: &mut ParamContext) -> (r: Result<
    (),
    HandlerError,
>)
    ensures
        r is Ok,
        final(context)@ == apply_handler_spec(handler, value@, old(context)@),
{
    match handler {
        ParamHandler::InitDebug => nvidia_init_debug(value, context),
        ParamHandler::SmiLgc => nvidia_smi_lgc(value, context),
    }
}

/// Parses the boot command line and dispatches recognized parameters.
///
/// The command line is split on ASCII whitespace; each token is split on
/// its first `=` into key and value; a registered key runs its handler on
/// the value. Tokens are processed left to right, a repeated key runs its
/// handler repeatedly, so the last occurrence wins; unrecognized keys and
/// tokens without `=` are ignored. A handler error aborts the remaining
/// parse at once, with no rollback; the registered handlers never fail,
/// so the parse succeeds and leaves the context at the left-to-right fold
/// of all tokens.
pub fn process_kernel_params(
    handlers: &Vec<ParamEntry>,
    context: &mut ParamContext,
    cmdline: &str,
) -> (r: Result<(), HandlerError>)
    ensures
        r is Ok,
        final(context)@ == run_params_spec(
            handlers.deep_view(),
            tokens_spec(cmdline@),
            old(context)@,
        ),
{
    let ghost reg = handlers.deep_view();
    let tokens = split_tokens(cmdline);
    let ghost toks = tokens.deep_view();
    proof {
        assert(toks.subrange(0, toks.len() as int) =~= toks);
    }
    let mut i: usize = 0;
    while i < tokens.len()
        invariant
            i <= tokens@.len(),
            reg == handlers.deep_view(),
            toks == tokens.deep_view(),
            run_params_spec(reg, toks, old(context)@) == run_params_spec(
                reg,
                toks.subrange(i as int, toks.len() as int),
                context@,
            ),
        decreases tokens@.len() - i,
    {
        let ghost rest = toks.subrange(i as int, toks.len() as int);
        proof {
            assert(rest.first() == toks[i as int]);
            assert(rest.drop_first() =~= toks.subrange(i + 1, toks.len() as int));
        }
        let token = tokens[i].as_str();
        let ghost ctx_before = context@;
        match find_eq(token) {
            Some(p) => {
                let token_len = token.unicode_len();
                let key = token.substring_char(0, p);
                let value = token.substring_char(p + 1, token_len);
                match lookup_handler(handlers, key) {
                    Some(h) => {
                        let res = apply_handler(h, value, context);
                        if res.is_err() {
                            return res;
                        }
                        proof {
                            assert(token_effect_spec(reg, toks[i as int], ctx_before)
                                == context@);
                        }
                    },
                    None => {
                        proof {
                            assert(token_effect_spec(reg, toks[i as int], ctx_before)
                                == context@);
                        }
                    },
                }
            },
            None => {
                proof {
                    assert(token_effect_spec(reg, toks[i as int], ctx_before) == context@);
                }
            },
        }
        i += 1;
    }
    Ok(())
}

/// Tokens take effect left to right: the effect of a token sequence
/// extended by one token is that token's effect on the result of the
/// ones before it. A later occurrence of a key therefore overrides an
/// earlier one.
pub proof fn lemma_last_token_applied_last(
    reg: Seq<(Seq<char>, ParamHandler)>,
    toks: Seq<Seq<char>>,
    t: Seq<char>,
    ctx: ParamContextView,
)
    ensures
        run_params_spec(reg, toks.push(t), ctx) == token_effect_spec(
            reg,
            t,
            run_params_spec(reg, toks, ctx),
        ),
    decreases toks.len(),
{
    if toks.len() == 0 {
        assert(toks.push(t).first() == t);
        assert(toks.push(t).drop_first() =~= Seq::<Seq<char>>::empty());
        assert(run_params_spec(reg, toks.push(t), ctx) == run_params_spec(
            reg,
            Seq::<Seq<char>>::empty(),
            token_effect_spec(reg, t, ctx),
        ));
        assert(run_params_spec(
            reg,
            Seq::<Seq<char>>::empty(),
            token_effect_spec(reg, t, ctx),
        ) == token_effect_spec(reg, t, ctx));
        assert(run_params_spec(reg, toks, ctx) == ctx);
    } else {
        assert(toks.push(t).first() == toks.first());
        assert(toks.push(t).drop_first() =~= toks.drop_first().push(t));
        lemma_last_token_applied_last(
            reg,
            toks.drop_first(),
            t,
            token_effect_spec(reg, toks.first(), ctx),
        );
    }
}

/// A token whose key is not registered, or which carries no `=`, is not
/// dispatched and leaves the context unchanged.
pub proof fn lemma_unregistered_token_ignored(
    reg: Seq<(Seq<char>, ParamHandler)>,
    t: Seq<char>,
    ctx: ParamContextView,
)
    requires
        match find_eq_spec(t) {
            Some(p) => lookup_spec(reg, t.subrange(0, p)) is None,
            None => true,
        },
    ensures
        token_effect_spec(reg, t, ctx) == ctx,
{
}

} // verus!
