//! Calls run to their end against a scripted server: how many requests a
//! call makes, and when a token is fetched.

use vstd::prelude::*;

use crate::auth::bearer;
use crate::auth::token_of;
use crate::auth::ReplyView;
use crate::auth::RequestView;
use crate::client::first_step;
use crate::client::is_unauthorized;
use crate::client::next_cache;
use crate::client::next_step;
use crate::client::AuthClientView;
use crate::client::CallView;
use crate::client::StepView;
use crate::error::Operation;
use crate::error::SyncErrorView;
use crate::gateway::refused;

verus! {

/// The course of one call, or of several in a row.
pub struct Trace {
    /// How the last call ended; `None` while it still waits for an outcome.
    pub result: Option<Result<ReplyView, SyncErrorView>>,
    /// The token cache at the end.
    pub cache: Option<Seq<char>>,
    /// How many authentication exchanges were made.
    pub exchanges: nat,
    /// The attempts that were sent to the server, in order.
    pub attempts: Seq<RequestView>,
}

/// Runs an exchange from `step` on. The authentication endpoint answers its
/// requests with `tokens`, one after the other, and the server answers the
/// attempts with `replies`. The run ends when the call is done or a script
/// has run out.
pub open spec fn run(
    step: StepView,
    cache: Option<Seq<char>>,
    tokens: Seq<Result<ReplyView, Seq<char>>>,
    replies: Seq<Result<ReplyView, Seq<char>>>,
) -> Trace
    decreases tokens.len() + replies.len(),
{
    match step {
        StepView::Done(result) => Trace {
            result: Some(result),
            cache,
            exchanges: 0,
            attempts: Seq::empty(),
        },
        StepView::Authenticate(exchange, request) => {
            if tokens.len() == 0 {
                Trace { result: None, cache, exchanges: 0, attempts: Seq::empty() }
            } else {
                let rest = run(
                    next_step(exchange, tokens[0]),
                    next_cache(exchange, cache, tokens[0]),
                    tokens.drop_first(),
                    replies,
                );
                Trace {
                    result: rest.result,
                    cache: rest.cache,
                    exchanges: rest.exchanges + 1,
                    attempts: rest.attempts,
                }
            }
        },
        StepView::Send(exchange, request) => {
            if replies.len() == 0 {
                Trace { result: None, cache, exchanges: 0, attempts: Seq::empty() }
            } else {
                let rest = run(
                    next_step(exchange, replies[0]),
                    next_cache(exchange, cache, replies[0]),
                    tokens,
                    replies.drop_first(),
                );
                Trace {
                    result: rest.result,
                    cache: rest.cache,
                    exchanges: rest.exchanges,
                    attempts: seq![request] + rest.attempts,
                }
            }
        },
    }
}

/// Runs one call of `client` from its first step.
pub open spec fn run_call(
    client: AuthClientView,
    call: CallView,
    cache: Option<Seq<char>>,
    tokens: Seq<Result<ReplyView, Seq<char>>>,
    replies: Seq<Result<ReplyView, Seq<char>>>,
) -> Trace {
    run(first_step(client, call, cache), cache, tokens, replies)
}

/// Runs `calls` one after the other. Each call starts with the cache as the
/// one before left it and with what is left of the two scripts.
pub open spec fn run_calls(
    client: AuthClientView,
    calls: Seq<CallView>,
    cache: Option<Seq<char>>,
    tokens: Seq<Result<ReplyView, Seq<char>>>,
    replies: Seq<Result<ReplyView, Seq<char>>>,
) -> Trace
    decreases calls.len(),
{
    if calls.len() == 0 {
        Trace { result: None, cache, exchanges: 0, attempts: Seq::empty() }
    } else {
        let first = run_call(client, calls[0], cache, tokens, replies);
        let rest = run_calls(
            client,
            calls.drop_first(),
            first.cache,
            tokens.skip(first.exchanges as int),
            replies.skip(first.attempts.len() as int),
        );
        Trace {
            result: rest.result,
            cache: rest.cache,
            exchanges: first.exchanges + rest.exchanges,
            attempts: first.attempts + rest.attempts,
        }
    }
}

/// Whether every authentication exchange of the script brings a token.
pub open spec fn all_bring_tokens(tokens: Seq<Result<ReplyView, Seq<char>>>) -> bool {
    forall|i: int| 0 <= i < tokens.len() ==> token_of(#[trigger] tokens[i]) is Ok
}

/// Whether the server rejects no token in the script.
pub open spec fn none_unauthorized(replies: Seq<Result<ReplyView, Seq<char>>>) -> bool {
    forall|i: int| 0 <= i < replies.len() ==> !is_unauthorized(#[trigger] replies[i])
}

/// Whether every attempt presents `token`.
pub open spec fn all_present(attempts: Seq<RequestView>, token: Seq<char>) -> bool {
    forall|i: int|
        0 <= i < attempts.len() ==> (#[trigger] attempts[i]).authorization == bearer(token)
}

/// A call never makes more than two attempts nor more than two
/// authentication exchanges, whatever the server answers, and it uses no
/// more of the scripts than it sent requests.
pub proof fn lemma_at_most_one_retry(
    client: AuthClientView,
    call: CallView,
    cache: Option<Seq<char>>,
    tokens: Seq<Result<ReplyView, Seq<char>>>,
    replies: Seq<Result<ReplyView, Seq<char>>>,
)
    ensures
        run_call(client, call, cache, tokens, replies).attempts.len() <= 2,
        run_call(client, call, cache, tokens, replies).exchanges <= 2,
        run_call(client, call, cache, tokens, replies).attempts.len() <= replies.len(),
        run_call(client, call, cache, tokens, replies).exchanges <= tokens.len(),
        tokens.len() >= 2 && replies.len() >= 2 ==> run_call(
            client,
            call,
            cache,
            tokens,
            replies,
        ).result is Some,
{
    reveal_with_fuel(run, 6);
}

/// The token that the authentication exchange with this outcome brings.
pub open spec fn token_brought(outcome: Result<ReplyView, Seq<char>>) -> Seq<char>
    recommends
        token_of(outcome) is Ok,
{
    token_of(outcome)->Ok_0
}

/// Recovery from a rejected token. Where the server rejects the first
/// attempt and the authentication endpoint brings tokens, the call is
/// attempted exactly twice, exactly one authentication exchange is made
/// beyond what the first attempt needed, the second attempt presents the
/// token that this exchange brought, and the call ends with the second
/// outcome as it came: a second rejection is handed on like any other reply.
pub proof fn lemma_retries_once_after_rejection(
    client: AuthClientView,
    call: CallView,
    cache: Option<Seq<char>>,
    tokens: Seq<Result<ReplyView, Seq<char>>>,
    replies: Seq<Result<ReplyView, Seq<char>>>,
)
    requires
        replies.len() >= 2,
        is_unauthorized(replies[0]),
        all_bring_tokens(tokens),
        tokens.len() >= (if cache is None {
            2int
        } else {
            1int
        }),
    ensures
        ({
            let trace = run_call(client, call, cache, tokens, replies);
            let renewal = if cache is None {
                1int
            } else {
                0int
            };
            &&& trace.attempts.len() == 2
            &&& trace.exchanges == renewal + 1
            &&& trace.attempts[1] == crate::client::attempt(call, token_brought(tokens[renewal]))
            &&& trace.cache == Some(token_brought(tokens[renewal]))
            &&& trace.result == Some(
                match replies[1] {
                    Ok(reply) => Ok(reply),
                    Err(message) => Err(SyncErrorView::TransportFailed(message)),
                },
            )
        }),
{
    reveal_with_fuel(run, 6);
    assert(token_of(tokens[0]) is Ok);
    if cache is None {
        assert(token_of(tokens[1]) is Ok);
        assert(tokens.drop_first()[0] == tokens[1]);
    }
    assert(replies.drop_first()[0] == replies[1]);
}

/// No endless retry. Where the server rejects every attempt and the
/// authentication endpoint brings tokens, the call is attempted exactly
/// twice and ends with the server's second rejection, which is a failure of
/// whatever operation the call was made for.
pub proof fn lemma_gives_up_after_second_rejection(
    operation: Operation,
    client: AuthClientView,
    call: CallView,
    cache: Option<Seq<char>>,
    tokens: Seq<Result<ReplyView, Seq<char>>>,
    replies: Seq<Result<ReplyView, Seq<char>>>,
)
    requires
        replies.len() >= 2,
        forall|i: int| 0 <= i < replies.len() ==> is_unauthorized(#[trigger] replies[i]),
        all_bring_tokens(tokens),
        tokens.len() >= (if cache is None {
            2int
        } else {
            1int
        }),
    ensures
        run_call(client, call, cache, tokens, replies).attempts.len() == 2,
        run_call(client, call, cache, tokens, replies).result == Some(
            Ok::<ReplyView, SyncErrorView>(replies[1]->Ok_0),
        ),
        refused(operation, run_call(client, call, cache, tokens, replies).result->0) == Some(
            SyncErrorView::UnauthorizedAfterRetry(operation),
        ),
{
    lemma_retries_once_after_rejection(client, call, cache, tokens, replies);
    assert(is_unauthorized(replies[0]));
    assert(is_unauthorized(replies[1]));
}

/// One call while the server rejects no token: with a cached token no
/// authentication exchange is made and the cache stays; without one, at most
/// one exchange is made, and its token is cached and presented.
proof fn lemma_call_reuses_token(
    client: AuthClientView,
    call: CallView,
    cache: Option<Seq<char>>,
    tokens: Seq<Result<ReplyView, Seq<char>>>,
    replies: Seq<Result<ReplyView, Seq<char>>>,
)
    requires
        none_unauthorized(replies),
        all_bring_tokens(tokens),
    ensures
        ({
            let trace = run_call(client, call, cache, tokens, replies);
            &&& trace.attempts.len() <= replies.len()
            &&& trace.exchanges <= tokens.len()
            &&& match cache {
                Some(token) => {
                    &&& trace.exchanges == 0
                    &&& trace.cache == cache
                    &&& all_present(trace.attempts, token)
                },
                None => {
                    ||| {
                        &&& trace.exchanges == 0
                        &&& trace.cache is None
                        &&& trace.attempts.len() == 0
                        &&& tokens.len() == 0
                    }
                    ||| {
                        &&& trace.exchanges == 1
                        &&& tokens.len() > 0
                        &&& trace.cache == Some(token_brought(tokens[0]))
                        &&& all_present(trace.attempts, token_brought(tokens[0]))
                    }
                },
            }
        }),
{
    reveal_with_fuel(run, 6);
    if tokens.len() > 0 {
        assert(token_of(tokens[0]) is Ok);
    }
    if replies.len() > 0 {
        assert(!is_unauthorized(replies[0]));
    }
}

/// Token reuse. Over any sequence of calls during which the server rejects
/// no token and the authentication endpoint brings tokens, at most one
/// authentication exchange is made: none where a token was cached at the
/// start. Every attempt of every call presents the same token, the cached
/// one or the one that the single exchange brought.
pub proof fn lemma_token_reuse(
    client: AuthClientView,
    calls: Seq<CallView>,
    cache: Option<Seq<char>>,
    tokens: Seq<Result<ReplyView, Seq<char>>>,
    replies: Seq<Result<ReplyView, Seq<char>>>,
)
    requires
        none_unauthorized(replies),
        all_bring_tokens(tokens),
    ensures
        run_calls(client, calls, cache, tokens, replies).exchanges <= 1,
        cache matches Some(token) ==> {
            &&& run_calls(client, calls, cache, tokens, replies).exchanges == 0
            &&& run_calls(client, calls, cache, tokens, replies).cache == cache
            &&& all_present(run_calls(client, calls, cache, tokens, replies).attempts, token)
        },
        cache is None ==> {
            ||| {
                &&& run_calls(client, calls, cache, tokens, replies).exchanges == 0
                &&& run_calls(client, calls, cache, tokens, replies).attempts.len() == 0
                &&& run_calls(client, calls, cache, tokens, replies).cache is None
            }
            ||| {
                &&& run_calls(client, calls, cache, tokens, replies).exchanges == 1
                &&& tokens.len() > 0
                &&& run_calls(client, calls, cache, tokens, replies).cache == Some(
                    token_brought(tokens[0]),
                )
                &&& all_present(
                    run_calls(client, calls, cache, tokens, replies).attempts,
                    token_brought(tokens[0]),
                )
            }
        },
    decreases calls.len(),
{
    if calls.len() > 0 {
        let first = run_call(client, calls[0], cache, tokens, replies);
        lemma_call_reuses_token(client, calls[0], cache, tokens, replies);
        let later_tokens = tokens.skip(first.exchanges as int);
        let later_replies = replies.skip(first.attempts.len() as int);
        lemma_token_reuse(client, calls.drop_first(), first.cache, later_tokens, later_replies);
        let rest = run_calls(client, calls.drop_first(), first.cache, later_tokens, later_replies);
        if first.exchanges == 0 {
            assert(later_tokens =~= tokens);
        }
    }
}

} // verus!
