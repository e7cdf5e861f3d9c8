//! The transition protocol as mathematics: what each request does to the
//! stack, which callbacks it fires, and what a run of callbacks does to the
//! caller's data.
use vstd::prelude::*;
use crate::fsm::handler::{Callback, Handler, StateTransition};

verus! {

/// The stack that `request` leaves behind when applied to `stack`.
pub open spec fn stack_after<S: Clone>(request: StateTransition<S>, stack: Seq<S>) -> Seq<S> {
    match request {
        StateTransition::Stay => stack,
        StateTransition::Pop => if stack.len() == 0 {
            stack
        } else {
            stack.drop_last()
        },
        StateTransition::Push(state) => stack.push(state),
        StateTransition::Switch(state) => if stack.len() == 0 {
            stack.push(state)
        } else {
            stack.drop_last().push(state)
        },
        StateTransition::Quit => Seq::empty(),
    }
}

/// `on_stop` for every state of `stack`, from its top down to its bottom.
pub open spec fn unwinding<S>(stack: Seq<S>) -> Seq<Callback<S>> {
    Seq::new(stack.len(), |i: int| Callback::Stop(stack[stack.len() - 1 - i]))
}

/// The callbacks that `request` fires when applied to `stack`, in order.
pub open spec fn callbacks_of<S: Clone>(request: StateTransition<S>, stack: Seq<S>) -> Seq<
    Callback<S>,
> {
    match request {
        StateTransition::Stay => Seq::empty(),
        StateTransition::Pop => if stack.len() == 0 {
            Seq::empty()
        } else if stack.len() == 1 {
            seq![Callback::Stop(stack.last())]
        } else {
            seq![Callback::Stop(stack.last()), Callback::Resume(stack[stack.len() - 2])]
        },
        StateTransition::Push(state) => if stack.len() == 0 {
            seq![Callback::Start(state)]
        } else {
            seq![Callback::Pause(stack.last()), Callback::Start(state)]
        },
        StateTransition::Switch(state) => if stack.len() == 0 {
            seq![Callback::Start(state)]
        } else {
            seq![Callback::Stop(stack.last()), Callback::Start(state)]
        },
        StateTransition::Quit => unwinding(stack),
    }
}

/// Whether `handler`, taking `calls` one after the other, may turn the data
/// `before` into `after`.
pub open spec fn replays<S: Clone, D, H: Handler<S, D>>(
    handler: &H,
    calls: Seq<Callback<S>>,
    before: D,
    after: D,
) -> bool
    decreases calls.len(),
{
    if calls.len() == 0 {
        after == before
    } else {
        exists|mid: D|
            #![trigger handler.effect(calls.last(), mid, after)]
            replays(handler, calls.drop_last(), before, mid) && handler.effect(
                calls.last(),
                mid,
                after,
            )
    }
}

/// Whether `handler` permits each of `calls` at the moment it is made, when
/// they are made one after the other starting from `data`, whatever the
/// earlier ones did to the data.
pub open spec fn admits<S: Clone, D, H: Handler<S, D>>(
    handler: &H,
    calls: Seq<Callback<S>>,
    data: D,
) -> bool
    decreases calls.len(),
{
    calls.len() == 0 || (admits(handler, calls.drop_last(), data) && forall|mid: D|
        #![trigger handler.permits(calls.last(), mid)]
        replays(handler, calls.drop_last(), data, mid) ==> handler.permits(calls.last(), mid))
}

/// The callbacks of one `update` of the machine: the running state's
/// `update`, then those of the transition it asks for. None on an empty
/// stack.
pub open spec fn tick_callbacks<S: Clone, D, H: Handler<S, D>>(
    handler: &H,
    stack: Seq<S>,
    data: D,
) -> Seq<Callback<S>> {
    if stack.len() == 0 {
        Seq::empty()
    } else {
        seq![Callback::Update(stack.last())] + callbacks_of(
            handler.request(stack.last(), data),
            stack,
        )
    }
}

/// The stack after one `update` of the machine.
pub open spec fn stack_after_tick<S: Clone, D, H: Handler<S, D>>(
    handler: &H,
    stack: Seq<S>,
    data: D,
) -> Seq<S> {
    if stack.len() == 0 {
        stack
    } else {
        stack_after(handler.request(stack.last(), data), stack)
    }
}

/// The stack after `requests` have been applied one after the other,
/// starting from `stack`.
pub open spec fn stack_after_all<S: Clone>(requests: Seq<StateTransition<S>>, stack: Seq<S>) -> Seq<
    S,
>
    decreases requests.len(),
{
    if requests.len() == 0 {
        stack
    } else {
        stack_after(requests.last(), stack_after_all(requests.drop_last(), stack))
    }
}

/// The callbacks fired while `requests` are applied one after the other,
/// starting from `stack`.
pub open spec fn callbacks_of_all<S: Clone>(
    requests: Seq<StateTransition<S>>,
    stack: Seq<S>,
) -> Seq<Callback<S>>
    decreases requests.len(),
{
    if requests.len() == 0 {
        Seq::empty()
    } else {
        callbacks_of_all(requests.drop_last(), stack) + callbacks_of(
            requests.last(),
            stack_after_all(requests.drop_last(), stack),
        )
    }
}

/// One `Push` request for each of `states`, in order.
pub open spec fn pushes<S: Clone>(states: Seq<S>) -> Seq<StateTransition<S>> {
    Seq::new(states.len(), |i: int| StateTransition::Push(states[i]))
}

/// A run of one callback is that callback.
pub proof fn lemma_single_call<S: Clone, D, H: Handler<S, D>>(
    handler: &H,
    call: Callback<S>,
    before: D,
    after: D,
)
    ensures
        replays(handler, seq![call], before, after) <==> handler.effect(call, before, after),
        admits(handler, seq![call], before) <==> handler.permits(call, before),
{
    reveal_with_fuel(replays, 2);
    reveal_with_fuel(admits, 2);
    let calls = seq![call];
    assert(calls.drop_last().len() == 0);
    assert(calls.last() == call);
    assert(replays(handler, calls.drop_last(), before, before));
}

/// A run that starts with `call` may lead from `before` to `after` exactly
/// when `call` may leave the data somewhere from which the rest of the run
/// may lead to `after`.
pub proof fn lemma_replays_first_call<S: Clone, D, H: Handler<S, D>>(
    handler: &H,
    call: Callback<S>,
    rest: Seq<Callback<S>>,
    before: D,
    after: D,
)
    ensures
        replays(handler, seq![call] + rest, before, after) <==> exists|mid: D|
            #![trigger handler.effect(call, before, mid)]
            handler.effect(call, before, mid) && replays(handler, rest, mid, after),
    decreases rest.len(),
{
    let calls = seq![call] + rest;
    if rest.len() == 0 {
        assert(calls =~= seq![call]);
        lemma_single_call(handler, call, before, after);
        if handler.effect(call, before, after) {
            assert(replays(handler, rest, after, after));
        }
    } else {
        let shorter = rest.drop_last();
        assert(calls.drop_last() =~= seq![call] + shorter);
        assert(calls.last() == rest.last());
        if replays(handler, calls, before, after) {
            let later = choose|later: D|
                #![trigger handler.effect(calls.last(), later, after)]
                replays(handler, calls.drop_last(), before, later) && handler.effect(
                    calls.last(),
                    later,
                    after,
                );
            lemma_replays_first_call(handler, call, shorter, before, later);
            let mid = choose|mid: D|
                #![trigger handler.effect(call, before, mid)]
                handler.effect(call, before, mid) && replays(handler, shorter, mid, later);
            assert(replays(handler, rest.drop_last(), mid, later) && handler.effect(
                rest.last(),
                later,
                after,
            ));
            assert(handler.effect(call, before, mid) && replays(handler, rest, mid, after));
        }
        if exists|mid: D|
            #![trigger handler.effect(call, before, mid)]
            handler.effect(call, before, mid) && replays(handler, rest, mid, after) {
            let mid = choose|mid: D|
                #![trigger handler.effect(call, before, mid)]
                handler.effect(call, before, mid) && replays(handler, rest, mid, after);
            let later = choose|later: D|
                #![trigger handler.effect(rest.last(), later, after)]
                replays(handler, rest.drop_last(), mid, later) && handler.effect(
                    rest.last(),
                    later,
                    after,
                );
            lemma_replays_first_call(handler, call, shorter, before, later);
            assert(replays(handler, calls.drop_last(), before, later) && handler.effect(
                calls.last(),
                later,
                after,
            ));
        }
    }
}

/// A run that starts with `call` is admitted exactly when `call` is
/// permitted and the rest of the run is admitted wherever `call` may leave
/// the data.
pub proof fn lemma_admits_first_call<S: Clone, D, H: Handler<S, D>>(
    handler: &H,
    call: Callback<S>,
    rest: Seq<Callback<S>>,
    before: D,
)
    ensures
        admits(handler, seq![call] + rest, before) <==> handler.permits(call, before)
            && forall|mid: D|
            #![trigger handler.effect(call, before, mid)]
            handler.effect(call, before, mid) ==> admits(handler, rest, mid),
    decreases rest.len(),
{
    let calls = seq![call] + rest;
    if rest.len() == 0 {
        assert(calls =~= seq![call]);
        lemma_single_call(handler, call, before, before);
    } else {
        let shorter = rest.drop_last();
        assert(calls.drop_last() =~= seq![call] + shorter);
        assert(calls.last() == rest.last());
        lemma_admits_first_call(handler, call, shorter, before);
        if admits(handler, calls, before) {
            assert forall|mid: D|
                #![trigger handler.effect(call, before, mid)]
                handler.effect(call, before, mid) implies admits(handler, rest, mid) by {
                assert forall|later: D|
                    #![trigger handler.permits(rest.last(), later)]
                    replays(handler, rest.drop_last(), mid, later) implies handler.permits(
                    rest.last(),
                    later,
                ) by {
                    lemma_replays_first_call(handler, call, shorter, before, later);
                    assert(handler.permits(calls.last(), later));
                }
            }
        }
        if handler.permits(call, before) && forall|mid: D|
            #![trigger handler.effect(call, before, mid)]
            handler.effect(call, before, mid) ==> admits(handler, rest, mid) {
            assert forall|later: D|
                #![trigger handler.permits(calls.last(), later)]
                replays(handler, calls.drop_last(), before, later) implies handler.permits(
                calls.last(),
                later,
            ) by {
                lemma_replays_first_call(handler, call, shorter, before, later);
                let mid = choose|mid: D|
                    #![trigger handler.effect(call, before, mid)]
                    handler.effect(call, before, mid) && replays(handler, shorter, mid, later);
                assert(admits(handler, rest, mid));
                assert(handler.permits(rest.last(), later));
            }
        }
    }
}

/// In an admitted run, each call is permitted on whatever data the calls
/// before it may have produced.
pub proof fn lemma_next_call_permitted<S: Clone, D, H: Handler<S, D>>(
    handler: &H,
    calls: Seq<Callback<S>>,
    before: D,
    n: int,
    reached: D,
)
    requires
        admits(handler, calls, before),
        0 <= n < calls.len(),
        replays(handler, calls.take(n), before, reached),
    ensures
        handler.permits(calls[n], reached),
    decreases calls.len(),
{
    if n == calls.len() - 1 {
        assert(calls.drop_last() =~= calls.take(n));
        assert(handler.permits(calls.last(), reached));
    } else {
        assert(calls.drop_last().take(n) =~= calls.take(n));
        lemma_next_call_permitted(handler, calls.drop_last(), before, n, reached);
        assert(calls.drop_last()[n] == calls[n]);
    }
}

/// Applying a transition never fires `update`: only the machine's own
/// update does, once, before the transition.
pub proof fn lemma_transition_fires_no_update<S: Clone>(request: StateTransition<S>, stack: Seq<S>)
    ensures
        forall|i: int|
            0 <= i < callbacks_of(request, stack).len() ==> !(#[trigger] callbacks_of(
                request,
                stack,
            )[i] is Update),
{
}

/// A run is admitted from any data if the handler permits each of its
/// calls on all data.
pub proof fn lemma_admits_permitted_calls<S: Clone, D, H: Handler<S, D>>(
    handler: &H,
    calls: Seq<Callback<S>>,
    data: D,
)
    requires
        forall|i: int, reached: D|
            0 <= i < calls.len() ==> #[trigger] handler.permits(calls[i], reached),
    ensures
        admits(handler, calls, data),
    decreases calls.len(),
{
    if calls.len() > 0 {
        let shorter = calls.drop_last();
        assert forall|i: int, reached: D| 0 <= i < shorter.len() implies #[trigger] handler.permits(
            shorter[i],
            reached,
        ) by {
            assert(shorter[i] == calls[i]);
        }
        lemma_admits_permitted_calls(handler, shorter, data);
        assert forall|mid: D|
            #![trigger handler.permits(calls.last(), mid)]
            replays(handler, calls.drop_last(), data, mid) implies handler.permits(
            calls.last(),
            mid,
        ) by {
            assert(handler.permits(calls[calls.len() - 1], mid));
        }
    }
}

} // verus!
