//! A registry whose handlers live for one run only: they are registered inside
//! the run, called once in the order of their registration, and gone after it.

use vstd::prelude::*;

verus! {

/// Names a registered resource.
#[derive(Copy, Clone, Debug, Eq, PartialEq)]
pub struct Token(pub u64);

/// What a handler asks for after it was called.
#[derive(Copy, Clone, Debug, Eq, PartialEq)]
pub enum Dispatch {
    /// Go on with the next handler.
    Continue,
    /// Call no further handler.
    Stop,
}

/// What a handler is told about the event it is called for.
#[derive(Copy, Clone, Debug)]
pub struct Context {
    token: Token,
}

impl Context {
    /// The token that this context was made for.
    pub closed spec fn spec_token(&self) -> Token {
        self.token
    }

    /// The context for the resource that `token` names.
    pub closed spec fn made_for(token: Token) -> Context {
        Context { token }
    }

    /// A context for the resource that `token` names.
    pub fn new(token: Token) -> (context: Context)
        ensures
            context == Context::made_for(token),
            context.spec_token() == token,
    {
        Context { token }
    }

    /// The token of the resource that the event belongs to.
    pub fn token(&self) -> (token: Token)
        ensures
            token == self.spec_token(),
    {
        self.token
    }
}

/// The handlers registered for one run, in the order of their registration.
pub struct Scope<F> {
    handlers: Vec<F>,
}

impl<F: Fn(&Context) -> Dispatch> Scope<F> {
    /// The registered handlers, first registered first.
    pub closed spec fn handlers(&self) -> Seq<F> {
        self.handlers@
    }

    /// Every registered handler can be called on every context.
    pub open spec fn wf(&self) -> bool {
        forall|i: int, context: Context|
            0 <= i < self.handlers().len() ==> #[trigger] call_requires(
                self.handlers()[i],
                (&context,),
            )
    }

    /// Whether a run over the handlers may have called exactly the first
    /// `calls` of them on `context`: each but the last of these answered
    /// `Continue`, and the last answered `Stop` unless no handler is left.
    pub open spec fn ran(&self, context: Context, calls: int) -> bool {
        &&& 0 <= calls <= self.handlers().len()
        &&& self.handlers().len() > 0 ==> calls > 0
        &&& forall|i: int|
            0 <= i < calls - 1 ==> call_ensures(
                #[trigger] self.handlers()[i],
                (&context,),
                Dispatch::Continue,
            )
        &&& calls < self.handlers().len() ==> call_ensures(
            self.handlers()[calls - 1],
            (&context,),
            Dispatch::Stop,
        )
    }

    /// A scope without handlers.
    pub fn new() -> (scope: Self)
        ensures
            scope.wf(),
            scope.handlers() == Seq::<F>::empty(),
    {
        Scope { handlers: Vec::new() }
    }

    /// Registers `handler` after those already registered. The token is not
    /// looked at: every handler is called for every event.
    pub fn on_event(&mut self, _token: Token, handler: F)
        requires
            old(self).wf(),
            forall|context: Context| call_requires(handler, (&context,)),
        ensures
            final(self).wf(),
            final(self).handlers() == old(self).handlers().push(handler),
    {
        self.handlers.push(handler);
    }

    /// Calls the handlers on `context` in the order of their registration, up
    /// to and including the first that answers `Stop`, and returns how many
    /// were called.
    pub fn fire(&self, context: &Context) -> (calls: usize)
        requires
            self.wf(),
        ensures
            self.ran(*context, calls as int),
    {
        let mut i: usize = 0;
        while i < self.handlers.len()
            invariant
                self.wf(),
                i <= self.handlers().len(),
                forall|j: int|
                    0 <= j < i ==> call_ensures(
                        #[trigger] self.handlers()[j],
                        (context,),
                        Dispatch::Continue,
                    ),
            decreases self.handlers().len() - i,
        {
            let handler = &self.handlers[i];
            assert(call_requires(self.handlers()[i as int], (context,)));
            let decision = handler(context);
            i += 1;
            match decision {
                Dispatch::Stop => {
                    return i;
                },
                Dispatch::Continue => {},
            }
        }
        i
    }
}

/// Runs scopes.
pub struct Reactor;

impl Reactor {
    /// A reactor.
    pub fn new() -> Self {
        Reactor
    }

    /// One scoped run: `with` registers its handlers in the empty scope that it
    /// is given and hands the scope back with a value of its own; then one
    /// event, for the token 1, is fired at the handlers. Returns that value and
    /// the number of handlers that were called.
    pub fn run_scoped<F: Fn(&Context) -> Dispatch, R>(
        &mut self,
        with: impl FnOnce(Scope<F>) -> (Scope<F>, R),
    ) -> (done: (R, usize))
        requires
            forall|scope: Scope<F>| scope.handlers().len() == 0 ==> call_requires(with, (scope,)),
            forall|start: Scope<F>, scope: Scope<F>, ret: R|
                call_ensures(with, (start,), (scope, ret)) ==> scope.wf(),
        ensures
            exists|start: Scope<F>, scope: Scope<F>|
                {
                    &&& start.handlers().len() == 0
                    &&& #[trigger] call_ensures(with, (start,), (scope, done.0))
                    &&& scope.ran(Context::made_for(Token(1)), done.1 as int)
                },
    {
        let start = Scope::new();
        let (scope, ret) = with(start);
        let context = Context::new(Token(1));
        let calls = scope.fire(&context);
        let done = (ret, calls);
        assert(call_ensures(with, (start,), (scope, done.0)));
        done
    }
}

} // verus!
