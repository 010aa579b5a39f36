use vstd::prelude::*;
use crate::carrier::HandlerWrapper;
use crate::error::PluginError;
use crate::handler::{Handler, SomeHandler, init_payload};

verus! {

/// A call the host has made on its handler.
#[derive(Debug, Clone, Copy, PartialEq, Eq)]
pub enum HandlerCall {
    Init,
    Something,
    Drop,
}

/// A session log of the right shape: one setup call, then only work calls.
pub open spec fn setup_then_work(s: Seq<HandlerCall>) -> bool {
    &&& s.len() >= 1
    &&& s[0] == HandlerCall::Init
    &&& forall|i: int| 1 <= i < s.len() ==> #[trigger] s[i] == HandlerCall::Something
}

/// The results of `n` units of work on a handler starting in state `s`.
pub open spec fn work_outcomes<H: Handler>(s: H::State, n: nat) -> Seq<Result<(), PluginError>>
    decreases n,
{
    if n == 0 {
        Seq::empty()
    } else {
        seq![H::work_result(s)] + work_outcomes::<H>(H::after_work(s), (n - 1) as nat)
    }
}

/// The host: at most one acquired module of type `M` and at most one owned,
/// set-up handler of type `H`.
pub struct App<H, M> {
    module: Option<M>,
    handler: Option<Box<H>>,
    calls: Ghost<Seq<HandlerCall>>,
    session_start: Ghost<nat>,
    dropped: Ghost<Option<H>>,
}

impl<H: Handler, M> App<H, M> {
    /// Whether a handler is loaded (state `Loaded`).
    pub closed spec fn is_loaded(&self) -> bool {
        self.handler is Some
    }

    /// The loaded handler.
    pub closed spec fn handler_view(&self) -> H {
        *self.handler->0
    }

    /// The acquired module, if any.
    pub closed spec fn module_view(&self) -> Option<M> {
        self.module
    }

    /// Every call made on a handler by this host, in order.
    pub closed spec fn calls(&self) -> Seq<HandlerCall> {
        self.calls@
    }

    /// The calls made on the loaded handler since it was installed.
    pub closed spec fn session(&self) -> Seq<HandlerCall> {
        self.calls@.subrange(self.session_start@ as int, self.calls@.len() as int)
    }

    /// The last handler this host tore down, as teardown left it.
    pub closed spec fn last_dropped(&self) -> Option<H> {
        self.dropped@
    }

    /// A loaded handler has completed its setup, and the calls made on it are
    /// its one successful setup followed by work only.
    pub closed spec fn wf(&self) -> bool {
        &&& self.handler matches Some(h) ==> H::initialized(h.state())
        &&& self.handler is Some ==> self.session_start@ < self.calls@.len()
        &&& self.handler is Some ==> setup_then_work(self.session())
    }

    /// A host in state `Unloaded`, with no module.
    pub fn new() -> (r: Self)
        ensures
            r.wf(),
            !r.is_loaded(),
            r.module_view() is None,
            r.calls() == Seq::<HandlerCall>::empty(),
    {
        App { module: None, handler: None, calls: Ghost(Seq::empty()), session_start: Ghost(0), dropped: Ghost(None) }
    }

    /// Whether a handler is loaded.
    pub fn loaded(&self) -> (r: bool)
        ensures
            r == self.is_loaded(),
    {
        self.handler.is_some()
    }

    /// The loaded handler, if any.
    pub fn handler(&self) -> (r: Option<&H>)
        ensures
            r is Some <==> self.is_loaded(),
            r is Some ==> *r->0 == self.handler_view(),
    {
        match &self.handler {
            Some(h) => Some(&**h),
            None => None,
        }
    }

    /// The acquired module, if any.
    pub fn module(&self) -> (r: Option<&M>)
        ensures
            r is Some <==> self.module_view() is Some,
            r is Some ==> *r->0 == self.module_view()->0,
    {
        self.module.as_ref()
    }

    /// Whether a module must still be acquired before a dynamic load.
    pub fn needs_module(&self) -> (r: bool)
        ensures
            r == self.module_view() is None,
    {
        self.module.is_none()
    }

    /// Takes the outcome of opening the module. A module already held is
    /// kept and reused; a failure to open is `ModuleLoadError`.
    pub fn attach_module(&mut self, opened: Result<M, String>) -> (r: Result<(), PluginError>)
        requires
            old(self).wf(),
        ensures
            final(self).wf(),
            final(self).is_loaded() == old(self).is_loaded(),
            final(self).is_loaded() ==> final(self).handler_view() == old(self).handler_view(),
            final(self).calls() == old(self).calls(),
            final(self).session() == old(self).session(),
            old(self).module_view() is Some ==> r is Ok && final(self).module_view() == old(
                self,
            ).module_view(),
            old(self).module_view() is None ==> (match opened {
                Ok(m) => r is Ok && final(self).module_view() == Some(m),
                Err(e) => r == Err::<(), PluginError>(PluginError::ModuleLoadError(e))
                    && final(self).module_view() is None,
            }),
    {
        if self.module.is_some() {
            return Ok(());
        }
        match opened {
            Ok(m) => {
                self.module = Some(m);
                Ok(())
            },
            Err(e) => Err(PluginError::ModuleLoadError(e)),
        }
    }

    /// Takes ownership of a handler and runs its one-time setup once. The
    /// handler is kept, as setup left it, only when setup succeeds; any
    /// setup error comes back unchanged.
    pub fn install_handler(&mut self, handler: Box<H>) -> (r: Result<(), PluginError>)
        requires
            old(self).wf(),
        ensures
            final(self).wf(),
            final(self).module_view() == old(self).module_view(),
            old(self).is_loaded() ==> r == Err::<(), PluginError>(PluginError::AlreadyLoaded),
            old(self).is_loaded() ==> final(self).calls() == old(self).calls(),
            old(self).is_loaded() ==> final(self).session() == old(self).session(),
            old(self).is_loaded() ==> final(self).handler_view() == old(self).handler_view(),
            old(self).is_loaded() ==> final(self).is_loaded(),
            !old(self).is_loaded() ==> r == H::init_result(handler.state()),
            !old(self).is_loaded() ==> final(self).calls() == old(self).calls().push(
                HandlerCall::Init,
            ),
            !old(self).is_loaded() ==> (final(self).is_loaded() <==> r is Ok),
            !old(self).is_loaded() && r is Ok ==> final(self).handler_view().state()
                == H::after_init(handler.state()),
            !old(self).is_loaded() && r is Ok ==> final(self).session() == seq![HandlerCall::Init],
    {
        if self.handler.is_some() {
            return Err(PluginError::AlreadyLoaded);
        }
        let mut handler = handler;
        let res = handler.on_init();
        let ghost at = self.calls@.len();
        proof {
            self.calls@ = self.calls@.push(HandlerCall::Init);
        }
        if res.is_ok() {
            self.handler = Some(handler);
            proof {
                self.session_start@ = at;
                assert(self.session() =~= seq![HandlerCall::Init]);
            }
        }
        res
    }

    /// Takes the outcome of looking up and calling a module's construction
    /// function, unwraps the carrier once and installs the handler inside.
    /// A failed lookup is `SymbolNotFound`.
    pub fn accept_handler(&mut self, constructed: Result<Box<HandlerWrapper<H>>, String>) -> (r:
        Result<(), PluginError>)
        requires
            old(self).wf(),
        ensures
            final(self).wf(),
            final(self).module_view() == old(self).module_view(),
            old(self).is_loaded() ==> r == Err::<(), PluginError>(PluginError::AlreadyLoaded),
            old(self).is_loaded() ==> final(self).calls() == old(self).calls(),
            old(self).is_loaded() ==> final(self).session() == old(self).session(),
            old(self).is_loaded() ==> final(self).handler_view() == old(self).handler_view(),
            old(self).is_loaded() ==> final(self).is_loaded(),
            !old(self).is_loaded() ==> (final(self).is_loaded() <==> r is Ok),
            !old(self).is_loaded() ==> (match constructed {
                Err(e) => r == Err::<(), PluginError>(PluginError::SymbolNotFound(e))
                    && final(self).calls() == old(self).calls(),
                Ok(w) => r == H::init_result(w.0.state()) && final(self).calls() == old(
                    self,
                ).calls().push(HandlerCall::Init) && (r is Ok ==> final(self).handler_view().state()
                    == H::after_init(w.0.state()) && final(self).session() == seq![
                    HandlerCall::Init,
                ]),
            }),
    {
        if self.handler.is_some() {
            return Err(PluginError::AlreadyLoaded);
        }
        match constructed {
            Ok(w) => self.install_handler(w.unwrap()),
            Err(e) => Err(PluginError::SymbolNotFound(e)),
        }
    }

    /// Delegates one unit of work to the loaded handler and returns its
    /// result unchanged; `NotLoaded` when there is none.
    pub fn do_something(&mut self) -> (r: Result<(), PluginError>)
        requires
            old(self).wf(),
        ensures
            final(self).wf(),
            final(self).module_view() == old(self).module_view(),
            final(self).is_loaded() == old(self).is_loaded(),
            !old(self).is_loaded() ==> r == Err::<(), PluginError>(PluginError::NotLoaded),
            !old(self).is_loaded() ==> final(self).calls() == old(self).calls(),
            old(self).is_loaded() ==> r == H::work_result(old(self).handler_view().state()),
            old(self).is_loaded() ==> final(self).handler_view().state() == H::after_work(
                old(self).handler_view().state(),
            ),
            old(self).is_loaded() ==> final(self).calls() == old(self).calls().push(
                HandlerCall::Something,
            ),
            old(self).is_loaded() ==> final(self).session() == old(self).session().push(
                HandlerCall::Something,
            ),
    {
        match &mut self.handler {
            Some(h) => {
                let r = h.on_something();
                proof {
                    let old_session = self.session();
                    self.calls@ = self.calls@.push(HandlerCall::Something);
                    assert(self.session() =~= old_session.push(HandlerCall::Something));
                }
                r
            },
            None => Err(PluginError::NotLoaded),
        }
    }

    /// Tears the loaded handler down and discards it, then gives up the
    /// module, which comes back for the caller to release. Does nothing when
    /// no handler is loaded.
    pub fn unload_handler(&mut self) -> (r: Option<M>)
        requires
            old(self).wf(),
        ensures
            final(self).wf(),
            !final(self).is_loaded(),
            !old(self).is_loaded() ==> r is None && final(self).module_view() == old(
                self,
            ).module_view() && final(self).calls() == old(self).calls(),
            old(self).is_loaded() ==> r == old(self).module_view() && final(self).module_view() is None
                && final(self).calls() == old(self).calls().push(HandlerCall::Drop),
            old(self).is_loaded() ==> (final(self).last_dropped() matches Some(d) && d.state()
                == H::after_drop(old(self).handler_view().state())),
            !old(self).is_loaded() ==> final(self).last_dropped() == old(self).last_dropped(),
    {
        match self.handler.take() {
            Some(h) => {
                let mut h = h;
                h.on_drop();
                proof {
                    self.calls@ = self.calls@.push(HandlerCall::Drop);
                    self.dropped@ = Some(*h);
                }
                self.module.take()
            },
            None => None,
        }
    }
}

impl<M> App<SomeHandler, M> {
    /// Builds the embedded handler and sets it up, which stores `[1, 2, 3]`;
    /// fails only with `AlreadyLoaded`, when a handler is loaded already.
    pub fn load_handler(&mut self) -> (r: Result<(), PluginError>)
        requires
            old(self).wf(),
        ensures
            final(self).wf(),
            final(self).module_view() == old(self).module_view(),
            final(self).is_loaded(),
            old(self).is_loaded() ==> r == Err::<(), PluginError>(PluginError::AlreadyLoaded)
                && final(self).calls() == old(self).calls() && final(self).handler_view()
                == old(self).handler_view(),
            !old(self).is_loaded() ==> r is Ok && final(self).calls() == old(self).calls().push(
                HandlerCall::Init,
            ) && final(self).session() == seq![HandlerCall::Init]
                && final(self).handler_view().data_view() == Some(init_payload()),
    {
        self.install_handler(Box::new(SomeHandler::uninit()))
    }
}

/// Work is refused with `NotLoaded` until a handler has been set up: a host
/// whose calls hold no setup has no handler loaded.
pub proof fn lemma_no_work_before_load<H: Handler, M>(app: App<H, M>)
    requires
        app.wf(),
        !app.calls().contains(HandlerCall::Init),
    ensures
        !app.is_loaded(),
{
    if app.is_loaded() {
        let k = app.session_start@ as int;
        assert(app.session()[0] == app.calls()[k]);
    }
}

/// The calls made on a loaded handler are its one successful setup followed
/// by work only: setup runs exactly once, before any work.
pub proof fn lemma_session_shape<H: Handler, M>(app: App<H, M>)
    requires
        app.wf(),
        app.is_loaded(),
    ensures
        setup_then_work(app.session()),
        H::initialized(app.handler_view().state()),
{
}

/// Every unit of work on the embedded handler succeeds, from any state.
proof fn lemma_some_handler_work(s: Option<Seq<i32>>, n: nat)
    ensures
        work_outcomes::<SomeHandler>(s, n) =~= Seq::new(n, |i: int| Ok::<(), PluginError>(())),
    decreases n,
{
    if n > 0 {
        lemma_some_handler_work(s, (n - 1) as nat);
    }
}

/// The embedded handler behaves alike whichever provider delivers it: the
/// one carried over by `create_handler` and the one built in place start in
/// the same state, so setup gives the same result on both, and any number
/// `n` of later units of work give the same results on both, all `Ok`.
pub proof fn lemma_providers_agree(carried: HandlerWrapper<SomeHandler>, built: SomeHandler, n: nat)
    requires
        carried.0.data_view() is None,
        built.data_view() is None,
    ensures
        carried.0.state() == built.state(),
        SomeHandler::init_result(carried.0.state()) == SomeHandler::init_result(built.state()),
        SomeHandler::init_result(built.state()) is Ok,
        work_outcomes::<SomeHandler>(SomeHandler::after_init(carried.0.state()), n)
            == work_outcomes::<SomeHandler>(SomeHandler::after_init(built.state()), n),
        work_outcomes::<SomeHandler>(SomeHandler::after_init(built.state()), n) == Seq::new(
            n,
            |i: int| Ok::<(), PluginError>(()),
        ),
{
    lemma_some_handler_work(SomeHandler::after_init(built.state()), n);
}

} // verus!
