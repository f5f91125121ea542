//! The chain as it is declared, its registration with the host and its
//! compilation into a dispatcher.

use std::rc::Rc;
use vstd::prelude::*;
use crate::link::{compiled, Link, LinkInner, LinkInnerView, LinkView};
use crate::next::Next;
use crate::service::{ChainInner, ChainService};

verus! {

/// The size reserved for buffering a response body where none is set: 32 KiB.
pub const DEFAULT_BODY_BUFFER_SIZE: usize = 32768;

/// A chain as it is declared: stages in order, guards that the host evaluates
/// before it hands a request to the chain at all, and the path at which the
/// chain is mounted.
#[derive(Clone)]
pub struct Chain<S, G, N> {
    mount_path: String,
    links: Vec<Link<S, G, N>>,
    guards: Vec<G>,
    body_buffer_size: usize,
}

/// The mathematical value of a [`Chain`].
pub struct ChainView<S, G, N> {
    pub mount_path: Seq<char>,
    pub links: Seq<LinkView<S, G, N>>,
    pub guards: Seq<G>,
    pub body_buffer_size: usize,
}

/// How the host matches the mount path of a service.
#[derive(Debug, Clone, PartialEq, Eq)]
pub enum ResourceDef {
    /// The path is a prefix of request paths, for a service at the root of the
    /// application.
    RootPrefix(String),
    /// The path is a prefix of request paths, for a service nested in a scope.
    Prefix(String),
}

/// What the host needs to enter a service into its routes.
pub struct Registration<F, G> {
    /// How the mount path is matched.
    pub rdef: ResourceDef,
    /// The guards of the route, where there are any.
    pub guards: Option<Vec<G>>,
    /// The factory of the service that the route leads to. Its guards went to
    /// the route.
    pub factory: F,
}

impl<S, G, N> View for Chain<S, G, N> {
    type V = ChainView<S, G, N>;

    closed spec fn view(&self) -> ChainView<S, G, N> {
        ChainView {
            mount_path: self.mount_path@,
            links: self.links@.map_values(|link: Link<S, G, N>| link@),
            guards: self.guards@,
            body_buffer_size: self.body_buffer_size,
        }
    }
}

impl<S, G, N> Chain<S, G, N> {
    /// A chain without stages or guards, mounted at `mount_path`.
    pub fn new(mount_path: &str) -> (chain: Self)
        ensures
            chain@ == (ChainView {
                mount_path: mount_path@,
                links: Seq::<LinkView<S, G, N>>::empty(),
                guards: Seq::<G>::empty(),
                body_buffer_size: DEFAULT_BODY_BUFFER_SIZE,
            }),
    {
        let chain = Chain {
            mount_path: mount_path.to_owned(),
            links: Vec::new(),
            guards: Vec::new(),
            body_buffer_size: DEFAULT_BODY_BUFFER_SIZE,
        };
        assert(chain@.links =~= Seq::<LinkView<S, G, N>>::empty());
        chain
    }

    /// Adds a guard of the chain as a whole. The host evaluates these when it
    /// matches routes: a request that one of them refuses never reaches the chain.
    pub fn guard(self, guard: G) -> (chain: Self)
        ensures
            chain@ == (ChainView { guards: self@.guards.push(guard), ..self@ }),
    {
        let mut guards = self.guards;
        guards.push(guard);
        Chain {
            mount_path: self.mount_path,
            links: self.links,
            guards,
            body_buffer_size: self.body_buffer_size,
        }
    }

    /// Adds a stage behind those that the chain has.
    pub fn link(self, link: Link<S, G, N>) -> (chain: Self)
        ensures
            chain@ == (ChainView { links: self@.links.push(link@), ..self@ }),
    {
        let mut chain = self;
        chain.push_link(link);
        chain
    }

    /// Adds a stage behind those that the chain has, in place.
    pub fn push_link(&mut self, link: Link<S, G, N>) -> (chain: &mut Self)
        ensures
            chain@ == (ChainView { links: old(self)@.links.push(link@), ..old(self)@ }),
            *final(self) == *final(chain),
    {
        self.links.push(link);
        assert(self@.links =~= old(self)@.links.push(link@));
        self
    }

    /// What the host needs to enter this chain into its routes: the mount path as
    /// a prefix, of the root kind where `is_root` says that the chain stands at
    /// the root of the application; the guards, where there are any; and the
    /// chain, now without guards.
    pub fn register(self, is_root: bool) -> (r: Registration<Chain<S, G, N>, G>)
        ensures
            r.rdef matches ResourceDef::RootPrefix(path) ==> is_root && path@ == self@.mount_path,
            r.rdef matches ResourceDef::Prefix(path) ==> !is_root && path@ == self@.mount_path,
            self@.guards.len() == 0 ==> r.guards is None,
            self@.guards.len() > 0 ==> (r.guards matches Some(guards) && guards@
                == self@.guards),
            r.factory@ == (ChainView { guards: Seq::<G>::empty(), ..self@ }),
    {
        let guards = if self.guards.len() == 0 {
            None
        } else {
            Some(self.guards)
        };
        let rdef = if is_root {
            ResourceDef::RootPrefix(self.mount_path.clone())
        } else {
            ResourceDef::Prefix(self.mount_path.clone())
        };
        let factory = Chain {
            mount_path: self.mount_path,
            links: self.links,
            guards: Vec::new(),
            body_buffer_size: self.body_buffer_size,
        };
        Registration { rdef, guards, factory }
    }

    /// Begins the compilation of this chain into a dispatcher. Nothing is compiled
    /// yet, and every stage waits for its handler.
    pub fn new_service<H>(self) -> (assembly: Assembly<S, G, N, H>)
        ensures
            assembly@ == begun::<S, G, N, H>(self@),
    {
        let assembly = Assembly {
            done: Vec::new(),
            pending: self.links,
            body_buffer_size: self.body_buffer_size,
        };
        assert(assembly@.done =~= Seq::<LinkInnerView<H, G, N>>::empty());
        assembly
    }
}

impl<S, G, N> Default for Chain<S, G, N> {
    /// A chain without stages or guards, mounted at the empty path.
    fn default() -> (chain: Self)
        ensures
            chain@ == (ChainView {
                mount_path: Seq::<char>::empty(),
                links: Seq::<LinkView<S, G, N>>::empty(),
                guards: Seq::<G>::empty(),
                body_buffer_size: DEFAULT_BODY_BUFFER_SIZE,
            }),
    {
        let chain = Chain {
            mount_path: String::new(),
            links: Vec::new(),
            guards: Vec::new(),
            body_buffer_size: DEFAULT_BODY_BUFFER_SIZE,
        };
        assert(chain@.links =~= Seq::<LinkView<S, G, N>>::empty());
        chain
    }
}

/// A chain in compilation: the stages compiled so far, and those that wait for
/// their handlers, both in the order of declaration.
pub struct Assembly<S, G, N, H> {
    done: Vec<LinkInner<H, G, N>>,
    pending: Vec<Link<S, G, N>>,
    body_buffer_size: usize,
}

/// The mathematical value of an [`Assembly`].
pub struct AssemblyView<S, G, N, H> {
    pub done: Seq<LinkInnerView<H, G, N>>,
    pub pending: Seq<LinkView<S, G, N>>,
    pub body_buffer_size: usize,
}

impl<S, G, N, H> View for Assembly<S, G, N, H> {
    type V = AssemblyView<S, G, N, H>;

    closed spec fn view(&self) -> AssemblyView<S, G, N, H> {
        AssemblyView {
            done: self.done@.map_values(|link: LinkInner<H, G, N>| link@),
            pending: self.pending@.map_values(|link: Link<S, G, N>| link@),
            body_buffer_size: self.body_buffer_size,
        }
    }
}

/// The compilation after the factory of the first waiting stage gave `service`:
/// a handler compiles the stage, and a failure ends the compilation.
pub open spec fn supplied<S, G, N, H>(
    assembly: AssemblyView<S, G, N, H>,
    service: Result<H, ()>,
) -> Option<AssemblyView<S, G, N, H>> {
    match service {
        Ok(handler) => Some(
            AssemblyView {
                done: assembly.done.push(compiled(assembly.pending[0], handler)),
                pending: assembly.pending.skip(1),
                body_buffer_size: assembly.body_buffer_size,
            },
        ),
        Err(_) => None,
    }
}

/// The stages of the dispatcher that a compilation ends with, where `made(i)` is
/// what the factory of stage `i` gives; `None` where the compilation fails.
pub open spec fn assemble<S, G, N, H>(
    assembly: AssemblyView<S, G, N, H>,
    made: spec_fn(int) -> Result<H, ()>,
) -> Option<Seq<LinkInnerView<H, G, N>>>
    decreases assembly.pending.len(),
{
    if assembly.pending.len() == 0 {
        Some(assembly.done)
    } else {
        match supplied(assembly, made(assembly.done.len() as int)) {
            Some(next) => assemble(next, made),
            None => None,
        }
    }
}

/// Whether the factory of stage `i` gives a handler.
pub open spec fn succeeds<H>(made: spec_fn(int) -> Result<H, ()>, i: int) -> bool {
    made(i) is Ok
}

/// The compilation of a chain in which nothing is compiled yet.
pub open spec fn begun<S, G, N, H>(chain: ChainView<S, G, N>) -> AssemblyView<S, G, N, H> {
    AssemblyView {
        done: Seq::<LinkInnerView<H, G, N>>::empty(),
        pending: chain.links,
        body_buffer_size: chain.body_buffer_size,
    }
}

/// From any point of a compilation: it ends with a dispatcher where every
/// factory that is still asked gives a handler, and the dispatcher then holds
/// the stages compiled so far and behind them the waiting ones, each compiled
/// around its handler, in their order; it fails where one factory fails.
proof fn assemble_from<S, G, N, H>(
    assembly: AssemblyView<S, G, N, H>,
    made: spec_fn(int) -> Result<H, ()>,
)
    ensures
        assemble(assembly, made) == if forall|i: int|
            assembly.done.len() <= i < assembly.done.len() + assembly.pending.len() ==> succeeds(
                made,
                i,
            ) {
            Some(
                assembly.done + Seq::new(
                    assembly.pending.len(),
                    |j: int| compiled(assembly.pending[j], made(assembly.done.len() + j)->Ok_0),
                ),
            )
        } else {
            None
        },
    decreases assembly.pending.len(),
{
    let d = assembly.done.len() as int;
    let p = assembly.pending.len() as int;
    if p == 0 {
        assert(assembly.done + Seq::new(
            assembly.pending.len(),
            |j: int| compiled(assembly.pending[j], made(assembly.done.len() + j)->Ok_0),
        ) =~= assembly.done);
    } else {
        match made(d) {
            Ok(handler) => {
                let next = supplied(assembly, made(d))->Some_0;
                assemble_from(next, made);
                if forall|i: int| d <= i < d + p ==> succeeds(made, i) {
                    assert forall|i: int|
                        next.done.len() <= i < next.done.len()
                            + next.pending.len() implies succeeds(made, i) by {
                        assert(d <= i < d + p);
                    }
                    assert(next.done + Seq::new(
                        next.pending.len(),
                        |j: int| compiled(next.pending[j], made(next.done.len() + j)->Ok_0),
                    ) =~= assembly.done + Seq::new(
                        assembly.pending.len(),
                        |j: int| compiled(assembly.pending[j], made(assembly.done.len() + j)->Ok_0),
                    ));
                } else {
                    let bad = choose|i: int| d <= i < d + p && !succeeds(made, i);
                    assert(succeeds(made, d));
                    assert(next.done.len() <= bad < next.done.len() + next.pending.len());
                }
            },
            Err(_) => {
                assert(!succeeds(made, d));
            },
        }
    }
}

/// Compilation is all or nothing: a chain compiles into a dispatcher where every
/// factory gives a handler, and the dispatcher then holds the stages in the
/// order of their declaration, each compiled around its handler. Where one
/// factory fails there is no dispatcher, and so no handler that a request could
/// reach.
pub proof fn compilation_is_all_or_nothing<S, G, N, H>(
    chain: ChainView<S, G, N>,
    made: spec_fn(int) -> Result<H, ()>,
)
    ensures
        assemble(begun(chain), made) == if forall|i: int|
            0 <= i < chain.links.len() ==> succeeds(made, i) {
            Some(Seq::new(chain.links.len(), |i: int| compiled(chain.links[i], made(i)->Ok_0)))
        } else {
            None
        },
{
    let start = begun::<S, G, N, H>(chain);
    assemble_from(start, made);
    assert(start.done + Seq::new(
        start.pending.len(),
        |j: int| compiled(start.pending[j], made(start.done.len() + j)->Ok_0),
    ) =~= Seq::new(chain.links.len(), |i: int| compiled(chain.links[i], made(i)->Ok_0)));
}

/// Whether `made` describes what the factories of a chain give when they are
/// run by `make`: for each stage, the only result that `make` gives for its
/// factory.
pub open spec fn makes<S, G, N, H, M: Fn(&S) -> Result<H, ()>>(
    chain: ChainView<S, G, N>,
    make: M,
    made: spec_fn(int) -> Result<H, ()>,
) -> bool {
    forall|i: int, out: Result<H, ()>|
        0 <= i < chain.links.len() && #[trigger] call_ensures(
            make,
            (&chain.links[i].service,),
            out,
        ) ==> out == made(i)
}

/// Whether the first `n` of the compiled stages are the first `n` stages of the
/// chain in their order, each compiled around a handler that `make` gave for its
/// factory.
pub open spec fn made_in_order<S, G, N, H, M: Fn(&S) -> Result<H, ()>>(
    chain: ChainView<S, G, N>,
    make: M,
    stages: Seq<LinkInnerView<H, G, N>>,
    n: int,
) -> bool {
    &&& n <= stages.len()
    &&& n <= chain.links.len()
    &&& forall|i: int|
        0 <= i < n ==> (#[trigger] stages[i]) == compiled(chain.links[i], stages[i].service)
            && call_ensures(make, (&chain.links[i].service,), Ok::<H, ()>(stages[i].service))
}

impl<S, G, N: Next> Chain<S, G, N> {
    /// Compiles this chain into a dispatcher, for a host whose factories give
    /// their handlers at once: the factories are run by `make`, in the order of
    /// the stages and up to the first that fails. The result is that of the
    /// compilation that `assemble` describes, for every description of what the
    /// factories give. Whatever they give, a dispatcher holds the stages in their
    /// order, each around a handler that its factory gave, and there is none
    /// where a factory failed.
    pub fn compile<H, M: Fn(&S) -> Result<H, ()>>(self, make: &M) -> (r: Result<
        ChainService<H, G, N>,
        (),
    >)
        requires
            forall|factory: &S| call_requires(*make, (factory,)),
        ensures
            r matches Ok(service) ==> service.0.buffer_size() == self@.body_buffer_size,
            forall|made: spec_fn(int) -> Result<H, ()>| #[trigger]
                makes(self@, *make, made) ==> match r {
                    Ok(service) => Some(service.0@),
                    Err(_) => None,
                } == assemble(begun(self@), made),
            match r {
                Ok(service) => made_in_order(self@, *make, service.0@, self@.links.len() as int),
                Err(_) => exists|i: int, out: Result<H, ()>|
                    0 <= i < self@.links.len() && out is Err && #[trigger] call_ensures(
                        *make,
                        (&self@.links[i].service,),
                        out,
                    ),
            },
    {
        let ghost chain = self@;
        let mut assembly = self.new_service::<H>();
        assert(assembly@.pending.skip(0) =~= assembly@.pending);
        loop
            invariant
                chain == self@,
                forall|factory: &S| call_requires(*make, (factory,)),
                assembly@.body_buffer_size == chain.body_buffer_size,
                assembly@.done.len() + assembly@.pending.len() == chain.links.len(),
                assembly@.pending == chain.links.skip(assembly@.done.len() as int),
                made_in_order(chain, *make, assembly@.done, assembly@.done.len() as int),
                forall|made: spec_fn(int) -> Result<H, ()>| #[trigger]
                    makes(chain, *make, made) ==> assemble(begun(chain), made) == assemble(
                        assembly@,
                        made,
                    ),
            decreases assembly@.pending.len(),
        {
            let ghost at = assembly@.done.len() as int;
            let given = match assembly.factory() {
                Some(factory) => make(factory),
                None => {
                    return Ok(assembly.finish());
                },
            };
            assert(assembly@.pending[0] == chain.links[at]);
            assert forall|made: spec_fn(int) -> Result<H, ()>| #[trigger]
                makes(chain, *make, made) implies given == made(at) by {
                assert(call_ensures(*make, (&chain.links[at].service,), given));
            }
            match assembly.supply(given) {
                Ok(next) => {
                    assert(next@.pending =~= chain.links.skip(next@.done.len() as int));
                    assembly = next;
                },
                Err(e) => {
                    assert(given is Err);
                    assert(call_ensures(*make, (&chain.links[at].service,), given));
                    return Err(e);
                },
            }
        }
    }
}

impl<S, G, N: Next, H> Assembly<S, G, N, H> {
    /// The factory whose handler the compilation needs next: that of the first
    /// stage that waits. `None` when every stage is compiled.
    pub fn factory(&self) -> (factory: Option<&S>)
        ensures
            self@.pending.len() == 0 ==> factory is None,
            self@.pending.len() > 0 ==> (factory matches Some(f) && *f
                == self@.pending[0].service),
    {
        if self.pending.len() == 0 {
            None
        } else {
            let link = &self.pending[0];
            assert(link@ == self@.pending[0]);
            Some(link.factory())
        }
    }

    /// Takes what the factory of the first waiting stage gave. A handler compiles
    /// the stage; a failure ends the compilation, and with it the chain.
    pub fn supply(self, service: Result<H, ()>) -> (r: Result<Self, ()>)
        requires
            self@.pending.len() > 0,
        ensures
            match r {
                Ok(next) => Some(next@),
                Err(_) => None,
            } == supplied(self@, service),
    {
        let mut done = self.done;
        let mut pending = self.pending;
        let ghost before = pending@;
        let link = pending.remove(0);
        match link.into_inner(service) {
            Ok(inner) => {
                done.push(inner);
                let next = Assembly { done, pending, body_buffer_size: self.body_buffer_size };
                assert(next@.done =~= self@.done.push(compiled(self@.pending[0], inner@.service)));
                assert(next@.pending =~= self@.pending.skip(1));
                Ok(next)
            },
            Err(e) => Err(e),
        }
    }

    /// The dispatcher over the compiled stages, once none waits any more.
    pub fn finish(self) -> (service: ChainService<H, G, N>)
        requires
            self@.pending.len() == 0,
        ensures
            service.0@ == self@.done,
            service.0.buffer_size() == self@.body_buffer_size,
    {
        ChainService(Rc::new(ChainInner::new(self.done, self.body_buffer_size)))
    }
}

} // verus!
