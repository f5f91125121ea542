//! The FastCGI service as it is declared, and its registration with the host.

use std::rc::Rc;
use vstd::prelude::*;
use crate::factory::{Registration, ResourceDef};
use crate::fastcgi::service::{FastCGIInner, FastCGIService};

verus! {

/// A FastCGI client service as it is declared: the path at which it is mounted,
/// the guards of its route, the root directory of the scripts and the address
/// of the application server.
#[derive(Clone)]
pub struct FastCGI<G> {
    mount_path: String,
    guards: Vec<G>,
    root: String,
    fastcgi_address: String,
}

/// The mathematical value of a [`FastCGI`].
pub struct FastCGIView<G> {
    pub mount_path: Seq<char>,
    pub guards: Seq<G>,
    pub root: Seq<char>,
    pub fastcgi_address: Seq<char>,
}

impl<G> View for FastCGI<G> {
    type V = FastCGIView<G>;

    closed spec fn view(&self) -> FastCGIView<G> {
        FastCGIView {
            mount_path: self.mount_path@,
            guards: self.guards@,
            root: self.root@,
            fastcgi_address: self.fastcgi_address@,
        }
    }
}

impl<G> FastCGI<G> {
    /// A service mounted at `mount_path` for the scripts below `root`, served by
    /// the application server at `fastcgi_address`. `root` is the canonical path
    /// of the root directory; where the directory has none, the root is the
    /// empty path.
    pub fn new(mount_path: &str, root: Option<String>, fastcgi_address: &str) -> (service: Self)
        ensures
            service@ == (FastCGIView {
                mount_path: mount_path@,
                guards: Seq::<G>::empty(),
                root: match root {
                    Some(path) => path@,
                    None => Seq::<char>::empty(),
                },
                fastcgi_address: fastcgi_address@,
            }),
    {
        let root = match root {
            Some(path) => path,
            None => String::new(),
        };
        FastCGI {
            mount_path: mount_path.to_owned(),
            guards: Vec::new(),
            root,
            fastcgi_address: fastcgi_address.to_owned(),
        }
    }

    /// Adds a guard of the route. A request that one of the guards refuses never
    /// reaches the service.
    pub fn guard(self, guard: G) -> (service: Self)
        ensures
            service@ == (FastCGIView { guards: self@.guards.push(guard), ..self@ }),
    {
        let mut guards = self.guards;
        guards.push(guard);
        FastCGI {
            mount_path: self.mount_path,
            guards,
            root: self.root,
            fastcgi_address: self.fastcgi_address,
        }
    }

    /// What the host needs to enter this service into its routes: the mount path
    /// as a prefix, of the root kind where `is_root` says that the service stands
    /// at the root of the application; the guards, where there are any; and the
    /// service, now without guards.
    pub fn register(self, is_root: bool) -> (r: Registration<FastCGI<G>, G>)
        ensures
            r.rdef matches ResourceDef::RootPrefix(path) ==> is_root && path@ == self@.mount_path,
            r.rdef matches ResourceDef::Prefix(path) ==> !is_root && path@ == self@.mount_path,
            self@.guards.len() == 0 ==> r.guards is None,
            self@.guards.len() > 0 ==> (r.guards matches Some(guards) && guards@
                == self@.guards),
            r.factory@ == (FastCGIView { guards: Seq::<G>::empty(), ..self@ }),
    {
        let guards = if self.guards.len() == 0 {
            None
        } else {
            Some(self.guards)
        };
        let rdef = if is_root {
            ResourceDef::RootPrefix(self.mount_path.clone())
        } else {
            ResourceDef::Prefix(self.mount_path.clone())
        };
        let factory = FastCGI {
            mount_path: self.mount_path,
            guards: Vec::new(),
            root: self.root,
            fastcgi_address: self.fastcgi_address,
        };
        Registration { rdef, guards, factory }
    }

    /// Assembles the service.
    pub fn new_service(&self) -> (service: FastCGIService)
        ensures
            service.0.root@ == self@.root,
            service.0.fastcgi_address@ == self@.fastcgi_address,
    {
        let inner = FastCGIInner {
            root: self.root.clone(),
            fastcgi_address: self.fastcgi_address.clone(),
        };
        FastCGIService(Rc::new(inner))
    }
}

} // verus!
