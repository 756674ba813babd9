//! Container ports.

use vstd::prelude::*;

use crate::entries::{apply_keyed, has_keyed, keyed_index, KeyedEntry};
use crate::utils::str_eq;

verus! {

/// One network port of a container.
#[derive(Clone, Debug, PartialEq, Eq)]
pub struct ContainerPort {
    pub container_port: i32,
    pub name: Option<String>,
    pub protocol: Option<String>,
}

impl KeyedEntry for ContainerPort {
    open spec fn entry_key(&self) -> Option<Seq<char>> {
        self.name.deep_view()
    }

    open spec fn is_fresh(&self, name: Seq<char>) -> bool {
        &&& self.name.deep_view() == Some(name)
        &&& self.container_port == 0
        &&& self.protocol is None
    }

    fn key_matches(&self, name: &str) -> bool {
        match &self.name {
            Some(n) => str_eq(n.as_str(), name),
            None => false,
        }
    }

    fn fresh(name: String) -> Self {
        ContainerPort { container_port: 0, name: Some(name), protocol: None }
    }
}

/// The port named `name` carries exactly the given number and protocol
/// after an upsert, everything else is untouched, and an absent name was
/// appended.
pub open spec fn port_upserted(
    old_ps: Seq<ContainerPort>,
    new_ps: Seq<ContainerPort>,
    name: Seq<char>,
    container_port: i32,
    protocol: Option<Seq<char>>,
) -> bool {
    if has_keyed(old_ps, name) {
        let i = keyed_index(old_ps, name);
        &&& new_ps.len() == old_ps.len()
        &&& forall|j: int| 0 <= j < old_ps.len() && j != i ==> new_ps[j] == old_ps[j]
        &&& new_ps[i].name.deep_view() == old_ps[i].name.deep_view()
        &&& new_ps[i].container_port == container_port
        &&& new_ps[i].protocol.deep_view() == protocol
    } else {
        &&& new_ps.len() == old_ps.len() + 1
        &&& forall|j: int| 0 <= j < old_ps.len() ==> new_ps[j] == old_ps[j]
        &&& new_ps[old_ps.len() as int].name.deep_view() == Some(name)
        &&& new_ps[old_ps.len() as int].container_port == container_port
        &&& new_ps[old_ps.len() as int].protocol.deep_view() == protocol
    }
}

/// Patch container ports by name.
pub trait ApplyPort: Sized {
    /// What the patches never touch.
    type Rest;

    /// The ports, in order.
    spec fn port_entries(&self) -> Seq<ContainerPort>;

    /// Everything the patches never touch.
    spec fn port_rest(&self) -> Self::Rest;

    /// Apply the patch function to the port with the provided name; when no
    /// such port exists, a fresh one carrying the name is patched and
    /// appended.
    fn apply_port<F: FnOnce(ContainerPort) -> ContainerPort>(&mut self, name: &str, f: F)
        requires
            has_keyed(old(self).port_entries(), name@) ==> call_requires(
                f,
                (old(self).port_entries()[keyed_index(old(self).port_entries(), name@)],),
            ),
            !has_keyed(old(self).port_entries(), name@) ==> forall|d: ContainerPort|
                d.is_fresh(name@) ==> call_requires(f, (d,)),
        ensures
            final(self).port_rest() == old(self).port_rest(),
            has_keyed(old(self).port_entries(), name@) ==> {
                let ps = old(self).port_entries();
                let i = keyed_index(ps, name@);
                &&& final(self).port_entries().len() == ps.len()
                &&& call_ensures(f, (ps[i],), final(self).port_entries()[i])
                &&& forall|j: int|
                    0 <= j < ps.len() && j != i ==> final(self).port_entries()[j] == ps[j]
            },
            !has_keyed(old(self).port_entries(), name@) ==> {
                let ps = old(self).port_entries();
                &&& final(self).port_entries().len() == ps.len() + 1
                &&& exists|d: ContainerPort|
                    d.is_fresh(name@) && #[trigger] call_ensures(
                        f,
                        (d,),
                        final(self).port_entries()[ps.len() as int],
                    )
                &&& forall|j: int| 0 <= j < ps.len() ==> final(self).port_entries()[j] == ps[j]
            },
    ;

    /// Set the number and protocol of the port named `name`.
    fn add_port(&mut self, name: &str, container_port: i32, protocol: Option<String>)
        ensures
            final(self).port_rest() == old(self).port_rest(),
            port_upserted(
                old(self).port_entries(),
                final(self).port_entries(),
                name@,
                container_port,
                protocol.deep_view(),
            ),
    {
        let ghost pv = protocol.deep_view();
        let patch = |p: ContainerPort| -> (r: ContainerPort)
            ensures
                r.name.deep_view() == p.name.deep_view() && r.container_port == container_port
                    && r.protocol.deep_view() == pv,
            {
                ContainerPort { container_port, name: p.name, protocol }
            };
        self.apply_port(name, patch);
    }
}

impl ApplyPort for Vec<ContainerPort> {
    type Rest = ();

    open spec fn port_entries(&self) -> Seq<ContainerPort> {
        self@
    }

    open spec fn port_rest(&self) -> () {
        ()
    }

    fn apply_port<F: FnOnce(ContainerPort) -> ContainerPort>(&mut self, name: &str, f: F) {
        apply_keyed(self, name, f);
    }
}

} // verus!
