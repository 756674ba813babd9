//! Containers, pod templates and deployments.
//!
//! A container bundles the pieces the other modules patch: arguments,
//! command, environment variables, ports, volume mounts and resources.
//! `ApplyContainer` patches a container by name inside a list, a pod
//! template or a deployment, creating intermediate objects as needed;
//! `RemoveContainer` removes every container matching a predicate.

use vstd::prelude::*;

use crate::entries::{apply_keyed, drop_keyed, has_keyed, keyed_index, KeyedEntry};
use crate::env::{ApplyEnvironmentVariable, EnvVar};
use crate::meta::ObjectMeta;
use crate::ports::{ApplyPort, ContainerPort};
use crate::resources::{ResourceRequirements, SetResources};
use crate::utils::str_eq;
use crate::volumes::{ApplyVolume, ApplyVolumeMount, DropVolume, DropVolumeMount, Volume, VolumeMount};

verus! {

/// One container of a pod.
#[derive(Clone, Debug, PartialEq, Eq)]
pub struct Container {
    pub args: Option<Vec<String>>,
    pub command: Option<Vec<String>>,
    pub env: Option<Vec<EnvVar>>,
    pub name: String,
    pub ports: Option<Vec<ContainerPort>>,
    pub resources: Option<ResourceRequirements>,
    pub volume_mounts: Option<Vec<VolumeMount>>,
}

impl Default for Container {
    fn default() -> (c: Container)
        ensures
            c.is_fresh(Seq::<char>::empty()),
    {
        Container {
            args: None,
            command: None,
            env: None,
            name: String::new(),
            ports: None,
            resources: None,
            volume_mounts: None,
        }
    }
}

impl KeyedEntry for Container {
    open spec fn entry_key(&self) -> Option<Seq<char>> {
        Some(self.name@)
    }

    open spec fn is_fresh(&self, name: Seq<char>) -> bool {
        &&& self.name@ == name
        &&& self.args is None
        &&& self.command is None
        &&& self.env is None
        &&& self.ports is None
        &&& self.resources is None
        &&& self.volume_mounts is None
    }

    fn key_matches(&self, name: &str) -> bool {
        str_eq(self.name.as_str(), name)
    }

    fn fresh(name: String) -> Self {
        Container {
            args: None,
            command: None,
            env: None,
            name,
            ports: None,
            resources: None,
            volume_mounts: None,
        }
    }
}

/// Set the arguments of a container.
pub trait SetArgs: Sized {
    /// What setting the arguments never touches.
    type Rest;

    /// The arguments, if set.
    spec fn args_entries(&self) -> Option<Seq<Seq<char>>>;

    /// Everything setting the arguments never touches.
    spec fn args_rest(&self) -> Self::Rest;

    /// Replace the arguments.
    fn args(&mut self, args: Vec<String>)
        ensures
            final(self).args_entries() == Some(args.deep_view()),
            final(self).args_rest() == old(self).args_rest(),
    ;
}

/// Set the command of a container.
pub trait SetCommand: Sized {
    /// What setting the command never touches.
    type Rest;

    /// The command, if set.
    spec fn command_entries(&self) -> Option<Seq<Seq<char>>>;

    /// Everything setting the command never touches.
    spec fn command_rest(&self) -> Self::Rest;

    /// Replace the command.
    fn command(&mut self, command: Vec<String>)
        ensures
            final(self).command_entries() == Some(command.deep_view()),
            final(self).command_rest() == old(self).command_rest(),
    ;
}

impl SetArgs for Container {
    type Rest = (Option<Vec<String>>, Option<Vec<EnvVar>>, String, Option<Vec<ContainerPort>>, Option<ResourceRequirements>, Option<Vec<VolumeMount>>);

    open spec fn args_entries(&self) -> Option<Seq<Seq<char>>> {
        self.args.deep_view()
    }

    open spec fn args_rest(&self) -> Self::Rest {
        (self.command, self.env, self.name, self.ports, self.resources, self.volume_mounts)
    }

    fn args(&mut self, args: Vec<String>) {
        self.args = Some(args);
    }
}

impl SetCommand for Container {
    type Rest = (Option<Vec<String>>, Option<Vec<EnvVar>>, String, Option<Vec<ContainerPort>>, Option<ResourceRequirements>, Option<Vec<VolumeMount>>);

    open spec fn command_entries(&self) -> Option<Seq<Seq<char>>> {
        self.command.deep_view()
    }

    open spec fn command_rest(&self) -> Self::Rest {
        (self.args, self.env, self.name, self.ports, self.resources, self.volume_mounts)
    }

    fn command(&mut self, command: Vec<String>) {
        self.command = Some(command);
    }
}

impl ApplyEnvironmentVariable for Container {
    type Rest = (Option<Vec<String>>, Option<Vec<String>>, String, Option<Vec<ContainerPort>>, Option<ResourceRequirements>, Option<Vec<VolumeMount>>);

    open spec fn env_entries(&self) -> Seq<EnvVar> {
        match self.env {
            Some(es) => es@,
            None => Seq::empty(),
        }
    }

    open spec fn env_rest(&self) -> Self::Rest {
        (self.args, self.command, self.name, self.ports, self.resources, self.volume_mounts)
    }

    fn apply_env<F: FnOnce(EnvVar) -> EnvVar>(&mut self, name: &str, f: F) {
        let ghost cs0 = self.env_entries();
        let mut es = match self.env.take() {
            Some(es) => es,
            None => Vec::new(),
        };
        proof {
            assert(es@ =~= cs0);
        }
        apply_keyed(&mut es, name, f);
        let ghost es1 = es@;
        self.env = Some(es);
        proof {
            if !has_keyed(cs0, name@) {
                let d = choose|d: EnvVar|
                    d.is_fresh(name@) && #[trigger] call_ensures(f, (d,), es1[cs0.len() as int]);
                assert(call_ensures(f, (d,), self.env_entries()[cs0.len() as int]));
            }
        }
    }

    fn drop_env(&mut self, name: &str) {
        match &mut self.env {
            Some(es) => {
                drop_keyed(es, name);
            },
            None => {
                proof {
                    reveal(Seq::filter);
                }
            },
        }
    }
}

impl ApplyPort for Container {
    type Rest = (Option<Vec<String>>, Option<Vec<String>>, Option<Vec<EnvVar>>, String, Option<ResourceRequirements>, Option<Vec<VolumeMount>>);

    open spec fn port_entries(&self) -> Seq<ContainerPort> {
        match self.ports {
            Some(ps) => ps@,
            None => Seq::empty(),
        }
    }

    open spec fn port_rest(&self) -> Self::Rest {
        (self.args, self.command, self.env, self.name, self.resources, self.volume_mounts)
    }

    fn apply_port<F: FnOnce(ContainerPort) -> ContainerPort>(&mut self, name: &str, f: F) {
        let ghost cs0 = self.port_entries();
        let mut ps = match self.ports.take() {
            Some(ps) => ps,
            None => Vec::new(),
        };
        proof {
            assert(ps@ =~= cs0);
        }
        apply_keyed(&mut ps, name, f);
        let ghost ps1 = ps@;
        self.ports = Some(ps);
        proof {
            if !has_keyed(cs0, name@) {
                let d = choose|d: ContainerPort|
                    d.is_fresh(name@) && #[trigger] call_ensures(f, (d,), ps1[cs0.len() as int]);
                assert(call_ensures(f, (d,), self.port_entries()[cs0.len() as int]));
            }
        }
    }
}

impl ApplyVolumeMount for Container {
    type Rest = (Option<Vec<String>>, Option<Vec<String>>, Option<Vec<EnvVar>>, String, Option<Vec<ContainerPort>>, Option<ResourceRequirements>);

    open spec fn mount_entries(&self) -> Seq<VolumeMount> {
        match self.volume_mounts {
            Some(ms) => ms@,
            None => Seq::empty(),
        }
    }

    open spec fn mount_rest(&self) -> Self::Rest {
        (self.args, self.command, self.env, self.name, self.ports, self.resources)
    }

    fn apply_volume_mount<F: FnOnce(VolumeMount) -> VolumeMount>(&mut self, name: &str, f: F) {
        let ghost cs0 = self.mount_entries();
        let mut ms = match self.volume_mounts.take() {
            Some(ms) => ms,
            None => Vec::new(),
        };
        proof {
            assert(ms@ =~= cs0);
        }
        apply_keyed(&mut ms, name, f);
        let ghost ms1 = ms@;
        self.volume_mounts = Some(ms);
        proof {
            if !has_keyed(cs0, name@) {
                let d = choose|d: VolumeMount|
                    d.is_fresh(name@) && #[trigger] call_ensures(f, (d,), ms1[cs0.len() as int]);
                assert(call_ensures(f, (d,), self.mount_entries()[cs0.len() as int]));
            }
        }
    }
}

impl DropVolumeMount for Container {
    open spec fn drop_mount_entries(&self) -> Seq<VolumeMount> {
        match self.volume_mounts {
            Some(ms) => ms@,
            None => Seq::empty(),
        }
    }

    fn drop_volume_mount(&mut self, name: &str) -> bool {
        match &mut self.volume_mounts {
            Some(ms) => drop_keyed(ms, name),
            None => {
                proof {
                    reveal(Seq::filter);
                }
                false
            },
        }
    }
}

impl SetResources for Container {
    type Rest = (Option<Vec<String>>, Option<Vec<String>>, Option<Vec<EnvVar>>, String, Option<Vec<ContainerPort>>, Option<Vec<VolumeMount>>);

    open spec fn requests_entries(&self) -> Option<Seq<(Seq<char>, Seq<char>)>> {
        match self.resources {
            Some(r) => r.requests_entries(),
            None => None,
        }
    }

    open spec fn limits_entries(&self) -> Option<Seq<(Seq<char>, Seq<char>)>> {
        match self.resources {
            Some(r) => r.limits_entries(),
            None => None,
        }
    }

    open spec fn resources_rest(&self) -> Self::Rest {
        (self.args, self.command, self.env, self.name, self.ports, self.volume_mounts)
    }

    fn set_resources(&mut self, resource_type: &str, request: Option<String>, limit: Option<
        String,
    >) {
        let mut r = match self.resources.take() {
            Some(r) => r,
            None => ResourceRequirements::default(),
        };
        r.set_resources(resource_type, request, limit);
        self.resources = Some(r);
    }
}

/// A pod's specification: its containers and volumes.
#[derive(Clone, Debug, PartialEq, Eq)]
pub struct PodSpec {
    pub containers: Vec<Container>,
    pub volumes: Option<Vec<Volume>>,
}

impl Default for PodSpec {
    fn default() -> (p: PodSpec)
        ensures
            p.containers@.len() == 0 && p.volumes is None,
    {
        PodSpec { containers: Vec::new(), volumes: None }
    }
}

impl ApplyVolume for PodSpec {
    type Rest = Vec<Container>;

    open spec fn volume_entries(&self) -> Seq<Volume> {
        match self.volumes {
            Some(vs) => vs@,
            None => Seq::empty(),
        }
    }

    open spec fn volume_rest(&self) -> Vec<Container> {
        self.containers
    }

    fn apply_volume<F: FnOnce(Volume) -> Volume>(&mut self, name: &str, f: F) {
        let ghost cs0 = self.volume_entries();
        let mut vs = match self.volumes.take() {
            Some(vs) => vs,
            None => Vec::new(),
        };
        proof {
            assert(vs@ =~= cs0);
        }
        apply_keyed(&mut vs, name, f);
        let ghost vs1 = vs@;
        self.volumes = Some(vs);
        proof {
            if !has_keyed(cs0, name@) {
                let d = choose|d: Volume|
                    d.is_fresh(name@) && #[trigger] call_ensures(f, (d,), vs1[cs0.len() as int]);
                assert(call_ensures(f, (d,), self.volume_entries()[cs0.len() as int]));
            }
        }
    }
}

impl DropVolume for PodSpec {
    open spec fn drop_volume_entries(&self) -> Seq<Volume> {
        match self.volumes {
            Some(vs) => vs@,
            None => Seq::empty(),
        }
    }

    fn drop_volume(&mut self, name: &str) -> bool {
        match &mut self.volumes {
            Some(vs) => drop_keyed(vs, name),
            None => {
                proof {
                    reveal(Seq::filter);
                }
                false
            },
        }
    }
}

/// A template for the pods a workload creates.
#[derive(Clone, Debug, PartialEq, Eq)]
pub struct PodTemplateSpec {
    pub spec: Option<PodSpec>,
}

impl Default for PodTemplateSpec {
    fn default() -> (t: PodTemplateSpec)
        ensures
            t.spec is None,
    {
        PodTemplateSpec { spec: None }
    }
}

/// A deployment's specification: the pod template.
#[derive(Clone, Debug, PartialEq, Eq)]
pub struct DeploymentSpec {
    pub template: PodTemplateSpec,
}

/// A deployment of pods.
#[derive(Clone, Debug, PartialEq, Eq)]
pub struct Deployment {
    pub metadata: ObjectMeta,
    pub spec: Option<DeploymentSpec>,
}

impl Default for Deployment {
    fn default() -> (d: Deployment)
        ensures
            d.metadata@ == crate::meta::empty_meta_view() && d.spec is None,
    {
        Deployment { metadata: ObjectMeta::empty(), spec: None }
    }
}

/// Patch containers by name.
pub trait ApplyContainer: Sized {
    /// What the patches never touch.
    type Rest;

    /// The containers, in order.
    spec fn container_entries(&self) -> Seq<Container>;

    /// Everything the patches never touch.
    spec fn container_rest(&self) -> Self::Rest;

    /// Apply the patch function to the container with the provided name;
    /// when no such container exists, a fresh one carrying the name is
    /// patched and appended.
    fn apply_container<F: FnOnce(Container) -> Container>(&mut self, name: &str, f: F)
        requires
            has_keyed(old(self).container_entries(), name@) ==> call_requires(
                f,
                (old(self).container_entries()[keyed_index(
                    old(self).container_entries(),
                    name@,
                )],),
            ),
            !has_keyed(old(self).container_entries(), name@) ==> forall|d: Container|
                d.is_fresh(name@) ==> call_requires(f, (d,)),
        ensures
            final(self).container_rest() == old(self).container_rest(),
            has_keyed(old(self).container_entries(), name@) ==> {
                let cs = old(self).container_entries();
                let i = keyed_index(cs, name@);
                &&& final(self).container_entries().len() == cs.len()
                &&& call_ensures(f, (cs[i],), final(self).container_entries()[i])
                &&& forall|j: int|
                    0 <= j < cs.len() && j != i ==> final(self).container_entries()[j] == cs[j]
            },
            !has_keyed(old(self).container_entries(), name@) ==> {
                let cs = old(self).container_entries();
                &&& final(self).container_entries().len() == cs.len() + 1
                &&& exists|d: Container|
                    d.is_fresh(name@) && #[trigger] call_ensures(
                        f,
                        (d,),
                        final(self).container_entries()[cs.len() as int],
                    )
                &&& forall|j: int|
                    0 <= j < cs.len() ==> final(self).container_entries()[j] == cs[j]
            },
    ;
}

impl ApplyContainer for Vec<Container> {
    type Rest = ();

    open spec fn container_entries(&self) -> Seq<Container> {
        self@
    }

    open spec fn container_rest(&self) -> () {
        ()
    }

    fn apply_container<F: FnOnce(Container) -> Container>(&mut self, name: &str, f: F) {
        let ghost cs0 = self@;
        apply_keyed(self, name, f);
        proof {
            if !has_keyed(cs0, name@) {
                let d = choose|d: Container|
                    d.is_fresh(name@) && #[trigger] call_ensures(f, (d,), self@[cs0.len() as int]);
                assert(call_ensures(f, (d,), self.container_entries()[cs0.len() as int]));
            }
        }
    }
}

impl ApplyContainer for Option<Vec<Container>> {
    type Rest = ();

    open spec fn container_entries(&self) -> Seq<Container> {
        match self {
            Some(cs) => cs@,
            None => Seq::empty(),
        }
    }

    open spec fn container_rest(&self) -> () {
        ()
    }

    fn apply_container<F: FnOnce(Container) -> Container>(&mut self, name: &str, f: F) {
        let ghost cs0 = self.container_entries();
        let mut cs = match self.take() {
            Some(cs) => cs,
            None => Vec::new(),
        };
        proof {
            assert(cs@ =~= cs0);
        }
        apply_keyed(&mut cs, name, f);
        let ghost cs1 = cs@;
        *self = Some(cs);
        proof {
            if !has_keyed(cs0, name@) {
                let d = choose|d: Container|
                    d.is_fresh(name@) && #[trigger] call_ensures(f, (d,), cs1[cs0.len() as int]);
                assert(call_ensures(f, (d,), self.container_entries()[cs0.len() as int]));
            }
        }
    }
}

impl ApplyContainer for PodTemplateSpec {
    type Rest = Option<Vec<Volume>>;

    open spec fn container_entries(&self) -> Seq<Container> {
        match self.spec {
            Some(ps) => ps.containers@,
            None => Seq::empty(),
        }
    }

    open spec fn container_rest(&self) -> Option<Vec<Volume>> {
        match self.spec {
            Some(ps) => ps.volumes,
            None => None,
        }
    }

    fn apply_container<F: FnOnce(Container) -> Container>(&mut self, name: &str, f: F) {
        let ghost cs0 = self.container_entries();
        let mut ps = match self.spec.take() {
            Some(ps) => ps,
            None => PodSpec::default(),
        };
        proof {
            assert(ps.containers@ =~= cs0);
        }
        apply_keyed(&mut ps.containers, name, f);
        let ghost cs1 = ps.containers@;
        self.spec = Some(ps);
        proof {
            if !has_keyed(cs0, name@) {
                let d = choose|d: Container|
                    d.is_fresh(name@) && #[trigger] call_ensures(f, (d,), cs1[cs0.len() as int]);
                assert(call_ensures(f, (d,), self.container_entries()[cs0.len() as int]));
            }
        }
    }
}

impl ApplyContainer for Deployment {
    type Rest = (crate::meta::ObjectMetaView, Option<Vec<Volume>>);

    open spec fn container_entries(&self) -> Seq<Container> {
        match self.spec {
            Some(ds) => ds.template.container_entries(),
            None => Seq::empty(),
        }
    }

    open spec fn container_rest(&self) -> (crate::meta::ObjectMetaView, Option<Vec<Volume>>) {
        (
            self.metadata@,
            match self.spec {
                Some(ds) => ds.template.container_rest(),
                None => None,
            },
        )
    }

    fn apply_container<F: FnOnce(Container) -> Container>(&mut self, name: &str, f: F) {
        let ghost cs0 = self.container_entries();
        let mut ds = match self.spec.take() {
            Some(ds) => ds,
            None => DeploymentSpec { template: PodTemplateSpec { spec: None } },
        };
        proof {
            assert(ds.template.container_entries() =~= cs0);
        }
        ds.template.apply_container(name, f);
        let ghost cs1 = ds.template.container_entries();
        self.spec = Some(ds);
        proof {
            if !has_keyed(cs0, name@) {
                let d = choose|d: Container|
                    d.is_fresh(name@) && #[trigger] call_ensures(f, (d,), cs1[cs0.len() as int]);
                assert(call_ensures(f, (d,), self.container_entries()[cs0.len() as int]));
            }
        }
    }
}

/// The entries kept by a removal pass: `dec` records, position by position,
/// whether the entry was removed.
pub open spec fn kept_where<A>(s: Seq<A>, dec: Seq<bool>) -> Seq<A>
    decreases s.len(),
{
    if s.len() == 0 || dec.len() == 0 {
        Seq::empty()
    } else {
        let prefix = kept_where(s.drop_last(), dec.drop_last());
        if dec.last() {
            prefix
        } else {
            prefix.push(s.last())
        }
    }
}

/// A removal pass whose decisions reject exactly what `keep` accepts keeps
/// exactly the entries satisfying `keep`.
pub proof fn lemma_kept_where_is_filter<A>(s: Seq<A>, dec: Seq<bool>, keep: spec_fn(A) -> bool)
    requires
        dec.len() == s.len(),
        forall|i: int| 0 <= i < s.len() ==> #[trigger] dec[i] == !keep(s[i]),
    ensures
        kept_where(s, dec) == s.filter(keep),
    decreases s.len(),
{
    reveal(Seq::filter);
    if s.len() > 0 {
        assert forall|i: int| 0 <= i < s.len() - 1 implies #[trigger] dec.drop_last()[i]
            == !keep(s.drop_last()[i]) by {
            assert(dec.drop_last()[i] == dec[i]);
            assert(s.drop_last()[i] == s[i]);
        }
        lemma_kept_where_is_filter(s.drop_last(), dec.drop_last(), keep);
        assert(dec.last() == !keep(s.last()));
    }
}

/// Remove containers matching a predicate.
pub trait RemoveContainer: Sized {
    /// What removal never touches.
    type Rest;

    /// The containers, in order.
    spec fn removal_entries(&self) -> Seq<Container>;

    /// Everything removal never touches.
    spec fn removal_rest(&self) -> Self::Rest;

    /// Remove every container the predicate accepts; report how many were
    /// removed.
    fn remove_containers<F: Fn(&Container) -> bool>(&mut self, predicate: F) -> (n: usize)
        requires
            forall|c: Container| #[trigger] call_requires(predicate, (&c,)),
        ensures
            final(self).removal_rest() == old(self).removal_rest(),
            ({
                let cs = old(self).removal_entries();
                let new_cs = final(self).removal_entries();
                exists|dec: Seq<bool>|
                    {
                        &&& dec.len() == cs.len()
                        &&& forall|i: int|
                            0 <= i < cs.len() ==> call_ensures(
                                predicate,
                                (&cs[i],),
                                #[trigger] dec[i],
                            )
                        &&& new_cs == kept_where(cs, dec)
                        &&& n == cs.len() - new_cs.len()
                    }
            }),
    ;

    /// Remove the container with the provided name; report whether anything
    /// was removed.
    fn remove_container_by_name(&mut self, name: &str) -> (removed: bool)
        ensures
            final(self).removal_rest() == old(self).removal_rest(),
            final(self).removal_entries() == old(self).removal_entries().filter(
                |c: Container| !(c.name@ == name@),
            ),
            removed == (final(self).removal_entries().len() != old(self).removal_entries().len()),
    {
        let pred = |c: &Container| -> (r: bool)
            ensures
                r == (c.name@ == name@),
            {
                str_eq(c.name.as_str(), name)
            };
        let n = self.remove_containers(pred);
        proof {
            let cs = old(self).removal_entries();
            let dec = choose|dec: Seq<bool>|
                {
                    &&& dec.len() == cs.len()
                    &&& forall|i: int|
                        0 <= i < cs.len() ==> call_ensures(pred, (&cs[i],), #[trigger] dec[i])
                    &&& final(self).removal_entries() == kept_where(cs, dec)
                    &&& n == cs.len() - final(self).removal_entries().len()
                };
            let keep = |c: Container| !(c.name@ == name@);
            assert forall|i: int| 0 <= i < cs.len() implies #[trigger] dec[i] == !keep(cs[i]) by {
            }
            lemma_kept_where_is_filter(cs, dec, keep);
        }
        n > 0
    }
}

impl RemoveContainer for Vec<Container> {
    type Rest = ();

    open spec fn removal_entries(&self) -> Seq<Container> {
        self@
    }

    open spec fn removal_rest(&self) -> () {
        ()
    }

    fn remove_containers<F: Fn(&Container) -> bool>(&mut self, predicate: F) -> (n: usize) {
        let ghost orig = self@;
        let start = self.len();
        let mut i: usize = 0;
        let ghost k: int = 0;
        let ghost dec: Seq<bool> = Seq::empty();
        #[verifier::loop_isolation(false)]
        while i < self.len()
            invariant
                0 <= k <= orig.len(),
                i <= k,
                dec.len() == k,
                forall|t: int| 0 <= t < k ==> call_ensures(predicate, (&orig[t],), #[trigger] dec[t]),
                i == kept_where(orig.subrange(0, k), dec).len(),
                self@ =~= kept_where(orig.subrange(0, k), dec) + orig.skip(k),
                self@.len() == i + orig.len() - k,
                start == orig.len(),
            decreases orig.len() - k,
        {
            proof {
                assert(self@[i as int] == orig[k]);
            }
            let remove = predicate(&self[i]);
            proof {
                let prefix = orig.subrange(0, k);
                let extended = orig.subrange(0, k + 1);
                assert(extended.drop_last() =~= prefix);
                assert(extended.last() == orig[k]);
                assert(dec.push(remove).drop_last() =~= dec);
            }
            if remove {
                self.remove(i);
                proof {
                    dec = dec.push(true);
                    assert(kept_where(orig.subrange(0, k + 1), dec) == kept_where(
                        orig.subrange(0, k),
                        dec.drop_last(),
                    ));
                    assert(self@ =~= kept_where(orig.subrange(0, k + 1), dec) + orig.skip(k + 1));
                }
            } else {
                i += 1;
                proof {
                    dec = dec.push(false);
                    assert(kept_where(orig.subrange(0, k + 1), dec) == kept_where(
                        orig.subrange(0, k),
                        dec.drop_last(),
                    ).push(orig[k]));
                    assert(self@ =~= kept_where(orig.subrange(0, k + 1), dec) + orig.skip(k + 1));
                }
            }
            proof {
                k = k + 1;
            }
        }
        proof {
            assert(orig.subrange(0, orig.len() as int) =~= orig);
            assert(self@ =~= kept_where(orig, dec));
        }
        start - self.len()
    }
}

impl RemoveContainer for PodTemplateSpec {
    type Rest = Option<Vec<Volume>>;

    open spec fn removal_entries(&self) -> Seq<Container> {
        match self.spec {
            Some(ps) => ps.containers@,
            None => Seq::empty(),
        }
    }

    open spec fn removal_rest(&self) -> Option<Vec<Volume>> {
        match self.spec {
            Some(ps) => ps.volumes,
            None => None,
        }
    }

    fn remove_containers<F: Fn(&Container) -> bool>(&mut self, predicate: F) -> (n: usize) {
        match &mut self.spec {
            Some(ps) => ps.containers.remove_containers(predicate),
            None => {
                proof {
                    let dec = Seq::<bool>::empty();
                    assert(self.removal_entries() =~= kept_where(self.removal_entries(), dec));
                }
                0
            },
        }
    }
}

impl RemoveContainer for Deployment {
    type Rest = (crate::meta::ObjectMetaView, Option<Vec<Volume>>);

    open spec fn removal_entries(&self) -> Seq<Container> {
        match self.spec {
            Some(ds) => ds.template.removal_entries(),
            None => Seq::empty(),
        }
    }

    open spec fn removal_rest(&self) -> (crate::meta::ObjectMetaView, Option<Vec<Volume>>) {
        (
            self.metadata@,
            match self.spec {
                Some(ds) => ds.template.removal_rest(),
                None => None,
            },
        )
    }

    fn remove_containers<F: Fn(&Container) -> bool>(&mut self, predicate: F) -> (n: usize) {
        match &mut self.spec {
            Some(ds) => ds.template.remove_containers(predicate),
            None => {
                proof {
                    let dec = Seq::<bool>::empty();
                    assert(self.removal_entries() =~= kept_where(self.removal_entries(), dec));
                }
                0
            },
        }
    }
}

} // verus!
