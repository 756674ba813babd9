//! Volumes and volume mounts.

use vstd::prelude::*;

use crate::entries::{apply_keyed, drop_keyed, has_keyed, keyed_index, KeyedEntry};
use crate::utils::str_eq;

verus! {

/// One volume of a pod.
#[derive(Clone, Debug, PartialEq, Eq)]
pub struct Volume {
    pub name: String,
}

impl KeyedEntry for Volume {
    open spec fn entry_key(&self) -> Option<Seq<char>> {
        Some(self.name@)
    }

    open spec fn is_fresh(&self, name: Seq<char>) -> bool {
        self.name@ == name
    }

    fn key_matches(&self, name: &str) -> bool {
        str_eq(self.name.as_str(), name)
    }

    fn fresh(name: String) -> Self {
        Volume { name }
    }
}

/// One mount of a volume into a container.
#[derive(Clone, Debug, PartialEq, Eq)]
pub struct VolumeMount {
    pub mount_path: String,
    pub mount_propagation: Option<String>,
    pub name: String,
    pub read_only: Option<bool>,
    pub sub_path: Option<String>,
    pub sub_path_expr: Option<String>,
}

impl KeyedEntry for VolumeMount {
    open spec fn entry_key(&self) -> Option<Seq<char>> {
        Some(self.name@)
    }

    open spec fn is_fresh(&self, name: Seq<char>) -> bool {
        &&& self.name@ == name
        &&& self.mount_path@ == Seq::<char>::empty()
        &&& self.mount_propagation is None
        &&& self.read_only is None
        &&& self.sub_path is None
        &&& self.sub_path_expr is None
    }

    fn key_matches(&self, name: &str) -> bool {
        str_eq(self.name.as_str(), name)
    }

    fn fresh(name: String) -> Self {
        VolumeMount {
            mount_path: String::new(),
            mount_propagation: None,
            name,
            read_only: None,
            sub_path: None,
            sub_path_expr: None,
        }
    }
}

/// Patch volumes by name.
pub trait ApplyVolume: Sized {
    /// What the patches never touch.
    type Rest;

    /// The volumes, in order.
    spec fn volume_entries(&self) -> Seq<Volume>;

    /// Everything the patches never touch.
    spec fn volume_rest(&self) -> Self::Rest;

    /// Apply the patch function to the volume with the provided name; when
    /// no such volume exists, a fresh one carrying the name is patched and
    /// appended.
    fn apply_volume<F: FnOnce(Volume) -> Volume>(&mut self, name: &str, f: F)
        requires
            has_keyed(old(self).volume_entries(), name@) ==> call_requires(
                f,
                (old(self).volume_entries()[keyed_index(old(self).volume_entries(), name@)],),
            ),
            !has_keyed(old(self).volume_entries(), name@) ==> forall|d: Volume|
                d.is_fresh(name@) ==> call_requires(f, (d,)),
        ensures
            final(self).volume_rest() == old(self).volume_rest(),
            has_keyed(old(self).volume_entries(), name@) ==> {
                let vs = old(self).volume_entries();
                let i = keyed_index(vs, name@);
                &&& final(self).volume_entries().len() == vs.len()
                &&& call_ensures(f, (vs[i],), final(self).volume_entries()[i])
                &&& forall|j: int|
                    0 <= j < vs.len() && j != i ==> final(self).volume_entries()[j] == vs[j]
            },
            !has_keyed(old(self).volume_entries(), name@) ==> {
                let vs = old(self).volume_entries();
                &&& final(self).volume_entries().len() == vs.len() + 1
                &&& exists|d: Volume|
                    d.is_fresh(name@) && #[trigger] call_ensures(
                        f,
                        (d,),
                        final(self).volume_entries()[vs.len() as int],
                    )
                &&& forall|j: int| 0 <= j < vs.len() ==> final(self).volume_entries()[j] == vs[j]
            },
    ;
}

/// Drop volumes by name.
pub trait DropVolume: Sized {
    /// The volumes, in order.
    spec fn drop_volume_entries(&self) -> Seq<Volume>;

    /// Drop the volume with the provided name; report whether anything was
    /// removed.
    fn drop_volume(&mut self, name: &str) -> (removed: bool)
        ensures
            final(self).drop_volume_entries() == old(self).drop_volume_entries().filter(
                |v: Volume| v.entry_key() != Some(name@),
            ),
            removed == (final(self).drop_volume_entries().len() != old(
                self,
            ).drop_volume_entries().len()),
    ;
}

impl ApplyVolume for Vec<Volume> {
    type Rest = ();

    open spec fn volume_entries(&self) -> Seq<Volume> {
        self@
    }

    open spec fn volume_rest(&self) -> () {
        ()
    }

    fn apply_volume<F: FnOnce(Volume) -> Volume>(&mut self, name: &str, f: F) {
        apply_keyed(self, name, f);
    }
}

impl DropVolume for Vec<Volume> {
    open spec fn drop_volume_entries(&self) -> Seq<Volume> {
        self@
    }

    fn drop_volume(&mut self, name: &str) -> bool {
        drop_keyed(self, name)
    }
}

/// The mount named `name` points at exactly the given path with the given
/// read-only flag after a simple patch, with no propagation or sub-path.
pub open spec fn mount_simple(m: VolumeMount, name: Seq<char>, path: Seq<char>, read_only: bool) -> bool {
    &&& m.name@ == name
    &&& m.mount_path@ == path
    &&& m.read_only == Some(read_only)
    &&& m.mount_propagation is None
    &&& m.sub_path is None
    &&& m.sub_path_expr is None
}

/// Patch volume mounts by name.
pub trait ApplyVolumeMount: Sized {
    /// What the patches never touch.
    type Rest;

    /// The mounts, in order.
    spec fn mount_entries(&self) -> Seq<VolumeMount>;

    /// Everything the patches never touch.
    spec fn mount_rest(&self) -> Self::Rest;

    /// Apply the patch function to the mount with the provided name; when no
    /// such mount exists, a fresh one carrying the name is patched and
    /// appended.
    fn apply_volume_mount<F: FnOnce(VolumeMount) -> VolumeMount>(&mut self, name: &str, f: F)
        requires
            has_keyed(old(self).mount_entries(), name@) ==> call_requires(
                f,
                (old(self).mount_entries()[keyed_index(old(self).mount_entries(), name@)],),
            ),
            !has_keyed(old(self).mount_entries(), name@) ==> forall|d: VolumeMount|
                d.is_fresh(name@) ==> call_requires(f, (d,)),
        ensures
            final(self).mount_rest() == old(self).mount_rest(),
            has_keyed(old(self).mount_entries(), name@) ==> {
                let ms = old(self).mount_entries();
                let i = keyed_index(ms, name@);
                &&& final(self).mount_entries().len() == ms.len()
                &&& call_ensures(f, (ms[i],), final(self).mount_entries()[i])
                &&& forall|j: int|
                    0 <= j < ms.len() && j != i ==> final(self).mount_entries()[j] == ms[j]
            },
            !has_keyed(old(self).mount_entries(), name@) ==> {
                let ms = old(self).mount_entries();
                &&& final(self).mount_entries().len() == ms.len() + 1
                &&& exists|d: VolumeMount|
                    d.is_fresh(name@) && #[trigger] call_ensures(
                        f,
                        (d,),
                        final(self).mount_entries()[ms.len() as int],
                    )
                &&& forall|j: int| 0 <= j < ms.len() ==> final(self).mount_entries()[j] == ms[j]
            },
    ;

    /// Mount under the given path, with everything else cleared.
    fn apply_volume_mount_simple(&mut self, name: &str, path: &str, read_only: bool)
        ensures
            final(self).mount_rest() == old(self).mount_rest(),
            ({
                let ms = old(self).mount_entries();
                let new_ms = final(self).mount_entries();
                if has_keyed(ms, name@) {
                    let i = keyed_index(ms, name@);
                    &&& new_ms.len() == ms.len()
                    &&& forall|j: int| 0 <= j < ms.len() && j != i ==> new_ms[j] == ms[j]
                    &&& mount_simple(new_ms[i], name@, path@, read_only)
                } else {
                    &&& new_ms.len() == ms.len() + 1
                    &&& forall|j: int| 0 <= j < ms.len() ==> new_ms[j] == ms[j]
                    &&& mount_simple(new_ms[ms.len() as int], name@, path@, read_only)
                }
            }),
    {
        let mount_path = path.to_owned();
        let patch = |m: VolumeMount| -> (r: VolumeMount)
            ensures
                r.name@ == m.name@ && r.mount_path@ == path@ && r.read_only == Some(read_only)
                    && r.mount_propagation is None && r.sub_path is None && r.sub_path_expr
                    is None,
            {
                VolumeMount {
                    mount_path,
                    mount_propagation: None,
                    name: m.name,
                    read_only: Some(read_only),
                    sub_path: None,
                    sub_path_expr: None,
                }
            };
        self.apply_volume_mount(name, patch);
        proof {
            if has_keyed(old(self).mount_entries(), name@) {
                crate::entries::lemma_keyed_index(old(self).mount_entries(), name@);
            }
        }
    }
}

/// Drop volume mounts by name.
pub trait DropVolumeMount: Sized {
    /// The mounts, in order.
    spec fn drop_mount_entries(&self) -> Seq<VolumeMount>;

    /// Drop the mount with the provided name; report whether anything was
    /// removed.
    fn drop_volume_mount(&mut self, name: &str) -> (removed: bool)
        ensures
            final(self).drop_mount_entries() == old(self).drop_mount_entries().filter(
                |m: VolumeMount| m.entry_key() != Some(name@),
            ),
            removed == (final(self).drop_mount_entries().len() != old(
                self,
            ).drop_mount_entries().len()),
    ;
}

impl ApplyVolumeMount for Vec<VolumeMount> {
    type Rest = ();

    open spec fn mount_entries(&self) -> Seq<VolumeMount> {
        self@
    }

    open spec fn mount_rest(&self) -> () {
        ()
    }

    fn apply_volume_mount<F: FnOnce(VolumeMount) -> VolumeMount>(&mut self, name: &str, f: F) {
        apply_keyed(self, name, f);
    }
}

impl DropVolumeMount for Vec<VolumeMount> {
    open spec fn drop_mount_entries(&self) -> Seq<VolumeMount> {
        self@
    }

    fn drop_volume_mount(&mut self, name: &str) -> bool {
        drop_keyed(self, name)
    }
}

} // verus!
