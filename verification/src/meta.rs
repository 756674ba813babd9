//! Object metadata and the owner-reference ledger.
//!
//! A dependent object records backreferences to its owners. `OwnedBy`
//! asserts ownership with a set-or-merge rule — match by kind, API version
//! and name; merge the controller and deletion flags — while enforcing the
//! namespace-scoping rule and at most one controlling owner. `is_owned_by`
//! queries the ledger without mutating it.

use vstd::prelude::*;

use crate::utils::str_eq;

verus! {

/// A backreference from a dependent object to one of its owners.
#[derive(Debug, PartialEq, Eq)]
pub struct OwnerReference {
    pub api_version: String,
    pub kind: String,
    pub name: String,
    pub uid: String,
    pub controller: Option<bool>,
    pub block_owner_deletion: Option<bool>,
}

/// The mathematical content of an `OwnerReference`.
pub struct OwnerReferenceView {
    pub api_version: Seq<char>,
    pub kind: Seq<char>,
    pub name: Seq<char>,
    pub uid: Seq<char>,
    pub controller: Option<bool>,
    pub block_owner_deletion: Option<bool>,
}

impl View for OwnerReference {
    type V = OwnerReferenceView;

    open spec fn view(&self) -> OwnerReferenceView {
        OwnerReferenceView {
            api_version: self.api_version@,
            kind: self.kind@,
            name: self.name@,
            uid: self.uid@,
            controller: self.controller,
            block_owner_deletion: self.block_owner_deletion,
        }
    }
}

impl DeepView for OwnerReference {
    type V = OwnerReferenceView;

    open spec fn deep_view(&self) -> OwnerReferenceView {
        self@
    }
}

impl Clone for OwnerReference {
    fn clone(&self) -> (r: Self)
        ensures
            r@ == self@,
    {
        OwnerReference {
            api_version: self.api_version.clone(),
            kind: self.kind.clone(),
            name: self.name.clone(),
            uid: self.uid.clone(),
            controller: self.controller,
            block_owner_deletion: self.block_owner_deletion,
        }
    }
}

/// The metadata every managed object carries.
#[derive(Debug, PartialEq, Eq)]
pub struct ObjectMeta {
    pub name: Option<String>,
    pub namespace: Option<String>,
    pub uid: Option<String>,
    pub owner_references: Option<Vec<OwnerReference>>,
}

/// The mathematical content of an `ObjectMeta`.
pub struct ObjectMetaView {
    pub name: Option<Seq<char>>,
    pub namespace: Option<Seq<char>>,
    pub uid: Option<Seq<char>>,
    pub owner_references: Option<Seq<OwnerReferenceView>>,
}

impl View for ObjectMeta {
    type V = ObjectMetaView;

    open spec fn view(&self) -> ObjectMetaView {
        ObjectMetaView {
            name: self.name.deep_view(),
            namespace: self.namespace.deep_view(),
            uid: self.uid.deep_view(),
            owner_references: self.owner_references.deep_view(),
        }
    }
}

/// The metadata with every field absent.
pub open spec fn empty_meta_view() -> ObjectMetaView {
    ObjectMetaView { name: None, namespace: None, uid: None, owner_references: None }
}

impl ObjectMeta {
    /// Metadata with every field absent.
    pub fn empty() -> (m: ObjectMeta)
        ensures
            m@ == empty_meta_view(),
    {
        ObjectMeta { name: None, namespace: None, uid: None, owner_references: None }
    }
}

fn clone_opt_string(s: &Option<String>) -> (r: Option<String>)
    ensures
        r.deep_view() == s.deep_view(),
{
    match s {
        Some(x) => Some(x.clone()),
        None => None,
    }
}

impl Clone for ObjectMeta {
    fn clone(&self) -> (r: Self)
        ensures
            r@ == self@,
    {
        let owner_references = match &self.owner_references {
            Some(refs) => {
                let mut out: Vec<OwnerReference> = Vec::new();
                let mut i: usize = 0;
                #[verifier::loop_isolation(false)]
                while i < refs.len()
                    invariant
                        i <= refs@.len(),
                        out@.len() == i,
                        forall|j: int| 0 <= j < i ==> #[trigger] out@[j]@ == refs@[j]@,
                    decreases refs@.len() - i,
                {
                    out.push(refs[i].clone());
                    i += 1;
                }
                proof {
                    assert(out.deep_view() =~= refs.deep_view());
                }
                Some(out)
            },
            None => None,
        };
        let r = ObjectMeta {
            name: clone_opt_string(&self.name),
            namespace: clone_opt_string(&self.namespace),
            uid: clone_opt_string(&self.uid),
            owner_references,
        };
        assert(r@.owner_references =~= self@.owner_references);
        r
    }
}

/// The errors the ownership operations can report.
#[derive(Clone, Copy, Debug, Eq, PartialEq, Structural)]
pub enum OwnershipError {
    /// The namespace-scoping rule is broken: either both objects are
    /// namespaced in different namespaces, or a cluster-scoped dependent
    /// names a namespaced owner.
    InvalidOwnership,
    /// The proposed owner has no name or no uid, so no reference can
    /// identify it.
    MissingIdentity,
    /// A controlling owner was requested while a different reference already
    /// holds the controller flag.
    ControllerConflict,
}

/// Two references claim the same owner when kind, API version and name all
/// agree; the uid is carried but deliberately not part of the key.
pub open spec fn same_owner_key(a: OwnerReferenceView, b: OwnerReferenceView) -> bool {
    a.kind == b.kind && a.api_version == b.api_version && a.name == b.name
}

/// An absent controller flag counts as not controlling.
pub open spec fn is_controller_flag(c: Option<bool>) -> bool {
    c == Some(true)
}

/// Reference `r` satisfies a query for owner `o`: the keys agree, and when
/// the query constrains the controller flag, the flags agree too.
pub open spec fn owner_match(r: OwnerReferenceView, o: OwnerReferenceView, check_controller: bool) -> bool {
    same_owner_key(r, o) && (check_controller ==> is_controller_flag(r.controller)
        == is_controller_flag(o.controller))
}

/// Compare two owner references as stored.
pub trait SameOwner: Sized {
    /// The reference this value stands for.
    spec fn owner_view(&self) -> OwnerReferenceView;

    fn is_same_owner_opts(&self, other: &OwnerReference, check_controller: bool) -> (r: bool)
        ensures
            r == owner_match(self.owner_view(), other@, check_controller),
    ;

    fn is_same_owner(&self, other: &OwnerReference) -> (r: bool)
        ensures
            r == same_owner_key(self.owner_view(), other@),
    ;
}

impl SameOwner for OwnerReference {
    open spec fn owner_view(&self) -> OwnerReferenceView {
        self@
    }

    fn is_same_owner_opts(&self, other: &OwnerReference, check_controller: bool) -> bool {
        if check_controller {
            let self_controller = matches!(self.controller, Some(true));
            let other_controller = matches!(other.controller, Some(true));
            if self_controller != other_controller {
                return false;
            }
        }
        str_eq(self.kind.as_str(), other.kind.as_str()) && str_eq(
            self.api_version.as_str(),
            other.api_version.as_str(),
        ) && str_eq(self.name.as_str(), other.name.as_str())
    }

    fn is_same_owner(&self, other: &OwnerReference) -> bool {
        self.is_same_owner_opts(other, false)
    }
}

/// Access to the identity of a managed object: its metadata plus the kind
/// and API version of its resource type.
pub trait Meta: Sized {
    /// The metadata of the object.
    spec fn spec_metadata(&self) -> ObjectMetaView;

    /// The kind of the resource type.
    spec fn spec_kind(&self) -> Seq<char>;

    /// The API version of the resource type.
    spec fn spec_api_version(&self) -> Seq<char>;

    fn metadata(&self) -> (m: &ObjectMeta)
        ensures
            m@ == self.spec_metadata(),
    ;

    /// Replace the metadata, leaving everything else of the object alone.
    fn set_metadata(&mut self, m: ObjectMeta)
        ensures
            final(self).spec_metadata() == m@,
            final(self).spec_kind() == old(self).spec_kind(),
            final(self).spec_api_version() == old(self).spec_api_version(),
    ;

    fn kind(&self) -> (k: String)
        ensures
            k@ == self.spec_kind(),
    ;

    fn api_version(&self) -> (v: String)
        ensures
            v@ == self.spec_api_version(),
    ;
}

/// The owner reference an object turns into, for given controller and
/// deletion-blocking flags.
pub open spec fn owner_ref_view(
    kind: Seq<char>,
    api_version: Seq<char>,
    m: ObjectMetaView,
    controller: Option<bool>,
    block_owner_deletion: Option<bool>,
) -> OwnerReferenceView {
    OwnerReferenceView {
        api_version: api_version,
        kind: kind,
        name: m.name->0,
        uid: m.uid->0,
        controller: controller,
        block_owner_deletion: block_owner_deletion,
    }
}

/// An object can serve as an owner only when both its name and its uid are
/// present.
pub open spec fn owner_ident_ok(m: ObjectMetaView) -> bool {
    m.name is Some && m.uid is Some
}

/// Turn an object into the owner reference that points at it.
pub trait AsOwner: Meta {
    fn as_owner(&self, controller: Option<bool>, block_owner_deletion: Option<bool>) -> (r: Result<
        OwnerReference,
        OwnershipError,
    >)
        ensures
            match r {
                Ok(o) => owner_ident_ok(self.spec_metadata()) && o@ == owner_ref_view(
                    self.spec_kind(),
                    self.spec_api_version(),
                    self.spec_metadata(),
                    controller,
                    block_owner_deletion,
                ),
                Err(e) => !owner_ident_ok(self.spec_metadata()) && e
                    == OwnershipError::MissingIdentity,
            },
    ;

    fn as_controller_owner(&self) -> (r: Result<OwnerReference, OwnershipError>)
        ensures
            match r {
                Ok(o) => owner_ident_ok(self.spec_metadata()) && o@ == owner_ref_view(
                    self.spec_kind(),
                    self.spec_api_version(),
                    self.spec_metadata(),
                    Some(true),
                    None,
                ),
                Err(e) => !owner_ident_ok(self.spec_metadata()) && e
                    == OwnershipError::MissingIdentity,
            },
    ;
}

impl<K: Meta> AsOwner for K {
    fn as_owner(&self, controller: Option<bool>, block_owner_deletion: Option<bool>) -> Result<
        OwnerReference,
        OwnershipError,
    > {
        let name = match &self.metadata().name {
            Some(n) => n.clone(),
            None => {
                return Err(OwnershipError::MissingIdentity);
            },
        };
        let uid = match &self.metadata().uid {
            Some(u) => u.clone(),
            None => {
                return Err(OwnershipError::MissingIdentity);
            },
        };
        Ok(OwnerReference {
            kind: self.kind(),
            api_version: self.api_version(),
            name,
            uid,
            controller,
            block_owner_deletion,
        })
    }

    fn as_controller_owner(&self) -> Result<OwnerReference, OwnershipError> {
        self.as_owner(Some(true), None)
    }
}

/// The namespace-scoping rule: an owner must be cluster-scoped or share the
/// dependent's namespace, and a cluster-scoped dependent cannot have a
/// namespaced owner.
pub open spec fn namespace_rule_ok(dep_ns: Option<Seq<char>>, owner_ns: Option<Seq<char>>) -> bool {
    match (dep_ns, owner_ns) {
        (_, None) => true,
        (Some(d), Some(o)) => d == o,
        (None, Some(_)) => false,
    }
}

/// The owner references an object holds; an absent collection holds none.
pub open spec fn refs_of(m: ObjectMetaView) -> Seq<OwnerReferenceView> {
    match m.owner_references {
        Some(rs) => rs,
        None => Seq::empty(),
    }
}

/// Whether some reference other than `o`'s own entry already claims to be
/// the controller.
pub open spec fn has_other_controller(rs: Seq<OwnerReferenceView>, o: OwnerReferenceView) -> bool {
    exists|i: int|
        0 <= i < rs.len() && !same_owner_key(#[trigger] rs[i], o) && rs[i].controller == Some(true)
}

/// Whether some stored reference satisfies a query for owner `o`.
pub open spec fn has_owner_match(
    rs: Seq<OwnerReferenceView>,
    o: OwnerReferenceView,
    check_controller: bool,
) -> bool {
    exists|i: int| 0 <= i < rs.len() && owner_match(#[trigger] rs[i], o, check_controller)
}

/// The index of the last reference sharing `o`'s key, or -1 when none does.
/// A scan that remembers every match keeps the last one, so the merge lands
/// there.
pub open spec fn last_owner_match(rs: Seq<OwnerReferenceView>, o: OwnerReferenceView) -> int
    decreases rs.len(),
{
    if rs.len() == 0 {
        -1
    } else if same_owner_key(rs[rs.len() - 1], o) {
        rs.len() - 1
    } else {
        last_owner_match(rs.drop_last(), o)
    }
}

/// The set-or-merge rule on the mathematical model: overwrite the flags of
/// the last reference sharing the key, or append the new reference.
pub open spec fn apply_owner(rs: Seq<OwnerReferenceView>, o: OwnerReferenceView) -> Seq<
    OwnerReferenceView,
> {
    let i = last_owner_match(rs, o);
    if i >= 0 {
        rs.update(
            i,
            OwnerReferenceView {
                controller: o.controller,
                block_owner_deletion: o.block_owner_deletion,
                ..rs[i]
            },
        )
    } else {
        rs.push(o)
    }
}

/// When no reference shares the key, `last_owner_match` reports none.
pub proof fn lemma_no_owner_match(rs: Seq<OwnerReferenceView>, o: OwnerReferenceView)
    requires
        forall|j: int| 0 <= j < rs.len() ==> !same_owner_key(#[trigger] rs[j], o),
    ensures
        last_owner_match(rs, o) == -1,
    decreases rs.len(),
{
    if rs.len() > 0 {
        lemma_no_owner_match(rs.drop_last(), o);
    }
}

/// A matching index followed only by non-matching ones is the last match.
pub proof fn lemma_last_owner_match_at(rs: Seq<OwnerReferenceView>, o: OwnerReferenceView, k: int)
    requires
        0 <= k < rs.len(),
        same_owner_key(rs[k], o),
        forall|j: int| k < j < rs.len() ==> !same_owner_key(#[trigger] rs[j], o),
    ensures
        last_owner_match(rs, o) == k,
    decreases rs.len(),
{
    if k == rs.len() - 1 {
    } else {
        lemma_last_owner_match_at(rs.drop_last(), o, k);
    }
}

/// `last_owner_match` points at an in-range entry with the right key
/// whenever it reports a match.
pub proof fn lemma_last_owner_match_in_range(rs: Seq<OwnerReferenceView>, o: OwnerReferenceView)
    ensures
        last_owner_match(rs, o) >= 0 ==> last_owner_match(rs, o) < rs.len() && same_owner_key(
            rs[last_owner_match(rs, o)],
            o,
        ),
        last_owner_match(rs, o) >= -1,
    decreases rs.len(),
{
    if rs.len() > 0 && !same_owner_key(rs[rs.len() - 1], o) {
        lemma_last_owner_match_in_range(rs.drop_last(), o);
    }
}

/// No entry after `last_owner_match` shares the key.
pub proof fn lemma_last_owner_match_is_last(rs: Seq<OwnerReferenceView>, o: OwnerReferenceView)
    ensures
        forall|j: int|
            last_owner_match(rs, o) < j < rs.len() ==> !same_owner_key(#[trigger] rs[j], o),
    decreases rs.len(),
{
    if rs.len() > 0 && !same_owner_key(rs[rs.len() - 1], o) {
        lemma_last_owner_match_is_last(rs.drop_last(), o);
        lemma_last_owner_match_in_range(rs, o);
        assert(last_owner_match(rs, o) == last_owner_match(rs.drop_last(), o));
        assert forall|j: int|
            last_owner_match(rs, o) < j < rs.len() implies !same_owner_key(
            #[trigger] rs[j],
            o,
        ) by {
            if j < rs.len() - 1 {
                assert(!same_owner_key(rs.drop_last()[j], o));
                assert(rs.drop_last()[j] == rs[j]);
            }
        }
    }
}

/// Setting the same owner twice changes nothing the second time: the merge
/// finds the entry the first call left and overwrites its flags with the
/// values they already have.
pub proof fn lemma_apply_owner_idempotent(rs: Seq<OwnerReferenceView>, o: OwnerReferenceView)
    ensures
        apply_owner(apply_owner(rs, o), o) == apply_owner(rs, o),
{
    let once = apply_owner(rs, o);
    lemma_last_owner_match_in_range(rs, o);
    lemma_last_owner_match_is_last(rs, o);
    let i = last_owner_match(rs, o);
    if i >= 0 {
        assert forall|j: int| i < j < once.len() implies !same_owner_key(
            #[trigger] once[j],
            o,
        ) by {
            assert(once[j] == rs[j]);
        }
        lemma_last_owner_match_at(once, o, i);
        assert(apply_owner(once, o) =~= once);
    } else {
        lemma_last_owner_match_at(once, o, rs.len() as int);
        assert(apply_owner(once, o) =~= once);
    }
}

/// At most one reference may carry the controller flag.
pub open spec fn at_most_one_controller(rs: Seq<OwnerReferenceView>) -> bool {
    forall|i: int, j: int|
        0 <= i < rs.len() && 0 <= j < rs.len() && i != j ==> !(is_controller_flag(
            #[trigger] rs[i].controller,
        ) && is_controller_flag(#[trigger] rs[j].controller))
}

/// At most one reference per owner key.
pub open spec fn unique_owner_keys(rs: Seq<OwnerReferenceView>) -> bool {
    forall|i: int, j: int|
        0 <= i < j < rs.len() ==> !same_owner_key(#[trigger] rs[i], #[trigger] rs[j])
}

/// The ledger invariant: under unique keys, a merge that was admitted by the
/// single-controller check keeps both uniqueness and the single-controller
/// property.
pub proof fn lemma_apply_owner_single_controller(rs: Seq<OwnerReferenceView>, o: OwnerReferenceView)
    requires
        unique_owner_keys(rs),
        at_most_one_controller(rs),
        is_controller_flag(o.controller) ==> !has_other_controller(rs, o),
    ensures
        unique_owner_keys(apply_owner(rs, o)),
        at_most_one_controller(apply_owner(rs, o)),
{
    let r = apply_owner(rs, o);
    lemma_last_owner_match_in_range(rs, o);
    lemma_last_owner_match_is_last(rs, o);
    let m = last_owner_match(rs, o);
    if m >= 0 {
        assert forall|i: int, j: int| 0 <= i < j < r.len() implies !same_owner_key(
            #[trigger] r[i],
            #[trigger] r[j],
        ) by {
            assert(same_owner_key(r[m], rs[m]) && same_owner_key(rs[m], r[m]));
            if i != m && j != m {
                assert(r[i] == rs[i] && r[j] == rs[j]);
            }
        }
        assert forall|i: int, j: int|
            0 <= i < r.len() && 0 <= j < r.len() && i != j implies !(is_controller_flag(
            #[trigger] r[i].controller,
        ) && is_controller_flag(#[trigger] r[j].controller)) by {
            if is_controller_flag(r[i].controller) && is_controller_flag(r[j].controller) {
                if i == m || j == m {
                    let other = if i == m {
                        j
                    } else {
                        i
                    };
                    assert(rs[other].controller == Some(true));
                    assert(!same_owner_key(rs[other], o));
                }
            }
        }
    } else {
        assert forall|i: int, j: int|
            0 <= i < r.len() && 0 <= j < r.len() && i != j implies !(is_controller_flag(
            #[trigger] r[i].controller,
        ) && is_controller_flag(#[trigger] r[j].controller)) by {
            if is_controller_flag(r[i].controller) && is_controller_flag(r[j].controller) {
                if i == rs.len() || j == rs.len() {
                    let other = if i == rs.len() {
                        j
                    } else {
                        i
                    };
                    assert(rs[other].controller == Some(true));
                    assert(!same_owner_key(rs[other], o));
                }
            }
        }
    }
}

/// Record and query ownership of a dependent object.
///
/// `owned_by` follows the set-or-merge rule under the namespace-scoping rule
/// and the single-controller rule, failing atomically: on any error the
/// ledger is untouched. `is_owned_by` reports whether a stored reference
/// matches the candidate owner, optionally constraining the controller flag.
pub trait OwnedBy<R: Meta>: Meta {
    fn owned_by(&mut self, resource: &R, controller: bool, block_owner_deletion: Option<bool>) -> (r:
        Result<(), OwnershipError>)
        ensures
            ({
                let dep = old(self).spec_metadata();
                let own = resource.spec_metadata();
                let new_ref = owner_ref_view(
                    resource.spec_kind(),
                    resource.spec_api_version(),
                    own,
                    Some(controller),
                    block_owner_deletion,
                );
                match r {
                    Ok(()) => {
                        &&& namespace_rule_ok(dep.namespace, own.namespace)
                        &&& owner_ident_ok(own)
                        &&& !(controller && has_other_controller(refs_of(dep), new_ref))
                        &&& final(self).spec_metadata() == (ObjectMetaView {
                            owner_references: Some(apply_owner(refs_of(dep), new_ref)),
                            ..dep
                        })
                    },
                    Err(e) => {
                        &&& final(self).spec_metadata() == dep
                        &&& match e {
                            OwnershipError::InvalidOwnership => !namespace_rule_ok(
                                dep.namespace,
                                own.namespace,
                            ),
                            OwnershipError::MissingIdentity => namespace_rule_ok(
                                dep.namespace,
                                own.namespace,
                            ) && !owner_ident_ok(own),
                            OwnershipError::ControllerConflict => {
                                &&& namespace_rule_ok(dep.namespace, own.namespace)
                                &&& owner_ident_ok(own)
                                &&& controller
                                &&& has_other_controller(refs_of(dep), new_ref)
                            },
                        }
                    },
                }
            }),
            final(self).spec_kind() == old(self).spec_kind(),
            final(self).spec_api_version() == old(self).spec_api_version(),
    ;

    /// Assert ownership with the controller flag set.
    fn owned_by_controller(&mut self, resource: &R) -> (r: Result<(), OwnershipError>)
        ensures
            ({
                let dep = old(self).spec_metadata();
                let own = resource.spec_metadata();
                let new_ref = owner_ref_view(
                    resource.spec_kind(),
                    resource.spec_api_version(),
                    own,
                    Some(true),
                    None,
                );
                match r {
                    Ok(()) => {
                        &&& namespace_rule_ok(dep.namespace, own.namespace)
                        &&& owner_ident_ok(own)
                        &&& !has_other_controller(refs_of(dep), new_ref)
                        &&& final(self).spec_metadata() == (ObjectMetaView {
                            owner_references: Some(apply_owner(refs_of(dep), new_ref)),
                            ..dep
                        })
                    },
                    Err(e) => {
                        &&& final(self).spec_metadata() == dep
                        &&& match e {
                            OwnershipError::InvalidOwnership => !namespace_rule_ok(
                                dep.namespace,
                                own.namespace,
                            ),
                            OwnershipError::MissingIdentity => namespace_rule_ok(
                                dep.namespace,
                                own.namespace,
                            ) && !owner_ident_ok(own),
                            OwnershipError::ControllerConflict => {
                                &&& namespace_rule_ok(dep.namespace, own.namespace)
                                &&& owner_ident_ok(own)
                                &&& has_other_controller(refs_of(dep), new_ref)
                            },
                        }
                    },
                }
            }),
            final(self).spec_kind() == old(self).spec_kind(),
            final(self).spec_api_version() == old(self).spec_api_version(),
    ;

    fn is_owned_by(&self, owner: &R, controller: Option<bool>) -> (r: Result<
        bool,
        OwnershipError,
    >)
        ensures
            ({
                let own_ref = owner_ref_view(
                    owner.spec_kind(),
                    owner.spec_api_version(),
                    owner.spec_metadata(),
                    controller,
                    None,
                );
                match r {
                    Ok(b) => owner_ident_ok(owner.spec_metadata()) && b == has_owner_match(
                        refs_of(self.spec_metadata()),
                        own_ref,
                        controller is Some,
                    ),
                    Err(e) => !owner_ident_ok(owner.spec_metadata()) && e
                        == OwnershipError::MissingIdentity,
                }
            }),
    ;

    /// Query whether `owner` is recorded as the controlling owner.
    fn is_owned_by_controller(&self, owner: &R) -> (r: Result<bool, OwnershipError>)
        ensures
            ({
                let own_ref = owner_ref_view(
                    owner.spec_kind(),
                    owner.spec_api_version(),
                    owner.spec_metadata(),
                    Some(true),
                    None,
                );
                match r {
                    Ok(b) => owner_ident_ok(owner.spec_metadata()) && b == has_owner_match(
                        refs_of(self.spec_metadata()),
                        own_ref,
                        true,
                    ),
                    Err(e) => !owner_ident_ok(owner.spec_metadata()) && e
                        == OwnershipError::MissingIdentity,
                }
            }),
    ;
}

impl<K: Meta, R: Meta> OwnedBy<R> for K {
    fn owned_by(&mut self, resource: &R, controller: bool, block_owner_deletion: Option<bool>) -> Result<
        (),
        OwnershipError,
    > {
        let ns_ok = match (&self.metadata().namespace, &resource.metadata().namespace) {
            (_, None) => true,
            (Some(obj_ns), Some(owner_ns)) => str_eq(obj_ns.as_str(), owner_ns.as_str()),
            (None, Some(_)) => false,
        };
        if !ns_ok {
            return Err(OwnershipError::InvalidOwnership);
        }
        let owner = match resource.as_owner(Some(controller), block_owner_deletion) {
            Ok(o) => o,
            Err(e) => {
                return Err(e);
            },
        };
        let mut meta_new = self.metadata().clone();
        let mut refs: Vec<OwnerReference> = match meta_new.owner_references.take() {
            Some(rs) => rs,
            None => Vec::new(),
        };
        let ghost orig_refs = refs.deep_view();
        proof {
            assert(orig_refs =~= refs_of(old(self).spec_metadata()));
        }
        let mut found: Option<usize> = None;
        let mut i: usize = 0;
        #[verifier::loop_isolation(false)]
        while i < refs.len()
            invariant
                i <= refs@.len(),
                match found {
                    Some(k) => k < i && same_owner_key(orig_refs[k as int], owner@) && (forall|
                        j: int,
                    |
                        k < j < i ==> !same_owner_key(#[trigger] orig_refs[j], owner@)),
                    None => forall|j: int|
                        0 <= j < i ==> !same_owner_key(#[trigger] orig_refs[j], owner@),
                },
                controller ==> forall|j: int|
                    0 <= j < i ==> same_owner_key(#[trigger] orig_refs[j], owner@)
                        || orig_refs[j].controller != Some(true),
            decreases refs@.len() - i,
        {
            assert(refs@[i as int]@ == orig_refs[i as int]);
            if owner.is_same_owner(&refs[i]) {
                found = Some(i);
            } else if controller {
                if matches!(refs[i].controller, Some(true)) {
                    return Err(OwnershipError::ControllerConflict);
                }
            }
            i += 1;
        }
        match found {
            Some(idx) => {
                let entry = &mut refs[idx];
                entry.controller = owner.controller;
                entry.block_owner_deletion = owner.block_owner_deletion;
                proof {
                    lemma_last_owner_match_at(orig_refs, owner@, idx as int);
                    assert(refs.deep_view() =~= apply_owner(orig_refs, owner@));
                }
            },
            None => {
                proof {
                    lemma_no_owner_match(orig_refs, owner@);
                }
                refs.push(owner);
                proof {
                    assert(refs.deep_view() =~= apply_owner(orig_refs, owner@));
                }
            },
        }
        meta_new.owner_references = Some(refs);
        proof {
            assert(meta_new@ == (ObjectMetaView {
                owner_references: Some(apply_owner(refs_of(old(self).spec_metadata()), owner@)),
                ..old(self).spec_metadata()
            }));
        }
        self.set_metadata(meta_new);
        Ok(())
    }

    fn owned_by_controller(&mut self, resource: &R) -> Result<(), OwnershipError> {
        self.owned_by(resource, true, None)
    }

    fn is_owned_by(&self, owner: &R, controller: Option<bool>) -> Result<bool, OwnershipError> {
        let owner = match owner.as_owner(controller, None) {
            Ok(o) => o,
            Err(e) => {
                return Err(e);
            },
        };
        let check = controller.is_some();
        let md = self.metadata();
        match &md.owner_references {
            Some(refs) => {
                let ghost rs = refs.deep_view();
                proof {
                    assert(rs =~= refs_of(self.spec_metadata()));
                }
                let mut i: usize = 0;
                #[verifier::loop_isolation(false)]
                while i < refs.len()
                    invariant
                        i <= refs@.len(),
                        forall|j: int| 0 <= j < i ==> !owner_match(#[trigger] rs[j], owner@, check),
                    decreases refs@.len() - i,
                {
                    assert(refs@[i as int]@ == rs[i as int]);
                    if refs[i].is_same_owner_opts(&owner, check) {
                        return Ok(true);
                    }
                    i += 1;
                }
                Ok(false)
            },
            None => Ok(false),
        }
    }

    fn is_owned_by_controller(&self, owner: &R) -> Result<bool, OwnershipError> {
        self.is_owned_by(owner, Some(true))
    }
}

} // verus!
