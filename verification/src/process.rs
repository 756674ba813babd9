//! The decision core of create-or-update reconciliation.
//!
//! One convergence pass works on the outcome of fetching a named remote
//! object: when the object is absent, a fresh one is built and mutated and
//! must be created; when it is present, the mutated copy is compared against
//! what was fetched and a replace is requested only when the two differ.
//! The caller performs the remote calls and hands the fetched state in;
//! everything decided here is verified.

use vstd::prelude::*;

use crate::meta::{ObjectMeta, ObjectMetaView};

verus! {

/// What one convergence pass decided, carrying the object after mutation.
#[derive(Debug, PartialEq, Eq)]
pub enum ConvergeOutcome<T> {
    /// The object was absent: this value must be created remotely.
    Create(T),
    /// The object was present but the mutation changed it: this value must
    /// replace the remote one.
    Replace(T),
    /// The object was present and the mutation changed nothing: no write is
    /// needed.
    Unchanged(T),
}

/// The metadata a freshly built object starts from: just its namespace and
/// name.
pub open spec fn fresh_meta(namespace: Option<Seq<char>>, name: Seq<char>) -> ObjectMetaView {
    ObjectMetaView { name: Some(name), namespace: namespace, uid: None, owner_references: None }
}

/// Decide one convergence pass for a named object.
///
/// `existing` is what the fetch produced (`None` for not-found), `creator`
/// builds a fresh object from starting metadata, `mutator` computes the
/// desired object, and `eq` judges whether a present object already matches
/// the desired one. A mutator error is returned as-is, and then no write is
/// requested.
pub fn converge_step<T, C, Q, M, E>(
    existing: Option<T>,
    namespace: Option<String>,
    name: String,
    creator: C,
    eq: Q,
    mutator: M,
) -> (r: Result<ConvergeOutcome<T>, E>) where
    C: FnOnce(ObjectMeta) -> T,
    Q: FnOnce(&T, &T) -> bool,
    M: FnOnce(&T) -> Result<T, E>,

    requires
        existing is None ==> forall|m: ObjectMeta|
            m@ == fresh_meta(namespace.deep_view(), name@) ==> call_requires(creator, (m,)),
        existing is None ==> forall|m: ObjectMeta, t: T|
            m@ == fresh_meta(namespace.deep_view(), name@) && call_ensures(creator, (m,), t)
                ==> call_requires(mutator, (&t,)),
        existing matches Some(obj) ==> call_requires(mutator, (&obj,)),
        existing matches Some(obj) ==> forall|u: T|
            call_ensures(mutator, (&obj,), Ok(u)) ==> call_requires(eq, (&obj, &u)),
    ensures
        match r {
            Ok(out) => match out {
                ConvergeOutcome::Create(t) => existing is None && exists|m: ObjectMeta, f: T|
                    m@ == fresh_meta(namespace.deep_view(), name@) && #[trigger] call_ensures(
                        creator,
                        (m,),
                        f,
                    ) && call_ensures(mutator, (&f,), Ok::<T, E>(t)),
                ConvergeOutcome::Replace(t) => existing is Some && call_ensures(
                    mutator,
                    (&existing->0,),
                    Ok::<T, E>(t),
                ) && call_ensures(eq, (&existing->0, &t), false),
                ConvergeOutcome::Unchanged(t) => existing is Some && call_ensures(
                    mutator,
                    (&existing->0,),
                    Ok::<T, E>(t),
                ) && call_ensures(eq, (&existing->0, &t), true),
            },
            Err(e) => {
                ||| existing is None && exists|m: ObjectMeta, f: T|
                    m@ == fresh_meta(namespace.deep_view(), name@) && #[trigger] call_ensures(
                        creator,
                        (m,),
                        f,
                    ) && call_ensures(mutator, (&f,), Err::<T, E>(e))
                ||| existing is Some && call_ensures(mutator, (&existing->0,), Err::<T, E>(e))
            },
        },
{
    let ghost ns0 = namespace.deep_view();
    let ghost name0 = name@;
    match existing {
        None => {
            let meta = ObjectMeta {
                name: Some(name),
                namespace: namespace,
                uid: None,
                owner_references: None,
            };
            assert(meta@ == fresh_meta(ns0, name0));
            let fresh = creator(meta);
            match mutator(&fresh) {
                Ok(obj) => Ok(ConvergeOutcome::Create(obj)),
                Err(e) => Err(e),
            }
        },
        Some(obj) => {
            match mutator(&obj) {
                Ok(new_obj) => {
                    if eq(&obj, &new_obj) {
                        Ok(ConvergeOutcome::Unchanged(new_obj))
                    } else {
                        Ok(ConvergeOutcome::Replace(new_obj))
                    }
                },
                Err(e) => Err(e),
            }
        },
    }
}

} // verus!
