//! Resource requests and limits.

use vstd::prelude::*;

use crate::entries::{pair_views, remove_entry, remove_pair, upsert_entry, upsert_pair};

verus! {

/// The resource requests and limits of a container, as quantity text keyed
/// by resource type.
#[derive(Clone, Debug, PartialEq, Eq)]
pub struct ResourceRequirements {
    pub limits: Option<Vec<(String, String)>>,
    pub requests: Option<Vec<(String, String)>>,
}

impl Default for ResourceRequirements {
    fn default() -> (r: ResourceRequirements)
        ensures
            r.limits is None && r.requests is None,
    {
        ResourceRequirements { limits: None, requests: None }
    }
}

/// How one side — requests or limits — changes: a desired quantity is
/// stored under the resource type, creating the side when absent; an absent
/// quantity removes the resource type, leaving an absent side alone.
pub open spec fn side_updated(
    old_side: Option<Seq<(Seq<char>, Seq<char>)>>,
    new_side: Option<Seq<(Seq<char>, Seq<char>)>>,
    resource_type: Seq<char>,
    quantity: Option<Seq<char>>,
) -> bool {
    match quantity {
        Some(q) => {
            let base = match old_side {
                Some(m) => m,
                None => Seq::empty(),
            };
            new_side == Some(upsert_entry(base, resource_type, false, q))
        },
        None => match old_side {
            Some(m) => new_side == Some(remove_entry(m, resource_type)),
            None => new_side is None,
        },
    }
}

/// Set the request and limit for one resource type.
pub trait SetResources: Sized {
    /// What the update never touches.
    type Rest;

    /// The requests side, as key/value views.
    spec fn requests_entries(&self) -> Option<Seq<(Seq<char>, Seq<char>)>>;

    /// The limits side, as key/value views.
    spec fn limits_entries(&self) -> Option<Seq<(Seq<char>, Seq<char>)>>;

    /// Everything the update never touches.
    spec fn resources_rest(&self) -> Self::Rest;

    /// Store the request and limit quantities under the resource type; an
    /// absent quantity removes the corresponding entry.
    fn set_resources(&mut self, resource_type: &str, request: Option<String>, limit: Option<
        String,
    >)
        ensures
            final(self).resources_rest() == old(self).resources_rest(),
            side_updated(
                old(self).requests_entries(),
                final(self).requests_entries(),
                resource_type@,
                request.deep_view(),
            ),
            side_updated(
                old(self).limits_entries(),
                final(self).limits_entries(),
                resource_type@,
                limit.deep_view(),
            ),
    ;
}

fn update_side(side: &mut Option<Vec<(String, String)>>, resource_type: &str, quantity: Option<
    String,
>)
    ensures
        side_updated(
            match *old(side) {
                Some(m) => Some(pair_views(m@)),
                None => None,
            },
            match *final(side) {
                Some(m) => Some(pair_views(m@)),
                None => None,
            },
            resource_type@,
            quantity.deep_view(),
        ),
{
    match quantity {
        Some(q) => {
            let mut m = match side.take() {
                Some(m) => m,
                None => Vec::new(),
            };
            proof {
                if *old(side) is None {
                    assert(pair_views(m@) =~= Seq::<(Seq<char>, Seq<char>)>::empty());
                }
            }
            upsert_pair(&mut m, resource_type, false, q);
            *side = Some(m);
        },
        None => {
            match side {
                Some(m) => {
                    remove_pair(m, resource_type);
                },
                None => {},
            }
        },
    }
}

impl SetResources for ResourceRequirements {
    type Rest = ();

    open spec fn requests_entries(&self) -> Option<Seq<(Seq<char>, Seq<char>)>> {
        match self.requests {
            Some(m) => Some(pair_views(m@)),
            None => None,
        }
    }

    open spec fn limits_entries(&self) -> Option<Seq<(Seq<char>, Seq<char>)>> {
        match self.limits {
            Some(m) => Some(pair_views(m@)),
            None => None,
        }
    }

    open spec fn resources_rest(&self) -> () {
        ()
    }

    fn set_resources(&mut self, resource_type: &str, request: Option<String>, limit: Option<
        String,
    >) {
        update_side(&mut self.requests, resource_type, request);
        update_side(&mut self.limits, resource_type, limit);
    }
}

} // verus!
