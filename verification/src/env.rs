//! Environment variables and their sources.
//!
//! An environment variable carries either a direct value or a reference to
//! where the value comes from. `ApplyEnvironmentVariable` patches a variable
//! by name — creating it when absent — and offers shorthands for the common
//! sources.

use vstd::prelude::*;

use crate::entries::{apply_keyed, drop_keyed, has_keyed, keyed_index, KeyedEntry};

verus! {

/// Selects a key of a config map.
#[derive(Debug, PartialEq, Eq)]
pub struct ConfigMapKeySelector {
    pub key: String,
    pub name: Option<String>,
    pub optional: Option<bool>,
}

/// The mathematical content of a `ConfigMapKeySelector`.
pub struct ConfigMapKeySelectorView {
    pub key: Seq<char>,
    pub name: Option<Seq<char>>,
    pub optional: Option<bool>,
}

impl View for ConfigMapKeySelector {
    type V = ConfigMapKeySelectorView;

    open spec fn view(&self) -> ConfigMapKeySelectorView {
        ConfigMapKeySelectorView {
            key: self.key@,
            name: self.name.deep_view(),
            optional: self.optional,
        }
    }
}

impl Clone for ConfigMapKeySelector {
    fn clone(&self) -> (r: Self)
        ensures
            r@ == self@,
    {
        ConfigMapKeySelector {
            key: self.key.clone(),
            name: clone_opt_string(&self.name),
            optional: self.optional,
        }
    }
}

/// Selects a key of a secret.
#[derive(Debug, PartialEq, Eq)]
pub struct SecretKeySelector {
    pub key: String,
    pub name: Option<String>,
    pub optional: Option<bool>,
}

/// The mathematical content of a `SecretKeySelector`.
pub struct SecretKeySelectorView {
    pub key: Seq<char>,
    pub name: Option<Seq<char>>,
    pub optional: Option<bool>,
}

impl View for SecretKeySelector {
    type V = SecretKeySelectorView;

    open spec fn view(&self) -> SecretKeySelectorView {
        SecretKeySelectorView {
            key: self.key@,
            name: self.name.deep_view(),
            optional: self.optional,
        }
    }
}

impl Clone for SecretKeySelector {
    fn clone(&self) -> (r: Self)
        ensures
            r@ == self@,
    {
        SecretKeySelector {
            key: self.key.clone(),
            name: clone_opt_string(&self.name),
            optional: self.optional,
        }
    }
}

/// Selects a field of the enclosing object.
#[derive(Clone, Debug, PartialEq, Eq)]
pub struct ObjectFieldSelector {
    pub api_version: Option<String>,
    pub field_path: String,
}

/// The mathematical content of an `ObjectFieldSelector`.
pub struct ObjectFieldSelectorView {
    pub api_version: Option<Seq<char>>,
    pub field_path: Seq<char>,
}

impl View for ObjectFieldSelector {
    type V = ObjectFieldSelectorView;

    open spec fn view(&self) -> ObjectFieldSelectorView {
        ObjectFieldSelectorView {
            api_version: self.api_version.deep_view(),
            field_path: self.field_path@,
        }
    }
}

/// Selects a resource of a container.
#[derive(Clone, Debug, PartialEq, Eq)]
pub struct ResourceFieldSelector {
    pub container_name: Option<String>,
    pub divisor: Option<String>,
    pub resource: String,
}

/// The mathematical content of a `ResourceFieldSelector`.
pub struct ResourceFieldSelectorView {
    pub container_name: Option<Seq<char>>,
    pub divisor: Option<Seq<char>>,
    pub resource: Seq<char>,
}

impl View for ResourceFieldSelector {
    type V = ResourceFieldSelectorView;

    open spec fn view(&self) -> ResourceFieldSelectorView {
        ResourceFieldSelectorView {
            container_name: self.container_name.deep_view(),
            divisor: self.divisor.deep_view(),
            resource: self.resource@,
        }
    }
}

/// Where an environment variable's value comes from.
#[derive(Clone, Debug, PartialEq, Eq)]
pub struct EnvVarSource {
    pub config_map_key_ref: Option<ConfigMapKeySelector>,
    pub field_ref: Option<ObjectFieldSelector>,
    pub resource_field_ref: Option<ResourceFieldSelector>,
    pub secret_key_ref: Option<SecretKeySelector>,
}

/// The mathematical content of an `EnvVarSource`.
pub struct EnvVarSourceView {
    pub config_map_key_ref: Option<ConfigMapKeySelectorView>,
    pub field_ref: Option<ObjectFieldSelectorView>,
    pub resource_field_ref: Option<ResourceFieldSelectorView>,
    pub secret_key_ref: Option<SecretKeySelectorView>,
}

impl View for EnvVarSource {
    type V = EnvVarSourceView;

    open spec fn view(&self) -> EnvVarSourceView {
        EnvVarSourceView {
            config_map_key_ref: self.config_map_key_ref.deep_view(),
            field_ref: self.field_ref.deep_view(),
            resource_field_ref: self.resource_field_ref.deep_view(),
            secret_key_ref: self.secret_key_ref.deep_view(),
        }
    }
}

impl DeepView for ConfigMapKeySelector {
    type V = ConfigMapKeySelectorView;

    open spec fn deep_view(&self) -> ConfigMapKeySelectorView {
        self@
    }
}

impl DeepView for SecretKeySelector {
    type V = SecretKeySelectorView;

    open spec fn deep_view(&self) -> SecretKeySelectorView {
        self@
    }
}

impl DeepView for ObjectFieldSelector {
    type V = ObjectFieldSelectorView;

    open spec fn deep_view(&self) -> ObjectFieldSelectorView {
        self@
    }
}

impl DeepView for ResourceFieldSelector {
    type V = ResourceFieldSelectorView;

    open spec fn deep_view(&self) -> ResourceFieldSelectorView {
        self@
    }
}

impl DeepView for EnvVarSource {
    type V = EnvVarSourceView;

    open spec fn deep_view(&self) -> EnvVarSourceView {
        self@
    }
}

/// An `EnvVarSource` view holding only a config map reference.
pub open spec fn source_from_configmap(s: ConfigMapKeySelectorView) -> EnvVarSourceView {
    EnvVarSourceView {
        config_map_key_ref: Some(s),
        field_ref: None,
        resource_field_ref: None,
        secret_key_ref: None,
    }
}

/// An `EnvVarSource` view holding only a secret reference.
pub open spec fn source_from_secret(s: SecretKeySelectorView) -> EnvVarSourceView {
    EnvVarSourceView {
        config_map_key_ref: None,
        field_ref: None,
        resource_field_ref: None,
        secret_key_ref: Some(s),
    }
}

/// An `EnvVarSource` view holding only an object field reference.
pub open spec fn source_from_field(s: ObjectFieldSelectorView) -> EnvVarSourceView {
    EnvVarSourceView {
        config_map_key_ref: None,
        field_ref: Some(s),
        resource_field_ref: None,
        secret_key_ref: None,
    }
}

/// An `EnvVarSource` view holding only a resource field reference.
pub open spec fn source_from_resource(s: ResourceFieldSelectorView) -> EnvVarSourceView {
    EnvVarSourceView {
        config_map_key_ref: None,
        field_ref: None,
        resource_field_ref: Some(s),
        secret_key_ref: None,
    }
}

fn clone_opt_string(s: &Option<String>) -> (r: Option<String>)
    ensures
        r.deep_view() == s.deep_view(),
{
    match s {
        Some(x) => Some(x.clone()),
        None => None,
    }
}

/// An environment variable view carrying a direct value.
pub open spec fn env_with_value(name: Seq<char>, value: Seq<char>) -> EnvVarView {
    EnvVarView { name: name, value: Some(value), value_from: None }
}

/// An environment variable view carrying a source reference.
pub open spec fn env_with_source(name: Seq<char>, from: EnvVarSourceView) -> EnvVarView {
    EnvVarView { name: name, value: None, value_from: Some(from) }
}

/// One environment variable of a container.
#[derive(Clone, Debug, PartialEq, Eq)]
pub struct EnvVar {
    pub name: String,
    pub value: Option<String>,
    pub value_from: Option<EnvVarSource>,
}

/// The mathematical content of an `EnvVar`.
pub struct EnvVarView {
    pub name: Seq<char>,
    pub value: Option<Seq<char>>,
    pub value_from: Option<EnvVarSourceView>,
}

impl View for EnvVar {
    type V = EnvVarView;

    open spec fn view(&self) -> EnvVarView {
        EnvVarView {
            name: self.name@,
            value: self.value.deep_view(),
            value_from: self.value_from.deep_view(),
        }
    }
}

impl KeyedEntry for EnvVar {
    open spec fn entry_key(&self) -> Option<Seq<char>> {
        Some(self.name@)
    }

    open spec fn is_fresh(&self, name: Seq<char>) -> bool {
        self@ == (EnvVarView { name: name, value: None, value_from: None })
    }

    fn key_matches(&self, name: &str) -> bool {
        crate::utils::str_eq(self.name.as_str(), name)
    }

    fn fresh(name: String) -> Self {
        EnvVar { name, value: None, value_from: None }
    }
}

/// The models of a list of environment variables, in order.
pub open spec fn env_models(es: Seq<EnvVar>) -> Seq<EnvVarView> {
    es.map_values(|e: EnvVar| e@)
}

/// Whether the list holds a variable named `name`.
pub open spec fn has_env(es: Seq<EnvVar>, name: Seq<char>) -> bool {
    has_keyed(es, name)
}

/// The first index holding `name`.
pub open spec fn env_index(es: Seq<EnvVar>, name: Seq<char>) -> int {
    keyed_index(es, name)
}

/// The variable named `name` carries exactly the given value and source
/// after an upsert, everything else is untouched, and an absent name was
/// appended.
pub open spec fn env_upserted(
    old_es: Seq<EnvVar>,
    new_es: Seq<EnvVar>,
    name: Seq<char>,
    value: Option<Seq<char>>,
    from: Option<EnvVarSourceView>,
) -> bool {
    if has_env(old_es, name) {
        let i = env_index(old_es, name);
        &&& new_es.len() == old_es.len()
        &&& forall|j: int| 0 <= j < old_es.len() && j != i ==> new_es[j] == old_es[j]
        &&& new_es[i]@ == (EnvVarView { name: old_es[i]@.name, value: value, value_from: from })
    } else {
        &&& new_es.len() == old_es.len() + 1
        &&& forall|j: int| 0 <= j < old_es.len() ==> new_es[j] == old_es[j]
        &&& new_es[old_es.len() as int]@ == (EnvVarView {
            name: name,
            value: value,
            value_from: from,
        })
    }
}

/// Patch environment variables by name.
pub trait ApplyEnvironmentVariable: Sized {
    /// What the patches never touch.
    type Rest;

    /// The environment variables, in order.
    spec fn env_entries(&self) -> Seq<EnvVar>;

    /// Everything the patches never touch.
    spec fn env_rest(&self) -> Self::Rest;

    /// Apply the patch function to the variable with the provided name; when
    /// no such variable exists, a fresh one carrying the name is patched and
    /// appended.
    fn apply_env<F: FnOnce(EnvVar) -> EnvVar>(&mut self, name: &str, f: F)
        requires
            has_env(old(self).env_entries(), name@) ==> call_requires(
                f,
                (old(self).env_entries()[env_index(old(self).env_entries(), name@)],),
            ),
            !has_env(old(self).env_entries(), name@) ==> forall|d: EnvVar|
                d.is_fresh(name@) ==> call_requires(f, (d,)),
        ensures
            final(self).env_rest() == old(self).env_rest(),
            has_env(old(self).env_entries(), name@) ==> {
                let es = old(self).env_entries();
                let i = env_index(es, name@);
                &&& final(self).env_entries().len() == es.len()
                &&& call_ensures(f, (es[i],), final(self).env_entries()[i])
                &&& forall|j: int|
                    0 <= j < es.len() && j != i ==> final(self).env_entries()[j] == es[j]
            },
            !has_env(old(self).env_entries(), name@) ==> {
                let es = old(self).env_entries();
                &&& final(self).env_entries().len() == es.len() + 1
                &&& exists|d: EnvVar|
                    d.is_fresh(name@) && #[trigger] call_ensures(
                        f,
                        (d,),
                        final(self).env_entries()[es.len() as int],
                    )
                &&& forall|j: int| 0 <= j < es.len() ==> final(self).env_entries()[j] == es[j]
            },
    ;

    /// Drop the variable with the provided name; absent names are a no-op.
    fn drop_env(&mut self, name: &str)
        ensures
            final(self).env_rest() == old(self).env_rest(),
            final(self).env_entries() == old(self).env_entries().filter(
                |e: EnvVar| e.entry_key() != Some(name@),
            ),
    ;

    /// Set a direct value, clearing any source reference.
    fn add_env(&mut self, name: &str, value: String)
        ensures
            final(self).env_rest() == old(self).env_rest(),
            env_upserted(
                old(self).env_entries(),
                final(self).env_entries(),
                name@,
                Some(value@),
                None,
            ),
    {
        let env_value = value;
        let patch = |env: EnvVar| -> (r: EnvVar)
            ensures
                r@ == env_with_value(env@.name, env_value@),
            {
                EnvVar { name: env.name, value: Some(env_value), value_from: None }
            };
        self.apply_env(name, patch);
    }

    /// Set a direct value, or drop the variable when the value is absent.
    fn set_env(&mut self, name: &str, value: Option<String>)
        ensures
            final(self).env_rest() == old(self).env_rest(),
            match value {
                Some(v) => env_upserted(
                    old(self).env_entries(),
                    final(self).env_entries(),
                    name@,
                    Some(v@),
                    None,
                ),
                None => final(self).env_entries() == old(self).env_entries().filter(
                    |e: EnvVar| e.entry_key() != Some(name@),
                ),
            },
    {
        match value {
            Some(value) => self.add_env(name, value),
            None => self.drop_env(name),
        }
    }

    /// Set a source reference, clearing any direct value.
    fn add_env_from(&mut self, name: &str, from: EnvVarSource)
        ensures
            final(self).env_rest() == old(self).env_rest(),
            env_upserted(
                old(self).env_entries(),
                final(self).env_entries(),
                name@,
                None,
                Some(from@),
            ),
    {
        let ghost fv = from@;
        let patch = |env: EnvVar| -> (r: EnvVar)
            ensures
                r@ == env_with_source(env@.name, fv),
            {
                EnvVar { name: env.name, value: None, value_from: Some(from) }
            };
        self.apply_env(name, patch);
    }

    /// Set a source reference, or drop the variable when it is absent.
    fn set_env_from(&mut self, name: &str, from: Option<EnvVarSource>)
        ensures
            final(self).env_rest() == old(self).env_rest(),
            match from {
                Some(f) => env_upserted(
                    old(self).env_entries(),
                    final(self).env_entries(),
                    name@,
                    None,
                    Some(f@),
                ),
                None => final(self).env_entries() == old(self).env_entries().filter(
                    |e: EnvVar| e.entry_key() != Some(name@),
                ),
            },
    {
        match from {
            Some(from) => self.add_env_from(name, from),
            None => self.drop_env(name),
        }
    }

    /// Reference a field of the enclosing object.
    fn add_env_from_field(&mut self, name: &str, selector: ObjectFieldSelector)
        ensures
            final(self).env_rest() == old(self).env_rest(),
            env_upserted(
                old(self).env_entries(),
                final(self).env_entries(),
                name@,
                None,
                Some(source_from_field(selector@)),
            ),
    {
        self.add_env_from(
            name,
            EnvVarSource {
                config_map_key_ref: None,
                field_ref: Some(selector),
                resource_field_ref: None,
                secret_key_ref: None,
            },
        );
    }

    /// Reference a field of the enclosing object, or drop the variable.
    fn set_env_from_field(&mut self, name: &str, from: Option<ObjectFieldSelector>)
        ensures
            final(self).env_rest() == old(self).env_rest(),
            match from {
                Some(f) => env_upserted(
                    old(self).env_entries(),
                    final(self).env_entries(),
                    name@,
                    None,
                    Some(source_from_field(f@)),
                ),
                None => final(self).env_entries() == old(self).env_entries().filter(
                    |e: EnvVar| e.entry_key() != Some(name@),
                ),
            },
    {
        match from {
            Some(from) => self.add_env_from_field(name, from),
            None => self.drop_env(name),
        }
    }

    /// Reference a field of the enclosing object by path.
    fn add_env_from_field_path(&mut self, name: &str, path: String)
        ensures
            final(self).env_rest() == old(self).env_rest(),
            env_upserted(
                old(self).env_entries(),
                final(self).env_entries(),
                name@,
                None,
                Some(
                    source_from_field(
                        ObjectFieldSelectorView { api_version: None, field_path: path@ },
                    ),
                ),
            ),
    {
        self.add_env_from_field(name, ObjectFieldSelector { api_version: None, field_path: path });
    }

    /// Reference a field of the enclosing object by path, or drop the
    /// variable.
    fn set_env_from_field_path(&mut self, name: &str, path: Option<String>)
        ensures
            final(self).env_rest() == old(self).env_rest(),
            match path {
                Some(p) => env_upserted(
                    old(self).env_entries(),
                    final(self).env_entries(),
                    name@,
                    None,
                    Some(
                        source_from_field(
                            ObjectFieldSelectorView { api_version: None, field_path: p@ },
                        ),
                    ),
                ),
                None => final(self).env_entries() == old(self).env_entries().filter(
                    |e: EnvVar| e.entry_key() != Some(name@),
                ),
            },
    {
        match path {
            Some(path) => self.add_env_from_field_path(name, path),
            None => self.drop_env(name),
        }
    }

    /// Reference a key of a secret.
    fn add_env_from_secret_selector(&mut self, name: &str, selector: SecretKeySelector)
        ensures
            final(self).env_rest() == old(self).env_rest(),
            env_upserted(
                old(self).env_entries(),
                final(self).env_entries(),
                name@,
                None,
                Some(source_from_secret(selector@)),
            ),
    {
        self.add_env_from(
            name,
            EnvVarSource {
                config_map_key_ref: None,
                field_ref: None,
                resource_field_ref: None,
                secret_key_ref: Some(selector),
            },
        );
    }

    /// Reference a key of a secret, or drop the variable.
    fn set_env_from_secret_select(&mut self, name: &str, from: Option<SecretKeySelector>)
        ensures
            final(self).env_rest() == old(self).env_rest(),
            match from {
                Some(f) => env_upserted(
                    old(self).env_entries(),
                    final(self).env_entries(),
                    name@,
                    None,
                    Some(source_from_secret(f@)),
                ),
                None => final(self).env_entries() == old(self).env_entries().filter(
                    |e: EnvVar| e.entry_key() != Some(name@),
                ),
            },
    {
        match from {
            Some(from) => self.add_env_from_secret_selector(name, from),
            None => self.drop_env(name),
        }
    }

    /// Reference a key of a named secret.
    fn add_env_from_secret(&mut self, name: &str, secret_name: String, key: String)
        ensures
            final(self).env_rest() == old(self).env_rest(),
            env_upserted(
                old(self).env_entries(),
                final(self).env_entries(),
                name@,
                None,
                Some(
                    source_from_secret(
                        SecretKeySelectorView {
                            key: key@,
                            name: Some(secret_name@),
                            optional: None,
                        },
                    ),
                ),
            ),
    {
        self.add_env_from_secret_selector(
            name,
            SecretKeySelector { key, name: Some(secret_name), optional: None },
        );
    }

    /// Reference a key of a config map.
    fn add_env_from_configmap_selector(&mut self, name: &str, selector: ConfigMapKeySelector)
        ensures
            final(self).env_rest() == old(self).env_rest(),
            env_upserted(
                old(self).env_entries(),
                final(self).env_entries(),
                name@,
                None,
                Some(source_from_configmap(selector@)),
            ),
    {
        self.add_env_from(
            name,
            EnvVarSource {
                config_map_key_ref: Some(selector),
                field_ref: None,
                resource_field_ref: None,
                secret_key_ref: None,
            },
        );
    }

    /// Reference a key of a config map, or drop the variable.
    fn set_env_from_configmap_selector(&mut self, name: &str, from: Option<ConfigMapKeySelector>)
        ensures
            final(self).env_rest() == old(self).env_rest(),
            match from {
                Some(f) => env_upserted(
                    old(self).env_entries(),
                    final(self).env_entries(),
                    name@,
                    None,
                    Some(source_from_configmap(f@)),
                ),
                None => final(self).env_entries() == old(self).env_entries().filter(
                    |e: EnvVar| e.entry_key() != Some(name@),
                ),
            },
    {
        match from {
            Some(from) => self.add_env_from_configmap_selector(name, from),
            None => self.drop_env(name),
        }
    }

    /// Reference a resource of a container.
    fn add_env_from_resource(&mut self, name: &str, selector: ResourceFieldSelector)
        ensures
            final(self).env_rest() == old(self).env_rest(),
            env_upserted(
                old(self).env_entries(),
                final(self).env_entries(),
                name@,
                None,
                Some(source_from_resource(selector@)),
            ),
    {
        self.add_env_from(
            name,
            EnvVarSource {
                config_map_key_ref: None,
                field_ref: None,
                resource_field_ref: Some(selector),
                secret_key_ref: None,
            },
        );
    }

    /// Reference a resource of a container, or drop the variable.
    fn set_env_from_resource_selector(&mut self, name: &str, from: Option<ResourceFieldSelector>)
        ensures
            final(self).env_rest() == old(self).env_rest(),
            match from {
                Some(f) => env_upserted(
                    old(self).env_entries(),
                    final(self).env_entries(),
                    name@,
                    None,
                    Some(source_from_resource(f@)),
                ),
                None => final(self).env_entries() == old(self).env_entries().filter(
                    |e: EnvVar| e.entry_key() != Some(name@),
                ),
            },
    {
        match from {
            Some(from) => self.add_env_from_resource(name, from),
            None => self.drop_env(name),
        }
    }
}

impl ApplyEnvironmentVariable for Vec<EnvVar> {
    type Rest = ();

    open spec fn env_entries(&self) -> Seq<EnvVar> {
        self@
    }

    open spec fn env_rest(&self) -> () {
        ()
    }

    fn apply_env<F: FnOnce(EnvVar) -> EnvVar>(&mut self, name: &str, f: F) {
        apply_keyed(self, name, f);
    }

    fn drop_env(&mut self, name: &str) {
        drop_keyed(self, name);
    }
}

} // verus!
