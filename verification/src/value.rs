//! A configuration value given directly or by reference.
//!
//! A value is either literal text, a reference into a secret, or a
//! reference into a config map. Applied to an environment variable it
//! becomes either a direct value or the matching source reference.

use vstd::prelude::*;

use crate::env::{
    env_upserted, source_from_configmap, source_from_secret, ApplyEnvironmentVariable,
    ConfigMapKeySelector, EnvVar, EnvVarSource, EnvVarSourceView, SecretKeySelector,
};

verus! {

/// A value, or a reference to where the value lives.
#[derive(Clone, Debug, PartialEq, Eq)]
pub enum ValueOrReference {
    Value(String),
    Secret(SecretKeySelector),
    ConfigMap(ConfigMapKeySelector),
}

impl ValueOrReference {
    /// The direct value this resolves an environment variable to, if any.
    pub open spec fn direct_value(&self) -> Option<Seq<char>> {
        match self {
            ValueOrReference::Value(v) => Some(v@),
            _ => None,
        }
    }

    /// The source reference this resolves an environment variable to, if
    /// any.
    pub open spec fn source_ref(&self) -> Option<EnvVarSourceView> {
        match self {
            ValueOrReference::Value(_) => None,
            ValueOrReference::ConfigMap(s) => Some(source_from_configmap(s@)),
            ValueOrReference::Secret(s) => Some(source_from_secret(s@)),
        }
    }

    /// Apply the value (or reference) to an environment variable, keeping
    /// its name.
    pub fn apply_to_envvar(&self, env: &mut EnvVar)
        ensures
            final(env)@.name == old(env)@.name,
            final(env)@.value == self.direct_value(),
            final(env)@.value_from == self.source_ref(),
    {
        match self {
            ValueOrReference::Value(value) => {
                env.value = Some(value.clone());
                env.value_from = None;
            },
            ValueOrReference::ConfigMap(selector) => {
                env.value = None;
                env.value_from = Some(
                    EnvVarSource {
                        config_map_key_ref: Some(selector.clone()),
                        field_ref: None,
                        resource_field_ref: None,
                        secret_key_ref: None,
                    },
                );
            },
            ValueOrReference::Secret(selector) => {
                env.value = None;
                env.value_from = Some(
                    EnvVarSource {
                        config_map_key_ref: None,
                        field_ref: None,
                        resource_field_ref: None,
                        secret_key_ref: Some(selector.clone()),
                    },
                );
            },
        }
    }

    /// Apply the value as an environment variable of the given name to
    /// whatever carries environment variables, such as a container.
    pub fn apply_to_env<E: ApplyEnvironmentVariable>(&self, env: &mut E, name: &str)
        ensures
            final(env).env_rest() == old(env).env_rest(),
            env_upserted(
                old(env).env_entries(),
                final(env).env_entries(),
                name@,
                self.direct_value(),
                self.source_ref(),
            ),
    {
        let patch = |e: EnvVar| -> (r: EnvVar)
            ensures
                r@.name == e@.name && r@.value == self.direct_value() && r@.value_from
                    == self.source_ref(),
            {
                let mut e = e;
                self.apply_to_envvar(&mut e);
                e
            };
        env.apply_env(name, patch);
    }
}

} // verus!
