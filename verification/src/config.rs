//! Configuration objects and key/value insertion helpers.
//!
//! A config map stores text and binary entries; a secret stores only binary
//! entries, and stores inserted text as its bytes. Both are keyed maps in
//! insertion order, patched with an insert-or-keep rule.

use vstd::prelude::*;
use vstd::slice::slice_to_vec;
use vstd::utf8::encode_utf8;

use crate::entries::{pair_views, upsert_entry, upsert_pair};
use crate::meta::{empty_meta_view, Meta, ObjectMeta, ObjectMetaView};

verus! {

/// A piece of plain configuration: metadata, text entries, binary entries.
#[derive(Clone, Debug, PartialEq, Eq)]
pub struct ConfigMap {
    pub metadata: ObjectMeta,
    pub data: Vec<(String, String)>,
    pub binary_data: Vec<(String, Vec<u8>)>,
}

impl Default for ConfigMap {
    fn default() -> (c: ConfigMap)
        ensures
            c.metadata@ == empty_meta_view(),
            c.data@.len() == 0,
            c.binary_data@.len() == 0,
    {
        ConfigMap { metadata: ObjectMeta::empty(), data: Vec::new(), binary_data: Vec::new() }
    }
}

/// A piece of secret configuration: metadata and binary entries.
#[derive(Clone, Debug, PartialEq, Eq)]
pub struct Secret {
    pub metadata: ObjectMeta,
    pub data: Vec<(String, Vec<u8>)>,
}

impl Default for Secret {
    fn default() -> (s: Secret)
        ensures
            s.metadata@ == empty_meta_view(),
            s.data@.len() == 0,
    {
        Secret { metadata: ObjectMeta::empty(), data: Vec::new() }
    }
}

impl Meta for ConfigMap {
    open spec fn spec_metadata(&self) -> ObjectMetaView {
        self.metadata@
    }

    open spec fn spec_kind(&self) -> Seq<char> {
        "ConfigMap"@
    }

    open spec fn spec_api_version(&self) -> Seq<char> {
        "v1"@
    }

    fn metadata(&self) -> &ObjectMeta {
        &self.metadata
    }

    fn set_metadata(&mut self, m: ObjectMeta) {
        self.metadata = m;
    }

    fn kind(&self) -> String {
        String::from_str("ConfigMap")
    }

    fn api_version(&self) -> String {
        String::from_str("v1")
    }
}

impl Meta for Secret {
    open spec fn spec_metadata(&self) -> ObjectMetaView {
        self.metadata@
    }

    open spec fn spec_kind(&self) -> Seq<char> {
        "Secret"@
    }

    open spec fn spec_api_version(&self) -> Seq<char> {
        "v1"@
    }

    fn metadata(&self) -> &ObjectMeta {
        &self.metadata
    }

    fn set_metadata(&mut self, m: ObjectMeta) {
        self.metadata = m;
    }

    fn kind(&self) -> String {
        String::from_str("Secret")
    }

    fn api_version(&self) -> String {
        String::from_str("v1")
    }
}

/// Insert text values under keys, with an insert-or-keep rule.
pub trait AppendString: Sized {
    /// How this collection stores a text value.
    type Stored;

    /// What string insertion leaves untouched.
    type Rest;

    /// The entries string insertion targets.
    spec fn text_entries(&self) -> Seq<(Seq<char>, Self::Stored)>;

    /// How a desired text value is stored.
    spec fn stored_text(v: Seq<char>) -> Self::Stored;

    /// Everything string insertion never touches.
    spec fn text_rest(&self) -> Self::Rest;

    /// Store the provided value under `key`; with `keep_existing`, a present
    /// entry wins over the provided value.
    fn insert_string<P: FnOnce() -> String>(&mut self, key: &str, keep_existing: bool, provider: P)
        requires
            call_requires(provider, ()),
        ensures
            exists|v: String|
                #[trigger] call_ensures(provider, (), v) && final(self).text_entries()
                    == upsert_entry(
                    old(self).text_entries(),
                    key@,
                    keep_existing,
                    Self::stored_text(v@),
                ),
            final(self).text_rest() == old(self).text_rest(),
    ;

    /// Store `value` under `key`, overwriting a present entry.
    fn append_string(&mut self, key: &str, value: String)
        ensures
            final(self).text_entries() == upsert_entry(
                old(self).text_entries(),
                key@,
                false,
                Self::stored_text(value@),
            ),
            final(self).text_rest() == old(self).text_rest(),
    ;

    /// Store the provided value under `key` only when the key is absent.
    fn init_string_from<P: FnOnce() -> String>(&mut self, key: &str, provider: P)
        requires
            call_requires(provider, ()),
        ensures
            exists|v: String|
                #[trigger] call_ensures(provider, (), v) && final(self).text_entries()
                    == upsert_entry(
                    old(self).text_entries(),
                    key@,
                    true,
                    Self::stored_text(v@),
                ),
            final(self).text_rest() == old(self).text_rest(),
    ;

    /// Store `value` under `key` only when the key is absent.
    fn init_string(&mut self, key: &str, value: String)
        ensures
            final(self).text_entries() == upsert_entry(
                old(self).text_entries(),
                key@,
                true,
                Self::stored_text(value@),
            ),
            final(self).text_rest() == old(self).text_rest(),
    ;
}

impl AppendString for ConfigMap {
    type Stored = Seq<char>;

    type Rest = (ObjectMetaView, Seq<(Seq<char>, Seq<u8>)>);

    open spec fn text_entries(&self) -> Seq<(Seq<char>, Seq<char>)> {
        pair_views(self.data@)
    }

    open spec fn stored_text(v: Seq<char>) -> Seq<char> {
        v
    }

    open spec fn text_rest(&self) -> (ObjectMetaView, Seq<(Seq<char>, Seq<u8>)>) {
        (self.metadata@, pair_views(self.binary_data@))
    }

    fn insert_string<P: FnOnce() -> String>(&mut self, key: &str, keep_existing: bool, provider: P) {
        let value = provider();
        upsert_pair(&mut self.data, key, keep_existing, value);
    }

    fn append_string(&mut self, key: &str, value: String) {
        upsert_pair(&mut self.data, key, false, value);
    }

    fn init_string_from<P: FnOnce() -> String>(&mut self, key: &str, provider: P) {
        let value = provider();
        upsert_pair(&mut self.data, key, true, value);
    }

    fn init_string(&mut self, key: &str, value: String) {
        upsert_pair(&mut self.data, key, true, value);
    }
}

impl AppendString for Secret {
    type Stored = Seq<u8>;

    type Rest = ObjectMetaView;

    open spec fn text_entries(&self) -> Seq<(Seq<char>, Seq<u8>)> {
        pair_views(self.data@)
    }

    open spec fn stored_text(v: Seq<char>) -> Seq<u8> {
        encode_utf8(v)
    }

    open spec fn text_rest(&self) -> ObjectMetaView {
        self.metadata@
    }

    fn insert_string<P: FnOnce() -> String>(&mut self, key: &str, keep_existing: bool, provider: P) {
        let value = provider();
        let bytes = slice_to_vec(value.as_str().as_bytes());
        upsert_pair(&mut self.data, key, keep_existing, bytes);
    }

    fn append_string(&mut self, key: &str, value: String) {
        let bytes = slice_to_vec(value.as_str().as_bytes());
        upsert_pair(&mut self.data, key, false, bytes);
    }

    fn init_string_from<P: FnOnce() -> String>(&mut self, key: &str, provider: P) {
        let value = provider();
        let bytes = slice_to_vec(value.as_str().as_bytes());
        upsert_pair(&mut self.data, key, true, bytes);
    }

    fn init_string(&mut self, key: &str, value: String) {
        let bytes = slice_to_vec(value.as_str().as_bytes());
        upsert_pair(&mut self.data, key, true, bytes);
    }
}

/// Insert binary values under keys, with an insert-or-keep rule.
pub trait AppendBinary: Sized {
    /// What binary insertion leaves untouched.
    type Rest;

    /// The entries binary insertion targets.
    spec fn binary_entries(&self) -> Seq<(Seq<char>, Seq<u8>)>;

    /// Everything binary insertion never touches.
    spec fn binary_rest(&self) -> Self::Rest;

    /// Store the provided value under `key`; with `keep_existing`, a present
    /// entry wins over the provided value.
    fn insert_binary<P: FnOnce() -> Vec<u8>>(&mut self, key: &str, keep_existing: bool, provider: P)
        requires
            call_requires(provider, ()),
        ensures
            exists|v: Vec<u8>|
                #[trigger] call_ensures(provider, (), v) && final(self).binary_entries()
                    == upsert_entry(old(self).binary_entries(), key@, keep_existing, v@),
            final(self).binary_rest() == old(self).binary_rest(),
    ;

    /// Store `value` under `key`, overwriting a present entry.
    fn append_binary(&mut self, key: &str, value: Vec<u8>)
        ensures
            final(self).binary_entries() == upsert_entry(
                old(self).binary_entries(),
                key@,
                false,
                value@,
            ),
            final(self).binary_rest() == old(self).binary_rest(),
    ;

    /// Store the provided value under `key` only when the key is absent.
    fn init_binary_from<P: FnOnce() -> Vec<u8>>(&mut self, key: &str, provider: P)
        requires
            call_requires(provider, ()),
        ensures
            exists|v: Vec<u8>|
                #[trigger] call_ensures(provider, (), v) && final(self).binary_entries()
                    == upsert_entry(old(self).binary_entries(), key@, true, v@),
            final(self).binary_rest() == old(self).binary_rest(),
    ;

    /// Store `value` under `key` only when the key is absent.
    fn init_binary(&mut self, key: &str, value: Vec<u8>)
        ensures
            final(self).binary_entries() == upsert_entry(
                old(self).binary_entries(),
                key@,
                true,
                value@,
            ),
            final(self).binary_rest() == old(self).binary_rest(),
    ;
}

impl AppendBinary for ConfigMap {
    type Rest = (ObjectMetaView, Seq<(Seq<char>, Seq<char>)>);

    open spec fn binary_entries(&self) -> Seq<(Seq<char>, Seq<u8>)> {
        pair_views(self.binary_data@)
    }

    open spec fn binary_rest(&self) -> (ObjectMetaView, Seq<(Seq<char>, Seq<char>)>) {
        (self.metadata@, pair_views(self.data@))
    }

    fn insert_binary<P: FnOnce() -> Vec<u8>>(
        &mut self,
        key: &str,
        keep_existing: bool,
        provider: P,
    ) {
        let value = provider();
        upsert_pair(&mut self.binary_data, key, keep_existing, value);
    }

    fn append_binary(&mut self, key: &str, value: Vec<u8>) {
        upsert_pair(&mut self.binary_data, key, false, value);
    }

    fn init_binary_from<P: FnOnce() -> Vec<u8>>(&mut self, key: &str, provider: P) {
        let value = provider();
        upsert_pair(&mut self.binary_data, key, true, value);
    }

    fn init_binary(&mut self, key: &str, value: Vec<u8>) {
        upsert_pair(&mut self.binary_data, key, true, value);
    }
}

impl AppendBinary for Secret {
    type Rest = ObjectMetaView;

    open spec fn binary_entries(&self) -> Seq<(Seq<char>, Seq<u8>)> {
        pair_views(self.data@)
    }

    open spec fn binary_rest(&self) -> ObjectMetaView {
        self.metadata@
    }

    fn insert_binary<P: FnOnce() -> Vec<u8>>(
        &mut self,
        key: &str,
        keep_existing: bool,
        provider: P,
    ) {
        let value = provider();
        upsert_pair(&mut self.data, key, keep_existing, value);
    }

    fn append_binary(&mut self, key: &str, value: Vec<u8>) {
        upsert_pair(&mut self.data, key, false, value);
    }

    fn init_binary_from<P: FnOnce() -> Vec<u8>>(&mut self, key: &str, provider: P) {
        let value = provider();
        upsert_pair(&mut self.data, key, true, value);
    }

    fn init_binary(&mut self, key: &str, value: Vec<u8>) {
        upsert_pair(&mut self.data, key, true, value);
    }
}

} // verus!
