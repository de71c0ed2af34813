//! The property builder: a mutable builder for the JSON tree that goes out with
//! an event.
//!
//! A builder starts as an empty object and is filled key by key. A key whose
//! value is absent is left out of the tree altogether, which is how "field
//! omitted" differs from "field present and null". A builder can also be made
//! from a single scalar or from an array; inserting a key into such a builder
//! turns it into an object that holds that one key, and the scalar is gone.
//!
//! The tree is a `serde_json::Value`; contracts speak of it through its model,
//! [`Json`], which is the builder's view.

use crate::error::TelemetryError;
use crate::json::{
    entries_of, json_of, json_seq, node_of_value, object_entries, object_insert, object_new,
    value_of_node, Json, JsonNode, JsonObject,
};
use vstd::prelude::*;
use vstd::std_specs::convert::FromSpecImpl;

verus! {

/// A builder for the properties of an event.
#[derive(Debug)]
pub struct TelemetryProps {
    inner: serde_json::Value,
}

impl View for TelemetryProps {
    type V = Json;

    /// The JSON tree built so far.
    closed spec fn view(&self) -> Json {
        json_of(self.inner)
    }
}

/// The empty object, which is what a new builder holds.
pub open spec fn empty_object() -> Json {
    Json::Object(Map::empty())
}

/// The tree after `key` is set to `value` in `before`: the entries of `before`
/// where its root is an object, no entries where it is anything else, and
/// `key` mapped to `value` on top of them.
pub open spec fn with_entry(before: Json, key: Seq<char>, value: Json) -> Json {
    Json::Object(object_entries(before).insert(key, value))
}

/// The views of a sequence of builders, in the same order.
pub open spec fn views_of(builders: Seq<TelemetryProps>) -> Seq<Json> {
    builders.map_values(|builder: TelemetryProps| builder@)
}

/// Whether `json` is the tree of a builder that converting `value` can give.
pub open spec fn is_conversion<T: Into<TelemetryProps>>(value: T, json: Json) -> bool {
    exists|converted: TelemetryProps| #[trigger]
        call_ensures(<T as Into<TelemetryProps>>::into, (value,), converted) && converted@ == json
}

/// How `insert` relates the builder before the call to the builder after it.
///
/// With no value the builder is unchanged. With a value, the tree is
/// [`with_entry`] of the old tree, the key, and the tree that the value
/// converts to.
pub open spec fn inserted<T: Into<TelemetryProps>>(
    before: TelemetryProps,
    key: Seq<char>,
    value: Option<T>,
    after: TelemetryProps,
) -> bool {
    match value {
        None => after == before,
        Some(given) => {
            &&& is_conversion(given, object_entries(after@)[key])
            &&& after@ == with_entry(before@, key, object_entries(after@)[key])
        },
    }
}

impl TelemetryProps {
    /// A builder that holds the empty object.
    pub fn new() -> (props: Self)
        ensures
            props@ == empty_object(),
    {
        Self { inner: value_of_node(JsonNode::Object(object_new())) }
    }

    /// A builder that holds a string.
    pub fn from_str(value: &str) -> (props: Self)
        ensures
            props@ == Json::String(value@),
    {
        Self { inner: value_of_node(JsonNode::String(value.to_string())) }
    }

    /// A builder that holds a string.
    pub fn from_string(value: String) -> (props: Self)
        ensures
            props@ == Json::String(value@),
    {
        Self { inner: value_of_node(JsonNode::String(value)) }
    }

    /// A builder that holds the number that `value` converts to.
    pub fn from_number<T: Into<serde_json::Number>>(value: T) -> (props: Self)
        ensures
            props@ is Number,
            call_ensures(<T as Into<serde_json::Number>>::into, (value,), props@->Number_0),
    {
        let number: serde_json::Number = value.into();
        Self { inner: value_of_node(JsonNode::Number(number)) }
    }

    /// A builder that holds a boolean.
    pub fn from_bool(value: bool) -> (props: Self)
        ensures
            props@ == Json::Bool(value),
    {
        Self { inner: value_of_node(JsonNode::Bool(value)) }
    }

    /// A builder that holds the array of the given builders' trees, in the
    /// order given.
    fn from_builders(values: Vec<TelemetryProps>) -> (props: Self)
        ensures
            props@ == Json::Array(views_of(values@)),
    {
        let mut items: Vec<serde_json::Value> = Vec::new();
        for value in iter: values
            invariant
                iter.seq() == values@,
                items@.len() == iter.index(),
                forall|i: int| 0 <= i < items@.len() ==> json_of(#[trigger] items@[i]) == values@[i]@,
        {
            items.push(value.inner);
        }
        assert(json_seq(items@) =~= views_of(values@));
        Self { inner: value_of_node(JsonNode::Array(items)) }
    }

    /// A builder that holds an array: each of `values` converted on its own,
    /// in the order given.
    pub fn from_array<T: Into<TelemetryProps>>(values: Vec<T>) -> (props: Self)
        ensures
            props@ is Array,
            props@->Array_0.len() == values@.len(),
            forall|i: int|
                0 <= i < values@.len() ==> is_conversion(values@[i], #[trigger] props@->Array_0[i]),
    {
        let mut builders: Vec<TelemetryProps> = Vec::new();
        for value in iter: values
            invariant
                iter.seq() == values@,
                builders@.len() == iter.index(),
                forall|i: int|
                    0 <= i < builders@.len() ==> is_conversion(
                        values@[i],
                        (#[trigger] builders@[i])@,
                    ),
        {
            let converted: TelemetryProps = value.into();
            builders.push(converted);
        }
        Self::from_builders(builders)
    }

    /// Sets `key` to what `value` converts to, or does nothing where `value` is
    /// `None`.
    ///
    /// A builder whose root is not an object becomes an object first, and what
    /// it held is dropped. The builder itself is handed back, so that calls can
    /// be chained.
    pub fn insert<T: Into<TelemetryProps>>(&mut self, key: &str, value: Option<T>) -> (chained:
        &mut Self)
        ensures
            *final(self) == *final(chained),
            inserted(*old(self), key@, value, *chained),
    {
        if let Some(given) = value {
            let converted: TelemetryProps = given.into();
            let mut held = Self { inner: value_of_node(JsonNode::Null) };
            std::mem::swap(self, &mut held);
            let mut object = match node_of_value(held.inner) {
                JsonNode::Object(object) => object,
                _ => object_new(),
            };
            object_insert(&mut object, key.to_string(), converted.inner);
            self.inner = value_of_node(JsonNode::Object(object));
            assert(object_entries(self@)[key@] == converted@);
        }
        self
    }

    /// Applies `f` to `v` and inserts what it gives under `k`, as
    /// [`TelemetryProps::insert`] does.
    pub fn insert_with<V, RV: Into<TelemetryProps>, F: FnOnce(V) -> Option<RV>>(
        &mut self,
        k: &str,
        v: V,
        f: F,
    ) -> (chained: &mut Self)
        requires
            call_requires(f, (v,)),
        ensures
            *final(self) == *final(chained),
            exists|produced: Option<RV>| #[trigger]
                call_ensures(f, (v,), produced) && inserted(*old(self), k@, produced, *chained),
    {
        let produced = f(v);
        self.insert::<RV>(k, produced)
    }

    /// The tree, as a `serde_json::Value`.
    pub fn to_inner(self) -> (value: serde_json::Value)
        ensures
            json_of(value) == self@,
    {
        self.inner
    }

    /// The entries of the tree where its root is an object, `None` where it is
    /// not.
    pub fn to_map(self) -> (object: Option<JsonObject>)
        ensures
            match object {
                Some(entries) => self@ == Json::Object(entries_of(entries)),
                None => !(self@ is Object),
            },
    {
        match node_of_value(self.inner) {
            JsonNode::Object(object) => Some(object),
            _ => None,
        }
    }

    /// The entries of the tree where its root is an object; the error
    /// [`TelemetryError::BuildError`] where it is not.
    pub fn finalize_as_object(self) -> (outcome: Result<JsonObject, TelemetryError>)
        ensures
            match outcome {
                Ok(entries) => self@ == Json::Object(entries_of(entries)),
                Err(error) => !(self@ is Object) && error == TelemetryError::BuildError,
            },
    {
        match self.to_map() {
            Some(object) => Ok(object),
            None => Err(TelemetryError::BuildError),
        }
    }

    /// Hands out the builder as it is and leaves an empty object in its place.
    pub fn take(&mut self) -> (taken: Self)
        ensures
            taken == *old(self),
            final(self)@ == empty_object(),
    {
        let mut taken = Self::new();
        std::mem::swap(self, &mut taken);
        taken
    }
}

impl From<&str> for TelemetryProps {
    fn from(value: &str) -> (props: Self)
        ensures
            props@ == Json::String(value@),
    {
        TelemetryProps::from_str(value)
    }
}

impl From<String> for TelemetryProps {
    fn from(value: String) -> (props: Self)
        ensures
            props@ == Json::String(value@),
    {
        TelemetryProps::from_string(value)
    }
}

impl From<serde_json::Number> for TelemetryProps {
    fn from(value: serde_json::Number) -> (props: Self)
        ensures
            props@ == Json::Number(value),
    {
        Self { inner: value_of_node(JsonNode::Number(value)) }
    }
}

impl From<bool> for TelemetryProps {
    fn from(value: bool) -> (props: Self)
        ensures
            props@ == Json::Bool(value),
    {
        TelemetryProps::from_bool(value)
    }
}

impl From<Vec<TelemetryProps>> for TelemetryProps {
    fn from(value: Vec<TelemetryProps>) -> (props: Self)
        ensures
            props@ == Json::Array(views_of(value@)),
    {
        TelemetryProps::from_builders(value)
    }
}

impl Clone for TelemetryProps {
    fn clone(&self) -> (copy: Self)
        ensures
            copy@ == self@,
    {
        Self { inner: self.inner.clone() }
    }
}

impl Default for TelemetryProps {
    fn default() -> (props: Self)
        ensures
            props@ == empty_object(),
    {
        Self::new()
    }
}

// Each conversion above is specified by its own `ensures`, over the view of
// the builder it gives. Two builders with the same view need not be the same
// value, so none of the conversions is tied to a spec function here.

impl FromSpecImpl<&str> for TelemetryProps {
    open spec fn obeys_from_spec() -> bool {
        false
    }

    open spec fn from_spec(value: &str) -> Self {
        arbitrary()
    }
}

impl FromSpecImpl<String> for TelemetryProps {
    open spec fn obeys_from_spec() -> bool {
        false
    }

    open spec fn from_spec(value: String) -> Self {
        arbitrary()
    }
}

impl FromSpecImpl<serde_json::Number> for TelemetryProps {
    open spec fn obeys_from_spec() -> bool {
        false
    }

    open spec fn from_spec(value: serde_json::Number) -> Self {
        arbitrary()
    }
}

impl FromSpecImpl<bool> for TelemetryProps {
    open spec fn obeys_from_spec() -> bool {
        false
    }

    open spec fn from_spec(value: bool) -> Self {
        arbitrary()
    }
}

impl FromSpecImpl<Vec<TelemetryProps>> for TelemetryProps {
    open spec fn obeys_from_spec() -> bool {
        false
    }

    open spec fn from_spec(value: Vec<TelemetryProps>) -> Self {
        arbitrary()
    }
}

/// Inserting a key with no value leaves the builder as it was.
pub proof fn lemma_insert_nothing<T: Into<TelemetryProps>>(
    before: TelemetryProps,
    key: Seq<char>,
    after: TelemetryProps,
)
    requires
        inserted(before, key, None::<T>, after),
    ensures
        after@ == before@,
        forall|other: Seq<char>|
            object_entries(after@).contains_key(other) == object_entries(before@).contains_key(
                other,
            ),
{
}

/// Inserting a key with a value makes the key present with that value, and
/// leaves every other key of an object as it was.
pub proof fn lemma_insert_sets_key(before: Json, key: Seq<char>, value: Json)
    ensures
        with_entry(before, key, value) is Object,
        object_entries(with_entry(before, key, value)).contains_key(key),
        object_entries(with_entry(before, key, value))[key] == value,
        forall|other: Seq<char>|
            other != key ==> {
                &&& object_entries(with_entry(before, key, value)).contains_key(other)
                    == object_entries(before).contains_key(other)
                &&& object_entries(with_entry(before, key, value))[other] == object_entries(
                    before,
                )[other]
            },
{
}

/// Inserting a key into a tree whose root is not an object gives an object
/// that holds the inserted key and nothing else: what the tree held is gone.
pub proof fn lemma_insert_replaces_scalar(before: Json, key: Seq<char>, value: Json)
    requires
        !(before is Object),
    ensures
        with_entry(before, key, value) == Json::Object(map![key => value]),
        object_entries(with_entry(before, key, value)).dom() =~= set![key],
{
    assert(object_entries(before).insert(key, value) =~= map![key => value]);
}

/// An array built from builders holds one tree for each builder, each at the
/// place of its builder: the order of the array is the order given.
pub proof fn lemma_array_keeps_order(builders: Seq<TelemetryProps>)
    ensures
        views_of(builders).len() == builders.len(),
        forall|i: int| 0 <= i < builders.len() ==> views_of(builders)[i] == builders[i]@,
{
}

} // verus!
