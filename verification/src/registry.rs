//! The registry: a store of named documents, kept in a `DashMap`.

use crate::json::{document, documents, Document};
use dashmap::DashMap;
use serde_json::Value;
use std::collections::hash_map::RandomState;
use vstd::prelude::*;
use vstd::seq_lib::seq_to_set_is_finite;

verus! {

#[verifier::external_type_specification]
#[verifier::external_body]
#[verifier::reject_recursive_types(K)]
#[verifier::reject_recursive_types(V)]
#[verifier::reject_recursive_types(S)]
pub struct ExDashMap<K, V, S>(DashMap<K, V, S>);

/// The entries that a map of documents holds: each name with its document.
pub uninterp spec fn contents(map: DashMap<String, Value, RandomState>) -> Map<Seq<char>, Document>;

/// `items` are the documents of `registry` as listed along `names`: every
/// name of the registry stands once in `names`, and `items` holds the
/// documents in the same order.
pub open spec fn lists(
    names: Seq<Seq<char>>,
    items: Seq<Document>,
    registry: Map<Seq<char>, Document>,
) -> bool {
    &&& names.no_duplicates()
    &&& names.to_set() == registry.dom()
    &&& items.len() == names.len()
    &&& forall|i: int| 0 <= i < names.len() ==> items[i] == registry[#[trigger] names[i]]
}

/// `items` is a listing of `registry`: the document of every entry, each
/// entry once, in some order.
pub open spec fn is_listing(items: Seq<Document>, registry: Map<Seq<char>, Document>) -> bool {
    exists|names: Seq<Seq<char>>| lists(names, items, registry)
}

/// `DashMap::new`: a map that holds nothing.
#[verifier::external_body]
fn dash_new() -> (map: DashMap<String, Value>)
    ensures
        contents(map) == (Map::<Seq<char>, Document>::empty()),
{
    DashMap::new()
}

/// `DashMap::insert`: afterwards `name` holds `value`, whether or not it held
/// a value before, and every other entry is as it was.
#[verifier::external_body]
fn dash_insert(map: &mut DashMap<String, Value>, name: String, value: Value)
    ensures
        contents(*final(map)) == contents(*old(map)).insert(name@, document(value)),
{
    map.insert(name, value);
}

/// `DashMap::iter`, with a copy taken of each value: the iterator visits
/// every entry once, in an order that the map does not promise.
#[verifier::external_body]
fn dash_values(map: &DashMap<String, Value>) -> (values: Vec<Value>)
    ensures
        is_listing(documents(values@), contents(*map)),
{
    map.iter().map(|entry| entry.value().clone()).collect()
}

/// A store of documents by name. A name holds one document: registering
/// under a name that is taken replaces the document.
pub struct Registry {
    map: DashMap<String, Value>,
}

impl View for Registry {
    type V = Map<Seq<char>, Document>;

    closed spec fn view(&self) -> Map<Seq<char>, Document> {
        contents(self.map)
    }
}

impl Registry {
    /// A registry that holds nothing.
    pub fn new() -> (registry: Registry)
        ensures
            registry@ == (Map::<Seq<char>, Document>::empty()),
    {
        Registry { map: dash_new() }
    }

    /// Registers `value` under `name`, in place of what `name` held.
    pub fn put(&mut self, name: String, value: Value)
        ensures
            final(self)@ == old(self)@.insert(name@, document(value)),
    {
        dash_insert(&mut self.map, name, value);
    }

    /// The documents of all entries, in no promised order: as many as the
    /// registry has names, and none where it has none.
    pub fn list(&self) -> (values: Vec<Value>)
        ensures
            is_listing(documents(values@), self@),
            self@.dom().finite(),
            values@.len() == self@.dom().len(),
    {
        let values = dash_values(&self.map);
        proof {
            lemma_listing_holds_the_entries(documents(values@), self@);
        }
        values
    }
}

/// A listing holds as many documents as the registry has names, and its
/// documents are those that the registry holds.
pub proof fn lemma_listing_holds_the_entries(
    items: Seq<Document>,
    registry: Map<Seq<char>, Document>,
)
    requires
        is_listing(items, registry),
    ensures
        registry.dom().finite(),
        items.len() == registry.dom().len(),
        forall|item: Document| items.contains(item) <==> registry.contains_value(item),
{
    let names = choose|names: Seq<Seq<char>>| lists(names, items, registry);
    seq_to_set_is_finite(names);
    names.unique_seq_to_set();
    assert forall|item: Document| items.contains(item) <==> registry.contains_value(
        item,
    ) by {
        if items.contains(item) {
            let i = choose|i: int| 0 <= i < items.len() && items[i] == item;
            assert(names.to_set().contains(names[i]));
            assert(registry.dom().contains(names[i]) && registry[names[i]] == item);
        }
        if registry.contains_value(item) {
            let name = choose|name: Seq<char>|
                #[trigger] registry.dom().contains(name) && registry[name] == item;
            assert(names.to_set().contains(name));
            let i = choose|i: int| 0 <= i < names.len() && names[i] == name;
            assert(items[i] == registry[names[i]]);
        }
    }
}

/// The listing of a registry that holds nothing is empty.
pub proof fn lemma_empty_registry_lists_nothing(items: Seq<Document>)
    requires
        is_listing(items, Map::<Seq<char>, Document>::empty()),
    ensures
        items == Seq::<Document>::empty(),
{
    lemma_listing_holds_the_entries(items, Map::<Seq<char>, Document>::empty());
    assert(items =~= Seq::<Document>::empty());
}

/// Registering twice under one name leaves the registry as the second
/// registration alone would: a listing then holds the second document, one
/// document for the name, and the first document only where it is the second
/// or stands under another name.
pub proof fn lemma_second_registration_stands(
    registry: Map<Seq<char>, Document>,
    name: Seq<char>,
    first: Document,
    second: Document,
    items: Seq<Document>,
)
    requires
        is_listing(items, registry.insert(name, first).insert(name, second)),
    ensures
        registry.insert(name, first).insert(name, second) == registry.insert(name, second),
        items.contains(second),
        items.len() == registry.remove(name).dom().len() + 1,
        items.contains(first) ==> first == second || registry.remove(name).contains_value(first),
{
    let after = registry.insert(name, first).insert(name, second);
    assert(after =~= registry.insert(name, second));
    lemma_listing_holds_the_entries(items, after);
    assert(after.dom().contains(name) && after[name] == second);
    let rest = registry.remove(name).dom();
    assert(rest =~= after.dom().remove(name));
    assert(after.dom() =~= rest.insert(name));
    if items.contains(first) && first != second {
        let other = choose|other: Seq<char>|
            #[trigger] after.dom().contains(other) && after[other] == first;
        assert(other != name);
        assert(registry.remove(name).dom().contains(other) && registry.remove(name)[other]
            == first);
    }
}

} // verus!
