//! The untyped form of a section: field names mapped to field texts.

use vstd::prelude::*;
use vstd::hash_map::StringHashMap;

verus! {

/// The text that `fields` holds under `name`; the empty text where it holds none.
pub open spec fn raw_value(fields: Map<Seq<char>, Seq<char>>, name: Seq<char>) -> Seq<char> {
    if fields.contains_key(name) {
        fields[name]
    } else {
        Seq::empty()
    }
}

/// The fields of one section as they stand in a file, before any of them is read.
///
/// A name occurs at most once: a second value for a name replaces the first.
pub struct RawKeyValues {
    fields: StringHashMap<String>,
}

impl View for RawKeyValues {
    type V = Map<Seq<char>, Seq<char>>;

    closed spec fn view(&self) -> Map<Seq<char>, Seq<char>> {
        self.fields@.map_values(|value: String| value@)
    }
}

impl RawKeyValues {
    /// A mapping without fields.
    pub fn new() -> (fields: RawKeyValues)
        ensures
            fields@ == Map::<Seq<char>, Seq<char>>::empty(),
    {
        let fields = RawKeyValues { fields: StringHashMap::new() };
        assert(fields@ =~= Map::<Seq<char>, Seq<char>>::empty());
        fields
    }

    /// Sets the field `name` to `value`, in place of any value it had.
    pub fn insert(&mut self, name: String, value: String)
        ensures
            final(self)@ == old(self)@.insert(name@, value@),
    {
        self.fields.insert(name, value);
        assert(self@ =~= old(self)@.insert(name@, value@));
    }

    /// The value of the field `name`; the empty text where it has none.
    pub fn value(&self, name: &str) -> (value: String)
        ensures
            value@ == raw_value(self@, name@),
    {
        match self.fields.get(name) {
            Some(value) => value.clone(),
            None => String::new(),
        }
    }
}

} // verus!
