//! Labels, annotations and label selectors.
use crate::kvmap::StringMap;
use crate::text::text;
use vstd::prelude::*;

verus! {

/// Labels of an object.
#[derive(Clone, Debug)]
pub struct Labels(pub StringMap<String>);

impl View for Labels {
    type V = Map<Seq<char>, Seq<char>>;

    open spec fn view(&self) -> Map<Seq<char>, Seq<char>> {
        self.0@
    }
}

impl Labels {
    /// No labels.
    pub fn new() -> (r: Self)
        ensures
            r@ == Map::<Seq<char>, Seq<char>>::empty(),
    {
        Labels(StringMap::new())
    }

    /// These labels with `key` set to `value`.
    pub fn insert(self, key: &str, value: &str) -> (r: Self)
        ensures
            r@ == self@.insert(key@, value@),
    {
        Labels(self.0.insert(text(key), text(value)))
    }

    /// The value of label `key`, if set.
    pub fn get(&self, key: &str) -> (r: Option<&String>)
        ensures
            match r {
                Some(v) => self@.contains_key(key@) && self@[key@] == v@,
                None => !self@.contains_key(key@),
            },
    {
        self.0.get(key)
    }

    /// The label map.
    pub fn inner(&self) -> (r: &StringMap<String>)
        ensures
            r == self.0,
    {
        &self.0
    }

    /// The label map.
    pub fn into_inner(self) -> (r: StringMap<String>)
        ensures
            r == self.0,
    {
        self.0
    }
}

impl Default for Labels {
    fn default() -> (r: Self)
        ensures
            r@ == Map::<Seq<char>, Seq<char>>::empty(),
    {
        Labels::new()
    }
}

/// Annotations of an object.
#[derive(Clone, Debug)]
pub struct Annotations(pub StringMap<String>);

impl View for Annotations {
    type V = Map<Seq<char>, Seq<char>>;

    open spec fn view(&self) -> Map<Seq<char>, Seq<char>> {
        self.0@
    }
}

impl Annotations {
    /// No annotations.
    pub fn new() -> (r: Self)
        ensures
            r@ == Map::<Seq<char>, Seq<char>>::empty(),
    {
        Annotations(StringMap::new())
    }

    /// These annotations with `key` set to `value`.
    pub fn insert(self, key: &str, value: &str) -> (r: Self)
        ensures
            r@ == self@.insert(key@, value@),
    {
        Annotations(self.0.insert(text(key), text(value)))
    }

    /// The value of annotation `key`, if set.
    pub fn get(&self, key: &str) -> (r: Option<&String>)
        ensures
            match r {
                Some(v) => self@.contains_key(key@) && self@[key@] == v@,
                None => !self@.contains_key(key@),
            },
    {
        self.0.get(key)
    }

    /// The annotation map.
    pub fn inner(&self) -> (r: &StringMap<String>)
        ensures
            r == self.0,
    {
        &self.0
    }

    /// The annotation map.
    pub fn into_inner(self) -> (r: StringMap<String>)
        ensures
            r == self.0,
    {
        self.0
    }
}

impl Default for Annotations {
    fn default() -> (r: Self)
        ensures
            r@ == Map::<Seq<char>, Seq<char>>::empty(),
    {
        Annotations::new()
    }
}

/// A label selector: the labels that selected objects must carry.
#[derive(Clone, Debug)]
pub struct Selector(pub StringMap<String>);

impl View for Selector {
    type V = Map<Seq<char>, Seq<char>>;

    open spec fn view(&self) -> Map<Seq<char>, Seq<char>> {
        self.0@
    }
}

impl Selector {
    /// A selector that requires no label.
    pub fn new() -> (r: Self)
        ensures
            r@ == Map::<Seq<char>, Seq<char>>::empty(),
    {
        Selector(StringMap::new())
    }

    /// This selector also requiring label `key` to equal `value`.
    pub fn match_labels(self, key: &str, value: &str) -> (r: Self)
        ensures
            r@ == self@.insert(key@, value@),
    {
        Selector(self.0.insert(text(key), text(value)))
    }

    /// The required labels.
    pub fn into_inner(self) -> (r: StringMap<String>)
        ensures
            r == self.0,
    {
        self.0
    }
}

impl Default for Selector {
    fn default() -> (r: Self)
        ensures
            r@ == Map::<Seq<char>, Seq<char>>::empty(),
    {
        Selector::new()
    }
}

} // verus!
