//! A map with exactly one entry, read as a field name and the value under it.
use core::marker::PhantomData;
use vstd::prelude::*;

verus! {

/// One field name and the value given for it.
#[derive(Clone, Debug, PartialEq)]
pub struct KeyValue<T> {
    pub field: String,
    pub value: T,
}

/// Why a stream of map entries is not a single key-value pair.
#[derive(Clone, Copy, Debug, PartialEq, Eq, Structural)]
pub enum KeyValueError {
    /// The map has no entry.
    NotEnoughValues,
    /// The map has a second entry.
    TooManyValues,
}

impl KeyValueError {
    /// The text of the error, as a reader of the request sees it.
    pub fn message(&self) -> (r: &'static str)
        ensures
            *self == KeyValueError::NotEnoughValues ==> r@ == "not enough values"@,
            *self == KeyValueError::TooManyValues ==> r@ == "too many values"@,
    {
        match self {
            KeyValueError::NotEnoughValues => "not enough values",
            KeyValueError::TooManyValues => "too many values",
        }
    }
}

impl<T> KeyValue<T> {
    pub fn new(field: String, value: T) -> (r: Self)
        ensures
            r.field == field,
            r.value == value,
    {
        KeyValue { field, value }
    }

    /// The entries of the serialized form: a map holding this one pair.
    pub open spec fn entries(self) -> Seq<(String, T)> {
        seq![(self.field, self.value)]
    }

    /// Hands the pair out as the entries of its serialized form.
    pub fn into_entries(self) -> (r: Vec<(String, T)>)
        ensures
            r@ == self.entries(),
    {
        let mut r: Vec<(String, T)> = Vec::new();
        r.push((self.field, self.value));
        r
    }
}

/// What a map with the entries `s` reads as: the pair if it has exactly one entry.
pub open spec fn parse_entries<T>(s: Seq<(String, T)>) -> Result<KeyValue<T>, KeyValueError> {
    if s.len() == 0 {
        Err(KeyValueError::NotEnoughValues)
    } else if s.len() == 1 {
        Ok(KeyValue { field: s[0].0, value: s[0].1 })
    } else {
        Err(KeyValueError::TooManyValues)
    }
}

/// The first entry of a stream of entries, if any.
pub open spec fn first_entry<T>(s: Seq<(String, T)>) -> Option<(String, T)> {
    if s.len() > 0 { Some(s[0]) } else { None }
}

/// The entry after the first, if any.
pub open spec fn second_entry<T>(s: Seq<(String, T)>) -> Option<(String, T)> {
    if s.len() > 1 { Some(s[1]) } else { None }
}

/// What the visitor decides from the first entry and the probe for a second one.
pub open spec fn visit_spec<T>(first: Option<(String, T)>, second: Option<(String, T)>) -> Result<KeyValue<T>, KeyValueError> {
    match first {
        None => Err(KeyValueError::NotEnoughValues),
        Some(e) => if second is Some {
            Err(KeyValueError::TooManyValues)
        } else {
            Ok(KeyValue { field: e.0, value: e.1 })
        },
    }
}

/// Reads a streamed map as a key-value pair: it takes the first entry and
/// only probes whether a second one follows.
pub struct KVVisitor<T> {
    marker: PhantomData<T>,
}

impl<T> KVVisitor<T> {
    pub fn new() -> (r: Self) {
        KVVisitor { marker: PhantomData }
    }

    /// Decides on the first entry of the map and on the probe for a second.
    pub fn visit_entries(self, first: Option<(String, T)>, second: Option<(String, T)>) -> (r: Result<KeyValue<T>, KeyValueError>)
        ensures
            r == visit_spec(first, second),
    {
        match first {
            None => Err(KeyValueError::NotEnoughValues),
            Some(e) => {
                if second.is_some() {
                    Err(KeyValueError::TooManyValues)
                } else {
                    Ok(KeyValue { field: e.0, value: e.1 })
                }
            },
        }
    }
}

/// Looking at the first two entries of a stream decides it as counting all of them does.
pub proof fn lemma_visit_reads_whole_map<T>(s: Seq<(String, T)>)
    ensures
        visit_spec(first_entry(s), second_entry(s)) == parse_entries(s),
{
}

/// Reading the serialized form of a pair gives the pair back.
pub proof fn lemma_round_trip<T>(kv: KeyValue<T>)
    ensures
        parse_entries(kv.entries()) == Ok::<KeyValue<T>, KeyValueError>(kv),
        visit_spec(first_entry(kv.entries()), second_entry(kv.entries())) == Ok::<KeyValue<T>, KeyValueError>(kv),
{
}

/// A map with no entry or with two or more entries is refused, never read as
/// one of its entries.
pub proof fn lemma_rejects_other_sizes<T>(s: Seq<(String, T)>)
    requires
        s.len() != 1,
    ensures
        parse_entries(s) is Err,
        s.len() == 0 ==> visit_spec(first_entry(s), second_entry(s)) == Err::<KeyValue<T>, KeyValueError>(KeyValueError::NotEnoughValues),
        s.len() >= 2 ==> visit_spec(first_entry(s), second_entry(s)) == Err::<KeyValue<T>, KeyValueError>(KeyValueError::TooManyValues),
{
}

/// Serializing what a one-entry map reads as gives that map back.
pub proof fn lemma_parse_then_serialize<T>(s: Seq<(String, T)>)
    requires
        s.len() == 1,
    ensures
        parse_entries(s) is Ok,
        parse_entries(s)->Ok_0.entries() == s,
{
    assert(parse_entries(s)->Ok_0.entries() =~= s);
}

} // verus!
