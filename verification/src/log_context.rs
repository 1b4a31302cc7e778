//! Key-value fields that travel with a record.

use vstd::prelude::*;
use vstd::string::StringExecFns;
use crate::text::{bool_chars, bool_text, push_signed_decimal, same_text, signed_decimal_digits};

verus! {

/// The value of a field.
#[derive(Debug, PartialEq, Eq)]
pub enum FieldValue {
    String(String),
    Int(i64),
    /// A number with a fraction, kept by the decimal texts that stand for it:
    /// `shown` in a line of text, and `json` in a JSON document, where a
    /// whole value keeps its fraction (`1` and `1.0`).
    Float { shown: String, json: String },
    Bool(bool),
    Null,
}

impl FieldValue {
    /// The value as it is written in a line of text.
    pub open spec fn text(self) -> Seq<char> {
        match self {
            FieldValue::String(s) => s@,
            FieldValue::Int(i) => signed_decimal_digits(i as int),
            FieldValue::Float { shown, json } => shown@,
            FieldValue::Bool(b) => bool_chars(b),
            FieldValue::Null => "null"@,
        }
    }

    /// Appends the value to `out` as it is written in a line of text.
    pub fn write_to(&self, out: &mut String)
        ensures
            final(out)@ == old(out)@ + self.text(),
    {
        match self {
            FieldValue::String(s) => out.append(s.as_str()),
            FieldValue::Int(i) => push_signed_decimal(out, *i),
            FieldValue::Float { shown, json } => out.append(shown.as_str()),
            FieldValue::Bool(b) => out.append(bool_text(*b)),
            FieldValue::Null => out.append("null"),
        }
    }

    /// The value as it is written in a line of text.
    pub fn to_string(&self) -> (r: String)
        ensures
            r@ == self.text(),
    {
        let mut out = String::new();
        self.write_to(&mut out);
        out
    }

    /// A number with a fraction, by the text that stands for it in a line of
    /// text and the one that stands for it in a JSON document.
    pub fn decimal(shown: &str, json: &str) -> (r: FieldValue)
        ensures
            r matches FieldValue::Float { shown: s, json: j } && s@ == shown@ && j@ == json@,
    {
        FieldValue::Float { shown: shown.to_owned(), json: json.to_owned() }
    }

    /// A text value.
    pub fn from_text(s: &str) -> (r: FieldValue)
        ensures
            r matches FieldValue::String(t) && t@ == s@,
    {
        FieldValue::String(s.to_owned())
    }
}

impl From<String> for FieldValue {
    fn from(s: String) -> (r: FieldValue) {
        FieldValue::String(s)
    }
}

impl vstd::std_specs::convert::FromSpecImpl<String> for FieldValue {
    open spec fn obeys_from_spec() -> bool {
        true
    }

    open spec fn from_spec(s: String) -> FieldValue {
        FieldValue::String(s)
    }
}

impl From<i64> for FieldValue {
    fn from(i: i64) -> (r: FieldValue) {
        FieldValue::Int(i)
    }
}

impl vstd::std_specs::convert::FromSpecImpl<i64> for FieldValue {
    open spec fn obeys_from_spec() -> bool {
        true
    }

    open spec fn from_spec(i: i64) -> FieldValue {
        FieldValue::Int(i)
    }
}

impl From<i32> for FieldValue {
    fn from(i: i32) -> (r: FieldValue) {
        FieldValue::Int(i as i64)
    }
}

impl vstd::std_specs::convert::FromSpecImpl<i32> for FieldValue {
    open spec fn obeys_from_spec() -> bool {
        true
    }

    open spec fn from_spec(i: i32) -> FieldValue {
        FieldValue::Int(i as i64)
    }
}

impl From<bool> for FieldValue {
    fn from(b: bool) -> (r: FieldValue) {
        FieldValue::Bool(b)
    }
}

impl vstd::std_specs::convert::FromSpecImpl<bool> for FieldValue {
    open spec fn obeys_from_spec() -> bool {
        true
    }

    open spec fn from_spec(b: bool) -> FieldValue {
        FieldValue::Bool(b)
    }
}

impl Clone for FieldValue {
    fn clone(&self) -> (r: FieldValue)
        ensures
            r == *self,
    {
        match self {
            FieldValue::String(s) => FieldValue::String(s.clone()),
            FieldValue::Int(i) => FieldValue::Int(*i),
            FieldValue::Float { shown, json } => FieldValue::Float {
                shown: shown.clone(),
                json: json.clone(),
            },
            FieldValue::Bool(b) => FieldValue::Bool(*b),
            FieldValue::Null => FieldValue::Null,
        }
    }
}

/// Whether `i` is the first place among the entries at which the key stands.
pub open spec fn first_at(entries: Seq<(String, FieldValue)>, key: Seq<char>, i: int) -> bool {
    &&& 0 <= i < entries.len()
    &&& entries[i].0@ == key
    &&& forall|j: int| 0 <= j < i ==> (#[trigger] entries[j]).0@ != key
}

/// The first place among the entries at which the key stands, if it does.
pub open spec fn position_of(entries: Seq<(String, FieldValue)>, key: Seq<char>) -> Option<int> {
    if exists|i: int| first_at(entries, key, i) {
        Some(choose|i: int| first_at(entries, key, i))
    } else {
        None
    }
}

/// The first place at which a key stands is one place only.
pub proof fn lemma_first_at_unique(
    entries: Seq<(String, FieldValue)>,
    key: Seq<char>,
    i: int,
)
    requires
        first_at(entries, key, i),
    ensures
        position_of(entries, key) == Some(i),
{
    let chosen = choose|k: int| first_at(entries, key, k);
    if chosen < i {
        assert(entries[chosen].0@ != key);
    } else if chosen > i {
        assert(entries[i].0@ != key);
    }
}

/// A key that stands somewhere has a first place.
pub proof fn lemma_has_first(entries: Seq<(String, FieldValue)>, key: Seq<char>, at: int)
    requires
        0 <= at < entries.len(),
        entries[at].0@ == key,
    ensures
        position_of(entries, key) is Some,
    decreases at,
{
    if forall|j: int| 0 <= j < at ==> (#[trigger] entries[j]).0@ != key {
        assert(first_at(entries, key, at));
    } else {
        let j = choose|j: int| 0 <= j < at && (#[trigger] entries[j]).0@ == key;
        lemma_has_first(entries, key, j);
    }
}

/// A key that stands nowhere has no first place.
pub proof fn lemma_absent_key(entries: Seq<(String, FieldValue)>, key: Seq<char>)
    requires
        forall|j: int| 0 <= j < entries.len() ==> (#[trigger] entries[j]).0@ != key,
    ensures
        position_of(entries, key) is None,
{
    if exists|i: int| first_at(entries, key, i) {
        let i = choose|i: int| first_at(entries, key, i);
        assert(entries[i].0@ != key);
    }
}

/// Whether no key stands twice among the entries.
pub open spec fn distinct_keys(entries: Seq<(String, FieldValue)>) -> bool {
    forall|i: int, j: int|
        0 <= i < j < entries.len() ==> (#[trigger] entries[i]).0@ != (#[trigger] entries[j]).0@
}

/// The text of the entries: each as `key=value`, with one space in between.
pub open spec fn fields_text(entries: Seq<(String, FieldValue)>) -> Seq<char>
    decreases entries.len(),
{
    if entries.len() == 0 {
        Seq::empty()
    } else if entries.len() == 1 {
        entries[0].0@ + "="@ + entries[0].1.text()
    } else {
        fields_text(entries.drop_last()) + " "@ + entries.last().0@ + "="@ + entries.last().1.text()
    }
}

/// The entries with those of `defaults` added whose keys are not there yet,
/// in the order of `defaults`.
pub open spec fn merged(
    entries: Seq<(String, FieldValue)>,
    defaults: Seq<(String, FieldValue)>,
) -> Seq<(String, FieldValue)>
    decreases defaults.len(),
{
    if defaults.len() == 0 {
        entries
    } else {
        let before = merged(entries, defaults.drop_last());
        if position_of(before, defaults.last().0@) is None {
            before.push(defaults.last())
        } else {
            before
        }
    }
}

/// Merging adds at the end only: the entries that were there stay where they
/// were, with their values.
pub proof fn lemma_merged_keeps_entries(
    entries: Seq<(String, FieldValue)>,
    defaults: Seq<(String, FieldValue)>,
)
    ensures
        entries.len() <= merged(entries, defaults).len(),
        merged(entries, defaults).take(entries.len() as int) == entries,
    decreases defaults.len(),
{
    if defaults.len() > 0 {
        lemma_merged_keeps_entries(entries, defaults.drop_last());
        let before = merged(entries, defaults.drop_last());
        assert(before.push(defaults.last()).take(entries.len() as int) == before.take(
            entries.len() as int,
        ));
    } else {
        assert(entries.take(entries.len() as int) == entries);
    }
}

/// The fields of one record: each key once, in the order in which the keys
/// first came.
#[derive(Debug)]
pub struct LogContext {
    fields: Vec<(String, FieldValue)>,
}

impl LogContext {
    /// The fields, in the order in which their keys first came.
    pub closed spec fn entries(self) -> Seq<(String, FieldValue)> {
        self.fields@
    }

    /// The value that stands under a key.
    pub open spec fn value_of(self, key: Seq<char>) -> Option<FieldValue> {
        match position_of(self.entries(), key) {
            Some(i) => Some(self.entries()[i].1),
            None => None,
        }
    }

    /// A context without fields.
    pub fn new() -> (r: LogContext)
        ensures
            r.entries().len() == 0,
            distinct_keys(r.entries()),
    {
        LogContext { fields: Vec::new() }
    }

    fn find(&self, key: &str) -> (r: Option<usize>)
        ensures
            match r {
                Some(i) => position_of(self.entries(), key@) == Some(i as int) && first_at(
                    self.entries(),
                    key@,
                    i as int,
                ),
                None => position_of(self.entries(), key@) is None,
            },
    {
        let mut i: usize = 0;
        while i < self.fields.len()
            invariant
                i <= self.fields.len(),
                forall|j: int| 0 <= j < i ==> (#[trigger] self.fields@[j]).0@ != key@,
            decreases self.fields.len() - i,
        {
            if same_text(self.fields[i].0.as_str(), key) {
                proof {
                    lemma_first_at_unique(self.fields@, key@, i as int);
                }
                return Some(i);
            }
            i += 1;
        }
        proof {
            lemma_absent_key(self.fields@, key@);
        }
        None
    }

    /// Sets the field `key` to `value`. A key that is there keeps its place
    /// and takes the new value; a new key goes to the end.
    pub fn add_field(&mut self, key: &str, value: FieldValue)
        ensures
            match position_of(old(self).entries(), key@) {
                Some(i) => {
                    &&& final(self).entries().len() == old(self).entries().len()
                    &&& final(self).entries()[i].0@ == key@
                    &&& final(self).entries()[i].1 == value
                    &&& forall|j: int|
                        0 <= j < old(self).entries().len() && j != i ==> final(self).entries()[j]
                            == old(self).entries()[j]
                },
                None => {
                    &&& final(self).entries().len() == old(self).entries().len() + 1
                    &&& final(self).entries().last().0@ == key@
                    &&& final(self).entries().last().1 == value
                    &&& final(self).entries().drop_last() == old(self).entries()
                },
            },
            final(self).value_of(key@) == Some(value),
            distinct_keys(old(self).entries()) ==> distinct_keys(final(self).entries()),
    {
        let found = self.find(key);
        match found {
            Some(i) => {
                let ghost before = self.fields@;
                self.fields.set(i, (key.to_owned(), value));
                proof {
                    let after = self.fields@;
                    assert forall|j: int| 0 <= j < i implies (#[trigger] after[j]).0@ != key@ by {
                        assert(after[j] == before[j]);
                    }
                    lemma_first_at_unique(after, key@, i as int);
                    if distinct_keys(before) {
                        assert forall|a: int, b: int| 0 <= a < b < after.len() implies (
                        #[trigger] after[a]).0@ != (#[trigger] after[b]).0@ by {
                            assert(before[a].0@ != before[b].0@);
                            assert(after[a].0@ == before[a].0@);
                            assert(after[b].0@ == before[b].0@);
                        }
                    }
                }
            },
            None => {
                let ghost before = self.fields@;
                self.fields.push((key.to_owned(), value));
                proof {
                    let after = self.fields@;
                    assert(after.drop_last() == before);
                    assert forall|j: int| 0 <= j < before.len() implies (#[trigger] after[j]).0@
                        != key@ by {
                        assert(after[j] == before[j]);
                        if before[j].0@ == key@ {
                            lemma_has_first(before, key@, j);
                        }
                    }
                    lemma_first_at_unique(after, key@, before.len() as int);
                    if distinct_keys(before) {
                        assert forall|a: int, b: int| 0 <= a < b < after.len() implies (
                        #[trigger] after[a]).0@ != (#[trigger] after[b]).0@ by {
                            if b < before.len() {
                                assert(before[a].0@ != before[b].0@);
                            }
                        }
                    }
                }
            },
        }
    }

    /// The context with the field `key` set to `value`.
    pub fn with_field(self, key: &str, value: FieldValue) -> (r: LogContext)
        ensures
            r.value_of(key@) == Some(value),
            position_of(self.entries(), key@) is Some ==> r.entries().len()
                == self.entries().len(),
            position_of(self.entries(), key@) is None ==> r.entries().drop_last()
                == self.entries() && r.entries().len() == self.entries().len() + 1,
    {
        let mut context = self;
        context.add_field(key, value);
        context
    }

    /// The fields, in the order in which their keys first came.
    pub fn fields(&self) -> (r: &Vec<(String, FieldValue)>)
        ensures
            r@ == self.entries(),
    {
        &self.fields
    }

    /// How many fields there are.
    pub fn len(&self) -> (r: usize)
        ensures
            r == self.entries().len(),
    {
        self.fields.len()
    }

    pub fn is_empty(&self) -> (r: bool)
        ensures
            r == (self.entries().len() == 0),
    {
        self.fields.len() == 0
    }

    /// The value that stands under a key.
    pub fn get(&self, key: &str) -> (r: Option<&FieldValue>)
        ensures
            match r {
                Some(v) => self.value_of(key@) == Some(*v),
                None => self.value_of(key@) is None,
            },
    {
        match self.find(key) {
            Some(i) => Some(&self.fields[i].1),
            None => None,
        }
    }

    /// Takes the field `key` out, if it is there. The other fields keep their
    /// order.
    pub fn remove(&mut self, key: &str)
        ensures
            match position_of(old(self).entries(), key@) {
                Some(i) => final(self).entries() == old(self).entries().remove(i),
                None => final(self).entries() == old(self).entries(),
            },
    {
        match self.find(key) {
            Some(i) => {
                let _ = self.fields.remove(i);
            },
            None => {},
        }
    }

    /// Takes every field out.
    pub fn clear(&mut self)
        ensures
            final(self).entries().len() == 0,
    {
        self.fields.clear();
    }

    /// Adds the fields of `defaults` whose keys are not there yet. A field
    /// that is there keeps its place and its value.
    pub fn merge_missing(&mut self, defaults: &LogContext)
        ensures
            final(self).entries() == merged(old(self).entries(), defaults.entries()),
    {
        let mut i: usize = 0;
        assert(defaults.fields@.take(0).len() == 0);
        while i < defaults.fields.len()
            invariant
                i <= defaults.fields.len(),
                self.fields@ == merged(old(self).fields@, defaults.fields@.take(i as int)),
            decreases defaults.fields.len() - i,
        {
            proof {
                let next = defaults.fields@.take(i + 1);
                assert(next.drop_last() == defaults.fields@.take(i as int));
                assert(next.last() == defaults.fields@[i as int]);
            }
            let found = self.find(defaults.fields[i].0.as_str());
            if found.is_none() {
                self.fields.push((defaults.fields[i].0.clone(), defaults.fields[i].1.clone()));
            }
            i += 1;
        }
        assert(defaults.fields@.take(defaults.fields.len() as int) == defaults.fields@);
    }

    /// The fields as `key=value`, with one space in between.
    pub fn format_fields(&self) -> (r: String)
        ensures
            r@ == fields_text(self.entries()),
    {
        let mut out = String::new();
        let mut i: usize = 0;
        while i < self.fields.len()
            invariant
                i <= self.fields.len(),
                out@ == fields_text(self.fields@.take(i as int)),
            decreases self.fields.len() - i,
        {
            let ghost before = out@;
            if i > 0 {
                out.append(" ");
            }
            out.append(self.fields[i].0.as_str());
            out.append("=");
            self.fields[i].1.write_to(&mut out);
            proof {
                let next = self.fields@.take(i + 1);
                assert(next.drop_last() == self.fields@.take(i as int));
                assert(next.last() == self.fields@[i as int]);
                if i == 0 {
                    assert(before.len() == 0);
                    assert(out@ == next[0].0@ + "="@ + next[0].1.text());
                } else {
                    assert(self.fields@.take(i as int).len() > 0);
                    assert(out@ == before + " "@ + next.last().0@ + "="@ + next.last().1.text());
                }
            }
            i += 1;
        }
        assert(self.fields@.take(self.fields.len() as int) == self.fields@);
        out
    }

    /// The fields as `key=value`, with one space in between.
    pub fn to_string(&self) -> (r: String)
        ensures
            r@ == fields_text(self.entries()),
    {
        self.format_fields()
    }
}

impl Clone for LogContext {
    fn clone(&self) -> (r: LogContext)
        ensures
            r.entries() == self.entries(),
    {
        let mut fields: Vec<(String, FieldValue)> = Vec::new();
        let mut i: usize = 0;
        while i < self.fields.len()
            invariant
                i <= self.fields.len(),
                fields@ == self.fields@.take(i as int),
            decreases self.fields.len() - i,
        {
            fields.push((self.fields[i].0.clone(), self.fields[i].1.clone()));
            assert(self.fields@.take(i + 1) == self.fields@.take(i as int).push(
                self.fields@[i as int],
            ));
            i += 1;
        }
        assert(self.fields@.take(self.fields.len() as int) == self.fields@);
        LogContext { fields }
    }
}

impl Default for LogContext {
    fn default() -> (r: LogContext)
        ensures
            r.entries().len() == 0,
            distinct_keys(r.entries()),
    {
        LogContext::new()
    }
}

} // verus!
