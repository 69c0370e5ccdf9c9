//! The structured fields of an event, rendered to text.

use vstd::prelude::*;

verus! {

/// One field as it was visited: its name and its rendered value.
struct Field {
    name: String,
    value: String,
}

/// The mapping from field names to rendered values that a list of visits
/// amounts to: a later visit of a name replaces an earlier one.
spec fn fields_map(entries: Seq<Field>) -> Map<Seq<char>, Seq<char>>
    decreases entries.len(),
{
    if entries.len() == 0 {
        Map::empty()
    } else {
        fields_map(entries.drop_last()).insert(entries.last().name@, entries.last().value@)
    }
}

/// A name that no entry at or after `from` carries is mapped as the entries
/// before `from` map it.
proof fn lemma_fields_map_suffix(entries: Seq<Field>, from: int, name: Seq<char>)
    requires
        0 <= from <= entries.len(),
        forall|j: int| from <= j < entries.len() ==> entries[j].name@ != name,
    ensures
        fields_map(entries).contains_key(name) == fields_map(entries.take(from)).contains_key(
            name,
        ),
        fields_map(entries).contains_key(name) ==> fields_map(entries)[name] == fields_map(
            entries.take(from),
        )[name],
    decreases entries.len() - from,
{
    if from == entries.len() {
        assert(entries.take(from) =~= entries);
    } else {
        let shorter = entries.drop_last();
        lemma_fields_map_suffix(shorter, from, name);
        assert(shorter.take(from) =~= entries.take(from));
    }
}

/// Collects the fields of one event as they are visited.
///
/// Its view maps each visited name to the value it was last visited with.
pub struct FieldVisitor {
    entries: Vec<Field>,
}

impl View for FieldVisitor {
    type V = Map<Seq<char>, Seq<char>>;

    closed spec fn view(&self) -> Map<Seq<char>, Seq<char>> {
        fields_map(self.entries@)
    }
}

impl FieldVisitor {
    /// Makes a visitor that has seen no field.
    pub fn new() -> (visitor: Self)
        ensures
            visitor@ == Map::<Seq<char>, Seq<char>>::empty(),
    {
        FieldVisitor { entries: Vec::new() }
    }

    /// Notes that the field `name` was visited with the rendered value
    /// `rendered`.
    pub fn record_debug(&mut self, name: &str, rendered: String)
        ensures
            final(self)@ == old(self)@.insert(name@, rendered@),
    {
        let field = Field { name: name.to_owned(), value: rendered };
        self.entries.push(field);
        assert(self.entries@.drop_last() =~= old(self).entries@);
    }

    /// Returns the rendered value of the field `name`, if it was visited.
    pub fn get(&self, name: &str) -> (found: Option<&String>)
        ensures
            match found {
                Some(value) => self@.contains_key(name@) && value@ == self@[name@],
                None => !self@.contains_key(name@),
            },
    {
        let key = name.to_owned();
        let mut i: usize = self.entries.len();
        while i > 0
            invariant
                i <= self.entries@.len(),
                key@ == name@,
                forall|j: int| i <= j < self.entries@.len() ==> self.entries@[j].name@ != name@,
            decreases i,
        {
            i -= 1;
            if self.entries[i].name == key {
                proof {
                    lemma_fields_map_suffix(self.entries@, i + 1, name@);
                }
                return Some(&self.entries[i].value);
            }
        }
        proof {
            lemma_fields_map_suffix(self.entries@, 0, name@);
        }
        None
    }
}

} // verus!
