//! A table of texts by name.

use vstd::prelude::*;

use crate::numeral::{number, parse_number};
use crate::text;

verus! {

/// Texts by name: environment variables, or the properties of a unit.
#[derive(Debug)]
pub struct TextTable {
    entries: Vec<(String, String)>,
}

/// Whether the first entry under `name` is the one at position `i`.
spec fn named_at(entries: Seq<(String, String)>, i: int, name: Seq<char>) -> bool {
    &&& 0 <= i < entries.len()
    &&& entries[i].0@ == name
    &&& forall|j: int| 0 <= j < i ==> (#[trigger] entries[j]).0@ != name
}

impl View for TextTable {
    type V = Map<Seq<char>, Seq<char>>;

    closed spec fn view(&self) -> Map<Seq<char>, Seq<char>> {
        Map::new(
            |name: Seq<char>| exists|i: int| named_at(self.entries@, i, name),
            |name: Seq<char>| self.entries@[choose|i: int| named_at(self.entries@, i, name)].1@,
        )
    }
}

impl TextTable {
    /// An empty table.
    pub fn new() -> (r: TextTable)
        ensures
            r@ == Map::<Seq<char>, Seq<char>>::empty(),
    {
        let r = TextTable { entries: Vec::new() };
        assert(r@ =~= Map::<Seq<char>, Seq<char>>::empty());
        r
    }

    fn position(&self, name: &str) -> (r: Option<usize>)
        ensures
            match r {
                Some(i) => named_at(self.entries@, i as int, name@),
                None => forall|i: int|
                    0 <= i < self.entries@.len() ==> (#[trigger] self.entries@[i]).0@ != name@,
            },
    {
        let mut i: usize = 0;
        while i < self.entries.len()
            invariant
                i <= self.entries.len(),
                forall|j: int| 0 <= j < i ==> (#[trigger] self.entries@[j]).0@ != name@,
            decreases self.entries.len() - i,
        {
            if text::same(self.entries[i].0.as_str(), name) {
                return Some(i);
            }
            i += 1;
        }
        None
    }

    /// The text under `name`.
    pub fn get(&self, name: &str) -> (r: Option<&String>)
        ensures
            match r {
                Some(value) => self@.contains_key(name@) && self@[name@] == value@,
                None => !self@.contains_key(name@),
            },
    {
        match self.position(name) {
            Some(i) => {
                proof {
                    let k = choose|k: int| named_at(self.entries@, k, name@);
                    assert(k == i);
                }
                Some(&self.entries[i].1)
            },
            None => None,
        }
    }

    /// Puts `value` under `name`, in place of what was there.
    pub fn insert(&mut self, name: String, value: String)
        ensures
            final(self)@ == old(self)@.insert(name@, value@),
    {
        let ghost before = self.entries@;
        let ghost table = self@;
        let found = self.position(name.as_str());
        let ghost at: int;
        let ghost key = name@;
        let ghost content = value@;
        match found {
            Some(i) => {
                proof {
                    at = i as int;
                }
                self.entries.set(i, (name, value));
            },
            None => {
                proof {
                    at = before.len() as int;
                }
                self.entries.push((name, value));
            },
        }
        proof {
            let after = self.entries@;
            assert(named_at(after, at, key));
            assert forall|k: Seq<char>| k != key && #[trigger] table.contains_key(
                k,
            ) implies self@.contains_key(k) && self@[k] == table[k] by {
                let i = choose|i: int| named_at(before, i, k);
                assert(named_at(after, i, k));
                let j = choose|j: int| named_at(after, j, k);
                assert(i == j);
            }
            assert forall|k: Seq<char>| k != key && #[trigger] self@.contains_key(
                k,
            ) implies table.contains_key(k) by {
                let i = choose|i: int| named_at(after, i, k);
                assert forall|j: int| 0 <= j < i implies (#[trigger] before[j]).0@ != k by {
                    assert(after[j].0@ != k);
                }
                assert(named_at(before, i, k));
            }
            let j = choose|j: int| named_at(after, j, key);
            assert(j == at);
            assert(self@[key] == content);
            assert(self@ =~= table.insert(key, content));
        }
    }
}

/// An entry of a table, or a default.
pub open spec fn entry_or(
    table: Map<Seq<char>, Seq<char>>,
    name: Seq<char>,
    default: Seq<char>,
) -> Seq<char> {
    if table.contains_key(name) {
        table[name]
    } else {
        default
    }
}

/// An entry of a table that is a decimal number of at most `max`, or a default.
pub open spec fn number_or(
    table: Map<Seq<char>, Seq<char>>,
    name: Seq<char>,
    max: nat,
    default: nat,
) -> nat {
    if table.contains_key(name) && number(table[name], 10, max) is Some {
        number(table[name], 10, max)->0
    } else {
        default
    }
}

impl TextTable {
    /// The text under `name`, or a default.
    pub fn text_or(&self, name: &str, default: &str) -> (r: String)
        ensures
            r@ == entry_or(self@, name@, default@),
    {
        match self.get(name) {
            Some(value) => value.clone(),
            None => default.to_string(),
        }
    }

    /// The number under `name`, or a default where there is none or it is above `max`.
    pub fn number_or(&self, name: &str, max: u64, default: u64) -> (r: u64)
        ensures
            r == number_or(self@, name@, max as nat, default as nat),
            r <= max || r == default,
    {
        match self.get(name) {
            Some(value) => match parse_number(value.as_str(), 10, max) {
                Some(n) => n,
                None => default,
            },
            None => default,
        }
    }
}

/// What is put under a name is found there, in place of what was there; what stands under other names
/// stays.
pub proof fn entries_are_found_under_their_names(
    table: &mut TextTable,
    name: String,
    value: String,
    after: &TextTable,
    asked: &str,
    found: Option<&String>,
)
    requires
        call_ensures(TextTable::insert, (table, name, value), ()),
        after@ == final(table)@,
        call_ensures(TextTable::get, (after, asked), found),
    ensures
        asked@ == name@ ==> (found matches Some(text) && text@ == value@),
        asked@ != name@ ==> (found is Some <==> old(table)@.contains_key(asked@)),
        asked@ != name@ ==> (found matches Some(text) ==> text@ == old(table)@[asked@]),
{
}

/// A default stands in only for what is not there, or is no number that fits.
pub proof fn defaults_stand_in(
    table: &TextTable,
    name: &str,
    default: &str,
    text: String,
    max: u64,
    standard: u64,
    n: u64,
)
    requires
        call_ensures(TextTable::text_or, (table, name, default), text),
        call_ensures(TextTable::number_or, (table, name, max, standard), n),
    ensures
        table@.contains_key(name@) ==> text@ == table@[name@],
        !table@.contains_key(name@) ==> text@ == default@,
        !table@.contains_key(name@) ==> n == standard,
        table@.contains_key(name@) ==> match number(table@[name@], 10, max as nat) {
            Some(value) => n == value,
            None => n == standard,
        },
{
}

} // verus!
