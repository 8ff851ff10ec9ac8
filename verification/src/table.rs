//! A small read-mostly table from text to text, viewed as a map.
//!
//! The table keeps its rows in the order in which they were inserted. A row
//! inserted later replaces an earlier one with the same key, so the table
//! reads as the map that the same insertions would build.

use vstd::prelude::*;

use crate::text::str_eq;

verus! {

/// The map that a sequence of insertions builds, the last insertion of a key
/// winning.
pub open spec fn rows_map(rows: Seq<(&'static str, &'static str)>) -> Map<Seq<char>, Seq<char>>
    decreases rows.len(),
{
    if rows.len() == 0 {
        Map::empty()
    } else {
        rows_map(rows.drop_last()).insert(rows.last().0@, rows.last().1@)
    }
}

/// A table from text to text over string constants.
pub struct StrTable {
    rows: Vec<(&'static str, &'static str)>,
}

impl View for StrTable {
    type V = Map<Seq<char>, Seq<char>>;

    closed spec fn view(&self) -> Map<Seq<char>, Seq<char>> {
        rows_map(self.rows@)
    }
}

impl StrTable {
    /// The empty table.
    pub fn new() -> (table: StrTable)
        ensures
            table@ == Map::<Seq<char>, Seq<char>>::empty(),
    {
        StrTable { rows: Vec::new() }
    }

    /// Maps `key` to `value`, replacing what `key` was mapped to before.
    pub fn insert(&mut self, key: &'static str, value: &'static str)
        ensures
            final(self)@ == old(self)@.insert(key@, value@),
    {
        self.rows.push((key, value));
        proof {
            assert(self.rows@.drop_last() =~= old(self).rows@);
        }
    }

    /// What `key` is mapped to, if anything.
    pub fn get(&self, key: &str) -> (found: Option<&'static str>)
        ensures
            match found {
                Some(value) => self@.contains_key(key@) && self@[key@] == value@,
                None => !self@.contains_key(key@),
            },
    {
        let mut i: usize = self.rows.len();
        assert(self.rows@.take(i as int) =~= self.rows@);
        while i > 0
            invariant
                i <= self.rows.len(),
                self@.contains_key(key@) == rows_map(self.rows@.take(i as int)).contains_key(
                    key@,
                ),
                self@.contains_key(key@) ==> self@[key@] == rows_map(self.rows@.take(i as int))[key@],
            decreases i,
        {
            i -= 1;
            let row = self.rows[i];
            proof {
                let head = self.rows@.take(i + 1);
                assert(head.drop_last() =~= self.rows@.take(i as int));
                assert(head.last() == row);
            }
            if str_eq(row.0, key) {
                return Some(row.1);
            }
        }
        None
    }
}

} // verus!
