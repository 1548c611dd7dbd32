//! Container label sets, the source of truth for what gets proxied.
//!
//! A label set is kept as the list of name/value pairs the runtime reported,
//! looked up by name; the first pair with a matching name wins.

use vstd::prelude::*;

verus! {

/// One container label.
#[derive(Debug)]
pub struct Label {
    pub name: String,
    pub value: String,
}

/// The labels of one container or event actor.
#[derive(Debug)]
pub struct LabelMap {
    pub entries: Vec<Label>,
}

/// First-match lookup over a label list.
pub open spec fn spec_get(entries: Seq<Label>, key: Seq<char>) -> Option<Seq<char>>
    decreases entries.len(),
{
    if entries.len() == 0 {
        None
    } else if entries[0].name@ == key {
        Some(entries[0].value@)
    } else {
        spec_get(entries.drop_first(), key)
    }
}

impl Label {
    /// A field-for-field copy.
    pub fn duplicate(&self) -> (r: Label)
        ensures
            r == *self,
    {
        Label { name: self.name.clone(), value: self.value.clone() }
    }
}

impl LabelMap {
    /// What this label set associates with `key`, if anything.
    pub open spec fn spec_lookup(&self, key: Seq<char>) -> Option<Seq<char>> {
        spec_get(self.entries@, key)
    }

    pub fn new() -> (r: LabelMap)
        ensures
            r.entries@.len() == 0,
    {
        LabelMap { entries: Vec::new() }
    }

    /// Appends a pair; an earlier pair with the same name keeps priority.
    pub fn push(&mut self, name: String, value: String)
        ensures
            final(self).entries@ == old(self).entries@.push(Label { name, value }),
    {
        self.entries.push(Label { name, value });
    }

    pub fn get(&self, key: &str) -> (r: Option<&String>)
        ensures
            match r {
                Some(v) => self.spec_lookup(key@) == Some(v@),
                None => self.spec_lookup(key@) is None,
            },
    {
        let n = self.entries.len();
        let mut i: usize = 0;
        proof {
            assert(self.entries@.skip(0) =~= self.entries@);
        }
        while i < n
            invariant
                0 <= i <= n,
                n == self.entries@.len(),
                spec_get(self.entries@, key@) == spec_get(self.entries@.skip(i as int), key@),
                forall|k: int| 0 <= k < i ==> (#[trigger] self.entries@[k]).name@ != key@,
            decreases n - i,
        {
            let e = &self.entries[i];
            proof {
                assert(self.entries@.skip(i as int)[0] == self.entries@[i as int]);
                assert(self.entries@.skip(i as int).drop_first() =~= self.entries@.skip(i + 1));
            }
            if crate::strutil::str_eq(e.name.as_str(), key) {
                return Some(&self.entries[i].value);
            }
            i = i + 1;
        }
        proof {
            assert(self.entries@.skip(n as int) =~= Seq::<Label>::empty());
        }
        None
    }

    /// Whether the set carries a label with this name.
    pub fn contains(&self, key: &str) -> (r: bool)
        ensures
            r == (self.spec_lookup(key@) is Some),
    {
        match self.get(key) {
            Some(_) => true,
            None => false,
        }
    }

    /// An entry-for-entry copy.
    pub fn duplicate(&self) -> (r: LabelMap)
        ensures
            r.entries@ == self.entries@,
    {
        let n = self.entries.len();
        let mut out: Vec<Label> = Vec::new();
        let mut i: usize = 0;
        while i < n
            invariant
                0 <= i <= n,
                n == self.entries@.len(),
                out@ == self.entries@.take(i as int),
            decreases n - i,
        {
            out.push(self.entries[i].duplicate());
            proof {
                assert(self.entries@.take(i + 1) =~= self.entries@.take(i as int).push(
                    self.entries@[i as int],
                ));
            }
            i = i + 1;
        }
        proof {
            assert(self.entries@.take(n as int) =~= self.entries@);
        }
        LabelMap { entries: out }
    }
}

} // verus!
