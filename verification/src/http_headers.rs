//! A header container: a mapping of header name to value.
//!
//! The container keeps one entry per name; inserting an existing name
//! overwrites its value. Whether a name or a value is acceptable on the wire
//! is decided by the transport engine's own validators, reached through
//! trusted wrappers.

use vstd::prelude::*;

verus! {

/// Whether a string is a valid HTTP header name, as the engine's validator
/// decides it.
pub uninterp spec fn header_name_ok(name: Seq<char>) -> bool;

/// Whether a string is a valid HTTP header value, as the engine's validator
/// decides it.
pub uninterp spec fn header_value_ok(value: Seq<char>) -> bool;

/// Relies on reqwest::header::HeaderName::from_bytes (the http crate's
/// validator): whether it accepts a name is a function of the string alone.
#[verifier::external_body]
pub(crate) fn check_header_name(name: &str) -> (r: bool)
    ensures
        r == header_name_ok(name@),
{
    reqwest::header::HeaderName::from_bytes(name.as_bytes()).is_ok()
}

/// Relies on reqwest::header::HeaderValue::from_str (the http crate's
/// validator): whether it accepts a value is a function of the string alone.
#[verifier::external_body]
pub(crate) fn check_header_value(value: &str) -> (r: bool)
    ensures
        r == header_value_ok(value@),
{
    reqwest::header::HeaderValue::from_str(value).is_ok()
}

/// No two entries of the sequence share a header name.
pub open spec fn keys_unique(entries: Seq<(String, String)>) -> bool {
    forall|i: int, j: int|
        0 <= i < j < entries.len() ==> entries[i].0@ != entries[j].0@
}

/// The mapping a sequence of entries stands for; a later entry wins over an
/// earlier one of the same name.
spec fn map_of(entries: Seq<(String, String)>) -> Map<Seq<char>, Seq<char>>
    decreases entries.len(),
{
    if entries.len() == 0 {
        Map::empty()
    } else {
        map_of(entries.drop_last()).insert(entries.last().0@, entries.last().1@)
    }
}

proof fn lemma_map_of_index(entries: Seq<(String, String)>, i: int)
    requires
        0 <= i < entries.len(),
        forall|j: int| i < j < entries.len() ==> entries[j].0@ != entries[i].0@,
    ensures
        map_of(entries).contains_key(entries[i].0@),
        map_of(entries)[entries[i].0@] == entries[i].1@,
    decreases entries.len(),
{
    if i < entries.len() - 1 {
        lemma_map_of_index(entries.drop_last(), i);
    }
}

proof fn lemma_map_of_absent(entries: Seq<(String, String)>, name: Seq<char>)
    requires
        forall|i: int| 0 <= i < entries.len() ==> entries[i].0@ != name,
    ensures
        !map_of(entries).contains_key(name),
    decreases entries.len(),
{
    if entries.len() > 0 {
        lemma_map_of_absent(entries.drop_last(), name);
    }
}

proof fn lemma_map_of_update(entries: Seq<(String, String)>, i: int, entry: (String, String))
    requires
        0 <= i < entries.len(),
        keys_unique(entries),
        entry.0@ == entries[i].0@,
    ensures
        map_of(entries.update(i, entry)) =~= map_of(entries).insert(entry.0@, entry.1@),
    decreases entries.len(),
{
    let updated = entries.update(i, entry);
    if i == entries.len() - 1 {
        assert(updated.drop_last() =~= entries.drop_last());
    } else {
        assert(updated.drop_last() =~= entries.drop_last().update(i, entry));
        lemma_map_of_update(entries.drop_last(), i, entry);
    }
}

/// A mapping of header name to header value.
#[derive(Debug)]
pub struct HttpHeaders {
    entries: Vec<(String, String)>,
}

impl View for HttpHeaders {
    type V = Map<Seq<char>, Seq<char>>;

    closed spec fn view(&self) -> Map<Seq<char>, Seq<char>> {
        map_of(self.entries@)
    }
}

impl Default for HttpHeaders {
    /// The empty container.
    fn default() -> (r: Self)
        ensures
            r@ == Map::<Seq<char>, Seq<char>>::empty(),
    {
        HttpHeaders::new()
    }
}

impl HttpHeaders {
    #[verifier::type_invariant]
    spec fn wf(self) -> bool {
        keys_unique(self.entries@)
    }

    /// An empty header container.
    pub fn new() -> (r: Self)
        ensures
            r@ == Map::<Seq<char>, Seq<char>>::empty(),
    {
        Self { entries: Vec::new() }
    }

    /// Set a header, overwriting the value its name had before.
    pub fn insert(&mut self, key: &str, value: &str)
        ensures
            final(self)@ == old(self)@.insert(key@, value@),
    {
        proof {
            use_type_invariant(&*self);
        }
        let ghost orig: Seq<(String, String)> = self.entries@;
        let mut entries: Vec<(String, String)> = Vec::new();
        std::mem::swap(&mut entries, &mut self.entries);
        let key_string: String = key.to_owned();
        let value_string: String = value.to_owned();
        let n = entries.len();
        let mut i: usize = 0;
        while i < n
            invariant
                i <= n,
                n == entries.len(),
                entries@ == orig,
                keys_unique(orig),
                old(self)@ == map_of(orig),
                forall|j: int| 0 <= j < i ==> orig[j].0@ != key@,
                key_string@ == key@,
                value_string@ == value@,
            decreases n - i,
        {
            if entries[i].0 == key_string {
                let ghost new_entry: (String, String) = (key_string, value_string);
                entries.set(i, (key_string, value_string));
                proof {
                    lemma_map_of_update(orig, i as int, new_entry);
                    assert(entries@ == orig.update(i as int, new_entry));
                    assert(map_of(entries@) =~= map_of(orig).insert(key@, value@));
                    assert(keys_unique(entries@));
                }
                std::mem::swap(&mut entries, &mut self.entries);
                proof {
                    assert(self@ =~= map_of(orig).insert(key@, value@));
                }
                return ;
            }
            i += 1;
        }
        entries.push((key_string, value_string));
        proof {
            assert(entries@.drop_last() =~= orig);
            assert(keys_unique(entries@));
            assert(map_of(entries@) =~= map_of(orig).insert(key@, value@));
        }
        std::mem::swap(&mut entries, &mut self.entries);
        proof {
            assert(self@ =~= map_of(orig).insert(key@, value@));
        }
    }

    /// Look a header up by its exact name.
    pub fn get(&self, key: &str) -> (r: Option<&String>)
        ensures
            match r {
                Some(v) => self@.contains_key(key@) && self@[key@] == v@,
                None => !self@.contains_key(key@),
            },
    {
        proof {
            use_type_invariant(&*self);
        }
        let key_string: String = key.to_owned();
        let n = self.entries.len();
        let mut i: usize = 0;
        while i < n
            invariant
                i <= n,
                n == self.entries.len(),
                keys_unique(self.entries@),
                forall|j: int| 0 <= j < i ==> self.entries@[j].0@ != key@,
                key_string@ == key@,
            decreases n - i,
        {
            if self.entries[i].0 == key_string {
                proof {
                    lemma_map_of_index(self.entries@, i as int);
                }
                return Some(&self.entries[i].1);
            }
            i += 1;
        }
        proof {
            lemma_map_of_absent(self.entries@, key@);
        }
        None
    }

    /// The entries, one per name, in the container's own order.
    pub fn entries(&self) -> (r: &Vec<(String, String)>)
        ensures
            keys_unique(r@),
            forall|i: int|
                0 <= i < r@.len() ==> self@.contains_key(#[trigger] r@[i].0@) && self@[r@[i].0@]
                    == r@[i].1@,
            forall|k: Seq<char>|
                self@.contains_key(k) ==> exists|i: int| 0 <= i < r@.len() && (#[trigger] r@[i].0@)
                    == k,
    {
        proof {
            use_type_invariant(&*self);
            assert forall|i: int| 0 <= i < self.entries@.len() implies self@.contains_key(
                #[trigger] self.entries@[i].0@,
            ) && self@[self.entries@[i].0@] == self.entries@[i].1@ by {
                lemma_map_of_index(self.entries@, i);
            }
            assert forall|k: Seq<char>| self@.contains_key(k) implies exists|i: int|
                0 <= i < self.entries@.len() && (#[trigger] self.entries@[i].0@) == k by {
                if forall|i: int| 0 <= i < self.entries@.len() ==> (#[trigger] self.entries@[i].0@)
                    != k {
                    lemma_map_of_absent(self.entries@, k);
                }
            }
        }
        &self.entries
    }

    /// The entries whose name and value the engine's validators both accept;
    /// an entry either validator refuses is left out, as the engine-side
    /// conversion drops it.
    pub fn valid_entries(&self) -> (r: Vec<(String, String)>)
        ensures
            keys_unique(r@),
            forall|i: int|
                0 <= i < r@.len() ==> header_name_ok((#[trigger] r@[i]).0@) && header_value_ok(
                    r@[i].1@,
                ) && self@.contains_key(r@[i].0@) && self@[r@[i].0@] == r@[i].1@,
            forall|k: Seq<char>|
                self@.contains_key(k) && header_name_ok(k) && header_value_ok(self@[k])
                    ==> exists|i: int| 0 <= i < r@.len() && (#[trigger] r@[i]).0@ == k,
    {
        proof {
            use_type_invariant(&*self);
        }
        let mut out: Vec<(String, String)> = Vec::new();
        let n = self.entries.len();
        let mut i: usize = 0;
        while i < n
            invariant
                i <= n,
                n == self.entries.len(),
                keys_unique(self.entries@),
                self@ == map_of(self.entries@),
                keys_unique(out@),
                forall|x: int|
                    0 <= x < out@.len() ==> header_name_ok((#[trigger] out@[x]).0@)
                        && header_value_ok(out@[x].1@) && exists|y: int|
                        0 <= y < i && self.entries@[y] == out@[x],
                forall|y: int|
                    0 <= y < i && header_name_ok((#[trigger] self.entries@[y]).0@)
                        && header_value_ok(self.entries@[y].1@) ==> exists|x: int|
                        0 <= x < out@.len() && out@[x] == self.entries@[y],
            decreases n - i,
        {
            let ghost before: Seq<(String, String)> = out@;
            let name_ok = check_header_name(self.entries[i].0.as_str());
            let value_ok = check_header_value(self.entries[i].1.as_str());
            if name_ok && value_ok {
                let k: String = self.entries[i].0.clone();
                let v: String = self.entries[i].1.clone();
                out.push((k, v));
            }
            proof {
                if name_ok && value_ok {
                    assert(out@ == before.push(self.entries@[i as int]));
                    assert(out@[before.len() as int] == self.entries@[i as int]);
                } else {
                    assert(out@ == before);
                }
                assert forall|x: int| 0 <= x < out@.len() implies header_name_ok(
                    (#[trigger] out@[x]).0@,
                ) && header_value_ok(out@[x].1@) && (exists|y: int|
                    0 <= y < i + 1 && self.entries@[y] == out@[x]) by {
                    if x < before.len() {
                        assert(out@[x] == before[x]);
                        assert(out@[x].0@ == before[x].0@);
                        let y = choose|y: int| 0 <= y < i && self.entries@[y] == before[x];
                        assert(0 <= y < i + 1 && self.entries@[y] == out@[x]);
                    } else {
                        assert(out@[x] == self.entries@[i as int]);
                        assert(0 <= i && i < i + 1 && self.entries@[i as int] == out@[x]);
                    }
                }
                assert forall|x1: int, x2: int| 0 <= x1 < x2 < out@.len() implies out@[x1].0@
                    != out@[x2].0@ by {
                    let y1 = choose|y: int| 0 <= y < i + 1 && self.entries@[y] == out@[x1];
                    let y2 = choose|y: int| 0 <= y < i + 1 && self.entries@[y] == out@[x2];
                    if x2 < before.len() {
                        assert(before[x1].0@ != before[x2].0@);
                        assert(out@[x1] == before[x1] && out@[x2] == before[x2]);
                    } else {
                        assert(out@[x2] == self.entries@[i as int]);
                        assert(out@[x1] == before[x1]);
                        assert(out@[x1].0@ == before[x1].0@);
                        let y = choose|y: int| 0 <= y < i && self.entries@[y] == before[x1];
                        assert(self.entries@[y] == before[x1]);
                        assert(self.entries@[y].0@ != self.entries@[i as int].0@);
                    }
                }
                assert(keys_unique(out@));
                assert forall|y: int|
                    0 <= y < i + 1 && header_name_ok((#[trigger] self.entries@[y]).0@)
                        && header_value_ok(self.entries@[y].1@) implies exists|x: int|
                    0 <= x < out@.len() && out@[x] == self.entries@[y] by {
                    if y == i as int {
                        assert(name_ok && value_ok);
                        assert(out@[before.len() as int] == self.entries@[y]);
                    } else {
                        let x = choose|x: int|
                            0 <= x < before.len() && before[x] == self.entries@[y];
                        assert(out@[x] == self.entries@[y]);
                    }
                }
            }
            i += 1;
        }
        proof {
            assert(i == n);
            assert forall|x: int| 0 <= x < out@.len() implies header_name_ok(
                (#[trigger] out@[x]).0@,
            ) && header_value_ok(out@[x].1@) && self@.contains_key(out@[x].0@) && self@[out@[x].0@]
                == out@[x].1@ by {
                let y = choose|y: int| 0 <= y < i && self.entries@[y] == out@[x];
                assert(self.entries@[y] == out@[x]);
                assert forall|j: int| y < j < self.entries@.len() implies self.entries@[j].0@
                    != self.entries@[y].0@ by {
                    assert(keys_unique(self.entries@));
                }
                lemma_map_of_index(self.entries@, y);
            }
            assert forall|k: Seq<char>|
                self@.contains_key(k) && header_name_ok(k) && header_value_ok(
                    self@[k],
                ) implies exists|x: int| 0 <= x < out@.len() && (#[trigger] out@[x].0@) == k by {
                if forall|y: int| 0 <= y < i ==> (#[trigger] self.entries@[y].0@) != k {
                    lemma_map_of_absent(self.entries@, k);
                } else {
                    let y = choose|y: int| 0 <= y < i && (#[trigger] self.entries@[y].0@) == k;
                    lemma_map_of_index(self.entries@, y);
                    let x = choose|x: int| 0 <= x < out@.len() && out@[x] == self.entries@[y];
                    assert(out@[x].0@ == k);
                }
            }
        }
        out
    }
}

} // verus!
