//! A store of named options, string- and integer-valued, modeled as a value:
//! the host keeps one and mirrors it into the native layer. Its view is the
//! map from option name to value text; setting a name again overrides the
//! earlier value. An integer is stored as its canonical decimal text, and an
//! integer read of a non-numeric value yields zero, as the native read does.
//!
//! A name or value travels to the native layer as a C string, which cannot
//! hold a NUL character; text with one has no representation there and the
//! native binding refuses it, so every operation here asks its caller to
//! keep NUL out.

use vstd::prelude::*;

use crate::decimal::{
    dec_int, format_i32, lemma_format_parse_round_trip, parse_i32, spec_parse_i32,
};

verus! {

/// Whether text is free of the NUL character, as a C string must be.
pub open spec fn nul_free(s: Seq<char>) -> bool {
    forall|i: int| 0 <= i < s.len() ==> (#[trigger] s[i]) != '\0'
}

/// The map a list of (name, value) settings amounts to, later settings
/// overriding earlier ones.
pub open spec fn entries_map(names: Seq<String>, values: Seq<String>) -> Map<Seq<char>, Seq<char>>
    decreases names.len(),
{
    if names.len() == 0 || values.len() == 0 {
        Map::empty()
    } else {
        entries_map(names.drop_last(), values.drop_last()).insert(
            names.last()@,
            values.last()@,
        )
    }
}

/// No setting of a name means no entry under it.
proof fn lemma_entries_absent(names: Seq<String>, values: Seq<String>, k: Seq<char>)
    requires
        names.len() == values.len(),
        forall|j: int| 0 <= j < names.len() ==> (#[trigger] names[j])@ != k,
    ensures
        !entries_map(names, values).contains_key(k),
    decreases names.len(),
{
    if names.len() > 0 {
        assert(forall|j: int| 0 <= j < names.len() - 1 ==> names.drop_last()[j] == names[j]);
        lemma_entries_absent(names.drop_last(), values.drop_last(), k);
    }
}

/// The entry under a name is the value of its last setting.
proof fn lemma_entries_lookup(names: Seq<String>, values: Seq<String>, i: int, k: Seq<char>)
    requires
        names.len() == values.len(),
        0 <= i < names.len(),
        names[i]@ == k,
        forall|j: int| i < j < names.len() ==> (#[trigger] names[j])@ != k,
    ensures
        entries_map(names, values).contains_key(k),
        entries_map(names, values)[k] == values[i]@,
    decreases names.len(),
{
    assert(forall|j: int| 0 <= j < names.len() - 1 ==> names.drop_last()[j] == names[j]);
    assert(forall|j: int| 0 <= j < values.len() - 1 ==> values.drop_last()[j] == values[j]);
    if i == names.len() - 1 {
    } else {
        lemma_entries_lookup(names.drop_last(), values.drop_last(), i, k);
    }
}

/// The option store.
#[derive(Debug)]
pub struct SystemOptions {
    names: Vec<String>,
    values: Vec<String>,
}

impl View for SystemOptions {
    type V = Map<Seq<char>, Seq<char>>;

    closed spec fn view(&self) -> Map<Seq<char>, Seq<char>> {
        entries_map(self.names@, self.values@)
    }
}

impl SystemOptions {
    /// One value text per name text.
    pub closed spec fn wf(&self) -> bool {
        self.names@.len() == self.values@.len()
    }

    /// An empty store.
    pub fn new() -> (r: SystemOptions)
        ensures
            r.wf(),
            r@ == Map::<Seq<char>, Seq<char>>::empty(),
    {
        SystemOptions { names: Vec::new(), values: Vec::new() }
    }

    /// Sets an option to the given text, overriding any earlier setting.
    pub fn set_option_by_string(&mut self, name: &str, value: &str)
        requires
            old(self).wf(),
            nul_free(name@),
            nul_free(value@),
        ensures
            final(self).wf(),
            final(self)@ == old(self)@.insert(name@, value@),
    {
        self.names.push(name.to_owned());
        self.values.push(value.to_owned());
        proof {
            assert(self.names@.drop_last() =~= old(self).names@);
            assert(self.values@.drop_last() =~= old(self).values@);
        }
    }

    /// Sets an option to an integer, stored as its canonical decimal text.
    pub fn set_option_by_int(&mut self, name: &str, value: i32)
        requires
            old(self).wf(),
            nul_free(name@),
        ensures
            final(self).wf(),
            final(self)@ == old(self)@.insert(name@, dec_int(value as int)),
    {
        let text = format_i32(value);
        self.names.push(name.to_owned());
        self.values.push(text);
        proof {
            assert(self.names@.drop_last() =~= old(self).names@);
            assert(self.values@.drop_last() =~= old(self).values@);
        }
    }

    /// The text an option is set to; absent when the name was never set.
    pub fn get_option_by_string(&self, name: &str) -> (r: Option<String>)
        requires
            self.wf(),
            nul_free(name@),
        ensures
            match r {
                Some(v) => self@.contains_key(name@) && self@[name@] == v@,
                None => !self@.contains_key(name@),
            },
    {
        let key: String = name.to_owned();
        let mut i = self.names.len();
        while i > 0
            invariant
                self.wf(),
                i <= self.names@.len(),
                key@ == name@,
                forall|j: int| i <= j < self.names@.len() ==> (#[trigger] self.names@[j])@ != name@,
            decreases i,
        {
            i = i - 1;
            if key.eq(&self.names[i]) {
                proof {
                    lemma_entries_lookup(self.names@, self.values@, i as int, name@);
                }
                return Some((&self.values[i]).clone());
            }
        }
        proof {
            lemma_entries_absent(self.names@, self.values@, name@);
        }
        None
    }

    /// The integer an option reads as: the value of its text when that text
    /// is sign-and-digits within the 32-bit range, zero on any other text,
    /// absent when the name was never set.
    pub fn get_option_by_int(&self, name: &str) -> (r: Option<i32>)
        requires
            self.wf(),
            nul_free(name@),
        ensures
            !self@.contains_key(name@) ==> r is None,
            self@.contains_key(name@) ==> match spec_parse_i32(self@[name@]) {
                Some(v) => r == Some(v as i32),
                None => r == Some(0i32),
            },
    {
        match self.get_option_by_string(name) {
            None => None,
            Some(text) => match parse_i32(text.as_str()) {
                Some(v) => Some(v),
                None => Some(0),
            },
        }
    }
}

/// Setting an option to an integer and reading it as an integer gives the
/// integer back, whatever the store held before.
pub proof fn lemma_int_option_round_trip(
    store: Map<Seq<char>, Seq<char>>,
    name: Seq<char>,
    v: int,
)
    requires
        i32::MIN <= v <= i32::MAX,
    ensures
        store.insert(name, dec_int(v)).contains_key(name),
        spec_parse_i32(store.insert(name, dec_int(v))[name]) == Some(v),
{
    lemma_format_parse_round_trip(v);
}

} // verus!
