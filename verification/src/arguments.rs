//! The arguments of a tool call: a JSON object's members, each value taken as
//! far as the tools read it.

use vstd::prelude::*;
use crate::text::{parse_u64, parse_u64_text, str_equals};

verus! {

/// A JSON value as the tools read it.
#[derive(Debug)]
pub enum ArgValue {
    Null,
    Bool(bool),
    /// A JSON number, as the unsigned integer it is read as: itself when it is
    /// a non-negative integer, otherwise its value clamped at zero and
    /// truncated toward zero (saturating at `u64::MAX`).
    Number(u64),
    Text(String),
    Array,
    Object,
}

/// The members of a tool call's argument object (none when the arguments are
/// not an object).
#[derive(Debug)]
pub struct ToolArgs {
    entries: Vec<(String, ArgValue)>,
}

/// The value of the first member of `entries` named `key`.
pub open spec fn first_value(entries: Seq<(String, ArgValue)>, key: Seq<char>) -> Option<ArgValue>
    decreases entries.len(),
{
    if entries.len() == 0 {
        None
    } else if entries[0].0@ == key {
        Some(entries[0].1)
    } else {
        first_value(entries.drop_first(), key)
    }
}

proof fn lemma_first_value_index(entries: Seq<(String, ArgValue)>, key: Seq<char>, i: int)
    requires
        0 <= i < entries.len(),
        entries[i].0@ == key,
        forall|j: int| 0 <= j < i ==> (#[trigger] entries[j]).0@ != key,
    ensures
        first_value(entries, key) == Some(entries[i].1),
    decreases i,
{
    if i > 0 {
        assert forall|j: int| 0 <= j < i - 1 implies (#[trigger] entries.drop_first()[j]).0@ != key by {
            assert(entries.drop_first()[j] == entries[j + 1]);
        }
        lemma_first_value_index(entries.drop_first(), key, i - 1);
    }
}

proof fn lemma_first_value_none(entries: Seq<(String, ArgValue)>, key: Seq<char>)
    requires
        forall|j: int| 0 <= j < entries.len() ==> (#[trigger] entries[j]).0@ != key,
    ensures
        first_value(entries, key) is None,
    decreases entries.len(),
{
    if entries.len() > 0 {
        assert forall|j: int| 0 <= j < entries.len() - 1 implies (#[trigger] entries.drop_first()[j]).0@ != key by {
            assert(entries.drop_first()[j] == entries[j + 1]);
        }
        lemma_first_value_none(entries.drop_first(), key);
    }
}

proof fn lemma_first_value_agree(a: Seq<(String, ArgValue)>, b: Seq<(String, ArgValue)>, key: Seq<char>)
    requires
        a.len() == b.len(),
        forall|j: int| 0 <= j < a.len() ==> (#[trigger] a[j]) == b[j] || (a[j].0@ != key && b[j].0@ != key),
    ensures
        first_value(a, key) == first_value(b, key),
    decreases a.len(),
{
    if a.len() > 0 {
        assert forall|j: int| 0 <= j < a.len() - 1 implies (#[trigger] a.drop_first()[j]) == b.drop_first()[j] || (
        a.drop_first()[j].0@ != key && b.drop_first()[j].0@ != key) by {
            assert(a.drop_first()[j] == a[j + 1]);
            assert(b.drop_first()[j] == b[j + 1]);
        }
        lemma_first_value_agree(a.drop_first(), b.drop_first(), key);
    }
}

proof fn lemma_first_value_push(a: Seq<(String, ArgValue)>, e: (String, ArgValue), key: Seq<char>)
    ensures
        first_value(a.push(e), key) == (if first_value(a, key) is Some {
            first_value(a, key)
        } else if e.0@ == key {
            Some(e.1)
        } else {
            None
        }),
    decreases a.len(),
{
    if a.len() > 0 {
        assert(a.push(e).drop_first() =~= a.drop_first().push(e));
        assert(a.push(e)[0] == a[0]);
        lemma_first_value_push(a.drop_first(), e, key);
    } else {
        assert(a.push(e).drop_first() =~= Seq::<(String, ArgValue)>::empty());
        assert(a.push(e)[0] == e);
        assert(first_value(a.push(e).drop_first(), key) is None);
    }
}

impl ToolArgs {
    /// The value of the member named `key`, if there is one.
    pub closed spec fn value_of(&self, key: Seq<char>) -> Option<ArgValue> {
        first_value(self.entries@, key)
    }

    /// No members.
    pub fn new() -> (a: Self)
        ensures
            forall|k: Seq<char>| (#[trigger] a.value_of(k)) is None,
    {
        ToolArgs { entries: Vec::new() }
    }

    fn position(&self, key: &str) -> (r: Option<usize>)
        ensures
            r matches Some(i) ==> i < self.entries@.len() && self.entries@[i as int].0@ == key@
                && first_value(self.entries@, key@) == Some(self.entries@[i as int].1)
                && forall|j: int| 0 <= j < i ==> (#[trigger] self.entries@[j]).0@ != key@,
            r is None ==> first_value(self.entries@, key@) is None,
    {
        let mut i: usize = 0;
        while i < self.entries.len()
            invariant
                i <= self.entries@.len(),
                forall|j: int| 0 <= j < i ==> (#[trigger] self.entries@[j]).0@ != key@,
            decreases self.entries@.len() - i,
        {
            if str_equals(self.entries[i].0.as_str(), key) {
                proof {
                    lemma_first_value_index(self.entries@, key@, i as int);
                }
                return Some(i);
            }
            i = i + 1;
        }
        proof {
            lemma_first_value_none(self.entries@, key@);
        }
        None
    }

    /// Set the member `key` to `value`, replacing any earlier value.
    pub fn set(&mut self, key: &str, value: ArgValue)
        ensures
            final(self).value_of(key@) == Some(value),
            forall|k: Seq<char>| k != key@ ==> #[trigger] final(self).value_of(k) == old(self).value_of(k),
    {
        let ghost old_entries = self.entries@;
        match self.position(key) {
            Some(i) => {
                self.entries.set(i, (String::from_str(key), value));
                proof {
                    assert forall|j: int| 0 <= j < i implies (#[trigger] self.entries@[j]).0@ != key@ by {
                        assert(self.entries@[j] == old_entries[j]);
                    }
                    lemma_first_value_index(self.entries@, key@, i as int);
                    assert forall|k: Seq<char>| k != key@ implies #[trigger] first_value(self.entries@, k)
                        == first_value(old_entries, k) by {
                        lemma_first_value_agree(self.entries@, old_entries, k);
                    }
                }
            },
            None => {
                self.entries.push((String::from_str(key), value));
                proof {
                    assert forall|k: Seq<char>| k != key@ implies #[trigger] first_value(self.entries@, k)
                        == first_value(old_entries, k) by {
                        lemma_first_value_push(old_entries, self.entries@.last(), k);
                        assert(self.entries@ == old_entries.push(self.entries@.last()));
                    }
                    lemma_first_value_push(old_entries, self.entries@.last(), key@);
                    assert(self.entries@ == old_entries.push(self.entries@.last()));
                }
            },
        }
    }

    /// The value of the member named `key`, if there is one.
    pub fn get(&self, key: &str) -> (r: Option<&ArgValue>)
        ensures
            r matches Some(v) ==> self.value_of(key@) == Some(*v),
            r is None ==> self.value_of(key@) is None,
    {
        match self.position(key) {
            Some(i) => Some(&self.entries[i].1),
            None => None,
        }
    }
}

/// The text of the member `key`, if it is a string.
pub open spec fn arg_text(args: &ToolArgs, key: Seq<char>) -> Option<Seq<char>> {
    match args.value_of(key) {
        Some(ArgValue::Text(t)) => Some(t@),
        _ => None,
    }
}

/// The text of the member `key`, if it is a non-empty string.
pub open spec fn nonempty_text(args: &ToolArgs, key: Seq<char>) -> Option<Seq<char>> {
    match arg_text(args, key) {
        Some(t) => if t.len() > 0 { Some(t) } else { None },
        None => None,
    }
}

/// The member `key`, if it is a boolean.
pub open spec fn arg_bool(args: &ToolArgs, key: Seq<char>) -> Option<bool> {
    match args.value_of(key) {
        Some(ArgValue::Bool(b)) => Some(b),
        _ => None,
    }
}

/// The member `key` as an unsigned integer: a number as it is read, or a
/// string that parses as a decimal `u64`.
pub open spec fn arg_u64(args: &ToolArgs, key: Seq<char>) -> Option<u64> {
    match args.value_of(key) {
        Some(ArgValue::Number(n)) => Some(n),
        Some(ArgValue::Text(t)) => parse_u64_text(t@),
        _ => None,
    }
}

/// Optional string argument.
pub fn get_str<'a>(args: &'a ToolArgs, key: &str) -> (r: Option<&'a str>)
    ensures
        r is Some <==> arg_text(args, key@) is Some,
        r is Some ==> r->Some_0@ == arg_text(args, key@)->Some_0,
{
    match args.get(key) {
        Some(ArgValue::Text(t)) => Some(t.as_str()),
        _ => None,
    }
}

/// Optional boolean argument.
pub fn get_bool(args: &ToolArgs, key: &str) -> (r: Option<bool>)
    ensures
        r == arg_bool(args, key@),
{
    match args.get(key) {
        Some(ArgValue::Bool(b)) => Some(*b),
        _ => None,
    }
}

/// Optional unsigned-integer argument, accepting JSON numbers and numeric
/// strings.
pub fn get_u64(args: &ToolArgs, key: &str) -> (r: Option<u64>)
    ensures
        r == arg_u64(args, key@),
{
    match args.get(key) {
        Some(ArgValue::Number(n)) => Some(*n),
        Some(ArgValue::Text(t)) => parse_u64(t.as_str()),
        _ => None,
    }
}

} // verus!
