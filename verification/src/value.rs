//! A structured value: the payload stored in the cache.

use crate::assoc::{absent_from, assoc_map, lemma_assoc_contains, lemma_assoc_last, lemma_assoc_push, lemma_assoc_update};
use vstd::prelude::*;

verus! {

/// A number as it appears in structured text.
#[derive(Debug, Clone, Copy, PartialEq, Eq, Structural)]
pub enum Number {
    /// A non-negative integer.
    PosInt(u64),
    /// A negative integer.
    NegInt(i64),
    /// A binary64 value, held by its bit pattern.
    Float(u64),
}

/// One named member of an object.
#[derive(Debug, PartialEq, Eq)]
pub struct Member {
    pub key: String,
    pub value: Value,
}

/// A tree of null, booleans, numbers, strings, arrays and string-keyed objects.
///
/// An object is kept as a list of members; where a key occurs more than once
/// the last member counts.
#[derive(Debug, PartialEq, Eq)]
pub enum Value {
    Null,
    Bool(bool),
    Number(Number),
    String(String),
    Array(Vec<Value>),
    Object(Vec<Member>),
}

/// The mathematical content of a [`Value`].
pub enum ValueView {
    Null,
    Bool(bool),
    Number(Number),
    String(Seq<char>),
    Array(Seq<ValueView>),
    Object(Map<Seq<char>, ValueView>),
}

impl ValueView {
    /// The empty object.
    pub open spec fn empty_object() -> ValueView {
        ValueView::Object(Map::empty())
    }

    /// The member `key` of an object; nothing for a missing key or a value
    /// that is no object.
    pub open spec fn get(self, key: Seq<char>) -> Option<ValueView> {
        match self {
            ValueView::Object(m) => if m.contains_key(key) {
                Some(m[key])
            } else {
                None
            },
            _ => None,
        }
    }

    /// An object with member `key` set to `value`; any other value unchanged.
    pub open spec fn with_member(self, key: Seq<char>, value: ValueView) -> ValueView {
        match self {
            ValueView::Object(m) => ValueView::Object(m.insert(key, value)),
            _ => self,
        }
    }

    /// The number of items a value holds: the length of an array, else the
    /// length of an array under the member `nodes`, else one.
    pub open spec fn item_count(self) -> nat {
        match self {
            ValueView::Array(items) => items.len(),
            _ => match self.get("nodes"@) {
                Some(ValueView::Array(items)) => items.len(),
                _ => 1,
            },
        }
    }
}

impl Value {
    /// The tree that this value stands for.
    pub open spec fn tree(&self) -> ValueView
        decreases self,
    {
        match self {
            Value::Null => ValueView::Null,
            Value::Bool(b) => ValueView::Bool(*b),
            Value::Number(n) => ValueView::Number(*n),
            Value::String(s) => ValueView::String(s@),
            Value::Array(items) => ValueView::Array(items_view(items@)),
            Value::Object(members) => ValueView::Object(assoc_map(members_view(members@))),
        }
    }
}

/// The contents of a list of values.
pub open spec fn items_view(items: Seq<Value>) -> Seq<ValueView>
    decreases items,
{
    Seq::new(
        items.len(),
        |i: int|
            if 0 <= i < items.len() {
                items[i].tree()
            } else {
                ValueView::Null
            },
    )
}

/// The key/value pairs of a list of members.
pub open spec fn members_view(members: Seq<Member>) -> Seq<(Seq<char>, ValueView)>
    decreases members,
{
    Seq::new(
        members.len(),
        |i: int|
            if 0 <= i < members.len() {
                (members[i].key@, members[i].value.tree())
            } else {
                (Seq::empty(), ValueView::Null)
            },
    )
}

impl View for Value {
    type V = ValueView;

    open spec fn view(&self) -> ValueView {
        self.tree()
    }
}

impl DeepView for Value {
    type V = ValueView;

    open spec fn deep_view(&self) -> ValueView {
        self.tree()
    }
}

impl Value {
    /// The empty object.
    pub fn empty_object() -> (r: Value)
        ensures
            r@ == ValueView::empty_object(),
    {
        let r = Value::Object(Vec::new());
        proof {
            assert(members_view(Seq::<Member>::empty()) =~= Seq::empty());
        }
        r
    }

    /// The position of the last member named `key`, if there is one.
    fn find_member(members: &Vec<Member>, key: &str) -> (r: Option<usize>)
        ensures
            match r {
                Some(i) => i < members.len() && members@[i as int].key@ == key@ && absent_from(
                    members_view(members@),
                    key@,
                    i + 1,
                ),
                None => absent_from(members_view(members@), key@, 0),
            },
    {
        let wanted: String = key.to_owned();
        let mut i: usize = members.len();
        while i > 0
            invariant
                i <= members.len(),
                wanted@ == key@,
                absent_from(members_view(members@), key@, i as int),
            decreases i,
        {
            i -= 1;
            if members[i].key == wanted {
                return Some(i);
            }
        }
        None
    }

    /// The member `key` of an object; nothing for a missing key or a value
    /// that is no object.
    pub fn get(&self, key: &str) -> (r: Option<&Value>)
        ensures
            match r {
                Some(v) => self@.get(key@) == Some(v@),
                None => self@.get(key@) is None,
            },
    {
        match self {
            Value::Object(members) => {
                let found = Self::find_member(members, key);
                proof {
                    lemma_assoc_contains(members_view(members@), key@);
                }
                match found {
                    Some(i) => {
                        proof {
                            lemma_assoc_last(members_view(members@), i as int);
                        }
                        Some(&members[i].value)
                    },
                    None => None,
                }
            },
            _ => None,
        }
    }

    /// The items of an array; nothing for any other value.
    pub fn as_array(&self) -> (r: Option<&Vec<Value>>)
        ensures
            match r {
                Some(items) => self@ == ValueView::Array(items_view(items@)),
                None => !(self@ is Array),
            },
    {
        match self {
            Value::Array(items) => Some(items),
            _ => None,
        }
    }

    /// Sets member `key` of an object to `value`; any other value is left
    /// unchanged.
    pub fn insert(&mut self, key: &str, value: Value)
        ensures
            final(self)@ == old(self)@.with_member(key@, value@),
    {
        match self {
            Value::Object(members) => {
                let found = Self::find_member(members, key);
                let ghost before = members_view(members@);
                match found {
                    Some(i) => {
                        let name: String = key.to_owned();
                        members.set(i, Member { key: name, value });
                        proof {
                            lemma_assoc_update(before, i as int, value@);
                            assert(members_view(members@) =~= before.update(
                                i as int,
                                (key@, value@),
                            ));
                        }
                    },
                    None => {
                        let name: String = key.to_owned();
                        members.push(Member { key: name, value });
                        proof {
                            lemma_assoc_push(before, key@, value@);
                            assert(members_view(members@) =~= before.push((key@, value@)));
                        }
                    },
                }
            },
            _ => {},
        }
    }

    /// The number of items the value holds: the length of an array, else the
    /// length of an array under the member `nodes`, else one.
    pub fn item_count(&self) -> (n: usize)
        ensures
            n == self@.item_count(),
    {
        match self.as_array() {
            Some(items) => items.len(),
            None => match self.get("nodes") {
                Some(nodes) => match nodes.as_array() {
                    Some(items) => items.len(),
                    None => 1,
                },
                None => 1,
            },
        }
    }

    /// A deep copy.
    #[verifier::loop_isolation(false)]
    pub fn duplicate(&self) -> (r: Value)
        ensures
            r@ == self@,
        decreases self,
    {
        match self {
            Value::Null => Value::Null,
            Value::Bool(b) => Value::Bool(*b),
            Value::Number(n) => Value::Number(*n),
            Value::String(s) => Value::String(s.clone()),
            Value::Array(items) => {
                let mut out: Vec<Value> = Vec::new();
                let mut i: usize = 0;
                while i < items.len()
                    invariant
                        i <= items.len(),
                        out.len() == i,
                        self == Value::Array(*items),
                        forall|j: int| 0 <= j < i ==> out@[j]@ == items@[j]@,
                    decreases items.len() - i,
                {
                    let item = items[i].duplicate();
                    out.push(item);
                    i += 1;
                }
                let r = Value::Array(out);
                proof {
                    assert(items_view(out@) =~= items_view(items@));
                }
                r
            },
            Value::Object(members) => {
                let mut out: Vec<Member> = Vec::new();
                let mut i: usize = 0;
                while i < members.len()
                    invariant
                        i <= members.len(),
                        out.len() == i,
                        self == Value::Object(*members),
                        forall|j: int|
                            0 <= j < i ==> out@[j].key@ == members@[j].key@ && out@[j].value@
                                == members@[j].value@,
                    decreases members.len() - i,
                {
                    let value = members[i].value.duplicate();
                    out.push(Member { key: members[i].key.clone(), value });
                    i += 1;
                }
                let r = Value::Object(out);
                proof {
                    assert(members_view(out@) =~= members_view(members@));
                }
                r
            },
        }
    }
}

impl Clone for Value {
    fn clone(&self) -> (r: Self)
        ensures
            r@ == self@,
    {
        self.duplicate()
    }
}

impl Clone for Member {
    fn clone(&self) -> (r: Self)
        ensures
            r.key@ == self.key@,
            r.value@ == self.value@,
    {
        Member { key: self.key.clone(), value: self.value.duplicate() }
    }
}

} // verus!
