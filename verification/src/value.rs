//! The structured value that carries a job's arguments to the broker and back.
//!
//! A [`Value`] is what the broker stores as one job argument: a tree of
//! records, lists and scalars. Numbers are binary64 values, held by their
//! IEEE 754 bit pattern, so that a value can be compared and copied exactly.

use crate::text::same_text;
use vstd::prelude::*;

verus! {

/// One argument of a job, as the broker carries it.
#[derive(Debug, PartialEq)]
pub enum Value {
    /// The absent value.
    Null,
    /// A truth value.
    Bool(bool),
    /// A binary64 number, given by its bit pattern.
    Number(u64),
    /// A piece of text.
    Text(String),
    /// An ordered list of values.
    List(Vec<Value>),
    /// Named members, in the order in which they were written.
    Record(Vec<(String, Value)>),
}

/// The mathematical model of a [`Value`].
pub enum ValueView {
    Null,
    Bool(bool),
    Number(u64),
    Text(Seq<char>),
    List(Seq<ValueView>),
    Record(Seq<(Seq<char>, ValueView)>),
}

impl Value {
    /// The model of this value: the same tree, over sequences.
    pub open spec fn model(&self) -> ValueView
        decreases self,
    {
        match self {
            Value::Null => ValueView::Null,
            Value::Bool(b) => ValueView::Bool(*b),
            Value::Number(bits) => ValueView::Number(*bits),
            Value::Text(text) => ValueView::Text(text@),
            Value::List(items) => ValueView::List(
                Seq::new(
                    items@.len(),
                    |i: int|
                        if 0 <= i < items@.len() {
                            items@[i].model()
                        } else {
                            ValueView::Null
                        },
                ),
            ),
            Value::Record(members) => ValueView::Record(
                Seq::new(
                    members@.len(),
                    |i: int|
                        if 0 <= i < members@.len() {
                            (members@[i].0@, members@[i].1.model())
                        } else {
                            (Seq::empty(), ValueView::Null)
                        },
                ),
            ),
        }
    }
}

impl View for Value {
    type V = ValueView;

    open spec fn view(&self) -> ValueView {
        self.model()
    }
}

impl Clone for Value {
    fn clone(&self) -> (copy: Value)
        ensures
            copy@ == self@,
    {
        duplicate(self)
    }
}

/// Copies a value, member by member.
pub fn duplicate(value: &Value) -> (copy: Value)
    ensures
        copy@ == value@,
    decreases value,
{
    match value {
        Value::Null => Value::Null,
        Value::Bool(b) => Value::Bool(*b),
        Value::Number(bits) => Value::Number(*bits),
        Value::Text(text) => Value::Text(text.clone()),
        Value::List(items) => {
            let mut copies: Vec<Value> = Vec::with_capacity(items.len());
            let mut i: usize = 0;
            while i < items.len()
                invariant
                    *value == Value::List(*items),
                    i <= items@.len(),
                    copies@.len() == i,
                    forall|k: int| 0 <= k < i ==> copies@[k]@ == items@[k]@,
                decreases items@.len() - i,
            {
                proof {
                    assert(decreases_to!(*value => value->List_0));
                }
                copies.push(duplicate(&items[i]));
                i += 1;
            }
            proof {
                lemma_list_view(*items);
                lemma_list_view(copies);
                assert(views_of(copies@) =~= views_of(items@));
            }
            Value::List(copies)
        },
        Value::Record(members) => {
            let mut copies: Vec<(String, Value)> = Vec::with_capacity(members.len());
            let mut i: usize = 0;
            while i < members.len()
                invariant
                    *value == Value::Record(*members),
                    i <= members@.len(),
                    copies@.len() == i,
                    forall|k: int|
                        0 <= k < i ==> copies@[k].0@ == members@[k].0@ && copies@[k].1@
                            == members@[k].1@,
                decreases members@.len() - i,
            {
                proof {
                    assert(decreases_to!(*value => value->Record_0));
                }
                copies.push((members[i].0.clone(), duplicate(&members[i].1)));
                i += 1;
            }
            proof {
                lemma_record_view(*members);
                lemma_record_view(copies);
                assert(members_of(copies@) =~= members_of(members@));
            }
            Value::Record(copies)
        },
    }
}

/// The models of a sequence of values, one for one.
pub open spec fn views_of(items: Seq<Value>) -> Seq<ValueView> {
    Seq::new(items.len(), |i: int| items[i]@)
}

/// The models of a record's members, one for one.
pub open spec fn members_of(members: Seq<(String, Value)>) -> Seq<(Seq<char>, ValueView)> {
    Seq::new(members.len(), |i: int| (members[i].0@, members[i].1@))
}

/// The model of a list is the list of its items' models.
pub proof fn lemma_list_view(items: Vec<Value>)
    ensures
        Value::List(items)@ == ValueView::List(views_of(items@)),
{
    reveal_with_fuel(Value::model, 2);
    assert(Value::List(items)@->List_0 =~= views_of(items@));
}

/// The model of a record is the list of its members' names and models.
pub proof fn lemma_record_view(members: Vec<(String, Value)>)
    ensures
        Value::Record(members)@ == ValueView::Record(members_of(members@)),
{
    reveal_with_fuel(Value::model, 2);
    assert(Value::Record(members)@->Record_0 =~= members_of(members@));
}

/// The value of the first member called `name`, if there is one.
pub open spec fn member(members: Seq<(Seq<char>, ValueView)>, name: Seq<char>) -> Option<
    ValueView,
>
    decreases members.len(),
{
    if members.len() == 0 {
        None
    } else if members[0].0 == name {
        Some(members[0].1)
    } else {
        member(members.drop_first(), name)
    }
}

/// A member that no earlier member shares its name with is the one found.
pub proof fn lemma_member_found(members: Seq<(Seq<char>, ValueView)>, name: Seq<char>, at: int)
    requires
        0 <= at < members.len(),
        members[at].0 == name,
        forall|k: int| 0 <= k < at ==> members[k].0 != name,
    ensures
        member(members, name) == Some(members[at].1),
    decreases at,
{
    if at > 0 {
        let rest = members.drop_first();
        assert forall|k: int| 0 <= k < at - 1 implies rest[k].0 != name by {
            assert(rest[k] == members[k + 1]);
        }
        lemma_member_found(rest, name, at - 1);
    }
}

/// Where no member has the name, none is found.
pub proof fn lemma_member_missing(members: Seq<(Seq<char>, ValueView)>, name: Seq<char>)
    requires
        forall|k: int| 0 <= k < members.len() ==> members[k].0 != name,
    ensures
        member(members, name) is None,
    decreases members.len(),
{
    if members.len() > 0 {
        let rest = members.drop_first();
        assert forall|k: int| 0 <= k < rest.len() implies rest[k].0 != name by {
            assert(rest[k] == members[k + 1]);
        }
        lemma_member_missing(rest, name);
    }
}

/// Looks up the first member called `name`.
pub fn find<'a>(members: &'a Vec<(String, Value)>, name: &str) -> (found: Option<&'a Value>)
    ensures
        match found {
            Some(value) => member(members_of(members@), name@) == Some(value@),
            None => member(members_of(members@), name@) is None,
        },
{
    let ghost model = members_of(members@);
    let mut i: usize = 0;
    while i < members.len()
        invariant
            i <= members@.len(),
            model == members_of(members@),
            forall|k: int| 0 <= k < i ==> model[k].0 != name@,
        decreases members@.len() - i,
    {
        if same_text(members[i].0.as_str(), name) {
            proof {
                lemma_member_found(model, name@, i as int);
            }
            return Some(&members[i].1);
        }
        i += 1;
    }
    proof {
        lemma_member_missing(model, name@);
    }
    None
}

} // verus!
