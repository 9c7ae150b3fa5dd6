//! The data of a response: a tree of JSON values.

use vstd::prelude::*;

verus! {

/// A JSON value. Numbers are whole; an object keeps its members in the order
/// they were given.
#[derive(Debug, PartialEq, Eq)]
pub enum Value {
    Null,
    Bool(bool),
    Number(i64),
    String(String),
    Array(Vec<Value>),
    Object(Vec<(String, Value)>),
}

/// The mathematical content of a [`Value`].
pub enum ValueView {
    Null,
    Bool(bool),
    Number(int),
    String(Seq<char>),
    Array(Seq<ValueView>),
    Object(Seq<(Seq<char>, ValueView)>),
}

/// The contents of a list of values.
pub open spec fn array_views(items: Seq<Value>) -> Seq<ValueView>
    decreases items, 0nat,
{
    Seq::new(
        items.len(),
        |i: int|
            if 0 <= i < items.len() {
                value_view(items[i])
            } else {
                ValueView::Null
            },
    )
}

/// The contents of a list of members.
pub open spec fn member_views(members: Seq<(String, Value)>) -> Seq<(Seq<char>, ValueView)>
    decreases members, 0nat,
{
    Seq::new(
        members.len(),
        |i: int|
            if 0 <= i < members.len() {
                (members[i].0@, value_view(members[i].1))
            } else {
                (Seq::empty(), ValueView::Null)
            },
    )
}

/// The content of a value.
pub open spec fn value_view(v: Value) -> ValueView
    decreases v, 1nat,
{
    match v {
        Value::Null => ValueView::Null,
        Value::Bool(b) => ValueView::Bool(b),
        Value::Number(n) => ValueView::Number(n as int),
        Value::String(s) => ValueView::String(s@),
        Value::Array(items) => ValueView::Array(array_views(items@)),
        Value::Object(members) => ValueView::Object(member_views(members@)),
    }
}

impl View for Value {
    type V = ValueView;

    open spec fn view(&self) -> ValueView {
        value_view(*self)
    }
}

/// What the view of an array holds.
pub proof fn lemma_array_view(v: Value)
    requires
        v is Array,
    ensures
        v@ is Array,
        v@->Array_0.len() == v->Array_0.len(),
        forall|k: int| 0 <= k < v->Array_0.len() ==> #[trigger] v@->Array_0[k] == v->Array_0[k]@,
{
}

/// What the view of an object holds.
pub proof fn lemma_object_view(v: Value)
    requires
        v is Object,
    ensures
        v@ is Object,
        v@->Object_0.len() == v->Object_0.len(),
        forall|k: int|
            0 <= k < v->Object_0.len() ==> #[trigger] v@->Object_0[k] == (
                v->Object_0[k].0@,
                v->Object_0[k].1@,
            ),
{
}

impl Clone for Value {
    /// A copy with the same content.
    fn clone(&self) -> (copy: Value)
        ensures
            copy@ == self@,
        decreases self,
    {
        match self {
            Value::Null => Value::Null,
            Value::Bool(b) => Value::Bool(*b),
            Value::Number(n) => Value::Number(*n),
            Value::String(s) => Value::String(s.clone()),
            Value::Array(items) => {
                let mut copies: Vec<Value> = Vec::new();
                let mut i: usize = 0;
                while i < items.len()
                    invariant
                        i <= items.len(),
                        copies.len() == i,
                        *self == Value::Array(*items),
                        forall|k: int| 0 <= k < i ==> (#[trigger] copies[k])@ == items[k]@,
                    decreases items.len() - i,
                {
                    proof {
                        assert(self->Array_0 == *items);
                        assert(decreases_to!(*self => self->Array_0));
                        assert(decreases_to!(*items => items@));
                        assert(decreases_to!(items@ => items@[i as int]));
                    }
                    let item = items[i].clone();
                    copies.push(item);
                    i += 1;
                }
                let copy = Value::Array(copies);
                assert(copy@ =~= self@) by {
                    lemma_array_view(copy);
                    lemma_array_view(*self);
                    assert forall|k: int| 0 <= k < items.len() implies copy@->Array_0[k]
                        == self@->Array_0[k] by {
                        assert(copies[k]@ == items[k]@);
                    }
                    assert(copy@->Array_0 =~= self@->Array_0);
                }
                copy
            },
            Value::Object(members) => {
                let mut copies: Vec<(String, Value)> = Vec::new();
                let mut i: usize = 0;
                while i < members.len()
                    invariant
                        i <= members.len(),
                        copies.len() == i,
                        *self == Value::Object(*members),
                        forall|k: int|
                            0 <= k < i ==> (#[trigger] copies[k]).0@ == members[k].0@
                                && copies[k].1@ == members[k].1@,
                    decreases members.len() - i,
                {
                    proof {
                        assert(self->Object_0 == *members);
                        assert(decreases_to!(*self => self->Object_0));
                        assert(decreases_to!(*members => members@));
                        assert(decreases_to!(members@ => members@[i as int]));
                        assert(decreases_to!(members@[i as int] => members@[i as int].1));
                    }
                    let key = members[i].0.clone();
                    let value = members[i].1.clone();
                    copies.push((key, value));
                    i += 1;
                }
                let copy = Value::Object(copies);
                assert(copy@ =~= self@) by {
                    lemma_object_view(copy);
                    lemma_object_view(*self);
                    assert forall|k: int| 0 <= k < members.len() implies copy@->Object_0[k]
                        == self@->Object_0[k] by {
                        assert(copies[k].0@ == members[k].0@);
                    }
                    assert(copy@->Object_0 =~= self@->Object_0);
                }
                copy
            },
        }
    }
}

/// The object `{"message": <message>}`.
pub open spec fn message_body(message: Seq<char>) -> ValueView {
    ValueView::Object(seq![("message"@, ValueView::String(message))])
}

impl Value {
    /// A text value.
    pub fn text(s: &str) -> (value: Value)
        ensures
            value@ == ValueView::String(s@),
    {
        Value::String(s.to_owned())
    }

    /// The object `{"message": <message>}`.
    pub fn message(message: &str) -> (value: Value)
        ensures
            value@ == message_body(message@),
    {
        let mut members: Vec<(String, Value)> = Vec::new();
        members.push(("message".to_owned(), Value::String(message.to_owned())));
        let value = Value::Object(members);
        proof {
            lemma_object_view(value);
            assert(members[0].1@ == ValueView::String(message@));
            assert(value@->Object_0 =~= seq![("message"@, ValueView::String(message@))]);
        }
        value
    }
}

} // verus!

verus! {

/// The place of the first member with this key, or the number of members where
/// there is none.
pub open spec fn member_place(members: Seq<(Seq<char>, ValueView)>, key: Seq<char>) -> int
    decreases members.len(),
{
    if members.len() == 0 {
        0
    } else if members[0].0 == key {
        0
    } else {
        1 + member_place(members.skip(1), key)
    }
}

/// A field of a request body, looked up by key: nothing where the body is no
/// object or has no such key, an empty field where the key holds `null`, and
/// the value otherwise.
pub open spec fn field_of(body: ValueView, key: Seq<char>) -> Option<Option<ValueView>> {
    match body {
        ValueView::Object(members) => {
            let k = member_place(members, key);
            if k >= members.len() {
                None
            } else if members[k].1 is Null {
                Some(None)
            } else {
                Some(Some(members[k].1))
            }
        },
        _ => None,
    }
}

/// The members with one more field written at the end: nothing is written for
/// a field that is absent, `null` for an empty one, the value otherwise.
pub open spec fn with_field(
    members: Seq<(Seq<char>, ValueView)>,
    key: Seq<char>,
    field: Option<Option<ValueView>>,
) -> Seq<(Seq<char>, ValueView)> {
    match field {
        None => members,
        Some(None) => members.push((key, ValueView::Null)),
        Some(Some(value)) => members.push((key, value)),
    }
}

/// The place of a member is within the members and holds the key, or it is
/// their number and no member before it holds the key.
pub proof fn lemma_member_place(members: Seq<(Seq<char>, ValueView)>, key: Seq<char>)
    ensures
        0 <= member_place(members, key) <= members.len(),
        member_place(members, key) < members.len() ==> members[member_place(members, key)].0
            == key,
    decreases members.len(),
{
    if members.len() > 0 && members[0].0 != key {
        lemma_member_place(members.skip(1), key);
    }
}

/// A member that is added under a new key is found at the end, and the other
/// keys are found where they were.
pub proof fn lemma_member_place_pushed(
    members: Seq<(Seq<char>, ValueView)>,
    key: Seq<char>,
    value: ValueView,
    other: Seq<char>,
)
    requires
        member_place(members, key) == members.len(),
    ensures
        member_place(members.push((key, value)), key) == members.len(),
        other != key ==> member_place(members.push((key, value)), other) == (if member_place(
            members,
            other,
        ) < members.len() {
            member_place(members, other)
        } else {
            (members.len() + 1) as int
        }),
    decreases members.len(),
{
    let all = members.push((key, value));
    if members.len() == 0 {
        assert(all[0] == (key, value));
        assert(all.skip(1) =~= Seq::<(Seq<char>, ValueView)>::empty());
        assert(member_place(all.skip(1), other) == 0);
    } else {
        assert(all[0] == members[0]);
        assert(all.skip(1) =~= members.skip(1).push((key, value)));
        lemma_member_place(members.skip(1), key);
        lemma_member_place(members.skip(1), other);
        lemma_member_place_pushed(members.skip(1), key, value, other);
    }
}

/// A field reads back as it was written: absent stays absent, empty stays
/// empty, and a value stays that value. The only thing that cannot be written
/// as a value is `null` itself, which is how the empty field is written.
pub proof fn lemma_field_round_trip(
    members: Seq<(Seq<char>, ValueView)>,
    key: Seq<char>,
    field: Option<Option<ValueView>>,
)
    requires
        member_place(members, key) == members.len(),
        field != Some(Some(ValueView::Null)),
    ensures
        field_of(ValueView::Object(with_field(members, key, field)), key) == field,
{
    match field {
        None => {},
        Some(None) => {
            lemma_member_place_pushed(members, key, ValueView::Null, key);
        },
        Some(Some(value)) => {
            lemma_member_place_pushed(members, key, value, key);
        },
    }
}

/// Writing one field leaves what the other fields read as.
pub proof fn lemma_other_fields_kept(
    members: Seq<(Seq<char>, ValueView)>,
    key: Seq<char>,
    field: Option<Option<ValueView>>,
    other: Seq<char>,
)
    requires
        member_place(members, key) == members.len(),
        other != key,
    ensures
        field_of(ValueView::Object(with_field(members, key, field)), other) == field_of(
            ValueView::Object(members),
            other,
        ),
{
    lemma_member_place(members, other);
    match field {
        None => {},
        Some(None) => {
            lemma_member_place_pushed(members, key, ValueView::Null, other);
        },
        Some(Some(value)) => {
            lemma_member_place_pushed(members, key, value, other);
        },
    }
}

impl Value {
    /// Whether the value is `null`.
    pub fn is_null(&self) -> (null: bool)
        ensures
            null == (self@ is Null),
    {
        match self {
            Value::Null => true,
            _ => false,
        }
    }

    /// Looks a field of a request body up by key: nothing where the body is no
    /// object or does not have the key, an empty field where the key holds
    /// `null`, and a copy of the value otherwise.
    pub fn field(&self, key: &str) -> (field: Option<Option<Value>>)
        ensures
            match field_of(self@, key@) {
                None => field is None,
                Some(None) => field == Some(None::<Value>),
                Some(Some(value)) => field is Some && field->0 is Some && field->0->0@ == value,
            },
    {
        match self {
            Value::Object(members) => {
                proof {
                    lemma_object_view(*self);
                }
                let ghost all = self@->Object_0;
                let mut i: usize = 0;
                proof {
                    assert(all.skip(0) =~= all);
                }
                while i < members.len()
                    invariant
                        i <= members.len(),
                        all.len() == members.len(),
                        self@ == ValueView::Object(all),
                        forall|k: int|
                            0 <= k < members.len() ==> #[trigger] all[k] == (
                                members[k].0@,
                                members[k].1@,
                            ),
                        member_place(all, key@) == i + member_place(all.skip(i as int), key@),
                    decreases members.len() - i,
                {
                    proof {
                        assert(all.skip(i as int)[0] == all[i as int]);
                        assert(all.skip(i as int).skip(1) =~= all.skip(i + 1));
                    }
                    if crate::text::same_text(members[i].0.as_str(), key) {
                        assert(all[i as int] == (members[i as int].0@, members[i as int].1@));
                        assert(member_place(all, key@) == i);
                        if members[i].1.is_null() {
                            return Some(None);
                        }
                        return Some(Some(members[i].1.clone()));
                    }
                    i += 1;
                }
                proof {
                    assert(all.skip(all.len() as int) =~= Seq::<(Seq<char>, ValueView)>::empty());
                }
                None
            },
            _ => None,
        }
    }
}

} // verus!

verus! {

/// The patch value that a request body holds under a key.
pub open spec fn patch_in(body: ValueView, key: Seq<char>) -> crate::patch::Patch<ValueView> {
    crate::patch::Patch::of_field(field_of(body, key))
}

/// Reads the patch value that a request body holds under a key: a key that is
/// not there is `Missing`, a key with `null` is `Null`, any other value is
/// `Value`.
pub fn patch_of(body: &Value, key: &str) -> (patch: crate::patch::Patch<Value>)
    ensures
        match patch_in(body@, key@) {
            crate::patch::Patch::Missing => patch is Missing,
            crate::patch::Patch::Null => patch is Null,
            crate::patch::Patch::Value(value) => patch is Value && patch->Value_0@ == value,
        },
{
    crate::patch::Patch::from_field(body.field(key))
}

/// The three states of a patch value stay apart on the way through a request
/// body: what is written for a patch under a new key reads back as that patch.
/// (A patch to the value `null` cannot be told from `Null`: that is what `Null`
/// is.)
pub proof fn lemma_patch_round_trip(
    members: Seq<(Seq<char>, ValueView)>,
    key: Seq<char>,
    patch: crate::patch::Patch<ValueView>,
)
    requires
        member_place(members, key) == members.len(),
        patch != crate::patch::Patch::Value(ValueView::Null),
    ensures
        patch_in(ValueView::Object(with_field(members, key, patch.field())), key) == patch,
{
    lemma_field_round_trip(members, key, patch.field());
}

} // verus!
