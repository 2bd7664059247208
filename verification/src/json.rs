//! A JSON document as a value of the crate: what a response body holds
//! before it is written out as text.

use vstd::prelude::*;

verus! {

/// A JSON document. The members of an object keep the order in which they
/// were put in.
#[derive(Debug, PartialEq, Eq)]
pub enum JsonValue {
    Null,
    Bool(bool),
    /// A whole number.
    Integer(i64),
    /// A number with a fraction, held as the bit pattern of its IEEE 754
    /// double-precision value.
    Double(u64),
    Text(String),
    Array(Vec<JsonValue>),
    Object(Vec<(String, JsonValue)>),
}

/// The mathematical reading of a [`JsonValue`].
pub enum JsonView {
    Null,
    Bool(bool),
    Integer(int),
    Double(u64),
    Text(Seq<char>),
    Array(Seq<JsonView>),
    Object(Seq<(Seq<char>, JsonView)>),
}

/// The readings of a list of documents, one by one.
pub open spec fn items_view(items: Seq<JsonValue>) -> Seq<JsonView> {
    Seq::new(items.len(), |i: int| items[i]@)
}

/// The readings of a list of members, key by key and value by value.
pub open spec fn members_view(members: Seq<(String, JsonValue)>) -> Seq<(Seq<char>, JsonView)> {
    Seq::new(members.len(), |i: int| (members[i].0@, members[i].1@))
}

impl JsonValue {
    /// How many items an array or members an object has; zero for every
    /// other document.
    pub open spec fn width(self) -> nat {
        match self {
            JsonValue::Array(items) => items@.len(),
            JsonValue::Object(members) => members@.len(),
            _ => 0,
        }
    }

    /// The readings of the first `n` items of an array, in order.
    pub open spec fn leading_items(self, n: nat) -> Seq<JsonView>
        decreases self, n,
    {
        match self {
            JsonValue::Array(items) => if 0 < n <= items@.len() {
                self.leading_items((n - 1) as nat).push(items@[n - 1].view())
            } else {
                Seq::empty()
            },
            _ => Seq::empty(),
        }
    }

    /// The readings of the first `n` members of an object, in order.
    pub open spec fn leading_members(self, n: nat) -> Seq<(Seq<char>, JsonView)>
        decreases self, n,
    {
        match self {
            JsonValue::Object(members) => if 0 < n <= members@.len() {
                self.leading_members((n - 1) as nat).push(
                    (members@[n - 1].0@, members@[n - 1].1.view()),
                )
            } else {
                Seq::empty()
            },
            _ => Seq::empty(),
        }
    }

    proof fn lemma_leading_items(self, n: nat)
        requires
            self is Array,
            n <= self.width(),
        ensures
            self.leading_items(n) == items_view(self->Array_0@.take(n as int)),
        decreases n,
    {
        reveal_with_fuel(JsonValue::leading_items, 2);
        let items = self->Array_0@;
        if n > 0 {
            self.lemma_leading_items((n - 1) as nat);
            assert(self.leading_items(n) == self.leading_items((n - 1) as nat).push(
                items[n - 1]@,
            ));
        }
    }

    proof fn lemma_leading_members(self, n: nat)
        requires
            self is Object,
            n <= self.width(),
        ensures
            self.leading_members(n) == members_view(self->Object_0@.take(n as int)),
        decreases n,
    {
        reveal_with_fuel(JsonValue::leading_members, 2);
        let members = self->Object_0@;
        if n > 0 {
            self.lemma_leading_members((n - 1) as nat);
            assert(self.leading_members(n) == self.leading_members((n - 1) as nat).push(
                (members[n - 1].0@, members[n - 1].1@),
            ));
        }
    }

    /// An array reads as the readings of its items, in their order.
    pub proof fn lemma_array_view(items: Vec<JsonValue>)
        ensures
            JsonValue::Array(items)@ == JsonView::Array(items_view(items@)),
    {
        let array = JsonValue::Array(items);
        array.lemma_leading_items(items@.len());
        assert(items@.take(items@.len() as int) =~= items@);
    }

    /// An object reads as the readings of its members, in their order.
    pub proof fn lemma_object_view(members: Vec<(String, JsonValue)>)
        ensures
            JsonValue::Object(members)@ == JsonView::Object(members_view(members@)),
    {
        let object = JsonValue::Object(members);
        object.lemma_leading_members(members@.len());
        assert(members@.take(members@.len() as int) =~= members@);
    }

    /// The array that holds `items`, in their order.
    pub fn array(items: Vec<JsonValue>) -> (res: JsonValue)
        ensures
            res == JsonValue::Array(items),
            res@ == JsonView::Array(items_view(items@)),
    {
        proof {
            JsonValue::lemma_array_view(items);
        }
        JsonValue::Array(items)
    }

    /// The object that holds `members`, in their order.
    pub fn object(members: Vec<(String, JsonValue)>) -> (res: JsonValue)
        ensures
            res == JsonValue::Object(members),
            res@ == JsonView::Object(members_view(members@)),
    {
        proof {
            JsonValue::lemma_object_view(members);
        }
        JsonValue::Object(members)
    }
}

impl View for JsonValue {
    type V = JsonView;

    open spec fn view(&self) -> JsonView
        decreases *self, self.width() + 1,
    {
        match self {
            JsonValue::Null => JsonView::Null,
            JsonValue::Bool(b) => JsonView::Bool(*b),
            JsonValue::Integer(n) => JsonView::Integer(*n as int),
            JsonValue::Double(bits) => JsonView::Double(*bits),
            JsonValue::Text(s) => JsonView::Text(s@),
            JsonValue::Array(items) => JsonView::Array(self.leading_items(items@.len())),
            JsonValue::Object(members) => JsonView::Object(self.leading_members(members@.len())),
        }
    }
}

impl Clone for JsonValue {
    /// A copy that reads as the same document.
    fn clone(&self) -> (res: JsonValue)
        ensures
            res@ == self@,
        decreases self,
    {
        match self {
            JsonValue::Null => JsonValue::Null,
            JsonValue::Bool(b) => JsonValue::Bool(*b),
            JsonValue::Integer(n) => JsonValue::Integer(*n),
            JsonValue::Double(bits) => JsonValue::Double(*bits),
            JsonValue::Text(s) => JsonValue::Text(s.clone()),
            JsonValue::Array(items) => {
                let mut copy: Vec<JsonValue> = Vec::new();
                let mut i: usize = 0;
                while i < items.len()
                    invariant
                        *self == JsonValue::Array(*items),
                        i <= items.len(),
                        copy.len() == i,
                        forall|k: int| 0 <= k < i ==> (#[trigger] copy@[k])@ == items@[k]@,
                    decreases items.len() - i,
                {
                    proof {
                        broadcast use vstd::std_specs::vec::axiom_vec_index_decreases;

                        assert(decreases_to!(self->Array_0 => self->Array_0@[i as int]));
                    }
                    let item = items[i].clone();
                    copy.push(item);
                    i += 1;
                }
                proof {
                    JsonValue::lemma_array_view(*items);
                    assert(items_view(copy@) =~= items_view(items@));
                }
                JsonValue::array(copy)
            },
            JsonValue::Object(members) => {
                let mut copy: Vec<(String, JsonValue)> = Vec::new();
                let mut i: usize = 0;
                while i < members.len()
                    invariant
                        *self == JsonValue::Object(*members),
                        i <= members.len(),
                        copy.len() == i,
                        forall|k: int|
                            0 <= k < i ==> (#[trigger] copy@[k]).0@ == members@[k].0@
                                && copy@[k].1@ == members@[k].1@,
                    decreases members.len() - i,
                {
                    let member = &members[i];
                    proof {
                        broadcast use vstd::std_specs::vec::axiom_vec_index_decreases;

                        assert(decreases_to!(self->Object_0 => self->Object_0@[i as int]));
                    }
                    let value = member.1.clone();
                    copy.push((member.0.clone(), value));
                    i += 1;
                }
                proof {
                    JsonValue::lemma_object_view(*members);
                    assert(members_view(copy@) =~= members_view(members@));
                }
                JsonValue::object(copy)
            },
        }
    }
}

} // verus!
