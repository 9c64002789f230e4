//! JSON values as the library holds them: the configuration of a source, the metadata of
//! a document.

use vstd::prelude::*;

verus! {

/// A JSON number. A number with a fraction or an exponent is held by the 64 bits of
/// its IEEE 754 double.
#[derive(Debug, Clone, Copy, PartialEq, Eq, Structural)]
pub enum JsonNumber {
    Unsigned(u64),
    Signed(i64),
    Real { bits: u64 },
}

/// A JSON value. The members of an object keep their order; a key is looked up from the
/// front, so the first member with a key is the one that counts.
#[derive(Debug)]
pub enum JsonValue {
    Null,
    Bool(bool),
    Number(JsonNumber),
    Text(String),
    List(Vec<JsonValue>),
    Object(Vec<(String, JsonValue)>),
}

/// A JSON value as the contracts see it.
pub enum JsonModel {
    Null,
    Bool(bool),
    Number(JsonNumber),
    Text(Seq<char>),
    List(Seq<JsonModel>),
    Object(Seq<(Seq<char>, JsonModel)>),
}

/// The model of a JSON value: the same tree, with texts as their characters and lists as
/// sequences.
pub open spec fn model_of(v: JsonValue) -> JsonModel
    decreases v,
{
    match v {
        JsonValue::Null => JsonModel::Null,
        JsonValue::Bool(b) => JsonModel::Bool(b),
        JsonValue::Number(n) => JsonModel::Number(n),
        JsonValue::Text(s) => JsonModel::Text(s@),
        JsonValue::List(items) => JsonModel::List(
            Seq::new(
                items@.len(),
                |i: int|
                    if 0 <= i < items@.len() {
                        model_of(items@[i])
                    } else {
                        JsonModel::Null
                    },
            ),
        ),
        JsonValue::Object(members) => JsonModel::Object(
            Seq::new(
                members@.len(),
                |i: int|
                    if 0 <= i < members@.len() {
                        (members@[i].0@, model_of(members@[i].1))
                    } else {
                        (Seq::empty(), JsonModel::Null)
                    },
            ),
        ),
    }
}

impl View for JsonValue {
    type V = JsonModel;

    open spec fn view(&self) -> JsonModel {
        model_of(*self)
    }
}

impl DeepView for JsonValue {
    type V = JsonModel;

    open spec fn deep_view(&self) -> JsonModel {
        self@
    }
}

/// The value of the first member with the key `key`, if there is one.
pub open spec fn lookup(members: Seq<(Seq<char>, JsonModel)>, key: Seq<char>) -> Option<JsonModel>
    decreases members.len(),
{
    if members.len() == 0 {
        None
    } else if members[0].0 == key {
        Some(members[0].1)
    } else {
        lookup(members.drop_first(), key)
    }
}

/// The texts among `items`, in order; what is not a text is left out.
pub open spec fn texts(items: Seq<JsonModel>) -> Seq<Seq<char>>
    decreases items.len(),
{
    if items.len() == 0 {
        Seq::empty()
    } else {
        let rest = texts(items.drop_last());
        match items.last() {
            JsonModel::Text(s) => rest.push(s),
            _ => rest,
        }
    }
}

impl JsonModel {
    /// The member of an object with the key `key`; nothing for another kind of value.
    pub open spec fn member(self, key: Seq<char>) -> Option<JsonModel> {
        match self {
            JsonModel::Object(members) => lookup(members, key),
            _ => None,
        }
    }

    /// The characters of a text; nothing for another kind of value.
    pub open spec fn text(self) -> Option<Seq<char>> {
        match self {
            JsonModel::Text(s) => Some(s),
            _ => None,
        }
    }

    /// The items of a list; nothing for another kind of value.
    pub open spec fn items(self) -> Option<Seq<JsonModel>> {
        match self {
            JsonModel::List(items) => Some(items),
            _ => None,
        }
    }

    /// The number; nothing for another kind of value.
    pub open spec fn number(self) -> Option<JsonNumber> {
        match self {
            JsonModel::Number(n) => Some(n),
            _ => None,
        }
    }

    /// The text of the member `key`: nothing where there is no such member
    /// or it holds no text.
    pub open spec fn text_at(self, key: Seq<char>) -> Option<Seq<char>> {
        match self.member(key) {
            Some(v) => v.text(),
            None => None,
        }
    }

    /// The text of the member `first`, or of the member `second` where the value has no
    /// member `first`. A member `first` that holds no text gives nothing: the second is
    /// not looked at then.
    pub open spec fn text_at_either(self, first: Seq<char>, second: Seq<char>) -> Option<Seq<char>> {
        if self.member(first) is Some {
            self.text_at(first)
        } else {
            self.text_at(second)
        }
    }

    /// The object with the member `key` set to `value`: the first member with that key
    /// is replaced, and where there is none a new member is added at the end. A value that
    /// is no object gives an object with that one member.
    pub open spec fn with(self, key: Seq<char>, value: JsonModel) -> JsonModel {
        match self {
            JsonModel::Object(members) => JsonModel::Object(put(members, key, value)),
            _ => JsonModel::Object(seq![(key, value)]),
        }
    }
}

/// `members` with the first member of key `key` replaced by `value`, or with `value` added
/// at the end under that key where no member has it.
pub open spec fn put(
    members: Seq<(Seq<char>, JsonModel)>,
    key: Seq<char>,
    value: JsonModel,
) -> Seq<(Seq<char>, JsonModel)>
    decreases members.len(),
{
    if members.len() == 0 {
        seq![(key, value)]
    } else if members[0].0 == key {
        members.update(0, (key, value))
    } else {
        seq![members[0]] + put(members.drop_first(), key, value)
    }
}

/// After `put`, the key leads to the new value, and every other key to what it led to before.
pub proof fn lemma_put_lookup(
    members: Seq<(Seq<char>, JsonModel)>,
    key: Seq<char>,
    value: JsonModel,
    other: Seq<char>,
)
    ensures
        lookup(put(members, key, value), key) == Some(value),
        other != key ==> lookup(put(members, key, value), other) == lookup(members, other),
    decreases members.len(),
{
    if members.len() == 0 {
        let after = seq![(key, value)];
        assert(after.drop_first() =~= Seq::empty());
        assert(after[0] == (key, value));
        assert(lookup(after.drop_first(), other) == lookup(members, other));
    } else if members[0].0 == key {
        let after = members.update(0, (key, value));
        assert(after.drop_first() =~= members.drop_first());
        assert(after[0] == (key, value));
        assert(lookup(after.drop_first(), other) == lookup(members.drop_first(), other));
    } else {
        lemma_put_lookup(members.drop_first(), key, value, other);
        let rest = put(members.drop_first(), key, value);
        let after = seq![members[0]] + rest;
        assert(after.drop_first() =~= rest);
        assert(after[0] == members[0]);
    }
}

impl Clone for JsonValue {
    #[verifier::loop_isolation(false)]
    fn clone(&self) -> (r: Self)
        ensures
            r@ == self@,
        decreases self,
    {
        match self {
            JsonValue::Null => JsonValue::Null,
            JsonValue::Bool(b) => JsonValue::Bool(*b),
            JsonValue::Number(n) => JsonValue::Number(*n),
            JsonValue::Text(s) => JsonValue::Text(s.clone()),
            JsonValue::List(items) => {
                let mut out: Vec<JsonValue> = Vec::new();
                let mut i: usize = 0;
                while i < items.len()
                    invariant
                        i <= items.len(),
                        out.len() == i,
                        forall|j: int| 0 <= j < i ==> out@[j]@ == items@[j]@,
                    decreases items.len() - i,
                {
                    out.push(items[i].clone());
                    i += 1;
                }
                assert(JsonValue::List(out)@->List_0 =~= self@->List_0);
                JsonValue::List(out)
            },
            JsonValue::Object(members) => {
                let mut out: Vec<(String, JsonValue)> = Vec::new();
                let mut i: usize = 0;
                while i < members.len()
                    invariant
                        i <= members.len(),
                        out.len() == i,
                        forall|j: int|
                            0 <= j < i ==> out@[j].0@ == members@[j].0@ && out@[j].1@
                                == members@[j].1@,
                    decreases members.len() - i,
                {
                    out.push((members[i].0.clone(), members[i].1.clone()));
                    i += 1;
                }
                assert(JsonValue::Object(out)@->Object_0 =~= self@->Object_0);
                JsonValue::Object(out)
            },
        }
    }
}

impl JsonValue {
    /// An object without members.
    pub fn object() -> (r: JsonValue)
        ensures
            r@ == JsonModel::Object(Seq::empty()),
    {
        let r = JsonValue::Object(Vec::new());
        assert(r@->Object_0 =~= Seq::empty());
        r
    }

    /// An object with the given members, in their order.
    pub fn record(members: Vec<(String, JsonValue)>) -> (r: JsonValue)
        ensures
            r@ == JsonModel::Object(members.deep_view()),
    {
        let r = JsonValue::Object(members);
        assert(r@->Object_0 =~= members.deep_view());
        r
    }

    /// A list with the given items, in their order.
    pub fn list(items: Vec<JsonValue>) -> (r: JsonValue)
        ensures
            r@ == JsonModel::List(items.deep_view()),
    {
        let r = JsonValue::List(items);
        assert(r@->List_0 =~= items.deep_view());
        r
    }

    /// A text value that holds the characters of `s`.
    pub fn text(s: &str) -> (r: JsonValue)
        ensures
            r@ == JsonModel::Text(s@),
    {
        JsonValue::Text(String::from_str(s))
    }

    /// A whole number, or null where there is none.
    pub fn count(n: Option<u64>) -> (r: JsonValue)
        ensures
            r@ == match n {
                Some(k) => JsonModel::Number(JsonNumber::Unsigned(k)),
                None => JsonModel::Null,
            },
    {
        match n {
            Some(k) => JsonValue::Number(JsonNumber::Unsigned(k)),
            None => JsonValue::Null,
        }
    }

    /// The member of an object with the key `key`.
    pub fn get(&self, key: &str) -> (r: Option<&JsonValue>)
        ensures
            r.deep_view() == self@.member(key@),
    {
        match self {
            JsonValue::Object(members) => {
                let mut i: usize = 0;
                assert(self@->Object_0.skip(0) =~= self@->Object_0);
                while i < members.len()
                    invariant
                        i <= members.len(),
                        self@ is Object,
                        self@->Object_0.len() == members@.len(),
                        forall|j: int|
                            0 <= j < members@.len() ==> self@->Object_0[j] == (
                                members@[j].0@,
                                members@[j].1@,
                            ),
                        lookup(self@->Object_0, key@) == lookup(
                            self@->Object_0.skip(i as int),
                            key@,
                        ),
                    decreases members.len() - i,
                {
                    let ghost rest = self@->Object_0.skip(i as int);
                    assert(rest[0] == self@->Object_0[i as int]);
                    assert(rest.drop_first() =~= self@->Object_0.skip(i + 1));
                    if members[i].0.as_str().eq(key) {
                        return Some(&members[i].1);
                    }
                    i += 1;
                }
                None
            },
            _ => None,
        }
    }

    /// The text that the value holds, if it is a text.
    pub fn as_text(&self) -> (r: Option<&String>)
        ensures
            r.deep_view() == self@.text(),
    {
        match self {
            JsonValue::Text(s) => Some(s),
            _ => None,
        }
    }

    /// The items that the value holds, if it is a list.
    pub fn as_list(&self) -> (r: Option<&Vec<JsonValue>>)
        ensures
            r.deep_view() == self@.items(),
    {
        match self {
            JsonValue::List(items) => {
                assert(items.deep_view() =~= self@->List_0);
                Some(items)
            },
            _ => None,
        }
    }

    /// The number that the value holds, if it is a number.
    pub fn as_number(&self) -> (r: Option<JsonNumber>)
        ensures
            r == self@.number(),
    {
        match self {
            JsonValue::Number(n) => Some(*n),
            _ => None,
        }
    }

    /// The text of the member `key`, if the value is an object with such a member
    /// and that member is a text.
    pub fn text_at(&self, key: &str) -> (r: Option<String>)
        ensures
            r.deep_view() == self@.text_at(key@),
    {
        match self.get(key) {
            Some(v) => match v.as_text() {
                Some(s) => Some(s.clone()),
                None => None,
            },
            None => None,
        }
    }

    /// The text of the member `first`, or of the member `second` where the value has no
    /// member `first`.
    pub fn text_at_either(&self, first: &str, second: &str) -> (r: Option<String>)
        ensures
            r.deep_view() == self@.text_at_either(first@, second@),
    {
        match self.get(first) {
            Some(v) => match v.as_text() {
                Some(s) => Some(s.clone()),
                None => None,
            },
            None => self.text_at(second),
        }
    }

    /// The texts among the items of a list, in order.
    pub fn texts_in(items: &Vec<JsonValue>) -> (r: Vec<String>)
        ensures
            r.deep_view() == texts(items.deep_view()),
    {
        let mut out: Vec<String> = Vec::new();
        let mut i: usize = 0;
        while i < items.len()
            invariant
                i <= items.len(),
                out.deep_view() == texts(items.deep_view().take(i as int)),
            decreases items.len() - i,
        {
            let ghost before = items.deep_view().take(i as int);
            let ghost after = items.deep_view().take(i + 1);
            assert(after.drop_last() =~= before);
            assert(after.last() == items@[i as int]@);
            match &items[i] {
                JsonValue::Text(s) => {
                    let ghost old_out = out.deep_view();
                    out.push(s.clone());
                    assert(out.deep_view() =~= old_out.push(s@));
                },
                _ => {},
            }
            i += 1;
        }
        assert(items.deep_view().take(items.len() as int) =~= items.deep_view());
        out
    }

    /// The object with the member `key` set to `value`; a value that is no object gives
    /// an object with that one member.
    pub fn with(self, key: &str, value: JsonValue) -> (r: JsonValue)
        ensures
            r@ == self@.with(key@, value@),
    {
        let ghost whole = self@;
        match self {
            JsonValue::Object(mut members) => {
                let ghost before = whole->Object_0;
                assert(members.deep_view() =~= before);
                let mut i: usize = 0;
                let mut found = false;
                while i < members.len() && !found
                    invariant
                        i <= members.len(),
                        members.deep_view() == before,
                        !found ==> forall|j: int| 0 <= j < i ==> before[j].0 != key@,
                        found ==> i < members.len() && before[i as int].0 == key@ && forall|j: int|
                            0 <= j < i ==> before[j].0 != key@,
                    decreases members.len() - i + (if found { 0int } else { 1int }),
                {
                    if members[i].0.as_str().eq(key) {
                        found = true;
                    } else {
                        i += 1;
                    }
                }
                let ghost new_value = value@;
                if found {
                    members[i] = (String::from_str(key), value);
                } else {
                    members.push((String::from_str(key), value));
                }
                proof {
                    lemma_put_at(before, key@, new_value, i as int);
                    if found {
                        assert(members.deep_view() =~= before.update(i as int, (key@, new_value)));
                    } else {
                        assert(members.deep_view() =~= before.push((key@, new_value)));
                    }
                }
                let r = JsonValue::Object(members);
                assert(r@->Object_0 =~= put(before, key@, new_value));
                r
            },
            _ => {
                let mut members: Vec<(String, JsonValue)> = Vec::new();
                let ghost new_value = value@;
                members.push((String::from_str(key), value));
                let r = JsonValue::Object(members);
                assert(r@->Object_0 =~= seq![(key@, new_value)]);
                r
            },
        }
    }
}

/// Where the first member with the key stands at `at`, `put` replaces it there; where no
/// member has the key, `put` adds one at the end.
proof fn lemma_put_at(
    members: Seq<(Seq<char>, JsonModel)>,
    key: Seq<char>,
    value: JsonModel,
    at: int,
)
    requires
        0 <= at <= members.len(),
        forall|j: int| 0 <= j < at ==> members[j].0 != key,
        at < members.len() ==> members[at].0 == key,
    ensures
        at < members.len() ==> put(members, key, value) == members.update(at, (key, value)),
        at == members.len() ==> put(members, key, value) == members.push((key, value)),
    decreases members.len(),
{
    if members.len() == 0 {
        assert(members.push((key, value)) =~= seq![(key, value)]);
    } else if at == 0 {
    } else {
        let rest = members.drop_first();
        lemma_put_at(rest, key, value, at - 1);
        if at < members.len() {
            assert(seq![members[0]] + rest.update(at - 1, (key, value)) =~= members.update(
                at,
                (key, value),
            ));
        } else {
            assert(seq![members[0]] + rest.push((key, value)) =~= members.push((key, value)));
        }
    }
}

} // verus!
