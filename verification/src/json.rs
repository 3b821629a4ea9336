//! JSON values as the protocol engine reads and builds them.
//!
//! [`Json`] is the executable tree; [`JsonView`] is its mathematical model, in
//! which an object is a map from member names to values. Contracts throughout
//! the crate are stated over the model.

use vstd::prelude::*;
use vstd::utf8::{encode_utf8, encode_utf8_decode_utf8};

verus! {

/// `serde_json::Number`, carried through for numbers that are not integers.
/// Nothing in this crate looks inside one.
#[verifier::external_type_specification]
#[verifier::external_body]
pub struct ExNumber(serde_json::Number);

/// `serde_json::Number`'s `Clone::clone`, which is derived over a `Copy`
/// payload: the clone is the same number.
pub assume_specification[ <serde_json::Number as Clone>::clone ](
    n: &serde_json::Number,
) -> (r: serde_json::Number)
    ensures
        r == *n,
;

/// Whether two texts hold the same characters.
pub fn same_text(a: &str, b: &str) -> (same: bool)
    ensures
        same == (a@ == b@),
{
    let left = a.as_bytes();
    let right = b.as_bytes();
    proof {
        encode_utf8_decode_utf8(a@);
        encode_utf8_decode_utf8(b@);
    }
    if left.len() != right.len() {
        return false;
    }
    let mut i: usize = 0;
    while i < left.len()
        invariant
            i <= left@.len(),
            left@.len() == right@.len(),
            left@ == encode_utf8(a@),
            right@ == encode_utf8(b@),
            forall|k: int| 0 <= k < i ==> left@[k] == right@[k],
        decreases left@.len() - i,
    {
        if left[i] != right[i] {
            return false;
        }
        i += 1;
    }
    proof {
        assert(left@ =~= right@);
    }
    true
}

/// A JSON number. Integers are held as plain integers; any other number is
/// carried as the parser produced it.
#[derive(Debug, PartialEq)]
pub enum JsonNumber {
    /// An integer from zero up. The parser gives every such integer in this
    /// form.
    PosInt(u64),
    /// An integer held with its sign. The parser gives the integers below
    /// zero in this form.
    NegInt(i64),
    /// A number written with a fraction or an exponent, or an integer that
    /// does not fit in 64 bits.
    Float(serde_json::Number),
}

/// The model of a [`JsonNumber`]: the two integer forms are one.
pub enum NumberView {
    Int(int),
    Float(serde_json::Number),
}

impl View for JsonNumber {
    type V = NumberView;

    open spec fn view(&self) -> NumberView {
        match self {
            JsonNumber::PosInt(u) => NumberView::Int(*u as int),
            JsonNumber::NegInt(i) => NumberView::Int(*i as int),
            JsonNumber::Float(n) => NumberView::Float(*n),
        }
    }
}

impl Clone for JsonNumber {
    fn clone(&self) -> (r: Self)
        ensures
            r == *self,
    {
        match self {
            JsonNumber::PosInt(u) => JsonNumber::PosInt(*u),
            JsonNumber::NegInt(i) => JsonNumber::NegInt(*i),
            JsonNumber::Float(n) => JsonNumber::Float(n.clone()),
        }
    }
}

impl JsonNumber {
    /// The number for a signed integer, in the form the parser would give it.
    pub fn from_i64(value: i64) -> (n: Self)
        ensures
            n@ == NumberView::Int(value as int),
            value >= 0 ==> n is PosInt,
            value < 0 ==> n is NegInt,
    {
        if value >= 0 {
            JsonNumber::PosInt(value as u64)
        } else {
            JsonNumber::NegInt(value)
        }
    }
}

/// A JSON value. The members of an object are kept in the order they were
/// added; where a name occurs twice the later member is the one that counts.
#[derive(Debug, PartialEq)]
pub enum Json {
    Null,
    Bool(bool),
    Number(JsonNumber),
    String(String),
    Array(Vec<Json>),
    Object(Vec<(String, Json)>),
}

/// The model of a [`Json`] value.
#[verifier::ext_equal]
pub enum JsonView {
    Null,
    Bool(bool),
    Number(NumberView),
    String(Seq<char>),
    Array(Seq<JsonView>),
    Object(Map<Seq<char>, JsonView>),
}

/// The model of one value.
pub open spec fn json_view(j: Json) -> JsonView
    decreases j,
{
    match j {
        Json::Null => JsonView::Null,
        Json::Bool(b) => JsonView::Bool(b),
        Json::Number(n) => JsonView::Number(n@),
        Json::String(s) => JsonView::String(s@),
        Json::Array(items) => JsonView::Array(items_view(items@)),
        Json::Object(members) => JsonView::Object(members_view(members@)),
    }
}

/// The models of the elements of an array, in order.
pub open spec fn items_view(items: Seq<Json>) -> Seq<JsonView>
    decreases items,
{
    if items.len() == 0 {
        Seq::empty()
    } else {
        items_view(items.drop_last()).push(json_view(items.last()))
    }
}

/// The map that a list of members stands for: each member is inserted in
/// turn, so a later member replaces an earlier one of the same name.
pub open spec fn members_view(members: Seq<(String, Json)>) -> Map<Seq<char>, JsonView>
    decreases members,
{
    if members.len() == 0 {
        Map::empty()
    } else {
        members_view(members.drop_last()).insert(
            members.last().0@,
            json_view(members.last().1),
        )
    }
}

impl View for Json {
    type V = JsonView;

    open spec fn view(&self) -> JsonView {
        json_view(*self)
    }
}

/// The model of an optional value.
pub open spec fn option_view(value: Option<Json>) -> Option<JsonView> {
    match value {
        Some(j) => Some(j@),
        None => None,
    }
}

/// The member `key` of an object; `None` for a missing member and for any
/// value that is not an object.
pub open spec fn member(value: JsonView, key: Seq<char>) -> Option<JsonView> {
    match value {
        JsonView::Object(map) => if map.contains_key(key) {
            Some(map[key])
        } else {
            None
        },
        _ => None,
    }
}

/// The text of the member `key`, where the value is an object and that member
/// is a string.
pub open spec fn member_text(value: JsonView, key: Seq<char>) -> Option<Seq<char>> {
    match member(value, key) {
        Some(JsonView::String(text)) => Some(text),
        _ => None,
    }
}

/// The number at the member `key`, where the value is an object and that
/// member is a number.
pub open spec fn member_number(value: JsonView, key: Seq<char>) -> Option<NumberView> {
    match member(value, key) {
        Some(JsonView::Number(n)) => Some(n),
        _ => None,
    }
}

/// Adding an element at the end of an array adds its model at the end.
pub proof fn lemma_items_view_push(items: Seq<Json>, last: Json)
    ensures
        items_view(items.push(last)) == items_view(items).push(last@),
{
    assert(items.push(last).drop_last() =~= items);
}

/// Adding a member at the end of an object inserts it into the map.
pub proof fn lemma_members_view_push(members: Seq<(String, Json)>, key: String, value: Json)
    ensures
        members_view(members.push((key, value))) == members_view(members).insert(key@, value@),
{
    assert(members.push((key, value)).drop_last() =~= members);
}

/// The last member of a given name is the one the map holds.
pub proof fn lemma_members_view_last_wins(members: Seq<(String, Json)>, i: int)
    requires
        0 <= i < members.len(),
        forall|j: int| i < j < members.len() ==> members[j].0@ != members[i].0@,
    ensures
        members_view(members).contains_key(members[i].0@),
        members_view(members)[members[i].0@] == members[i].1@,
    decreases members.len(),
{
    if i < members.len() - 1 {
        lemma_members_view_last_wins(members.drop_last(), i);
    }
}

/// A name that no member has is not in the map.
pub proof fn lemma_members_view_absent(members: Seq<(String, Json)>, key: Seq<char>)
    requires
        forall|j: int| 0 <= j < members.len() ==> members[j].0@ != key,
    ensures
        !members_view(members).contains_key(key),
    decreases members.len(),
{
    if members.len() > 0 {
        lemma_members_view_absent(members.drop_last(), key);
    }
}

impl Json {
    /// A string value.
    pub fn string(text: &str) -> (j: Json)
        ensures
            j@ == JsonView::String(text@),
    {
        Json::String(String::from_str(text))
    }

    /// An integer value.
    pub fn integer(value: i64) -> (j: Json)
        ensures
            j@ == JsonView::Number(NumberView::Int(value as int)),
    {
        Json::Number(JsonNumber::from_i64(value))
    }

    /// The member `key` of an object. `None` where the value is not an object
    /// or has no such member.
    pub fn get(&self, key: &str) -> (r: Option<&Json>)
        ensures
            match r {
                Some(found) => member(self@, key@) == Some(found@),
                None => member(self@, key@) is None,
            },
    {
        match self {
            Json::Object(members) => {
                let mut i: usize = members.len();
                while i > 0
                    invariant
                        i <= members.len(),
                        self@ == JsonView::Object(members_view(members@)),
                        forall|j: int| i <= j < members.len() ==> members@[j].0@ != key@,
                    decreases i,
                {
                    i -= 1;
                    if same_text(members[i].0.as_str(), key) {
                        proof {
                            lemma_members_view_last_wins(members@, i as int);
                        }
                        return Some(&members[i].1);
                    }
                }
                proof {
                    lemma_members_view_absent(members@, key@);
                }
                None
            },
            _ => None,
        }
    }

    /// The text of a string value; `None` for any other value.
    pub fn as_str(&self) -> (r: Option<&str>)
        ensures
            match r {
                Some(text) => self@ == JsonView::String(text@),
                None => !(self@ is String),
            },
    {
        match self {
            Json::String(text) => Some(text.as_str()),
            _ => None,
        }
    }

    /// The number of a number value; `None` for any other value.
    pub fn as_number(&self) -> (r: Option<&JsonNumber>)
        ensures
            match r {
                Some(n) => self@ == JsonView::Number(n@) && *self == Json::Number(*n),
                None => !(self@ is Number),
            },
    {
        match self {
            Json::Number(n) => Some(n),
            _ => None,
        }
    }

    /// Whether the value is `null`.
    pub fn is_null(&self) -> (r: bool)
        ensures
            r == (self@ is Null),
    {
        match self {
            Json::Null => true,
            _ => false,
        }
    }

    /// The text of the member `key`: present where the value is an object
    /// whose member `key` is a string.
    pub fn get_str(&self, key: &str) -> (r: Option<&str>)
        ensures
            match r {
                Some(text) => member_text(self@, key@) == Some(text@),
                None => member_text(self@, key@) is None,
            },
    {
        match self.get(key) {
            Some(found) => found.as_str(),
            None => None,
        }
    }

    /// The number at the member `key`: present where the value is an object
    /// whose member `key` is a number.
    pub fn get_number(&self, key: &str) -> (r: Option<&JsonNumber>)
        ensures
            match r {
                Some(n) => member_number(self@, key@) == Some(n@),
                None => member_number(self@, key@) is None,
            },
    {
        match self.get(key) {
            Some(found) => found.as_number(),
            None => None,
        }
    }
}

/// Builds an object member by member.
pub struct ObjectBuilder {
    members: Vec<(String, Json)>,
}

impl View for ObjectBuilder {
    type V = Map<Seq<char>, JsonView>;

    closed spec fn view(&self) -> Map<Seq<char>, JsonView> {
        members_view(self.members@)
    }
}

impl ObjectBuilder {
    /// An object without members.
    pub fn new() -> (b: Self)
        ensures
            b@ == Map::<Seq<char>, JsonView>::empty(),
    {
        ObjectBuilder { members: Vec::new() }
    }

    /// Adds the member `key`, replacing an earlier member of that name.
    pub fn field(self, key: &str, value: Json) -> (b: Self)
        ensures
            b@ == self@.insert(key@, value@),
    {
        let mut members = self.members;
        let name = String::from_str(key);
        proof {
            lemma_members_view_push(members@, name, value);
        }
        members.push((name, value));
        ObjectBuilder { members }
    }

    /// The object built so far.
    pub fn build(self) -> (j: Json)
        ensures
            j@ == JsonView::Object(self@),
    {
        Json::Object(self.members)
    }
}

/// Builds an array element by element.
pub struct ArrayBuilder {
    items: Vec<Json>,
}

impl View for ArrayBuilder {
    type V = Seq<JsonView>;

    closed spec fn view(&self) -> Seq<JsonView> {
        items_view(self.items@)
    }
}

impl ArrayBuilder {
    /// An array without elements.
    pub fn new() -> (b: Self)
        ensures
            b@ == Seq::<JsonView>::empty(),
    {
        ArrayBuilder { items: Vec::new() }
    }

    /// Adds `value` at the end.
    pub fn item(self, value: Json) -> (b: Self)
        ensures
            b@ == self@.push(value@),
    {
        let mut items = self.items;
        proof {
            lemma_items_view_push(items@, value);
        }
        items.push(value);
        ArrayBuilder { items }
    }

    /// The array built so far.
    pub fn build(self) -> (j: Json)
        ensures
            j@ == JsonView::Array(self@),
    {
        Json::Array(self.items)
    }
}

} // verus!
