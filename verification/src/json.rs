//! JSON values as plain data.
//!
//! Parsing and printing are done by `serde_json`; everything that reads or
//! builds a value works on [`Json`], whose mathematical model is [`JsonV`].

use vstd::prelude::*;

verus! {

/// Model of a JSON value. A number is an unsigned integer, a negative integer,
/// or the digits of a number that is neither. An object is the sequence of
/// its keys and, index by index, the sequence of their values.
pub enum JsonV {
    Null,
    Bool(bool),
    PosInt(int),
    NegInt(int),
    Float(Seq<char>),
    Str(Seq<char>),
    Array(Seq<JsonV>),
    Object(Seq<Seq<char>>, Seq<JsonV>),
}

/// A JSON value. `Float` holds the digits of a number that is not an integer
/// in the range of `u64` or `i64`.
#[derive(Debug)]
pub enum Json {
    Null,
    Bool(bool),
    PosInt(u64),
    NegInt(i64),
    Float(String),
    Str(String),
    Array(Vec<Json>),
    Object(Vec<(String, Json)>),
}

impl View for Json {
    type V = JsonV;

    open spec fn view(&self) -> JsonV
        decreases self,
    {
        match self {
            Json::Null => JsonV::Null,
            Json::Bool(b) => JsonV::Bool(*b),
            Json::PosInt(n) => JsonV::PosInt(*n as int),
            Json::NegInt(n) => JsonV::NegInt(*n as int),
            Json::Float(t) => JsonV::Float(t@),
            Json::Str(s) => JsonV::Str(s@),
            Json::Array(items) => JsonV::Array(
                Seq::new(
                    items@.len(),
                    |i: int|
                        if 0 <= i < items@.len() {
                            items@[i].view()
                        } else {
                            JsonV::Null
                        },
                ),
            ),
            Json::Object(fields) => JsonV::Object(
                Seq::new(fields@.len(), |i: int| fields@[i].0@),
                Seq::new(
                    fields@.len(),
                    |i: int|
                        if 0 <= i < fields@.len() {
                            fields@[i].1.view()
                        } else {
                            JsonV::Null
                        },
                ),
            ),
        }
    }
}

/// The models of a sequence of values.
pub open spec fn json_views(items: Seq<Json>) -> Seq<JsonV> {
    Seq::new(items.len(), |i: int| items[i]@)
}

/// The keys of a sequence of object fields.
pub open spec fn field_keys(fields: Seq<(String, Json)>) -> Seq<Seq<char>> {
    Seq::new(fields.len(), |i: int| fields[i].0@)
}

/// The models of the values of a sequence of object fields.
pub open spec fn field_values(fields: Seq<(String, Json)>) -> Seq<JsonV> {
    Seq::new(fields.len(), |i: int| fields[i].1@)
}

/// The object with the given `(key, value)` fields, in that order.
pub open spec fn object_of(fields: Seq<(Seq<char>, JsonV)>) -> JsonV {
    JsonV::Object(
        Seq::new(fields.len(), |i: int| fields[i].0),
        Seq::new(fields.len(), |i: int| fields[i].1),
    )
}

/// Index of the first key equal to `key` at or after `from`, or the number of
/// keys when there is none.
pub open spec fn key_index_from(keys: Seq<Seq<char>>, key: Seq<char>, from: int) -> int
    decreases keys.len() - from,
{
    if 0 <= from < keys.len() {
        if keys[from] == key {
            from
        } else {
            key_index_from(keys, key, from + 1)
        }
    } else {
        keys.len() as int
    }
}

/// Index of the first key equal to `key`, or the number of keys.
pub open spec fn key_index(keys: Seq<Seq<char>>, key: Seq<char>) -> int {
    key_index_from(keys, key, 0)
}

impl JsonV {
    /// The member `key` of an object, the first of that name; `None` where
    /// there is none and for any other value.
    pub open spec fn get(self, key: Seq<char>) -> Option<JsonV> {
        match self {
            JsonV::Object(keys, values) => {
                let i = key_index(keys, key);
                if 0 <= i < keys.len() && i < values.len() {
                    Some(values[i])
                } else {
                    None
                }
            },
            _ => None,
        }
    }

    /// Whether an object has a member `key`.
    pub open spec fn has(self, key: Seq<char>) -> bool {
        self.get(key) is Some
    }

    /// An object with `key` bound to `value`: the first member of that name
    /// is replaced where it stands, otherwise the member is added at the
    /// end. Any other value is left as it is.
    pub open spec fn with(self, key: Seq<char>, value: JsonV) -> JsonV {
        match self {
            JsonV::Object(keys, values) => {
                let i = key_index(keys, key);
                if 0 <= i < keys.len() && i < values.len() {
                    JsonV::Object(keys, values.update(i, value))
                } else {
                    JsonV::Object(keys.push(key), values.push(value))
                }
            },
            _ => self,
        }
    }

    pub open spec fn as_str(self) -> Option<Seq<char>> {
        match self {
            JsonV::Str(s) => Some(s),
            _ => None,
        }
    }

    pub open spec fn as_array(self) -> Option<Seq<JsonV>> {
        match self {
            JsonV::Array(items) => Some(items),
            _ => None,
        }
    }

    pub open spec fn as_u64(self) -> Option<u64> {
        match self {
            JsonV::PosInt(n) => Some(n as u64),
            _ => None,
        }
    }

    pub open spec fn as_bool(self) -> Option<bool> {
        match self {
            JsonV::Bool(b) => Some(b),
            _ => None,
        }
    }

    pub open spec fn is_number(self) -> bool {
        self is PosInt || self is NegInt || self is Float
    }

    /// The text member `key` of an object.
    pub open spec fn get_str(self, key: Seq<char>) -> Option<Seq<char>> {
        match self.get(key) {
            Some(v) => v.as_str(),
            None => None,
        }
    }

    /// The unsigned integer member `key` of an object.
    pub open spec fn get_u64(self, key: Seq<char>) -> Option<u64> {
        match self.get(key) {
            Some(v) => v.as_u64(),
            None => None,
        }
    }
}

/// What parsing a text as JSON yields: the value, or the parser's message.
pub uninterp spec fn parsed_json(text: Seq<char>) -> Result<JsonV, Seq<char>>;

/// The compact JSON text of a value, as `serde_json` prints it once the
/// digits of its floating-point numbers are read back.
pub uninterp spec fn json_text(value: JsonV) -> Seq<char>;

#[verifier::external_type_specification]
#[verifier::external_body]
pub struct ExValue(serde_json::Value);

/// Copies a `serde_json::Value` into a [`Json`], variant by variant. A number
/// becomes `PosInt` where `as_u64` gives it, else `NegInt` where `as_i64`
/// gives it, else `Float` with its digits.
#[verifier::external_body]
fn from_value(value: &serde_json::Value) -> Json {
    match value {
        serde_json::Value::Null => Json::Null,
        serde_json::Value::Bool(b) => Json::Bool(*b),
        serde_json::Value::Number(n) => match (n.as_u64(), n.as_i64()) {
            (Some(u), _) => Json::PosInt(u),
            (_, Some(i)) => Json::NegInt(i),
            _ => Json::Float(n.to_string()),
        },
        serde_json::Value::String(s) => Json::Str(s.clone()),
        serde_json::Value::Array(a) => Json::Array(a.iter().map(from_value).collect()),
        serde_json::Value::Object(m) => Json::Object(
            m.iter().map(|(k, v)| (k.clone(), from_value(v))).collect(),
        ),
    }
}

/// Copies a [`Json`] into a `serde_json::Value`, variant by variant. The
/// digits of a `Float` are read back by `serde_json::from_str`.
#[verifier::external_body]
fn to_value(value: &Json) -> serde_json::Value {
    match value {
        Json::Null => serde_json::Value::Null,
        Json::Bool(b) => serde_json::Value::Bool(*b),
        Json::PosInt(n) => serde_json::Value::from(*n),
        Json::NegInt(n) => serde_json::Value::from(*n),
        Json::Float(t) => serde_json::from_str(t).unwrap_or_default(),
        Json::Str(s) => serde_json::Value::String(s.clone()),
        Json::Array(a) => serde_json::Value::Array(a.iter().map(to_value).collect()),
        Json::Object(f) => serde_json::Value::Object(
            f.iter().map(|(k, v)| (k.clone(), to_value(v))).collect(),
        ),
    }
}

/// `serde_json::from_str`: parses a text into a value, or gives the parser's
/// message. Both are functions of the text alone, which this library only
/// names.
#[verifier::external_body]
pub(crate) fn parse_json(text: &str) -> (r: Result<Json, String>)
    ensures
        match r {
            Ok(j) => parsed_json(text@) == Ok::<JsonV, Seq<char>>(j@),
            Err(e) => parsed_json(text@) == Err::<JsonV, Seq<char>>(e@),
        },
{
    match serde_json::from_str::<serde_json::Value>(text) {
        Ok(v) => Ok(from_value(&v)),
        Err(e) => Err(e.to_string()),
    }
}

/// `serde_json::Value`'s `to_string`: the compact JSON text of a value, a
/// function of the value alone, which this library only names. Two outside
/// functions stand behind the name: the value is first copied into a
/// `serde_json::Value`, where `serde_json::from_str` reads the digits of a
/// `Float` back, and `to_string` then prints it.
#[verifier::external_body]
pub(crate) fn json_to_string(value: &Json) -> (r: String)
    ensures
        r@ == json_text(value@),
{
    to_value(value).to_string()
}

impl Json {
    /// Parses `text`.
    pub fn parse(text: &str) -> (r: Result<Json, String>)
        ensures
            match r {
                Ok(j) => parsed_json(text@) == Ok::<JsonV, Seq<char>>(j@),
                Err(e) => parsed_json(text@) == Err::<JsonV, Seq<char>>(e@),
            },
    {
        parse_json(text)
    }

    /// The compact JSON text of this value.
    pub fn to_text(&self) -> (r: String)
        ensures
            r@ == json_text(self@),
    {
        json_to_string(self)
    }

    /// A text value.
    pub fn string(s: &str) -> (r: Json)
        ensures
            r@ == JsonV::Str(s@),
    {
        Json::Str(s.to_owned())
    }

    /// An unsigned integer value.
    pub fn uint(n: u64) -> (r: Json)
        ensures
            r@ == JsonV::PosInt(n as int),
    {
        Json::PosInt(n)
    }

    /// An object with no field.
    pub fn empty_object() -> (r: Json)
        ensures
            r@ == JsonV::Object(Seq::empty(), Seq::empty()),
    {
        let r = Json::Object(Vec::new());
        assert(r@->Object_0 =~= Seq::empty());
        assert(r@->Object_1 =~= Seq::empty());
        r
    }

    /// The member `key` of an object; `None` for any other value.
    pub fn get(&self, key: &str) -> (r: Option<&Json>)
        ensures
            match r {
                Some(j) => self@.get(key@) == Some(j@) && decreases_to!(self => j),
                None => self@.get(key@) is None,
            },
    {
        match self {
            Json::Object(fields) => {
                assert(self@->Object_0 =~= field_keys(fields@));
                assert(self@->Object_1 =~= field_values(fields@));
                fields_get(fields, key)
            },
            _ => None,
        }
    }

    pub fn as_str(&self) -> (r: Option<&str>)
        ensures
            match r {
                Some(s) => self@.as_str() == Some(s@),
                None => self@.as_str() is None,
            },
    {
        match self {
            Json::Str(s) => Some(s.as_str()),
            _ => None,
        }
    }

    pub fn as_array(&self) -> (r: Option<&Vec<Json>>)
        ensures
            match r {
                Some(items) => self@.as_array() == Some(json_views(items@)) && (forall|i: int|
                    0 <= i < items@.len() ==> decreases_to!(self => #[trigger] items@[i])),
                None => self@.as_array() is None,
            },
    {
        match self {
            Json::Array(items) => {
                assert(self@->Array_0 =~= json_views(items@));
                Some(items)
            },
            _ => None,
        }
    }

    pub fn as_object(&self) -> (r: Option<&Vec<(String, Json)>>)
        ensures
            match r {
                Some(fields) => self@ == JsonV::Object(field_keys(fields@), field_values(fields@))
                    && (forall|i: int|
                    0 <= i < fields@.len() ==> decreases_to!(self => #[trigger] fields@[i].1)),
                None => !(self@ is Object),
            },
    {
        match self {
            Json::Object(fields) => {
                assert(self@->Object_0 =~= field_keys(fields@));
                assert(self@->Object_1 =~= field_values(fields@));
                Some(fields)
            },
            _ => None,
        }
    }

    pub fn as_u64(&self) -> (r: Option<u64>)
        ensures
            r == self@.as_u64(),
    {
        match self {
            Json::PosInt(n) => Some(*n),
            _ => None,
        }
    }

    pub fn as_bool(&self) -> (r: Option<bool>)
        ensures
            r == self@.as_bool(),
    {
        match self {
            Json::Bool(b) => Some(*b),
            _ => None,
        }
    }

    pub fn is_null(&self) -> (r: bool)
        ensures
            r == (self@ is Null),
    {
        match self {
            Json::Null => true,
            _ => false,
        }
    }

    pub fn is_string(&self) -> (r: bool)
        ensures
            r == (self@ is Str),
    {
        match self {
            Json::Str(_) => true,
            _ => false,
        }
    }

    pub fn is_array(&self) -> (r: bool)
        ensures
            r == (self@ is Array),
    {
        match self {
            Json::Array(_) => true,
            _ => false,
        }
    }

    pub fn is_object(&self) -> (r: bool)
        ensures
            r == (self@ is Object),
    {
        match self {
            Json::Object(_) => true,
            _ => false,
        }
    }

    pub fn is_number(&self) -> (r: bool)
        ensures
            r == self@.is_number(),
    {
        match self {
            Json::PosInt(_) | Json::NegInt(_) | Json::Float(_) => true,
            _ => false,
        }
    }

    /// The text member `key` of an object.
    pub fn get_str(&self, key: &str) -> (r: Option<&str>)
        ensures
            match r {
                Some(s) => self@.get_str(key@) == Some(s@),
                None => self@.get_str(key@) is None,
            },
    {
        match self.get(key) {
            Some(v) => v.as_str(),
            None => None,
        }
    }

    /// The unsigned integer member `key` of an object.
    pub fn get_u64(&self, key: &str) -> (r: Option<u64>)
        ensures
            r == self@.get_u64(key@),
    {
        match self.get(key) {
            Some(v) => v.as_u64(),
            None => None,
        }
    }

    /// A copy of this value.
    pub fn duplicate(&self) -> (r: Json)
        ensures
            r@ == self@,
        decreases self,
    {
        match self {
            Json::Null => Json::Null,
            Json::Bool(b) => Json::Bool(*b),
            Json::PosInt(n) => Json::PosInt(*n),
            Json::NegInt(n) => Json::NegInt(*n),
            Json::Float(t) => Json::Float(t.clone()),
            Json::Str(s) => Json::Str(s.clone()),
            Json::Array(items) => {
                let mut out: Vec<Json> = Vec::new();
                let mut i: usize = 0;
                while i < items.len()
                    invariant
                        i <= items.len(),
                        out@.len() == i,
                        forall|k: int| 0 <= k < i ==> out@[k]@ == items@[k]@,
                        forall|k: int|
                            0 <= k < items@.len() ==> decreases_to!(self => #[trigger] items@[k]),
                    decreases items.len() - i,
                {
                    let c = items[i].duplicate();
                    out.push(c);
                    i += 1;
                }
                let r = Json::Array(out);
                assert(r@->Array_0 =~= self@->Array_0);
                r
            },
            Json::Object(fields) => {
                let mut out: Vec<(String, Json)> = Vec::new();
                let mut i: usize = 0;
                while i < fields.len()
                    invariant
                        i <= fields.len(),
                        out@.len() == i,
                        forall|k: int|
                            0 <= k < i ==> out@[k].0@ == fields@[k].0@ && out@[k].1@
                                == fields@[k].1@,
                        forall|k: int|
                            0 <= k < fields@.len() ==> decreases_to!(self => #[trigger] fields@[k].1),
                    decreases fields.len() - i,
                {
                    let c = fields[i].1.duplicate();
                    out.push((fields[i].0.clone(), c));
                    i += 1;
                }
                let r = Json::Object(out);
                assert(r@->Object_0 =~= self@->Object_0);
                assert(r@->Object_1 =~= self@->Object_1);
                r
            },
        }
    }
}

/// The value of the first field named `key`.
pub fn fields_get<'a>(fields: &'a Vec<(String, Json)>, key: &str) -> (r: Option<&'a Json>)
    ensures
        match r {
            Some(j) => JsonV::Object(field_keys(fields@), field_values(fields@)).get(key@) == Some(
                j@,
            ) && exists|i: int| 0 <= i < fields@.len() && fields@[i].1 == *j,
            None => JsonV::Object(field_keys(fields@), field_values(fields@)).get(key@) is None,
        },
{
    let ghost keys = field_keys(fields@);
    let mut i: usize = 0;
    while i < fields.len()
        invariant
            i <= fields.len(),
            keys == field_keys(fields@),
            key_index_from(keys, key@, i as int) == key_index(keys, key@),
        decreases fields.len() - i,
    {
        if crate::text::str_eq(fields[i].0.as_str(), key) {
            return Some(&fields[i].1);
        }
        i += 1;
    }
    None
}

/// Binds `key` to `value`: the first field of that name is replaced where it
/// stands, otherwise the field is added at the end.
pub fn fields_set(fields: &mut Vec<(String, Json)>, key: &str, value: Json)
    ensures
        JsonV::Object(field_keys(final(fields)@), field_values(final(fields)@)) == JsonV::Object(
            field_keys(old(fields)@),
            field_values(old(fields)@),
        ).with(key@, value@),
{
    let ghost keys = field_keys(fields@);
    let ghost values = field_values(fields@);
    let mut i: usize = 0;
    while i < fields.len()
        invariant
            i <= fields.len(),
            fields@ == old(fields)@,
            keys == field_keys(fields@),
            values == field_values(fields@),
            key_index_from(keys, key@, i as int) == key_index(keys, key@),
        decreases fields.len() - i,
    {
        if crate::text::str_eq(fields[i].0.as_str(), key) {
            fields.set(i, (key.to_owned(), value));
            assert(field_keys(fields@) =~= keys);
            assert(field_values(fields@) =~= values.update(i as int, value@));
            return ;
        }
        i += 1;
    }
    fields.push((key.to_owned(), value));
    assert(field_keys(fields@) =~= keys.push(key@));
    assert(field_values(fields@) =~= values.push(value@));
}

impl Json {
    /// This object with `key` bound to `value`; any other value unchanged.
    pub fn with(self, key: &str, value: Json) -> (r: Json)
        ensures
            r@ == self@.with(key@, value@),
    {
        match self {
            Json::Object(fields) => {
                let mut fields = fields;
                proof {
                    let j = Json::Object(fields);
                    assert(j@->Object_0 =~= field_keys(fields@));
                    assert(j@->Object_1 =~= field_values(fields@));
                }
                fields_set(&mut fields, key, value);
                let r = Json::Object(fields);
                assert(r@->Object_0 =~= field_keys(fields@));
                assert(r@->Object_1 =~= field_values(fields@));
                r
            },
            other => other,
        }
    }
}

impl JsonV {
    /// Whether this is an object with as many values as keys.
    pub open spec fn is_record(self) -> bool {
        self matches JsonV::Object(keys, values) && keys.len() == values.len()
    }
}

/// The index of a key is within the keys, points at the key, and passes no
/// earlier occurrence.
pub proof fn lemma_key_index(keys: Seq<Seq<char>>, key: Seq<char>, from: int)
    requires
        0 <= from <= keys.len(),
    ensures
        from <= key_index_from(keys, key, from) <= keys.len(),
        key_index_from(keys, key, from) < keys.len() ==> keys[key_index_from(keys, key, from)]
            == key,
        forall|k: int| from <= k < key_index_from(keys, key, from) ==> keys[k] != key,
    decreases keys.len() - from,
{
    if from < keys.len() && keys[from] != key {
        lemma_key_index(keys, key, from + 1);
    }
}

/// What a key's index is after one more key is added at the end.
pub proof fn lemma_key_index_after_push(
    keys: Seq<Seq<char>>,
    added: Seq<char>,
    key: Seq<char>,
    from: int,
)
    requires
        0 <= from <= keys.len(),
    ensures
        key_index_from(keys.push(added), key, from) == if key_index_from(keys, key, from)
            < keys.len() {
            key_index_from(keys, key, from)
        } else if key == added {
            keys.len() as int
        } else {
            keys.len() as int + 1
        },
    decreases keys.len() - from,
{
    let longer = keys.push(added);
    if from < keys.len() {
        assert(longer[from] == keys[from]);
        if keys[from] != key {
            lemma_key_index_after_push(keys, added, key, from + 1);
        }
    } else {
        assert(longer[from] == added);
        if added != key {
            assert(key_index_from(longer, key, from + 1) == longer.len());
        }
    }
}

/// Binding a key in an object makes that the key's value, leaves every
/// other key as it was, and keeps the object an object.
pub proof fn lemma_with_then_get(obj: JsonV, key: Seq<char>, value: JsonV, other: Seq<char>)
    requires
        obj.is_record(),
    ensures
        obj.with(key, value).is_record(),
        obj.with(key, value).get(key) == Some(value),
        other != key ==> obj.with(key, value).get(other) == obj.get(other),
{
    let keys = obj->Object_0;
    let values = obj->Object_1;
    lemma_key_index(keys, key, 0);
    lemma_key_index(keys, other, 0);
    let i = key_index_from(keys, key, 0);
    if i < keys.len() {
    } else {
        lemma_key_index_after_push(keys, key, key, 0);
        lemma_key_index_after_push(keys, key, other, 0);
    }
}

/// The model of an exec value that is an object is a record.
pub proof fn lemma_object_view_is_record(value: Json)
    ensures
        value@ is Object ==> value@.is_record(),
{
}

/// The `(key, value)` models of a sequence of object fields.
pub open spec fn pair_views(fields: Seq<(String, Json)>) -> Seq<(Seq<char>, JsonV)> {
    Seq::new(fields.len(), |i: int| (fields[i].0@, fields[i].1@))
}

/// The object with one field.
pub open spec fn object1(k1: Seq<char>, v1: JsonV) -> JsonV {
    JsonV::Object(seq![k1], seq![v1])
}

/// The object with two fields, in that order.
pub open spec fn object2(k1: Seq<char>, v1: JsonV, k2: Seq<char>, v2: JsonV) -> JsonV {
    JsonV::Object(seq![k1, k2], seq![v1, v2])
}

/// The object with three fields, in that order.
pub open spec fn object3(
    k1: Seq<char>,
    v1: JsonV,
    k2: Seq<char>,
    v2: JsonV,
    k3: Seq<char>,
    v3: JsonV,
) -> JsonV {
    JsonV::Object(seq![k1, k2, k3], seq![v1, v2, v3])
}

impl Json {
    /// The object with the given fields, in that order.
    pub fn object(fields: Vec<(String, Json)>) -> (r: Json)
        ensures
            r@ == JsonV::Object(field_keys(fields@), field_values(fields@)),
            r@ == object_of(pair_views(fields@)),
    {
        let r = Json::Object(fields);
        assert(r@->Object_0 =~= field_keys(fields@));
        assert(r@->Object_1 =~= field_values(fields@));
        assert(object_of(pair_views(fields@))->Object_0 =~= field_keys(fields@));
        assert(object_of(pair_views(fields@))->Object_1 =~= field_values(fields@));
        r
    }

    /// The array of the given items.
    pub fn array(items: Vec<Json>) -> (r: Json)
        ensures
            r@ == JsonV::Array(json_views(items@)),
    {
        let r = Json::Array(items);
        assert(r@->Array_0 =~= json_views(items@));
        r
    }

    /// The object with one field.
    pub fn object1(k1: &str, v1: Json) -> (r: Json)
        ensures
            r@ == object1(k1@, v1@),
    {
        let mut fields: Vec<(String, Json)> = Vec::new();
        fields.push((k1.to_owned(), v1));
        let r = Json::Object(fields);
        assert(r@->Object_0 =~= seq![k1@]);
        assert(r@->Object_1 =~= seq![v1@]);
        r
    }

    /// The object with two fields, in that order.
    pub fn object2(k1: &str, v1: Json, k2: &str, v2: Json) -> (r: Json)
        ensures
            r@ == object2(k1@, v1@, k2@, v2@),
    {
        let mut fields: Vec<(String, Json)> = Vec::new();
        fields.push((k1.to_owned(), v1));
        fields.push((k2.to_owned(), v2));
        let r = Json::Object(fields);
        assert(r@->Object_0 =~= seq![k1@, k2@]);
        assert(r@->Object_1 =~= seq![v1@, v2@]);
        r
    }

    /// The object with three fields, in that order.
    pub fn object3(k1: &str, v1: Json, k2: &str, v2: Json, k3: &str, v3: Json) -> (r: Json)
        ensures
            r@ == object3(k1@, v1@, k2@, v2@, k3@, v3@),
    {
        let mut fields: Vec<(String, Json)> = Vec::new();
        fields.push((k1.to_owned(), v1));
        fields.push((k2.to_owned(), v2));
        fields.push((k3.to_owned(), v3));
        let r = Json::Object(fields);
        assert(r@->Object_0 =~= seq![k1@, k2@, k3@]);
        assert(r@->Object_1 =~= seq![v1@, v2@, v3@]);
        r
    }
}

} // verus!
