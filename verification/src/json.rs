//! JSON values: what the service reads from requests and workers, and what it
//! answers with. Text is parsed and printed by `serde_json`; reading and
//! building values is done here.
use vstd::prelude::*;
use vstd::string::*;
use vstd::utf8::encode_utf8;
use crate::text::{dec, decimal, lemma_dec_injective, same, texts};

verus! {

/// `serde_json::Number`, which carries a number that is no 64-bit integer from
/// where it is parsed to where it is printed.
#[verifier::external_type_specification]
#[verifier::external_body]
pub struct ExNumber(serde_json::Number);

/// `serde_json::Value`, the form in which `serde_json` parses and prints.
#[verifier::external_type_specification]
#[verifier::external_body]
pub struct ExValue(serde_json::Value);

/// `serde_json::Error`, why a text is no JSON.
#[verifier::external_type_specification]
#[verifier::external_body]
pub struct ExError(serde_json::Error);

/// A number that is no 64-bit integer. Only parsing makes one.
pub struct Real {
    number: serde_json::Number,
}

/// A JSON value. Of two fields of an object with one name the later counts.
pub enum Json {
    Null,
    Bool(bool),
    UInt(u64),
    NegInt(i64),
    Float(Real),
    Str(String),
    Arr(Vec<Json>),
    Obj(Vec<(String, Json)>),
}

/// A JSON value as mathematics: an object is a map, an integer is an integer.
pub enum JsonV {
    Null,
    Bool(bool),
    Int(int),
    Float(Real),
    Str(Seq<char>),
    Arr(Seq<JsonV>),
    Obj(Map<Seq<char>, JsonV>),
}

/// The values of a list of items.
pub open spec fn arr_view(items: Seq<Json>) -> Seq<JsonV>
    decreases items,
{
    if items.len() == 0 {
        Seq::empty()
    } else {
        arr_view(items.drop_last()).push(items.last().view())
    }
}

/// The map that a list of fields stands for.
pub open spec fn obj_view(fields: Seq<(String, Json)>) -> Map<Seq<char>, JsonV>
    decreases fields,
{
    if fields.len() == 0 {
        Map::empty()
    } else {
        obj_view(fields.drop_last()).insert(fields.last().0@, fields.last().1.view())
    }
}

/// What `key` names in `v`, where `v` is an object that has it.
pub open spec fn field(v: JsonV, key: Seq<char>) -> Option<JsonV> {
    match v {
        JsonV::Obj(m) => if m.contains_key(key) {
            Some(m[key])
        } else {
            None
        },
        _ => None,
    }
}

/// The text of `v`, where it is a string.
pub open spec fn text_of(v: JsonV) -> Option<Seq<char>> {
    match v {
        JsonV::Str(s) => Some(s),
        _ => None,
    }
}

/// The string that `key` names in `v`.
pub open spec fn field_text(v: JsonV, key: Seq<char>) -> Option<Seq<char>> {
    match field(v, key) {
        Some(x) => text_of(x),
        None => None,
    }
}

/// The unsigned 64-bit integer that `key` names in `v`.
pub open spec fn field_u64(v: JsonV, key: Seq<char>) -> Option<u64> {
    match field(v, key) {
        Some(JsonV::Int(n)) => if 0 <= n <= u64::MAX {
            Some(n as u64)
        } else {
            None
        },
        _ => None,
    }
}

/// The signed 64-bit integer that `key` names in `v`.
pub open spec fn field_i64(v: JsonV, key: Seq<char>) -> Option<i64> {
    match field(v, key) {
        Some(JsonV::Int(n)) => if i64::MIN <= n <= i64::MAX {
            Some(n as i64)
        } else {
            None
        },
        _ => None,
    }
}

/// The strings among `items`, in order.
pub open spec fn strings_among(items: Seq<JsonV>) -> Seq<Seq<char>> {
    items.filter_map(|x: JsonV| text_of(x))
}

/// The strings in the array that `key` names in `v`.
pub open spec fn field_strings(v: JsonV, key: Seq<char>) -> Option<Seq<Seq<char>>> {
    match field(v, key) {
        Some(JsonV::Arr(items)) => Some(strings_among(items)),
        _ => None,
    }
}

/// One step of a JSON pointer: a field of an object, or an element of an array
/// by its index in decimal.
pub open spec fn step(v: JsonV, token: Seq<char>) -> Option<JsonV> {
    match v {
        JsonV::Obj(m) => field(v, token),
        JsonV::Arr(items) => if exists|i: int| 0 <= i < items.len() && #[trigger] dec(i as nat) == token {
            Some(items[choose|i: int| 0 <= i < items.len() && #[trigger] dec(i as nat) == token])
        } else {
            None
        },
        _ => None,
    }
}

/// Where a JSON pointer of these tokens leads from `v`.
pub open spec fn pointer(v: JsonV, tokens: Seq<Seq<char>>) -> Option<JsonV>
    decreases tokens.len(),
{
    if tokens.len() == 0 {
        Some(v)
    } else {
        match pointer(v, tokens.drop_last()) {
            Some(x) => step(x, tokens.last()),
            None => None,
        }
    }
}

/// The string that a JSON pointer of these tokens leads to.
pub open spec fn pointer_text(v: JsonV, tokens: Seq<Seq<char>>) -> Option<Seq<char>> {
    match pointer(v, tokens) {
        Some(x) => text_of(x),
        None => None,
    }
}

/// The contents of a list of string slices.
pub open spec fn slices(v: Seq<&str>) -> Seq<Seq<char>> {
    Seq::new(v.len(), |i: int| v[i]@)
}

/// An absent string as `null`.
pub open spec fn opt_text(s: Option<String>) -> JsonV {
    match s {
        Some(t) => JsonV::Str(t@),
        None => JsonV::Null,
    }
}

/// An absent integer as `null`.
pub open spec fn opt_int(n: Option<i64>) -> JsonV {
    match n {
        Some(i) => JsonV::Int(i as int),
        None => JsonV::Null,
    }
}

/// An array of strings.
pub open spec fn text_array(v: Seq<Seq<char>>) -> JsonV {
    JsonV::Arr(Seq::new(v.len(), |i: int| JsonV::Str(v[i])))
}

/// The values of a list of items, one by one.
pub proof fn lemma_arr_view(items: Seq<Json>)
    ensures
        arr_view(items).len() == items.len(),
        forall|i: int| 0 <= i < items.len() ==> #[trigger] arr_view(items)[i] == items[i].view(),
    decreases items.len(),
{
    if items.len() > 0 {
        lemma_arr_view(items.drop_last());
    }
}

impl Json {
    /// The value.
    pub open spec fn view(&self) -> JsonV
        decreases self,
    {
        match self {
            Json::Null => JsonV::Null,
            Json::Bool(b) => JsonV::Bool(*b),
            Json::UInt(n) => JsonV::Int(*n as int),
            Json::NegInt(n) => JsonV::Int(*n as int),
            Json::Float(n) => JsonV::Float(*n),
            Json::Str(s) => JsonV::Str(s@),
            Json::Arr(v) => JsonV::Arr(arr_view(v@)),
            Json::Obj(v) => JsonV::Obj(obj_view(v@)),
        }
    }

    /// What `key` names in this object.
    pub fn get(&self, key: &str) -> (r: Option<&Json>)
        ensures
            match r {
                Some(x) => field(self@, key@) == Some(x@),
                None => field(self@, key@) is None,
            },
    {
        match self {
            Json::Obj(fields) => {
                let mut n: usize = fields.len();
                assert(fields@.take(n as int) =~= fields@);
                while n > 0
                    invariant
                        n <= fields@.len(),
                        self@ == JsonV::Obj(obj_view(fields@)),
                        obj_view(fields@).contains_key(key@) == obj_view(fields@.take(n as int)).contains_key(key@),
                        obj_view(fields@).contains_key(key@) ==> obj_view(fields@)[key@] == obj_view(
                            fields@.take(n as int),
                        )[key@],
                    decreases n,
                {
                    assert(fields@.take(n as int).drop_last() =~= fields@.take(n - 1));
                    if same(fields[n - 1].0.as_str(), key) {
                        return Some(&fields[n - 1].1);
                    }
                    n -= 1;
                }
                None
            },
            _ => None,
        }
    }

    /// The text, where this is a string.
    pub fn as_str(&self) -> (r: Option<&str>)
        ensures
            match r {
                Some(s) => text_of(self@) == Some(s@),
                None => text_of(self@) is None,
            },
    {
        match self {
            Json::Str(s) => Some(s.as_str()),
            _ => None,
        }
    }

    /// The string that `key` names in this object.
    pub fn get_str(&self, key: &str) -> (r: Option<&str>)
        ensures
            match r {
                Some(s) => field_text(self@, key@) == Some(s@),
                None => field_text(self@, key@) is None,
            },
    {
        match self.get(key) {
            Some(x) => x.as_str(),
            None => None,
        }
    }

    /// A copy of the string that `key` names in this object.
    pub fn get_string(&self, key: &str) -> (r: Option<String>)
        ensures
            match r {
                Some(s) => field_text(self@, key@) == Some(s@),
                None => field_text(self@, key@) is None,
            },
    {
        match self.get_str(key) {
            Some(s) => Some(s.to_owned()),
            None => None,
        }
    }

    /// A copy of the string that `key` names in this object, or the empty string.
    pub fn get_text(&self, key: &str) -> (r: String)
        ensures
            r@ == text_or_empty(field_text(self@, key@)),
    {
        match self.get_str(key) {
            Some(s) => s.to_owned(),
            None => String::new(),
        }
    }

    /// The unsigned integer that `key` names in this object.
    pub fn get_u64(&self, key: &str) -> (r: Option<u64>)
        ensures
            r == field_u64(self@, key@),
    {
        match self.get(key) {
            Some(Json::UInt(n)) => Some(*n),
            Some(Json::NegInt(n)) => if *n >= 0 {
                Some(*n as u64)
            } else {
                None
            },
            _ => None,
        }
    }

    /// The signed integer that `key` names in this object.
    pub fn get_i64(&self, key: &str) -> (r: Option<i64>)
        ensures
            r == field_i64(self@, key@),
    {
        match self.get(key) {
            Some(Json::UInt(n)) => if *n <= i64::MAX as u64 {
                Some(*n as i64)
            } else {
                None
            },
            Some(Json::NegInt(n)) => Some(*n),
            _ => None,
        }
    }

    /// The strings in the array that `key` names in this object.
    pub fn get_strings(&self, key: &str) -> (r: Option<Vec<String>>)
        ensures
            match r {
                Some(v) => field_strings(self@, key@) == Some(texts(v@)),
                None => field_strings(self@, key@) is None,
            },
    {
        match self.get(key) {
            Some(Json::Arr(items)) => Some(strings_in(items)),
            _ => None,
        }
    }

    /// One step of a JSON pointer.
    pub fn step(&self, token: &str) -> (r: Option<&Json>)
        ensures
            match r {
                Some(x) => step(self@, token@) == Some(x@),
                None => step(self@, token@) is None,
            },
    {
        match self {
            Json::Arr(items) => {
                proof {
                    lemma_arr_view(items@);
                }
                let ghost all = arr_view(items@);
                let mut i: usize = 0;
                while i < items.len()
                    invariant
                        i <= items@.len(),
                        all.len() == items@.len(),
                        all == arr_view(items@),
                        self@ == JsonV::Arr(all),
                        forall|k: int| 0 <= k < items@.len() ==> #[trigger] all[k] == items@[k].view(),
                        forall|k: int| 0 <= k < i ==> #[trigger] dec(k as nat) != token@,
                    decreases items.len() - i,
                {
                    let d: String = decimal(i as u64);
                    if same(d.as_str(), token) {
                        proof {
                            let at: int = i as int;
                            assert(0 <= at < all.len() && dec(at as nat) == token@);
                            let k = choose|k: int| 0 <= k < all.len() && #[trigger] dec(k as nat) == token@;
                            lemma_dec_injective(i as nat, k as nat);
                        }
                        return Some(&items[i]);
                    }
                    i += 1;
                }
                None
            },
            _ => self.get(token),
        }
    }

    /// Follows a JSON pointer given by its tokens.
    pub fn pointer(&self, tokens: &Vec<&str>) -> (r: Option<&Json>)
        ensures
            match r {
                Some(x) => pointer(self@, slices(tokens@)) == Some(x@),
                None => pointer(self@, slices(tokens@)) is None,
            },
    {
        let ghost all = slices(tokens@);
        let mut at: &Json = self;
        let mut i: usize = 0;
        while i < tokens.len()
            invariant
                i <= tokens@.len(),
                all == slices(tokens@),
                pointer(self@, all.take(i as int)) == Some(at@),
            decreases tokens.len() - i,
        {
            proof {
                assert(all.take(i + 1).drop_last() =~= all.take(i as int));
                assert(all.take(i + 1).last() == tokens@[i as int]@);
            }
            match at.step(tokens[i]) {
                Some(x) => {
                    at = x;
                },
                None => {
                    proof {
                        lemma_pointer_none(self@, all, i + 1);
                    }
                    return None;
                },
            }
            i += 1;
        }
        assert(all.take(i as int) =~= all);
        Some(at)
    }

    /// A copy of the string that a JSON pointer leads to, or the empty string.
    pub fn pointer_text(&self, tokens: &Vec<&str>) -> (r: String)
        ensures
            r@ == text_or_empty(pointer_text(self@, slices(tokens@))),
    {
        match self.pointer(tokens) {
            Some(x) => match x.as_str() {
                Some(s) => s.to_owned(),
                None => String::new(),
            },
            None => String::new(),
        }
    }
}

proof fn lemma_pointer_none(v: JsonV, tokens: Seq<Seq<char>>, i: int)
    requires
        0 <= i <= tokens.len(),
        pointer(v, tokens.take(i)) is None,
    ensures
        pointer(v, tokens) is None,
    decreases tokens.len() - i,
{
    if i == tokens.len() {
        assert(tokens.take(i) =~= tokens);
    } else {
        assert(tokens.take(i + 1).drop_last() =~= tokens.take(i));
        lemma_pointer_none(v, tokens, i + 1);
    }
}

/// A text, or the empty one in its absence.
pub open spec fn text_or_empty(s: Option<Seq<char>>) -> Seq<char> {
    match s {
        Some(t) => t,
        None => Seq::empty(),
    }
}

/// The strings among `items`, in order.
pub fn strings_in(items: &Vec<Json>) -> (r: Vec<String>)
    ensures
        texts(r@) == strings_among(arr_view(items@)),
{
    let ghost all = arr_view(items@);
    let ghost pick = |x: JsonV| text_of(x);
    proof {
        lemma_arr_view(items@);
    }
    let mut out: Vec<String> = Vec::new();
    let mut i: usize = 0;
    assert(texts(out@) =~= all.take(0).filter_map(pick));
    while i < items.len()
        invariant
            i <= items@.len(),
            all.len() == items@.len(),
            forall|k: int| 0 <= k < items@.len() ==> #[trigger] all[k] == items@[k].view(),
            pick == (|x: JsonV| text_of(x)),
            texts(out@) == all.take(i as int).filter_map(pick),
        decreases items.len() - i,
    {
        proof {
            all.lemma_filter_map_take_succ(pick, i as int);
            assert(all[i as int] == items@[i as int].view());
        }
        let ghost before = texts(out@);
        match items[i].as_str() {
            Some(s) => {
                out.push(s.to_owned());
                assert(texts(out@) =~= before.push(s@));
            },
            None => {
                assert(texts(out@) =~= before);
            },
        }
        i += 1;
        assert(texts(out@) =~= all.take(i as int).filter_map(pick));
    }
    assert(all.take(i as int) =~= all);
    out
}

/// An object under construction.
pub struct Fields {
    list: Vec<(String, Json)>,
}

impl View for Fields {
    type V = Map<Seq<char>, JsonV>;

    closed spec fn view(&self) -> Map<Seq<char>, JsonV> {
        obj_view(self.list@)
    }
}

impl Fields {
    /// No field.
    pub fn new() -> (r: Fields)
        ensures
            r@ == Map::<Seq<char>, JsonV>::empty(),
    {
        Fields { list: Vec::new() }
    }

    /// Adds a field.
    pub fn put(&mut self, key: &str, value: Json)
        ensures
            final(self)@ == old(self)@.insert(key@, value@),
    {
        let ghost before = self.list@;
        self.list.push((key.to_owned(), value));
        assert(self.list@.drop_last() =~= before);
    }

    /// Adds a string.
    pub fn put_text(&mut self, key: &str, value: &str)
        ensures
            final(self)@ == old(self)@.insert(key@, JsonV::Str(value@)),
    {
        self.put(key, Json::Str(value.to_owned()));
    }

    /// Adds an unsigned integer.
    pub fn put_u64(&mut self, key: &str, value: u64)
        ensures
            final(self)@ == old(self)@.insert(key@, JsonV::Int(value as int)),
    {
        self.put(key, Json::UInt(value));
    }

    /// Adds a signed integer.
    pub fn put_i64(&mut self, key: &str, value: i64)
        ensures
            final(self)@ == old(self)@.insert(key@, JsonV::Int(value as int)),
    {
        self.put(key, Json::NegInt(value));
    }

    /// Adds a truth value.
    pub fn put_bool(&mut self, key: &str, value: bool)
        ensures
            final(self)@ == old(self)@.insert(key@, JsonV::Bool(value)),
    {
        self.put(key, Json::Bool(value));
    }

    /// Adds a string, or `null` in its absence.
    pub fn put_opt(&mut self, key: &str, value: &Option<String>)
        ensures
            final(self)@ == old(self)@.insert(key@, opt_text(*value)),
    {
        match value {
            Some(s) => self.put_text(key, s.as_str()),
            None => self.put(key, Json::Null),
        }
    }

    /// Adds a signed integer, or `null` in its absence.
    pub fn put_opt_i64(&mut self, key: &str, value: Option<i64>)
        ensures
            final(self)@ == old(self)@.insert(key@, opt_int(value)),
    {
        match value {
            Some(n) => self.put_i64(key, n),
            None => self.put(key, Json::Null),
        }
    }

    /// Adds an array of strings.
    pub fn put_texts(&mut self, key: &str, value: &Vec<String>)
        ensures
            final(self)@ == old(self)@.insert(key@, text_array(texts(value@))),
    {
        let j: Json = json_texts(value);
        self.put(key, j);
    }

    /// The object.
    pub fn done(self) -> (r: Json)
        ensures
            r@ == JsonV::Obj(self@),
    {
        Json::Obj(self.list)
    }
}

/// An array of strings.
pub fn json_texts(value: &Vec<String>) -> (r: Json)
    ensures
        r@ == text_array(texts(value@)),
{
    let mut items: Vec<Json> = Vec::new();
    let mut i: usize = 0;
    while i < value.len()
        invariant
            i <= value@.len(),
            items@.len() == i,
            forall|k: int| 0 <= k < i ==> (#[trigger] items@[k]).view() == JsonV::Str(value@[k]@),
        decreases value.len() - i,
    {
        items.push(Json::Str(value[i].clone()));
        i += 1;
    }
    proof {
        lemma_arr_view(items@);
        assert(arr_view(items@) =~= Seq::new(value@.len(), |k: int| JsonV::Str(texts(value@)[k])));
    }
    Json::Arr(items)
}

/// A list under construction.
pub struct Items {
    list: Vec<Json>,
}

impl View for Items {
    type V = Seq<JsonV>;

    closed spec fn view(&self) -> Seq<JsonV> {
        arr_view(self.list@)
    }
}

impl Items {
    /// No item.
    pub fn new() -> (r: Items)
        ensures
            r@ == Seq::<JsonV>::empty(),
    {
        Items { list: Vec::new() }
    }

    /// Adds an item at the end.
    pub fn put(&mut self, value: Json)
        ensures
            final(self)@ == old(self)@.push(value@),
    {
        let ghost before = self.list@;
        self.list.push(value);
        assert(self.list@.drop_last() =~= before);
    }

    /// Adds a string at the end.
    pub fn put_text(&mut self, value: &str)
        ensures
            final(self)@ == old(self)@.push(JsonV::Str(value@)),
    {
        self.put(Json::Str(value.to_owned()));
    }

    /// The array.
    pub fn done(self) -> (r: Json)
        ensures
            r@ == JsonV::Arr(self@),
    {
        Json::Arr(self.list)
    }
}

/// The value that a `serde_json::Value` stands for.
pub uninterp spec fn value_view(v: serde_json::Value) -> JsonV;

/// The message of a `serde_json::Error`.
pub uninterp spec fn error_view(e: serde_json::Error) -> Seq<char>;

/// What `serde_json` makes of a text: its value, or why it is no JSON.
pub uninterp spec fn json_parse(text: Seq<u8>) -> Result<JsonV, Seq<char>>;

/// The compact text that `serde_json` prints for a value.
pub uninterp spec fn json_text(v: JsonV) -> Seq<char>;

/// The outcome of parsing, by its value or its message.
pub open spec fn parse_view(r: Result<serde_json::Value, serde_json::Error>) -> Result<JsonV, Seq<char>> {
    match r {
        Ok(v) => Ok(value_view(v)),
        Err(e) => Err(error_view(e)),
    }
}

/// The outcome of reading a JSON text, by its value or its message.
pub open spec fn read_view(r: Result<Json, String>) -> Result<JsonV, Seq<char>> {
    match r {
        Ok(j) => Ok(j@),
        Err(e) => Err(e@),
    }
}

/// `serde_json::from_slice` on a `serde_json::Value`: its outcome depends on
/// the bytes alone.
#[verifier::external_body]
fn parse_value(text: &[u8]) -> (r: Result<serde_json::Value, serde_json::Error>)
    ensures
        parse_view(r) == json_parse(text@),
{
    serde_json::from_slice(text)
}

/// Changes a `serde_json::Value` into a [`Json`] of the same value, variant by
/// variant.
#[verifier::external_body]
fn json_of(v: serde_json::Value) -> (r: Json)
    ensures
        r@ == value_view(v),
{
    match v {
        serde_json::Value::Null => Json::Null,
        serde_json::Value::Bool(b) => Json::Bool(b),
        serde_json::Value::Number(n) => match (n.as_u64(), n.as_i64()) {
            (Some(u), _) => Json::UInt(u),
            (None, Some(i)) => Json::NegInt(i),
            (None, None) => Json::Float(Real { number: n }),
        },
        serde_json::Value::String(s) => Json::Str(s),
        serde_json::Value::Array(a) => Json::Arr(a.into_iter().map(json_of).collect()),
        serde_json::Value::Object(o) => Json::Obj(o.into_iter().map(|(k, x)| (k, json_of(x))).collect()),
    }
}

/// The message of a `serde_json::Error`, by `to_string`.
#[verifier::external_body]
fn error_text(e: serde_json::Error) -> (r: String)
    ensures
        r@ == error_view(e),
{
    e.to_string()
}

/// Changes a [`Json`] into a `serde_json::Value` of the same value, variant by
/// variant. Of two fields with one name the later stays, as in
/// `serde_json::Map`.
#[verifier::external_body]
fn value_of(j: &Json) -> (r: serde_json::Value)
    ensures
        value_view(r) == j@,
{
    match j {
        Json::Null => serde_json::Value::Null,
        Json::Bool(b) => serde_json::Value::Bool(*b),
        Json::UInt(n) => serde_json::Value::Number((*n).into()),
        Json::NegInt(n) => serde_json::Value::Number((*n).into()),
        Json::Float(x) => serde_json::Value::Number(x.number.clone()),
        Json::Str(s) => serde_json::Value::String(s.clone()),
        Json::Arr(a) => serde_json::Value::Array(a.iter().map(value_of).collect()),
        Json::Obj(o) => serde_json::Value::Object(o.iter().map(|(k, x)| (k.clone(), value_of(x))).collect()),
    }
}

/// Whether `v` is an array of strings.
pub open spec fn is_text_list(v: JsonV) -> bool {
    v is Arr && forall|i: int| 0 <= i < v->Arr_0.len() ==> #[trigger] v->Arr_0[i] is Str
}

/// Whether a text parses to `v`.
pub open spec fn parses_to(text: Seq<char>, v: JsonV) -> bool {
    json_parse(encode_utf8(text)) == Ok::<JsonV, Seq<char>>(v)
}

/// `serde_json::to_string` on a `serde_json::Value`: it succeeds, its text
/// depends on the value alone, and being compact, with control characters
/// escaped, the text has no line feed. The text of an array of strings parses
/// to that array; of other values this is left unsaid, as a number that is no
/// integer may come back changed and a value that is nested too deeply is
/// refused.
#[verifier::external_body]
fn value_text(v: &serde_json::Value) -> (r: Result<String, serde_json::Error>)
    ensures
        r is Ok,
        r->Ok_0@ == json_text(value_view(*v)),
        !r->Ok_0@.contains('\n'),
        is_text_list(value_view(*v)) ==> parses_to(r->Ok_0@, value_view(*v)),
{
    serde_json::to_string(v)
}

impl Json {
    /// A copy of this value.
    pub fn copy(&self) -> (r: Json)
        ensures
            r@ == self@,
    {
        json_of(value_of(self))
    }
}

/// Parses a JSON text.
pub fn parse_json(text: &[u8]) -> (r: Result<Json, String>)
    ensures
        read_view(r) == json_parse(text@),
{
    match parse_value(text) {
        Ok(v) => Ok(json_of(v)),
        Err(e) => Err(error_text(e)),
    }
}

/// Prints a value as compact JSON, on one line.
pub fn print_json(j: &Json) -> (r: String)
    ensures
        r@ == json_text(j@),
        !r@.contains('\n'),
        is_text_list(j@) ==> parses_to(r@, j@),
{
    let v: serde_json::Value = value_of(j);
    match value_text(&v) {
        Ok(s) => s,
        Err(_) => String::new(),
    }
}

} // verus!
