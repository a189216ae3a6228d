//! The untyped JSON tree the response decoder works on.
//!
//! Parsing the body text is serde_json's job and stays behind a trusted
//! boundary; everything after the parse — looking fields up, checking
//! shapes, extracting records — is verified code over [`Json`].

use vstd::prelude::*;

use crate::strutil::str_equal;

verus! {

/// An untyped JSON document.
///
/// Numbers are split by what the decoder can read of them: unsigned and
/// signed integers keep their value, any other number is carried as
/// [`Json::Float`] without its value — no response field the library
/// extracts is a non-integer number.
#[derive(Debug)]
pub enum Json {
    /// the JSON `null`
    Null,
    /// a boolean
    Bool(bool),
    /// a non-negative integer number
    UInt(u64),
    /// a negative integer number
    Int(i64),
    /// a number that is not an integer
    Float,
    /// a string
    Str(String),
    /// an array
    Arr(Vec<Json>),
    /// an object, as a list of key-value entries; what [`parse_json`]
    /// puts here is what serde_json's map iteration yields: entries
    /// sorted by key, a duplicated key collapsed to its last value
    Obj(Vec<(String, Json)>),
}

/// The value under `key` in an entry list: the first entry whose key
/// matches, as serde_json's map lookup finds it.
pub open spec fn spec_entries_get(entries: Seq<(String, Json)>, key: Seq<char>) -> Option<Json>
    decreases entries.len(),
{
    if entries.len() == 0 {
        None
    } else if entries[0].0@ == key {
        Some(entries[0].1)
    } else {
        spec_entries_get(entries.drop_first(), key)
    }
}

impl Json {
    /// The value under `key`, when this document is an object that has
    /// the key.
    pub open spec fn spec_get(self, key: Seq<char>) -> Option<Json> {
        match self {
            Json::Obj(entries) => spec_entries_get(entries@, key),
            _ => None,
        }
    }

    /// The characters of this document, when it is a string.
    pub open spec fn spec_as_str(self) -> Option<Seq<char>> {
        match self {
            Json::Str(s) => Some(s@),
            _ => None,
        }
    }

    /// The value of this document, when it is an unsigned integer.
    pub open spec fn spec_as_u64(self) -> Option<u64> {
        match self {
            Json::UInt(n) => Some(n),
            _ => None,
        }
    }

    /// The elements of this document, when it is an array.
    pub open spec fn spec_as_arr(self) -> Option<Seq<Json>> {
        match self {
            Json::Arr(items) => Some(items@),
            _ => None,
        }
    }

    /// Whether this document is `null`.
    pub open spec fn spec_is_null(self) -> bool {
        self is Null
    }

    /// Looks the `key` up in this document, if it is an object carrying
    /// the key.
    #[verifier::loop_isolation(false)]
    pub fn get<'a>(&'a self, key: &str) -> (r: Option<&'a Json>)
        ensures
            match r {
                Some(v) => self.spec_get(key@) == Some(*v),
                None => self.spec_get(key@) is None,
            },
    {
        match self {
            Json::Obj(entries) => {
                let mut i: usize = 0;
                proof {
                    assert(entries@.skip(0) =~= entries@);
                }
                while i < entries.len()
                    invariant
                        i <= entries.len(),
                        spec_entries_get(entries@, key@) == spec_entries_get(
                            entries@.skip(i as int),
                            key@,
                        ),
                    decreases entries.len() - i,
                {
                    proof {
                        assert(entries@.skip(i as int)[0] == entries@[i as int]);
                        assert(entries@.skip(i as int).drop_first() =~= entries@.skip(
                            i as int + 1,
                        ));
                    }
                    if str_equal(entries[i].0.as_str(), key) {
                        let found = &entries[i].1;
                        proof {
                            assert(*self == Json::Obj(*entries));
                            assert(spec_entries_get(entries@.skip(i as int), key@) == Some(
                                entries@[i as int].1,
                            ));
                        }
                        return Some(found);
                    }
                    i = i + 1;
                }
                proof {
                    assert(entries@.skip(entries@.len() as int) =~= Seq::<(String, Json)>::empty());
                }
                None
            },
            _ => None,
        }
    }

    /// The string slice held by this document, if it is a string.
    pub fn as_str_value(&self) -> (r: Option<&String>)
        ensures
            match r {
                Some(s) => self.spec_as_str() == Some(s@),
                None => self.spec_as_str() is None,
            },
    {
        match self {
            Json::Str(s) => Some(s),
            _ => None,
        }
    }

    /// The unsigned integer held by this document, if it is one.
    pub fn as_u64_value(&self) -> (r: Option<u64>)
        ensures
            r == self.spec_as_u64(),
    {
        match self {
            Json::UInt(n) => Some(*n),
            _ => None,
        }
    }

    /// The element vector of this document, if it is an array.
    pub fn as_arr_value(&self) -> (r: Option<&Vec<Json>>)
        ensures
            match r {
                Some(v) => self.spec_as_arr() == Some(v@),
                None => self.spec_as_arr() is None,
            },
    {
        match self {
            Json::Arr(items) => Some(items),
            _ => None,
        }
    }
}

impl Json {
    /// The entries of this document, when it is an object.
    pub open spec fn spec_as_obj(self) -> Option<Seq<(String, Json)>> {
        match self {
            Json::Obj(entries) => Some(entries@),
            _ => None,
        }
    }

    /// The entry vector of this document, if it is an object.
    pub fn as_obj_value(&self) -> (r: Option<&Vec<(String, Json)>>)
        ensures
            match r {
                Some(v) => self.spec_as_obj() == Some(v@),
                None => self.spec_as_obj() is None,
            },
    {
        match self {
            Json::Obj(entries) => Some(entries),
            _ => None,
        }
    }
}

// --- field helpers used by every record decoder ---

/// The string under `key`, when the object has it with a string value.
pub open spec fn spec_field_str(j: Json, key: Seq<char>) -> Option<Seq<char>> {
    match j.spec_get(key) {
        Some(v) => v.spec_as_str(),
        None => None,
    }
}

/// The unsigned integer under `key`, when the object has it with such a
/// value.
pub open spec fn spec_field_u64(j: Json, key: Seq<char>) -> Option<u64> {
    match j.spec_get(key) {
        Some(v) => v.spec_as_u64(),
        None => None,
    }
}

/// The array under `key`, when the object has it with an array value.
pub open spec fn spec_field_arr(j: Json, key: Seq<char>) -> Option<Seq<Json>> {
    match j.spec_get(key) {
        Some(v) => v.spec_as_arr(),
        None => None,
    }
}

/// Clones the string under `key` out of an object.
pub fn field_str(j: &Json, key: &str) -> (r: Option<String>)
    ensures
        match r {
            Some(s) => spec_field_str(*j, key@) == Some(s@),
            None => spec_field_str(*j, key@) is None,
        },
{
    match j.get(key) {
        Some(v) => match v.as_str_value() {
            Some(s) => Some(s.clone()),
            None => None,
        },
        None => None,
    }
}

/// Reads the unsigned integer under `key` out of an object.
pub fn field_u64(j: &Json, key: &str) -> (r: Option<u64>)
    ensures
        r == spec_field_u64(*j, key@),
{
    match j.get(key) {
        Some(v) => v.as_u64_value(),
        None => None,
    }
}

/// Borrows the array under `key` out of an object.
pub fn field_arr<'a>(j: &'a Json, key: &str) -> (r: Option<&'a Vec<Json>>)
    ensures
        match r {
            Some(v) => spec_field_arr(*j, key@) == Some(v@),
            None => spec_field_arr(*j, key@) is None,
        },
{
    match j.get(key) {
        Some(v) => v.as_arr_value(),
        None => None,
    }
}

// --- arrays of strings ---

/// The character sequences of an all-string array; `None` when any
/// element is not a string.
pub open spec fn spec_str_items(items: Seq<Json>) -> Option<Seq<Seq<char>>>
    decreases items.len(),
{
    if items.len() == 0 {
        Some(Seq::empty())
    } else {
        match items[0].spec_as_str() {
            Some(s) => match spec_str_items(items.drop_first()) {
                Some(rest) => Some(seq![s] + rest),
                None => None,
            },
            None => None,
        }
    }
}

/// Collects an array of strings; fails when any element is not a string.
pub fn str_items(items: &Vec<Json>) -> (r: Option<Vec<String>>)
    ensures
        match r {
            Some(v) => spec_str_items(items@) == Some(v.deep_view()),
            None => spec_str_items(items@) is None,
        },
    decreases items@.len(),
{
    let mut out: Vec<String> = Vec::new();
    let mut i: usize = 0;
    proof {
        assert(items@.skip(0) =~= items@);
        if spec_str_items(items@) is Some {
            assert(out.deep_view() + spec_str_items(items@).unwrap() =~= spec_str_items(
                items@,
            ).unwrap());
        }
    }
    while i < items.len()
        invariant
            i <= items.len(),
            spec_str_items(items@) matches Some(all) ==> (spec_str_items(items@.skip(i as int))
                matches Some(rest) && all =~= out.deep_view() + rest),
            spec_str_items(items@.skip(i as int)) is Some ==> spec_str_items(items@) is Some,
        decreases items.len() - i,
    {
        proof {
            assert(items@.skip(i as int)[0] == items@[i as int]);
            assert(items@.skip(i as int).drop_first() =~= items@.skip(i as int + 1));
        }
        match items[i].as_str_value() {
            Some(s) => {
                let ghost before = out.deep_view();
                let ghost sv = s@;
                out.push(s.clone());
                proof {
                    assert(out.deep_view() =~= before.push(sv));
                    if spec_str_items(items@) is Some {
                        let all = spec_str_items(items@).unwrap();
                        assert(all =~= before + spec_str_items(items@.skip(i as int)).unwrap());
                        assert(before.push(sv) + spec_str_items(items@.skip(i as int + 1)).unwrap()
                            =~= before + spec_str_items(items@.skip(i as int)).unwrap());
                    }
                }
            },
            None => {
                return None;
            },
        }
        i = i + 1;
    }
    proof {
        assert(items@.skip(items@.len() as int) =~= Seq::<Json>::empty());
        if spec_str_items(items@) is Some {
            assert(spec_str_items(items@).unwrap() =~= out.deep_view());
        }
    }
    Some(out)
}

/// Clones the string array under `key`, or gives the empty vector when
/// the key is missing; fails only when the key is there but its value is
/// not an all-string array.
pub open spec fn spec_str_list_field(j: Json, key: Seq<char>) -> Option<Seq<Seq<char>>> {
    match j.spec_get(key) {
        Some(v) => match v.spec_as_arr() {
            Some(items) => spec_str_items(items),
            None => None,
        },
        None => Some(Seq::empty()),
    }
}

/// Reads an optional array-of-strings field; a missing key reads as the
/// empty list.
pub fn str_list_field(j: &Json, key: &str) -> (r: Option<Vec<String>>)
    ensures
        match r {
            Some(v) => spec_str_list_field(*j, key@) == Some(v.deep_view()),
            None => spec_str_list_field(*j, key@) is None,
        },
{
    match j.get(key) {
        Some(v) => match v.as_arr_value() {
            Some(items) => str_items(items),
            None => None,
        },
        None => {
            let empty: Vec<String> = Vec::new();
            proof {
                assert(empty.deep_view() =~= Seq::<Seq<char>>::empty());
            }
            Some(empty)
        },
    }
}

// --- booleans ---

impl Json {
    /// The value of this document, when it is a boolean.
    pub open spec fn spec_as_bool(self) -> Option<bool> {
        match self {
            Json::Bool(b) => Some(b),
            _ => None,
        }
    }

    /// The boolean held by this document, if it is one.
    pub fn as_bool_value(&self) -> (r: Option<bool>)
        ensures
            r == self.spec_as_bool(),
    {
        match self {
            Json::Bool(b) => Some(*b),
            _ => None,
        }
    }
}

/// The boolean under `key`, when the object has it with such a value.
pub open spec fn spec_field_bool(j: Json, key: Seq<char>) -> Option<bool> {
    match j.spec_get(key) {
        Some(v) => v.spec_as_bool(),
        None => None,
    }
}

/// Reads the boolean under `key` out of an object.
pub fn field_bool(j: &Json, key: &str) -> (r: Option<bool>)
    ensures
        r == spec_field_bool(*j, key@),
{
    match j.get(key) {
        Some(v) => v.as_bool_value(),
        None => None,
    }
}

// --- arrays of numbers, and grids of them ---

/// The values of an all-unsigned-integer array; `None` when any element
/// is not one.
pub open spec fn spec_u64_items(items: Seq<Json>) -> Option<Seq<u64>>
    decreases items.len(),
{
    if items.len() == 0 {
        Some(Seq::empty())
    } else {
        match items[0].spec_as_u64() {
            Some(n) => match spec_u64_items(items.drop_first()) {
                Some(rest) => Some(seq![n] + rest),
                None => None,
            },
            None => None,
        }
    }
}

/// Collects an array of unsigned integers; fails when any element is not
/// one.
#[verifier::loop_isolation(false)]
pub fn u64_items(items: &Vec<Json>) -> (r: Option<Vec<u64>>)
    ensures
        match r {
            Some(v) => spec_u64_items(items@) == Some(v@),
            None => spec_u64_items(items@) is None,
        },
{
    let mut out: Vec<u64> = Vec::new();
    let mut i: usize = 0;
    proof {
        assert(items@.skip(0) =~= items@);
        if spec_u64_items(items@) is Some {
            assert(out@ + spec_u64_items(items@).unwrap() =~= spec_u64_items(items@).unwrap());
        }
    }
    while i < items.len()
        invariant
            i <= items.len(),
            spec_u64_items(items@) is Some ==> (spec_u64_items(items@.skip(i as int)) is Some
                && spec_u64_items(items@).unwrap() =~= out@ + spec_u64_items(
                items@.skip(i as int),
            ).unwrap()),
            spec_u64_items(items@.skip(i as int)) is Some ==> spec_u64_items(items@) is Some,
        decreases items.len() - i,
    {
        proof {
            assert(items@.skip(i as int)[0] == items@[i as int]);
            assert(items@.skip(i as int).drop_first() =~= items@.skip(i as int + 1));
        }
        match items[i].as_u64_value() {
            Some(n) => {
                let ghost before = out@;
                out.push(n);
                proof {
                    if spec_u64_items(items@) is Some {
                        assert(before.push(n) + spec_u64_items(items@.skip(i as int + 1)).unwrap()
                            =~= before + spec_u64_items(items@.skip(i as int)).unwrap());
                    }
                }
            },
            None => {
                return None;
            },
        }
        i = i + 1;
    }
    proof {
        assert(items@.skip(items@.len() as int) =~= Seq::<Json>::empty());
        if spec_u64_items(items@) is Some {
            assert(spec_u64_items(items@).unwrap() =~= out@);
        }
    }
    Some(out)
}

/// The rows of an array whose elements are all arrays of unsigned
/// integers.
pub open spec fn spec_u64_grid(items: Seq<Json>) -> Option<Seq<Seq<u64>>>
    decreases items.len(),
{
    if items.len() == 0 {
        Some(Seq::empty())
    } else {
        match items[0].spec_as_arr() {
            Some(row) => match spec_u64_items(row) {
                Some(nums) => match spec_u64_grid(items.drop_first()) {
                    Some(rest) => Some(seq![nums] + rest),
                    None => None,
                },
                None => None,
            },
            None => None,
        }
    }
}

/// Collects an array of arrays of unsigned integers.
#[verifier::loop_isolation(false)]
pub fn u64_grid(items: &Vec<Json>) -> (r: Option<Vec<Vec<u64>>>)
    ensures
        match r {
            Some(v) => spec_u64_grid(items@) == Some(v.deep_view()),
            None => spec_u64_grid(items@) is None,
        },
{
    let mut out: Vec<Vec<u64>> = Vec::new();
    let mut i: usize = 0;
    proof {
        assert(items@.skip(0) =~= items@);
        if spec_u64_grid(items@) is Some {
            assert(out.deep_view() + spec_u64_grid(items@).unwrap() =~= spec_u64_grid(
                items@,
            ).unwrap());
        }
    }
    while i < items.len()
        invariant
            i <= items.len(),
            spec_u64_grid(items@) is Some ==> (spec_u64_grid(items@.skip(i as int)) is Some
                && spec_u64_grid(items@).unwrap() =~= out.deep_view() + spec_u64_grid(
                items@.skip(i as int),
            ).unwrap()),
            spec_u64_grid(items@.skip(i as int)) is Some ==> spec_u64_grid(items@) is Some,
        decreases items.len() - i,
    {
        proof {
            assert(items@.skip(i as int)[0] == items@[i as int]);
            assert(items@.skip(i as int).drop_first() =~= items@.skip(i as int + 1));
        }
        let row = match items[i].as_arr_value() {
            Some(row) => row,
            None => {
                return None;
            },
        };
        match u64_items(row) {
            Some(nums) => {
                let ghost before = out.deep_view();
                let ghost nv = nums@;
                proof {
                    assert(nums.deep_view() =~= nv);
                }
                out.push(nums);
                proof {
                    assert(out.deep_view() =~= before.push(nv));
                    if spec_u64_grid(items@) is Some {
                        assert(before.push(nv) + spec_u64_grid(items@.skip(i as int + 1)).unwrap()
                            =~= before + spec_u64_grid(items@.skip(i as int)).unwrap());
                    }
                }
            },
            None => {
                return None;
            },
        }
        i = i + 1;
    }
    proof {
        assert(items@.skip(items@.len() as int) =~= Seq::<Json>::empty());
        if spec_u64_grid(items@) is Some {
            assert(spec_u64_grid(items@).unwrap() =~= out.deep_view());
        }
    }
    Some(out)
}

// --- objects whose values are all unsigned integers ---

/// The entries of an object whose values are all unsigned integers, in
/// entry order; `None` when any value is not one.
pub open spec fn spec_count_entries(entries: Seq<(String, Json)>) -> Option<
    Seq<(Seq<char>, u64)>,
>
    decreases entries.len(),
{
    if entries.len() == 0 {
        Some(Seq::empty())
    } else {
        match entries[0].1.spec_as_u64() {
            Some(n) => match spec_count_entries(entries.drop_first()) {
                Some(rest) => Some(seq![(entries[0].0@, n)] + rest),
                None => None,
            },
            None => None,
        }
    }
}

/// Collects the entries of an object as name-count pairs; fails when any
/// value is not an unsigned integer.
#[verifier::loop_isolation(false)]
pub fn count_entries(entries: &Vec<(String, Json)>) -> (r: Option<Vec<(String, u64)>>)
    ensures
        match r {
            Some(v) => spec_count_entries(entries@) == Some(v.deep_view()),
            None => spec_count_entries(entries@) is None,
        },
{
    let mut out: Vec<(String, u64)> = Vec::new();
    let mut i: usize = 0;
    proof {
        assert(entries@.skip(0) =~= entries@);
        if spec_count_entries(entries@) is Some {
            assert(out.deep_view() + spec_count_entries(entries@).unwrap() =~= spec_count_entries(
                entries@,
            ).unwrap());
        }
    }
    while i < entries.len()
        invariant
            i <= entries.len(),
            spec_count_entries(entries@) is Some ==> (spec_count_entries(
                entries@.skip(i as int),
            ) is Some && spec_count_entries(entries@).unwrap() =~= out.deep_view()
                + spec_count_entries(entries@.skip(i as int)).unwrap()),
            spec_count_entries(entries@.skip(i as int)) is Some ==> spec_count_entries(
                entries@,
            ) is Some,
        decreases entries.len() - i,
    {
        proof {
            assert(entries@.skip(i as int)[0] == entries@[i as int]);
            assert(entries@.skip(i as int).drop_first() =~= entries@.skip(i as int + 1));
        }
        match entries[i].1.as_u64_value() {
            Some(n) => {
                let ghost before = out.deep_view();
                let name = entries[i].0.clone();
                let ghost pv = (name@, n);
                out.push((name, n));
                proof {
                    assert(out.deep_view() =~= before.push(pv));
                    if spec_count_entries(entries@) is Some {
                        assert(before.push(pv) + spec_count_entries(
                            entries@.skip(i as int + 1),
                        ).unwrap() =~= before + spec_count_entries(
                            entries@.skip(i as int),
                        ).unwrap());
                    }
                }
            },
            None => {
                return None;
            },
        }
        i = i + 1;
    }
    proof {
        assert(entries@.skip(entries@.len() as int) =~= Seq::<(String, Json)>::empty());
        if spec_count_entries(entries@) is Some {
            assert(spec_count_entries(entries@).unwrap() =~= out.deep_view());
        }
    }
    Some(out)
}

/// The view of an optional owned string.
pub open spec fn spec_opt_str(o: Option<String>) -> Option<Seq<char>> {
    match o {
        Some(s) => Some(s@),
        None => None,
    }
}

// --- the trusted boundary to serde_json ---

/// What serde_json makes of a body text: the parsed document, or nothing
/// when the text is not valid JSON. The result depends on the text alone.
pub uninterp spec fn json_of(s: Seq<char>) -> Option<Json>;

/// serde_json's parsed document type, opaque to the verifier; declared
/// only so that [`value_tree`] below may take it.
#[verifier::external_type_specification]
#[verifier::external_body]
pub struct ExValue(serde_json::Value);

/// Relies on the variants of serde_json::Value: rebuilds a parsed value
/// as a [`Json`] tree, one arm per variant, for [`parse_json`] below.
#[verifier::external_body]
fn value_tree(v: &serde_json::Value) -> Json {
    match v {
        serde_json::Value::Null => Json::Null,
        serde_json::Value::Bool(b) => Json::Bool(*b),
        serde_json::Value::Number(n) => match (n.as_u64(), n.as_i64()) {
            (Some(u), _) => Json::UInt(u),
            (None, Some(i)) => Json::Int(i),
            (None, None) => Json::Float,
        },
        serde_json::Value::String(s) => Json::Str(s.clone()),
        serde_json::Value::Array(items) => Json::Arr(items.iter().map(value_tree).collect()),
        serde_json::Value::Object(entries) => Json::Obj(
            entries.iter().map(|(k, x)| (k.clone(), value_tree(x))).collect(),
        ),
    }
}

/// Relies on serde_json::from_str: parses a body text into its JSON
/// document, or reports the parser's error message. Which document (or
/// none) comes back is a function of the text alone, named [`json_of`].
#[verifier::external_body]
pub fn parse_json(s: &str) -> (r: Result<Json, String>)
    ensures
        r matches Ok(j) ==> json_of(s@) == Some(j),
        r is Err <==> json_of(s@) is None,
{
    match serde_json::from_str::<serde_json::Value>(s) {
        Ok(v) => Ok(value_tree(&v)),
        Err(e) => Err(e.to_string()),
    }
}

} // verus!
