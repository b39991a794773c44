//! Host values exchanged with language code, with their mathematical models.
use vstd::prelude::*;

verus! {

broadcast use {vstd::std_specs::vec::group_vec_axioms, vstd::seq::group_seq_axioms};

/// Identity of one host request.
#[derive(Clone, Copy, Debug, PartialEq, Eq, Structural)]
pub struct HostRequestId(pub u64);

/// A JSON document carried inside a host value.
#[derive(Debug, PartialEq)]
pub enum HostJsonValue {
    Null,
    Bool(bool),
    Int(i64),
    UInt(u64),
    /// IEEE-754 binary64 bit pattern of a JSON float.
    Float(u64),
    String(String),
    Array(Vec<HostJsonValue>),
    Object(Vec<(String, HostJsonValue)>),
}

/// A value exchanged between language code and the host.
#[derive(Debug, PartialEq)]
pub enum HostValue {
    Unit,
    Bool(bool),
    Int(i64),
    /// IEEE-754 binary64 bit pattern of a float.
    Float(u64),
    String(String),
    Bytes(Vec<u8>),
    List(Vec<HostValue>),
    Mapping(Vec<(HostValue, HostValue)>),
    Record(Vec<(String, HostValue)>),
    Variant { name: String, fields: Vec<HostValue> },
    Json(HostJsonValue),
}

/// Mathematical model of a [`HostJsonValue`].
pub enum JsonModel {
    Null,
    Bool(bool),
    Int(i64),
    UInt(u64),
    Float(u64),
    String(Seq<char>),
    Array(Seq<JsonModel>),
    Object(Seq<(Seq<char>, JsonModel)>),
}

/// Mathematical model of a [`HostValue`].
pub enum ValueModel {
    Unit,
    Bool(bool),
    Int(i64),
    Float(u64),
    String(Seq<char>),
    Bytes(Seq<u8>),
    List(Seq<ValueModel>),
    Mapping(Seq<(ValueModel, ValueModel)>),
    Record(Seq<(Seq<char>, ValueModel)>),
    Variant { name: Seq<char>, fields: Seq<ValueModel> },
    Json(JsonModel),
}

pub open spec fn json_model(v: HostJsonValue) -> JsonModel
    decreases v,
{
    match v {
        HostJsonValue::Null => JsonModel::Null,
        HostJsonValue::Bool(b) => JsonModel::Bool(b),
        HostJsonValue::Int(i) => JsonModel::Int(i),
        HostJsonValue::UInt(u) => JsonModel::UInt(u),
        HostJsonValue::Float(f) => JsonModel::Float(f),
        HostJsonValue::String(s) => JsonModel::String(s@),
        HostJsonValue::Array(items) => JsonModel::Array(
            Seq::new(
                items@.len(),
                |i: int|
                    if 0 <= i < items@.len() {
                        json_model(items@[i])
                    } else {
                        JsonModel::Null
                    },
            ),
        ),
        HostJsonValue::Object(entries) => JsonModel::Object(
            Seq::new(
                entries@.len(),
                |i: int|
                    if 0 <= i < entries@.len() {
                        (entries@[i].0@, json_model(entries@[i].1))
                    } else {
                        (Seq::empty(), JsonModel::Null)
                    },
            ),
        ),
    }
}

pub open spec fn value_model(v: HostValue) -> ValueModel
    decreases v,
{
    match v {
        HostValue::Unit => ValueModel::Unit,
        HostValue::Bool(b) => ValueModel::Bool(b),
        HostValue::Int(i) => ValueModel::Int(i),
        HostValue::Float(f) => ValueModel::Float(f),
        HostValue::String(s) => ValueModel::String(s@),
        HostValue::Bytes(b) => ValueModel::Bytes(b@),
        HostValue::List(items) => ValueModel::List(
            Seq::new(
                items@.len(),
                |i: int|
                    if 0 <= i < items@.len() {
                        value_model(items@[i])
                    } else {
                        ValueModel::Unit
                    },
            ),
        ),
        HostValue::Mapping(entries) => ValueModel::Mapping(
            Seq::new(
                entries@.len(),
                |i: int|
                    if 0 <= i < entries@.len() {
                        (value_model(entries@[i].0), value_model(entries@[i].1))
                    } else {
                        (ValueModel::Unit, ValueModel::Unit)
                    },
            ),
        ),
        HostValue::Record(fields) => ValueModel::Record(
            Seq::new(
                fields@.len(),
                |i: int|
                    if 0 <= i < fields@.len() {
                        (fields@[i].0@, value_model(fields@[i].1))
                    } else {
                        (Seq::empty(), ValueModel::Unit)
                    },
            ),
        ),
        HostValue::Variant { name, fields } => ValueModel::Variant {
            name: name@,
            fields: Seq::new(
                fields@.len(),
                |i: int|
                    if 0 <= i < fields@.len() {
                        value_model(fields@[i])
                    } else {
                        ValueModel::Unit
                    },
            ),
        },
        HostValue::Json(j) => ValueModel::Json(json_model(j)),
    }
}

/// Models of a sequence of host values.
pub open spec fn values_model(s: Seq<HostValue>) -> Seq<ValueModel> {
    Seq::new(s.len(), |i: int| value_model(s[i]))
}

/// Models of record fields: each name by its characters, each value by its model.
pub open spec fn record_model(s: Seq<(String, HostValue)>) -> Seq<(Seq<char>, ValueModel)> {
    Seq::new(s.len(), |i: int| (s[i].0@, value_model(s[i].1)))
}

pub proof fn lemma_list_model(items: Vec<HostValue>)
    ensures
        value_model(HostValue::List(items)) == ValueModel::List(values_model(items@)),
{
    let m = value_model(HostValue::List(items));
    if let ValueModel::List(s) = m {
        assert(s =~= values_model(items@));
    }
}

pub proof fn lemma_variant_model(name: String, fields: Vec<HostValue>)
    ensures
        value_model(HostValue::Variant { name, fields }) == (ValueModel::Variant {
            name: name@,
            fields: values_model(fields@),
        }),
{
    let m = value_model(HostValue::Variant { name, fields });
    if let ValueModel::Variant { name: _, fields: s } = m {
        assert(s =~= values_model(fields@));
    }
}

pub proof fn lemma_record_model(fields: Vec<(String, HostValue)>)
    ensures
        value_model(HostValue::Record(fields)) == ValueModel::Record(record_model(fields@)),
{
    let m = value_model(HostValue::Record(fields));
    if let ValueModel::Record(s) = m {
        assert(s =~= record_model(fields@));
    }
}

/// Models of a sequence of JSON values.
pub open spec fn json_items_model(s: Seq<HostJsonValue>) -> Seq<JsonModel> {
    Seq::new(s.len(), |i: int| json_model(s[i]))
}

/// Models of JSON object entries.
pub open spec fn json_entries_model(s: Seq<(String, HostJsonValue)>) -> Seq<(Seq<char>, JsonModel)> {
    Seq::new(s.len(), |i: int| (s[i].0@, json_model(s[i].1)))
}

/// Models of map entries.
pub open spec fn mapping_model(s: Seq<(HostValue, HostValue)>) -> Seq<(ValueModel, ValueModel)> {
    Seq::new(s.len(), |i: int| (value_model(s[i].0), value_model(s[i].1)))
}

pub proof fn lemma_json_array_model(items: Vec<HostJsonValue>)
    ensures
        json_model(HostJsonValue::Array(items)) == JsonModel::Array(json_items_model(items@)),
{
    if let JsonModel::Array(s) = json_model(HostJsonValue::Array(items)) {
        assert(s =~= json_items_model(items@));
    }
}

pub proof fn lemma_json_object_model(entries: Vec<(String, HostJsonValue)>)
    ensures
        json_model(HostJsonValue::Object(entries)) == JsonModel::Object(json_entries_model(entries@)),
{
    if let JsonModel::Object(s) = json_model(HostJsonValue::Object(entries)) {
        assert(s =~= json_entries_model(entries@));
    }
}

pub proof fn lemma_mapping_model(entries: Vec<(HostValue, HostValue)>)
    ensures
        value_model(HostValue::Mapping(entries)) == ValueModel::Mapping(mapping_model(entries@)),
{
    if let ValueModel::Mapping(s) = value_model(HostValue::Mapping(entries)) {
        assert(s =~= mapping_model(entries@));
    }
}

impl View for HostValue {
    type V = ValueModel;

    open spec fn view(&self) -> ValueModel {
        value_model(*self)
    }
}

impl View for HostJsonValue {
    type V = JsonModel;

    open spec fn view(&self) -> JsonModel {
        json_model(*self)
    }
}

impl Clone for HostValue {
    fn clone(&self) -> (copy: HostValue)
        ensures
            copy@ == self@,
    {
        clone_value(self)
    }
}

impl Clone for HostJsonValue {
    fn clone(&self) -> (copy: HostJsonValue)
        ensures
            copy@ == self@,
    {
        clone_json(self)
    }
}

/// Deep copy of a JSON document.
#[verifier::loop_isolation(false)]
pub fn clone_json(v: &HostJsonValue) -> (copy: HostJsonValue)
    ensures
        copy@ == v@,
    decreases v,
{
    match v {
        HostJsonValue::Null => HostJsonValue::Null,
        HostJsonValue::Bool(b) => HostJsonValue::Bool(*b),
        HostJsonValue::Int(i) => HostJsonValue::Int(*i),
        HostJsonValue::UInt(u) => HostJsonValue::UInt(*u),
        HostJsonValue::Float(f) => HostJsonValue::Float(*f),
        HostJsonValue::String(s) => HostJsonValue::String(s.clone()),
        HostJsonValue::Array(items) => {
            let mut out: Vec<HostJsonValue> = Vec::new();
            let mut i: usize = 0;
            while i < items.len()
                invariant
                    i <= items@.len(),
                    out@.len() == i,
                    forall|j: int| 0 <= j < i ==> json_model(#[trigger] out@[j]) == json_model(items@[j]),
                decreases items@.len() - i,
            {
                out.push(clone_json(&items[i]));
                i = i + 1;
            }
            proof {
                lemma_json_array_model(*items);
                lemma_json_array_model(out);
                assert(json_items_model(out@) =~= json_items_model(items@));
            }
            HostJsonValue::Array(out)
        },
        HostJsonValue::Object(entries) => {
            let mut out: Vec<(String, HostJsonValue)> = Vec::new();
            let mut i: usize = 0;
            while i < entries.len()
                invariant
                    i <= entries@.len(),
                    out@.len() == i,
                    forall|j: int|
                        0 <= j < i ==> (#[trigger] out@[j]).0@ == entries@[j].0@ && json_model(
                            out@[j].1,
                        ) == json_model(entries@[j].1),
                decreases entries@.len() - i,
            {
                let key = entries[i].0.clone();
                let value = clone_json(&entries[i].1);
                out.push((key, value));
                i = i + 1;
            }
            proof {
                lemma_json_object_model(*entries);
                lemma_json_object_model(out);
                assert(json_entries_model(out@) =~= json_entries_model(entries@));
            }
            HostJsonValue::Object(out)
        },
    }
}

/// Deep copy of a list of host values.
pub fn clone_values(items: &Vec<HostValue>) -> (copy: Vec<HostValue>)
    ensures
        values_model(copy@) == values_model(items@),
    decreases items, 0nat,
{
    let mut out: Vec<HostValue> = Vec::new();
    let mut i: usize = 0;
    while i < items.len()
        invariant
            i <= items@.len(),
            out@.len() == i,
            forall|j: int| 0 <= j < i ==> value_model(#[trigger] out@[j]) == value_model(items@[j]),
        decreases items@.len() - i,
    {
        out.push(clone_value(&items[i]));
        i = i + 1;
    }
    assert(values_model(out@) =~= values_model(items@));
    out
}

/// Deep copy of a host value.
#[verifier::loop_isolation(false)]
pub fn clone_value(v: &HostValue) -> (copy: HostValue)
    ensures
        copy@ == v@,
    decreases v, 1nat,
{
    match v {
        HostValue::Unit => HostValue::Unit,
        HostValue::Bool(b) => HostValue::Bool(*b),
        HostValue::Int(i) => HostValue::Int(*i),
        HostValue::Float(f) => HostValue::Float(*f),
        HostValue::String(s) => HostValue::String(s.clone()),
        HostValue::Bytes(b) => HostValue::Bytes(b.clone()),
        HostValue::List(items) => {
            let out = clone_values(items);
            proof {
                lemma_list_model(*items);
                lemma_list_model(out);
            }
            HostValue::List(out)
        },
        HostValue::Mapping(entries) => {
            let mut out: Vec<(HostValue, HostValue)> = Vec::new();
            let mut i: usize = 0;
            while i < entries.len()
                invariant
                    i <= entries@.len(),
                    out@.len() == i,
                    forall|j: int|
                        0 <= j < i ==> value_model((#[trigger] out@[j]).0) == value_model(
                            entries@[j].0,
                        ) && value_model(out@[j].1) == value_model(entries@[j].1),
                decreases entries@.len() - i,
            {
                let key = clone_value(&entries[i].0);
                let value = clone_value(&entries[i].1);
                out.push((key, value));
                i = i + 1;
            }
            proof {
                lemma_mapping_model(*entries);
                lemma_mapping_model(out);
                assert(mapping_model(out@) =~= mapping_model(entries@));
            }
            HostValue::Mapping(out)
        },
        HostValue::Record(fields) => {
            let out = clone_record(fields);
            proof {
                lemma_record_model(*fields);
                lemma_record_model(out);
            }
            HostValue::Record(out)
        },
        HostValue::Variant { name, fields } => {
            let out = clone_values(fields);
            let name2 = name.clone();
            proof {
                lemma_variant_model(*name, *fields);
                lemma_variant_model(name2, out);
            }
            HostValue::Variant { name: name2, fields: out }
        },
        HostValue::Json(j) => HostValue::Json(clone_json(j)),
    }
}

/// Deep copy of record fields.
pub fn clone_record(fields: &Vec<(String, HostValue)>) -> (copy: Vec<(String, HostValue)>)
    ensures
        record_model(copy@) == record_model(fields@),
    decreases fields, 0nat,
{
    let mut out: Vec<(String, HostValue)> = Vec::new();
    let mut i: usize = 0;
    while i < fields.len()
        invariant
            i <= fields@.len(),
            out@.len() == i,
            forall|j: int|
                0 <= j < i ==> (#[trigger] out@[j]).0@ == fields@[j].0@ && value_model(out@[j].1)
                    == value_model(fields@[j].1),
        decreases fields@.len() - i,
    {
        let name = fields[i].0.clone();
        let value = clone_value(&fields[i].1);
        out.push((name, value));
        i = i + 1;
    }
    assert(record_model(out@) =~= record_model(fields@));
    out
}

} // verus!
