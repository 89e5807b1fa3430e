//! A host-neutral tagged value: the only vocabulary that the syntax
//! serializer writes into.
use vstd::prelude::*;

verus! {

/// The mathematical meaning of a [`Value`].
pub enum Json {
    Null,
    Bool(bool),
    Num(int),
    Str(Seq<char>),
    Arr(Seq<Json>),
    Obj(Seq<(Seq<char>, Json)>),
}

/// A generic value: null, a boolean, a number, a string, an ordered array,
/// or an object whose keys keep their order of insertion.
#[derive(Debug)]
pub enum Value {
    Null,
    Bool(bool),
    Number(u64),
    Str(String),
    Array(Vec<Value>),
    Object(Vec<(String, Value)>),
}

impl Value {
    pub open spec fn model(self) -> Json
        decreases self,
    {
        match self {
            Value::Null => Json::Null,
            Value::Bool(b) => Json::Bool(b),
            Value::Number(n) => Json::Num(n as int),
            Value::Str(s) => Json::Str(s@),
            Value::Array(v) => Json::Arr(models(v@)),
            Value::Object(f) => Json::Obj(field_models(f@)),
        }
    }
}

/// The models of a sequence of values, in order.
pub open spec fn models(s: Seq<Value>) -> Seq<Json>
    decreases s,
{
    if s.len() == 0 {
        seq![]
    } else {
        models(s.drop_last()).push(s.last().model())
    }
}

/// The models of a sequence of object fields, in order.
pub open spec fn field_models(s: Seq<(String, Value)>) -> Seq<(Seq<char>, Json)>
    decreases s,
{
    if s.len() == 0 {
        seq![]
    } else {
        field_models(s.drop_last()).push((s.last().0@, s.last().1.model()))
    }
}

/// The two fields that open every serialized record: its shape (`struct`
/// or `enum`) and the name of the kind it stands for.
pub open spec fn head_json(shape: Seq<char>, name: Seq<char>) -> Seq<(Seq<char>, Json)> {
    seq![("@type"@, Json::Str(shape)), ("@name"@, Json::Str(name))]
}

/// The opening fields of a struct-shaped record.
pub open spec fn struct_head(name: Seq<char>) -> Seq<(Seq<char>, Json)> {
    head_json("struct"@, name)
}

/// The opening fields of an enum-shaped record: shape, name and variant.
pub open spec fn enum_head(name: Seq<char>, variant: Seq<char>) -> Seq<(Seq<char>, Json)> {
    head_json("enum"@, name).push(("@variant"@, Json::Str(variant)))
}

pub proof fn lemma_models_push(s: Seq<Value>, v: Value)
    ensures
        models(s.push(v)) == models(s).push(v.model()),
{
    assert(s.push(v).drop_last() =~= s);
}

pub proof fn lemma_field_models_push(s: Seq<(String, Value)>, f: (String, Value))
    ensures
        field_models(s.push(f)) == field_models(s).push((f.0@, f.1.model())),
{
    assert(s.push(f).drop_last() =~= s);
}

/// A string value holding `s`.
pub fn text(s: &str) -> (r: Value)
    ensures
        r.model() == Json::Str(s@),
{
    Value::Str(s.to_owned())
}

/// Appends the field `key: v` to an object's fields.
pub fn add_field(fields: &mut Vec<(String, Value)>, key: &str, v: Value)
    ensures
        field_models(final(fields)@) == field_models(old(fields)@).push((key@, v.model())),
{
    let k = key.to_owned();
    proof {
        lemma_field_models_push(fields@, (k, v));
    }
    fields.push((k, v));
}

fn head(shape: &str, name: &str) -> (r: Vec<(String, Value)>)
    ensures
        field_models(r@) == head_json(shape@, name@),
{
    let mut f: Vec<(String, Value)> = Vec::new();
    add_field(&mut f, "@type", text(shape));
    add_field(&mut f, "@name", text(name));
    assert(field_models(f@) =~= head_json(shape@, name@));
    f
}

/// The opening fields of a struct-shaped record named `name`.
pub fn struct_fields(name: &str) -> (r: Vec<(String, Value)>)
    ensures
        field_models(r@) == struct_head(name@),
{
    head("struct", name)
}

/// The opening fields of an enum-shaped record named `name`, on `variant`.
pub fn enum_fields(name: &str, variant: &str) -> (r: Vec<(String, Value)>)
    ensures
        field_models(r@) == enum_head(name@, variant@),
{
    let mut f = head("enum", name);
    add_field(&mut f, "@variant", text(variant));
    f
}

} // verus!
