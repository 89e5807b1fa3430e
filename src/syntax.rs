//! The parsed structure of a pattern, and its serialization into a
//! generic tagged [`Value`].
use vstd::prelude::*;
use crate::value::{
    add_field, enum_fields, enum_head, field_models, lemma_models_push, models, struct_fields,
    struct_head, text, Json, Value,
};

verus! {

/// A single literal: a Unicode scalar value, or one byte.
#[derive(Clone, Copy, Debug, PartialEq, Eq, Structural)]
pub enum LiteralValue {
    Unicode(char),
    Byte(u8),
}

/// An inclusive range of Unicode scalar values.
#[derive(Clone, Copy, Debug, PartialEq, Eq, Structural)]
pub struct UnicodeRange {
    pub start: char,
    pub end: char,
}

/// An inclusive range of bytes.
#[derive(Clone, Copy, Debug, PartialEq, Eq, Structural)]
pub struct ByteRange {
    pub start: u8,
    pub end: u8,
}

/// A character class, as its ranges in order.
#[derive(Clone, Debug)]
pub enum ClassValue {
    Unicode(Vec<UnicodeRange>),
    Bytes(Vec<ByteRange>),
}

#[derive(Clone, Copy, Debug, PartialEq, Eq, Structural)]
pub enum AnchorKind {
    StartLine,
    EndLine,
    StartText,
    EndText,
}

#[derive(Clone, Copy, Debug, PartialEq, Eq, Structural)]
pub enum WordBoundaryKind {
    Ascii,
    AsciiNegate,
    Unicode,
    UnicodeNegate,
}

#[derive(Clone, Copy, Debug, PartialEq, Eq, Structural)]
pub enum RepeatBounds {
    Exactly(u32),
    AtLeast(u32),
    Bounded(u32, u32),
}

#[derive(Clone, Copy, Debug, PartialEq, Eq, Structural)]
pub enum RepeatKind {
    ZeroOrOne,
    ZeroOrMore,
    OneOrMore,
    Range(RepeatBounds),
}

#[derive(Clone, Debug)]
pub enum GroupRole {
    CaptureIndex(u32),
    CaptureName { index: u32, name: String },
    NonCapturing,
}

/// A node of a pattern's syntax tree.
#[derive(Debug)]
pub enum SyntaxNode {
    Empty,
    Literal(LiteralValue),
    Class(ClassValue),
    Anchor(AnchorKind),
    WordBoundary(WordBoundaryKind),
    Repetition { greedy: bool, kind: RepeatKind, inner: Box<SyntaxNode> },
    Group { kind: GroupRole, inner: Box<SyntaxNode> },
    Concat(Vec<SyntaxNode>),
    Alternation(Vec<SyntaxNode>),
}

/// A record of enum shape with no field past its variant.
pub open spec fn unit_json(name: Seq<char>, variant: Seq<char>) -> Json {
    Json::Obj(enum_head(name, variant))
}

/// A record of enum shape whose variant carries `value`.
pub open spec fn variant_json(name: Seq<char>, variant: Seq<char>, value: Json) -> Json {
    Json::Obj(enum_head(name, variant).push(("value"@, value)))
}

pub open spec fn literal_json(l: LiteralValue) -> Json {
    match l {
        LiteralValue::Unicode(c) => variant_json(
            "regex_syntax::hir::Literal"@,
            "Unicode"@,
            Json::Num(c as int),
        ),
        LiteralValue::Byte(b) => variant_json(
            "regex_syntax::hir::Literal"@,
            "Byte"@,
            Json::Num(b as int),
        ),
    }
}

pub open spec fn unicode_range_json(r: UnicodeRange) -> Json {
    Json::Obj(
        struct_head("regex_syntax::hir::ClassUnicodeRange"@).push(
            ("start"@, Json::Num(r.start as int)),
        ).push(("end"@, Json::Num(r.end as int))),
    )
}

pub open spec fn byte_range_json(r: ByteRange) -> Json {
    Json::Obj(
        struct_head("regex_syntax::hir::ClassBytesRange"@).push(
            ("start"@, Json::Num(r.start as int)),
        ).push(("end"@, Json::Num(r.end as int))),
    )
}

pub open spec fn unicode_ranges_json(s: Seq<UnicodeRange>) -> Seq<Json> {
    s.map_values(|r: UnicodeRange| unicode_range_json(r))
}

pub open spec fn byte_ranges_json(s: Seq<ByteRange>) -> Seq<Json> {
    s.map_values(|r: ByteRange| byte_range_json(r))
}

pub open spec fn class_json(c: ClassValue) -> Json {
    match c {
        ClassValue::Unicode(rs) => variant_json(
            "regex_syntax::hir::Class"@,
            "Unicode"@,
            Json::Obj(
                struct_head("regex_syntax::hir::ClassUnicode"@).push(
                    ("ranges"@, Json::Arr(unicode_ranges_json(rs@))),
                ),
            ),
        ),
        ClassValue::Bytes(rs) => variant_json(
            "regex_syntax::hir::Class"@,
            "Bytes"@,
            Json::Obj(
                struct_head("regex_syntax::hir::ClassBytes"@).push(
                    ("ranges"@, Json::Arr(byte_ranges_json(rs@))),
                ),
            ),
        ),
    }
}

pub open spec fn anchor_name(a: AnchorKind) -> Seq<char> {
    match a {
        AnchorKind::StartLine => "StartLine"@,
        AnchorKind::EndLine => "EndLine"@,
        AnchorKind::StartText => "StartText"@,
        AnchorKind::EndText => "EndText"@,
    }
}

pub open spec fn word_boundary_name(w: WordBoundaryKind) -> Seq<char> {
    match w {
        WordBoundaryKind::Ascii => "Ascii"@,
        WordBoundaryKind::AsciiNegate => "AsciiNegate"@,
        WordBoundaryKind::Unicode => "Unicode"@,
        WordBoundaryKind::UnicodeNegate => "UnicodeNegate"@,
    }
}

pub open spec fn range_json(r: RepeatBounds) -> Json {
    match r {
        RepeatBounds::Exactly(n) => variant_json(
            "regex_syntax::hir::RepetitionRange"@,
            "Exactly"@,
            Json::Num(n as int),
        ),
        RepeatBounds::AtLeast(n) => variant_json(
            "regex_syntax::hir::RepetitionRange"@,
            "AtLeast"@,
            Json::Num(n as int),
        ),
        RepeatBounds::Bounded(m, n) => variant_json(
            "regex_syntax::hir::RepetitionRange"@,
            "Bounded"@,
            Json::Arr(seq![Json::Num(m as int), Json::Num(n as int)]),
        ),
    }
}

pub open spec fn repetition_kind_json(k: RepeatKind) -> Json {
    match k {
        RepeatKind::ZeroOrOne => unit_json("regex_syntax::hir::RepetitionKind"@, "ZeroOrOne"@),
        RepeatKind::ZeroOrMore => unit_json(
            "regex_syntax::hir::RepetitionKind"@,
            "ZeroOrMore"@,
        ),
        RepeatKind::OneOrMore => unit_json("regex_syntax::hir::RepetitionKind"@, "OneOrMore"@),
        RepeatKind::Range(r) => variant_json(
            "regex_syntax::hir::RepetitionKind"@,
            "Range"@,
            range_json(r),
        ),
    }
}

pub open spec fn group_kind_json(k: GroupRole) -> Json {
    match k {
        GroupRole::CaptureIndex(i) => Json::Obj(
            enum_head("regex_syntax::hir::GroupKind"@, "CaptureIndex"@).push(
                ("index"@, Json::Num(i as int)),
            ),
        ),
        GroupRole::CaptureName { index, name } => Json::Obj(
            enum_head("regex_syntax::hir::GroupKind"@, "CaptureName"@).push(
                ("index"@, Json::Num(index as int)),
            ).push(("name"@, Json::Str(name@))),
        ),
        GroupRole::NonCapturing => unit_json("regex_syntax::hir::GroupKind"@, "NonCapturing"@),
    }
}

/// A syntax tree node: a struct-shaped record whose one field is its kind.
pub open spec fn hir_json(kind: Json) -> Json {
    Json::Obj(struct_head("regex_syntax::hir::Hir"@).push(("kind"@, kind)))
}

/// The kind of a node, on `variant`, carrying `value`.
pub open spec fn kind_json(variant: Seq<char>, value: Json) -> Json {
    hir_json(variant_json("regex_syntax::hir::HirKind"@, variant, value))
}

/// The serialization of a syntax tree.
pub open spec fn node_json(n: SyntaxNode) -> Json
    decreases n,
{
    match n {
        SyntaxNode::Empty => hir_json(unit_json("regex_syntax::hir::HirKind"@, "Empty"@)),
        SyntaxNode::Literal(l) => kind_json("Literal"@, literal_json(l)),
        SyntaxNode::Class(c) => kind_json("Class"@, class_json(c)),
        SyntaxNode::Anchor(a) => kind_json(
            "Anchor"@,
            unit_json("regex_syntax::hir::Anchor"@, anchor_name(a)),
        ),
        SyntaxNode::WordBoundary(w) => kind_json(
            "WordBoundary"@,
            unit_json("regex_syntax::hir::WordBoundary"@, word_boundary_name(w)),
        ),
        SyntaxNode::Repetition { greedy, kind, inner } => kind_json(
            "Repetition"@,
            Json::Obj(
                struct_head("regex_syntax::hir::Repetition"@).push(
                    ("greedy"@, Json::Bool(greedy)),
                ).push(("kind"@, repetition_kind_json(kind))).push(
                    ("hir"@, node_json(*inner)),
                ),
            ),
        ),
        SyntaxNode::Group { kind, inner } => kind_json(
            "Group"@,
            Json::Obj(
                struct_head("regex_syntax::hir::Group"@).push(
                    ("kind"@, group_kind_json(kind)),
                ).push(("hir"@, node_json(*inner))),
            ),
        ),
        SyntaxNode::Concat(v) => kind_json("Concat"@, Json::Arr(nodes_json(v@))),
        SyntaxNode::Alternation(v) => kind_json("Alternation"@, Json::Arr(nodes_json(v@))),
    }
}

/// The serializations of a sequence of nodes, in order.
pub open spec fn nodes_json(s: Seq<SyntaxNode>) -> Seq<Json>
    decreases s,
{
    if s.len() == 0 {
        seq![]
    } else {
        nodes_json(s.drop_last()).push(node_json(s.last()))
    }
}

fn variant_value(name: &str, variant: &str, value: Value) -> (r: Value)
    ensures
        r.model() == variant_json(name@, variant@, value.model()),
{
    let mut f = enum_fields(name, variant);
    add_field(&mut f, "value", value);
    Value::Object(f)
}

fn unit_value(name: &str, variant: &str) -> (r: Value)
    ensures
        r.model() == unit_json(name@, variant@),
{
    Value::Object(enum_fields(name, variant))
}

impl LiteralValue {
    pub fn to_value(&self) -> (r: Value)
        ensures
            r.model() == literal_json(*self),
    {
        match self {
            LiteralValue::Unicode(c) => variant_value(
                "regex_syntax::hir::Literal",
                "Unicode",
                Value::Number(*c as u32 as u64),
            ),
            LiteralValue::Byte(b) => variant_value(
                "regex_syntax::hir::Literal",
                "Byte",
                Value::Number(*b as u64),
            ),
        }
    }
}

impl UnicodeRange {
    pub fn to_value(&self) -> (r: Value)
        ensures
            r.model() == unicode_range_json(*self),
    {
        let mut f = struct_fields("regex_syntax::hir::ClassUnicodeRange");
        add_field(&mut f, "start", Value::Number(self.start as u32 as u64));
        add_field(&mut f, "end", Value::Number(self.end as u32 as u64));
        Value::Object(f)
    }
}

impl ByteRange {
    pub fn to_value(&self) -> (r: Value)
        ensures
            r.model() == byte_range_json(*self),
    {
        let mut f = struct_fields("regex_syntax::hir::ClassBytesRange");
        add_field(&mut f, "start", Value::Number(self.start as u64));
        add_field(&mut f, "end", Value::Number(self.end as u64));
        Value::Object(f)
    }
}

impl ClassValue {
    pub fn to_value(&self) -> (r: Value)
        ensures
            r.model() == class_json(*self),
    {
        match self {
            ClassValue::Unicode(rs) => {
                let mut out: Vec<Value> = Vec::new();
                let mut i: usize = 0;
                while i < rs.len()
                    invariant
                        i <= rs.len(),
                        models(out@) == unicode_ranges_json(rs@.take(i as int)),
                    decreases rs.len() - i,
                {
                    let v = rs[i].to_value();
                    proof {
                        lemma_models_push(out@, v);
                        assert(rs@.take(i + 1) =~= rs@.take(i as int).push(rs@[i as int]));
                        assert(unicode_ranges_json(rs@.take(i + 1)) =~= unicode_ranges_json(
                            rs@.take(i as int),
                        ).push(unicode_range_json(rs@[i as int])));
                    }
                    out.push(v);
                    i = i + 1;
                }
                assert(rs@.take(i as int) =~= rs@);
                let mut f = struct_fields("regex_syntax::hir::ClassUnicode");
                add_field(&mut f, "ranges", Value::Array(out));
                variant_value("regex_syntax::hir::Class", "Unicode", Value::Object(f))
            },
            ClassValue::Bytes(rs) => {
                let mut out: Vec<Value> = Vec::new();
                let mut i: usize = 0;
                while i < rs.len()
                    invariant
                        i <= rs.len(),
                        models(out@) == byte_ranges_json(rs@.take(i as int)),
                    decreases rs.len() - i,
                {
                    let v = rs[i].to_value();
                    proof {
                        lemma_models_push(out@, v);
                        assert(rs@.take(i + 1) =~= rs@.take(i as int).push(rs@[i as int]));
                        assert(byte_ranges_json(rs@.take(i + 1)) =~= byte_ranges_json(
                            rs@.take(i as int),
                        ).push(byte_range_json(rs@[i as int])));
                    }
                    out.push(v);
                    i = i + 1;
                }
                assert(rs@.take(i as int) =~= rs@);
                let mut f = struct_fields("regex_syntax::hir::ClassBytes");
                add_field(&mut f, "ranges", Value::Array(out));
                variant_value("regex_syntax::hir::Class", "Bytes", Value::Object(f))
            },
        }
    }
}

impl AnchorKind {
    pub fn to_value(&self) -> (r: Value)
        ensures
            r.model() == unit_json("regex_syntax::hir::Anchor"@, anchor_name(*self)),
    {
        let variant = match self {
            AnchorKind::StartLine => "StartLine",
            AnchorKind::EndLine => "EndLine",
            AnchorKind::StartText => "StartText",
            AnchorKind::EndText => "EndText",
        };
        unit_value("regex_syntax::hir::Anchor", variant)
    }
}

impl WordBoundaryKind {
    pub fn to_value(&self) -> (r: Value)
        ensures
            r.model() == unit_json("regex_syntax::hir::WordBoundary"@, word_boundary_name(*self)),
    {
        let variant = match self {
            WordBoundaryKind::Ascii => "Ascii",
            WordBoundaryKind::AsciiNegate => "AsciiNegate",
            WordBoundaryKind::Unicode => "Unicode",
            WordBoundaryKind::UnicodeNegate => "UnicodeNegate",
        };
        unit_value("regex_syntax::hir::WordBoundary", variant)
    }
}

impl RepeatBounds {
    pub fn to_value(&self) -> (r: Value)
        ensures
            r.model() == range_json(*self),
    {
        match self {
            RepeatBounds::Exactly(n) => variant_value(
                "regex_syntax::hir::RepetitionRange",
                "Exactly",
                Value::Number(*n as u64),
            ),
            RepeatBounds::AtLeast(n) => variant_value(
                "regex_syntax::hir::RepetitionRange",
                "AtLeast",
                Value::Number(*n as u64),
            ),
            RepeatBounds::Bounded(m, n) => {
                let mut pair: Vec<Value> = Vec::new();
                proof {
                    lemma_models_push(pair@, Value::Number(*m as u64));
                }
                pair.push(Value::Number(*m as u64));
                proof {
                    lemma_models_push(pair@, Value::Number(*n as u64));
                }
                pair.push(Value::Number(*n as u64));
                assert(models(pair@) =~= seq![Json::Num(*m as int), Json::Num(*n as int)]);
                variant_value("regex_syntax::hir::RepetitionRange", "Bounded", Value::Array(pair))
            },
        }
    }
}

impl RepeatKind {
    pub fn to_value(&self) -> (r: Value)
        ensures
            r.model() == repetition_kind_json(*self),
    {
        match self {
            RepeatKind::ZeroOrOne => unit_value("regex_syntax::hir::RepetitionKind", "ZeroOrOne"),
            RepeatKind::ZeroOrMore => unit_value(
                "regex_syntax::hir::RepetitionKind",
                "ZeroOrMore",
            ),
            RepeatKind::OneOrMore => unit_value("regex_syntax::hir::RepetitionKind", "OneOrMore"),
            RepeatKind::Range(r) => variant_value(
                "regex_syntax::hir::RepetitionKind",
                "Range",
                r.to_value(),
            ),
        }
    }
}

impl GroupRole {
    pub fn to_value(&self) -> (r: Value)
        ensures
            r.model() == group_kind_json(*self),
    {
        match self {
            GroupRole::CaptureIndex(i) => {
                let mut f = enum_fields("regex_syntax::hir::GroupKind", "CaptureIndex");
                add_field(&mut f, "index", Value::Number(*i as u64));
                Value::Object(f)
            },
            GroupRole::CaptureName { index, name } => {
                let mut f = enum_fields("regex_syntax::hir::GroupKind", "CaptureName");
                add_field(&mut f, "index", Value::Number(*index as u64));
                add_field(&mut f, "name", Value::Str(name.clone()));
                Value::Object(f)
            },
            GroupRole::NonCapturing => unit_value("regex_syntax::hir::GroupKind", "NonCapturing"),
        }
    }
}

fn hir_value(kind: Value) -> (r: Value)
    ensures
        r.model() == hir_json(kind.model()),
{
    let mut f = struct_fields("regex_syntax::hir::Hir");
    add_field(&mut f, "kind", kind);
    Value::Object(f)
}

fn kind_value(variant: &str, value: Value) -> (r: Value)
    ensures
        r.model() == kind_json(variant@, value.model()),
{
    hir_value(variant_value("regex_syntax::hir::HirKind", variant, value))
}

/// Serializes a sequence of nodes into an array, in order.
fn nodes_value(v: &Vec<SyntaxNode>) -> (r: Value)
    ensures
        r.model() == Json::Arr(nodes_json(v@)),
    decreases v,
{
    let mut out: Vec<Value> = Vec::new();
    let mut i: usize = 0;
    while i < v.len()
        invariant
            i <= v.len(),
            models(out@) == nodes_json(v@.take(i as int)),
        decreases v.len() - i,
    {
        let x = v[i].to_value();
        proof {
            lemma_models_push(out@, x);
            assert(v@.take(i + 1).drop_last() =~= v@.take(i as int));
        }
        out.push(x);
        i = i + 1;
    }
    assert(v@.take(i as int) =~= v@);
    Value::Array(out)
}

impl SyntaxNode {
    /// Serializes this tree into a generic tagged value: every record carries
    /// its shape and kind name, every enum-shaped one its variant, and
    /// sequences keep their order.
    pub fn to_value(&self) -> (r: Value)
        ensures
            r.model() == node_json(*self),
        decreases self,
    {
        match self {
            SyntaxNode::Empty => hir_value(unit_value("regex_syntax::hir::HirKind", "Empty")),
            SyntaxNode::Literal(l) => kind_value("Literal", l.to_value()),
            SyntaxNode::Class(c) => kind_value("Class", c.to_value()),
            SyntaxNode::Anchor(a) => kind_value("Anchor", a.to_value()),
            SyntaxNode::WordBoundary(w) => kind_value("WordBoundary", w.to_value()),
            SyntaxNode::Repetition { greedy, kind, inner } => {
                let mut f = struct_fields("regex_syntax::hir::Repetition");
                add_field(&mut f, "greedy", Value::Bool(*greedy));
                add_field(&mut f, "kind", kind.to_value());
                add_field(&mut f, "hir", inner.to_value());
                kind_value("Repetition", Value::Object(f))
            },
            SyntaxNode::Group { kind, inner } => {
                let mut f = struct_fields("regex_syntax::hir::Group");
                add_field(&mut f, "kind", kind.to_value());
                add_field(&mut f, "hir", inner.to_value());
                kind_value("Group", Value::Object(f))
            },
            SyntaxNode::Concat(v) => kind_value("Concat", nodes_value(v)),
            SyntaxNode::Alternation(v) => kind_value("Alternation", nodes_value(v)),
        }
    }
}

} // verus!
