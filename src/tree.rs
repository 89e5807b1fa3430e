//! Reading a pattern's syntax tree out of the parser of `regex_syntax`.
use vstd::prelude::*;
use crate::error::PatternError;
use crate::syntax::{
    byte_ranges_json, class_json, group_kind_json, node_json, nodes_json, unicode_ranges_json,
    AnchorKind, ByteRange, ClassValue, GroupRole, LiteralValue, RepeatKind, RepeatBounds,
    SyntaxNode, UnicodeRange, WordBoundaryKind,
};

verus! {

#[verifier::external_type_specification]
#[verifier::external_body]
pub struct ExHir(regex_syntax::hir::Hir);

#[verifier::external_type_specification]
pub struct ExHirKind(regex_syntax::hir::HirKind);

#[verifier::external_type_specification]
pub struct ExLiteral(regex_syntax::hir::Literal);

#[verifier::external_type_specification]
pub struct ExClass(regex_syntax::hir::Class);

#[verifier::external_type_specification]
#[verifier::external_body]
pub struct ExClassUnicode(regex_syntax::hir::ClassUnicode);

#[verifier::external_type_specification]
#[verifier::external_body]
pub struct ExClassUnicodeRange(regex_syntax::hir::ClassUnicodeRange);

#[verifier::external_type_specification]
#[verifier::external_body]
pub struct ExClassBytes(regex_syntax::hir::ClassBytes);

#[verifier::external_type_specification]
#[verifier::external_body]
pub struct ExClassBytesRange(regex_syntax::hir::ClassBytesRange);

#[verifier::external_type_specification]
pub struct ExAnchor(regex_syntax::hir::Anchor);

#[verifier::external_type_specification]
pub struct ExWordBoundary(regex_syntax::hir::WordBoundary);

#[verifier::external_type_specification]
pub struct ExRepetition(regex_syntax::hir::Repetition);

#[verifier::external_type_specification]
pub struct ExRepetitionKind(regex_syntax::hir::RepetitionKind);

#[verifier::external_type_specification]
pub struct ExRepetitionRange(regex_syntax::hir::RepetitionRange);

#[verifier::external_type_specification]
pub struct ExGroup(regex_syntax::hir::Group);

#[verifier::external_type_specification]
pub struct ExGroupKind(regex_syntax::hir::GroupKind);

#[verifier::external_type_specification]
#[verifier::external_body]
pub struct ExSyntaxError(regex_syntax::Error);

/// The kind of a node of the parser's tree: its `kind` field.
pub uninterp spec fn hir_kind(h: regex_syntax::hir::Hir) -> regex_syntax::hir::HirKind;

/// `Hir::kind` hands out a reference to the node's own `kind` field, so the
/// kind is a part of the node.
pub assume_specification[ regex_syntax::hir::Hir::kind ](h: &regex_syntax::hir::Hir) -> (r: &regex_syntax::hir::HirKind)
    ensures
        *r == hir_kind(*h),
        decreases_to!(*h => *r),
;

/// Ranges as (start, end) pairs.
pub open spec fn unicode_pairs(s: Seq<UnicodeRange>) -> Seq<(char, char)> {
    s.map_values(|x: UnicodeRange| (x.start, x.end))
}

/// Ranges as (start, end) pairs.
pub open spec fn byte_pairs(s: Seq<ByteRange>) -> Seq<(u8, u8)> {
    s.map_values(|x: ByteRange| (x.start, x.end))
}

/// The ranges of a class of code points, as (start, end) pairs.
pub uninterp spec fn unicode_class_ranges(c: regex_syntax::hir::ClassUnicode) -> Seq<(char, char)>;

/// The ranges of a class of bytes, as (start, end) pairs.
pub uninterp spec fn byte_class_ranges(c: regex_syntax::hir::ClassBytes) -> Seq<(u8, u8)>;

/// Relies on `ClassUnicode::ranges` and `ClassUnicodeRange::start` / `end`;
/// every range is built by `Interval::create`, which puts the smaller bound
/// first.
#[verifier::external_body]
fn unicode_ranges_of(c: &regex_syntax::hir::ClassUnicode) -> (r: Vec<UnicodeRange>)
    ensures
        unicode_pairs(r@) == unicode_class_ranges(*c),
        forall|i: int| 0 <= i < r@.len() ==> (#[trigger] r@[i]).start <= r@[i].end,
{
    c.ranges().iter().map(|x| UnicodeRange { start: x.start(), end: x.end() }).collect()
}

/// Relies on `ClassBytes::ranges` and `ClassBytesRange::start` / `end`;
/// every range is built by `Interval::create`, which puts the smaller bound
/// first.
#[verifier::external_body]
fn byte_ranges_of(c: &regex_syntax::hir::ClassBytes) -> (r: Vec<ByteRange>)
    ensures
        byte_pairs(r@) == byte_class_ranges(*c),
        forall|i: int| 0 <= i < r@.len() ==> (#[trigger] r@[i]).start <= r@[i].end,
{
    c.ranges().iter().map(|x| ByteRange { start: x.start(), end: x.end() }).collect()
}

/// The tree that `regex_syntax`'s parser, with its default settings, builds
/// for the pattern.
pub uninterp spec fn parsed_hir(pattern: Seq<char>) -> regex_syntax::hir::Hir;

/// Whether `regex_syntax`'s parser, with its default settings, accepts the
/// pattern.
pub uninterp spec fn parses(pattern: Seq<char>) -> bool;

/// Relies on `regex_syntax::Parser::new` and `Parser::parse`: a fresh parser
/// with default settings either builds the tree or reports an error, and
/// which one depends on the pattern alone.
#[verifier::external_body]
pub(crate) fn parse_hir(pattern: &str) -> (r: Result<regex_syntax::hir::Hir, regex_syntax::Error>)
    ensures
        r is Ok <==> parses(pattern@),
        r matches Ok(h) ==> h == parsed_hir(pattern@),
{
    regex_syntax::Parser::new().parse(pattern)
}

/// Relies on the `Display` impl of `regex_syntax::Error`, which renders the
/// error for a person to read.
#[verifier::external_body]
pub(crate) fn syntax_error_message(e: &regex_syntax::Error) -> (r: String) {
    e.to_string()
}

pub open spec fn literal_of(l: regex_syntax::hir::Literal) -> LiteralValue {
    match l {
        regex_syntax::hir::Literal::Unicode(c) => LiteralValue::Unicode(c),
        regex_syntax::hir::Literal::Byte(b) => LiteralValue::Byte(b),
    }
}

pub open spec fn anchor_of(a: regex_syntax::hir::Anchor) -> AnchorKind {
    match a {
        regex_syntax::hir::Anchor::StartLine => AnchorKind::StartLine,
        regex_syntax::hir::Anchor::EndLine => AnchorKind::EndLine,
        regex_syntax::hir::Anchor::StartText => AnchorKind::StartText,
        regex_syntax::hir::Anchor::EndText => AnchorKind::EndText,
    }
}

pub open spec fn word_boundary_of(w: regex_syntax::hir::WordBoundary) -> WordBoundaryKind {
    match w {
        regex_syntax::hir::WordBoundary::Ascii => WordBoundaryKind::Ascii,
        regex_syntax::hir::WordBoundary::AsciiNegate => WordBoundaryKind::AsciiNegate,
        regex_syntax::hir::WordBoundary::Unicode => WordBoundaryKind::Unicode,
        regex_syntax::hir::WordBoundary::UnicodeNegate => WordBoundaryKind::UnicodeNegate,
    }
}

pub open spec fn repetition_kind_of(k: regex_syntax::hir::RepetitionKind) -> RepeatKind {
    match k {
        regex_syntax::hir::RepetitionKind::ZeroOrOne => RepeatKind::ZeroOrOne,
        regex_syntax::hir::RepetitionKind::ZeroOrMore => RepeatKind::ZeroOrMore,
        regex_syntax::hir::RepetitionKind::OneOrMore => RepeatKind::OneOrMore,
        regex_syntax::hir::RepetitionKind::Range(regex_syntax::hir::RepetitionRange::Exactly(n)) => RepeatKind::Range(
            RepeatBounds::Exactly(n),
        ),
        regex_syntax::hir::RepetitionKind::Range(regex_syntax::hir::RepetitionRange::AtLeast(n)) => RepeatKind::Range(
            RepeatBounds::AtLeast(n),
        ),
        regex_syntax::hir::RepetitionKind::Range(regex_syntax::hir::RepetitionRange::Bounded(m, n)) => RepeatKind::Range(
            RepeatBounds::Bounded(m, n),
        ),
    }
}

/// The library's form of a group kind holds the same index and name.
pub open spec fn group_kind_matches(g: GroupRole, k: regex_syntax::hir::GroupKind) -> bool {
    match (g, k) {
        (GroupRole::CaptureIndex(i), regex_syntax::hir::GroupKind::CaptureIndex(j)) => i == j,
        (
            GroupRole::CaptureName { index: i, name: m },
            regex_syntax::hir::GroupKind::CaptureName { index: j, name: n },
        ) => i == j && m@ == n@,
        (GroupRole::NonCapturing, regex_syntax::hir::GroupKind::NonCapturing) => true,
        _ => false,
    }
}

/// A class of the library's form holds the parser's class's ranges, in
/// order.
pub open spec fn class_matches(c: ClassValue, k: regex_syntax::hir::Class) -> bool {
    match (c, k) {
        (ClassValue::Unicode(rs), regex_syntax::hir::Class::Unicode(u)) => unicode_pairs(rs@) == unicode_class_ranges(u),
        (ClassValue::Bytes(rs), regex_syntax::hir::Class::Bytes(b)) => byte_pairs(rs@) == byte_class_ranges(b),
        _ => false,
    }
}

fn literal_from(l: &regex_syntax::hir::Literal) -> (r: LiteralValue)
    ensures
        r == literal_of(*l),
{
    match l {
        regex_syntax::hir::Literal::Unicode(c) => LiteralValue::Unicode(*c),
        regex_syntax::hir::Literal::Byte(b) => LiteralValue::Byte(*b),
    }
}

fn anchor_from(a: &regex_syntax::hir::Anchor) -> (r: AnchorKind)
    ensures
        r == anchor_of(*a),
{
    match a {
        regex_syntax::hir::Anchor::StartLine => AnchorKind::StartLine,
        regex_syntax::hir::Anchor::EndLine => AnchorKind::EndLine,
        regex_syntax::hir::Anchor::StartText => AnchorKind::StartText,
        regex_syntax::hir::Anchor::EndText => AnchorKind::EndText,
    }
}

fn word_boundary_from(w: &regex_syntax::hir::WordBoundary) -> (r: WordBoundaryKind)
    ensures
        r == word_boundary_of(*w),
{
    match w {
        regex_syntax::hir::WordBoundary::Ascii => WordBoundaryKind::Ascii,
        regex_syntax::hir::WordBoundary::AsciiNegate => WordBoundaryKind::AsciiNegate,
        regex_syntax::hir::WordBoundary::Unicode => WordBoundaryKind::Unicode,
        regex_syntax::hir::WordBoundary::UnicodeNegate => WordBoundaryKind::UnicodeNegate,
    }
}

fn repetition_kind_from(k: &regex_syntax::hir::RepetitionKind) -> (r: RepeatKind)
    ensures
        r == repetition_kind_of(*k),
{
    match k {
        regex_syntax::hir::RepetitionKind::ZeroOrOne => RepeatKind::ZeroOrOne,
        regex_syntax::hir::RepetitionKind::ZeroOrMore => RepeatKind::ZeroOrMore,
        regex_syntax::hir::RepetitionKind::OneOrMore => RepeatKind::OneOrMore,
        regex_syntax::hir::RepetitionKind::Range(regex_syntax::hir::RepetitionRange::Exactly(n)) => RepeatKind::Range(
            RepeatBounds::Exactly(*n),
        ),
        regex_syntax::hir::RepetitionKind::Range(regex_syntax::hir::RepetitionRange::AtLeast(n)) => RepeatKind::Range(
            RepeatBounds::AtLeast(*n),
        ),
        regex_syntax::hir::RepetitionKind::Range(regex_syntax::hir::RepetitionRange::Bounded(m, n)) => RepeatKind::Range(
            RepeatBounds::Bounded(*m, *n),
        ),
    }
}

fn group_kind_from(k: &regex_syntax::hir::GroupKind) -> (r: GroupRole)
    ensures
        group_kind_matches(r, *k),
{
    match k {
        regex_syntax::hir::GroupKind::CaptureIndex(i) => GroupRole::CaptureIndex(*i),
        regex_syntax::hir::GroupKind::CaptureName { name, index } => GroupRole::CaptureName {
            index: *index,
            name: name.clone(),
        },
        regex_syntax::hir::GroupKind::NonCapturing => GroupRole::NonCapturing,
    }
}

fn class_from(c: &regex_syntax::hir::Class) -> (r: ClassValue)
    ensures
        class_matches(r, *c),
{
    match c {
        regex_syntax::hir::Class::Unicode(u) => ClassValue::Unicode(unicode_ranges_of(u)),
        regex_syntax::hir::Class::Bytes(b) => ClassValue::Bytes(byte_ranges_of(b)),
    }
}

/// The node that a repetition or a group wraps.
pub open spec fn inner_of(k: regex_syntax::hir::HirKind) -> Option<regex_syntax::hir::Hir> {
    match k {
        regex_syntax::hir::HirKind::Repetition(x) => Some(*x.hir),
        regex_syntax::hir::HirKind::Group(x) => Some(*x.hir),
        _ => None,
    }
}

/// The nodes that a concatenation or an alternation holds.
pub open spec fn items_of(k: regex_syntax::hir::HirKind) -> Option<Vec<regex_syntax::hir::Hir>> {
    match k {
        regex_syntax::hir::HirKind::Concat(v) => Some(v),
        regex_syntax::hir::HirKind::Alternation(v) => Some(v),
        _ => None,
    }
}

/// Relies on the public `hir` field of `regex_syntax::hir::Repetition` and
/// `regex_syntax::hir::Group`: the node that they wrap, a part of the kind.
#[verifier::external_body]
fn wrapped(k: &regex_syntax::hir::HirKind) -> (r: Option<&regex_syntax::hir::Hir>)
    ensures
        r is Some <==> inner_of(*k) is Some,
        r matches Some(c) ==> inner_of(*k) == Some(*c) && decreases_to!(*k => *c),
{
    match k {
        regex_syntax::hir::HirKind::Repetition(x) => Some(&x.hir),
        regex_syntax::hir::HirKind::Group(x) => Some(&x.hir),
        _ => None,
    }
}

/// Relies on the `Concat` and `Alternation` variants of
/// `regex_syntax::hir::HirKind`: the nodes that they hold, a part of the kind.
#[verifier::external_body]
fn sequence(k: &regex_syntax::hir::HirKind) -> (r: Option<&Vec<regex_syntax::hir::Hir>>)
    ensures
        r is Some <==> items_of(*k) is Some,
        r matches Some(v) ==> items_of(*k) == Some(*v) && decreases_to!(*k => *v),
{
    match k {
        regex_syntax::hir::HirKind::Concat(v) => Some(v),
        regex_syntax::hir::HirKind::Alternation(v) => Some(v),
        _ => None,
    }
}

/// The library's tree `n` holds, node for node and in order, what the
/// parser's tree `h` holds.
pub open spec fn tree_matches(n: SyntaxNode, h: regex_syntax::hir::Hir) -> bool
    decreases n,
{
    match (n, hir_kind(h)) {
        (SyntaxNode::Empty, regex_syntax::hir::HirKind::Empty) => true,
        (SyntaxNode::Literal(l), regex_syntax::hir::HirKind::Literal(x)) => l == literal_of(x),
        (SyntaxNode::Class(c), regex_syntax::hir::HirKind::Class(x)) => class_matches(c, x),
        (SyntaxNode::Anchor(a), regex_syntax::hir::HirKind::Anchor(x)) => a == anchor_of(x),
        (SyntaxNode::WordBoundary(w), regex_syntax::hir::HirKind::WordBoundary(x)) => w
            == word_boundary_of(x),
        (
            SyntaxNode::Repetition { greedy, kind, inner },
            regex_syntax::hir::HirKind::Repetition(x),
        ) => greedy == x.greedy && kind == repetition_kind_of(x.kind) && tree_matches(
            *inner,
            *x.hir,
        ),
        (SyntaxNode::Group { kind, inner }, regex_syntax::hir::HirKind::Group(x)) => group_kind_matches(
            kind,
            x.kind,
        ) && tree_matches(*inner, *x.hir),
        (SyntaxNode::Concat(v), regex_syntax::hir::HirKind::Concat(w)) => trees_match(v@, w@),
        (SyntaxNode::Alternation(v), regex_syntax::hir::HirKind::Alternation(w)) => trees_match(
            v@,
            w@,
        ),
        _ => false,
    }
}

/// Each of `s` matches the parser's node at the same place in `t`.
pub open spec fn trees_match(s: Seq<SyntaxNode>, t: Seq<regex_syntax::hir::Hir>) -> bool
    decreases s,
{
    if s.len() == 0 {
        t.len() == 0
    } else {
        t.len() > 0 && trees_match(s.drop_last(), t.drop_last()) && tree_matches(s.last(), t.last())
    }
}

/// Reads a tree of the parser into the library's form, node for node.
fn node_from(h: &regex_syntax::hir::Hir) -> (r: SyntaxNode)
    ensures
        tree_matches(r, *h),
    decreases h,
{
    let k = h.kind();
    match k {
        regex_syntax::hir::HirKind::Empty => SyntaxNode::Empty,
        regex_syntax::hir::HirKind::Literal(l) => SyntaxNode::Literal(literal_from(l)),
        regex_syntax::hir::HirKind::Class(c) => SyntaxNode::Class(class_from(c)),
        regex_syntax::hir::HirKind::Anchor(a) => SyntaxNode::Anchor(anchor_from(a)),
        regex_syntax::hir::HirKind::WordBoundary(w) => SyntaxNode::WordBoundary(
            word_boundary_from(w),
        ),
        regex_syntax::hir::HirKind::Repetition(rep) => {
            let inner = wrapped(k).unwrap();
            SyntaxNode::Repetition {
                greedy: rep.greedy,
                kind: repetition_kind_from(&rep.kind),
                inner: Box::new(node_from(inner)),
            }
        },
        regex_syntax::hir::HirKind::Group(g) => {
            let inner = wrapped(k).unwrap();
            SyntaxNode::Group { kind: group_kind_from(&g.kind), inner: Box::new(node_from(inner)) }
        },
        regex_syntax::hir::HirKind::Concat(_) => SyntaxNode::Concat(
            nodes_from(sequence(k).unwrap()),
        ),
        regex_syntax::hir::HirKind::Alternation(_) => SyntaxNode::Alternation(
            nodes_from(sequence(k).unwrap()),
        ),
    }
}

fn nodes_from(v: &Vec<regex_syntax::hir::Hir>) -> (r: Vec<SyntaxNode>)
    ensures
        trees_match(r@, v@),
    decreases v,
{
    let mut out: Vec<SyntaxNode> = Vec::new();
    let mut i: usize = 0;
    while i < v.len()
        invariant
            i <= v@.len(),
            trees_match(out@, v@.take(i as int)),
        decreases v@.len() - i,
    {
        let n = node_from(&v[i]);
        proof {
            assert(out@.push(n).drop_last() =~= out@);
            assert(v@.take(i + 1).drop_last() =~= v@.take(i as int));
        }
        out.push(n);
        i = i + 1;
    }
    assert(v@.take(i as int) =~= v@);
    out
}

/// Two trees of the library's form that hold what one tree of the parser
/// holds serialize to the same value.
pub proof fn lemma_matching_trees_serialize_alike(
    n1: SyntaxNode,
    n2: SyntaxNode,
    h: regex_syntax::hir::Hir,
)
    requires
        tree_matches(n1, h),
        tree_matches(n2, h),
    ensures
        node_json(n1) == node_json(n2),
    decreases n1,
{
    match (n1, n2) {
        (SyntaxNode::Class(c1), SyntaxNode::Class(c2)) => {
            match (c1, c2) {
                (ClassValue::Unicode(r1), ClassValue::Unicode(r2)) => {
                    assert(unicode_pairs(r1@).len() == r1@.len() && unicode_pairs(r2@).len() == r2@.len());
                    assert forall|i: int| 0 <= i < r1@.len() implies r1@[i] == r2@[i] by {
                        assert(unicode_pairs(r1@)[i] == unicode_pairs(r2@)[i]);
                    }
                    assert(r1@ =~= r2@);
                },
                (ClassValue::Bytes(r1), ClassValue::Bytes(r2)) => {
                    assert(byte_pairs(r1@).len() == r1@.len() && byte_pairs(r2@).len() == r2@.len());
                    assert forall|i: int| 0 <= i < r1@.len() implies r1@[i] == r2@[i] by {
                        assert(byte_pairs(r1@)[i] == byte_pairs(r2@)[i]);
                    }
                    assert(r1@ =~= r2@);
                },
                _ => {},
            }
        },
        (
            SyntaxNode::Repetition { inner: i1, .. },
            SyntaxNode::Repetition { inner: i2, .. },
        ) => {
            let x = inner_of(hir_kind(h))->Some_0;
            lemma_matching_trees_serialize_alike(*i1, *i2, x);
        },
        (SyntaxNode::Group { inner: i1, .. }, SyntaxNode::Group { inner: i2, .. }) => {
            let x = inner_of(hir_kind(h))->Some_0;
            lemma_matching_trees_serialize_alike(*i1, *i2, x);
        },
        (SyntaxNode::Concat(v1), SyntaxNode::Concat(v2)) => {
            lemma_matching_sequences_serialize_alike(v1@, v2@, items_of(hir_kind(h))->Some_0@);
        },
        (SyntaxNode::Alternation(v1), SyntaxNode::Alternation(v2)) => {
            lemma_matching_sequences_serialize_alike(v1@, v2@, items_of(hir_kind(h))->Some_0@);
        },
        _ => {},
    }
}

pub proof fn lemma_matching_sequences_serialize_alike(
    s1: Seq<SyntaxNode>,
    s2: Seq<SyntaxNode>,
    t: Seq<regex_syntax::hir::Hir>,
)
    requires
        trees_match(s1, t),
        trees_match(s2, t),
    ensures
        nodes_json(s1) == nodes_json(s2),
    decreases s1,
{
    if s1.len() > 0 {
        lemma_matching_sequences_serialize_alike(s1.drop_last(), s2.drop_last(), t.drop_last());
        lemma_matching_trees_serialize_alike(s1.last(), s2.last(), t.last());
    }
}

/// Parses a pattern into its syntax tree; fails, with the parser's message,
/// exactly on the patterns that the parser refuses.
pub fn parse(pattern: &str) -> (r: Result<SyntaxNode, PatternError>)
    ensures
        r is Ok <==> parses(pattern@),
        r matches Ok(n) ==> tree_matches(n, parsed_hir(pattern@)),
{
    match parse_hir(pattern) {
        Ok(h) => Ok(node_from(&h)),
        Err(e) => Err(PatternError { message: syntax_error_message(&e) }),
    }
}

} // verus!
