use rregex::{
    matches_value, option, parse, strings_value, GroupRole, LiteralValue, Match, RRegExp,
    RepeatBounds, RepeatKind, SyntaxNode, Value,
};

fn re(p: &str) -> RRegExp {
    match RRegExp::new(p) {
        Ok(r) => r,
        Err(e) => panic!("pattern {} refused: {}", p, e.message),
    }
}

fn field<'a>(v: &'a Value, key: &str) -> &'a Value {
    match v {
        Value::Object(fields) => {
            for (k, x) in fields {
                if k == key {
                    return x;
                }
            }
            panic!("no field {}", key)
        }
        _ => panic!("not an object"),
    }
}

fn keys(v: &Value) -> Vec<String> {
    match v {
        Value::Object(fields) => fields.iter().map(|(k, _)| k.clone()).collect(),
        _ => panic!("not an object"),
    }
}

fn string(v: &Value) -> &str {
    match v {
        Value::Str(s) => s.as_str(),
        _ => panic!("not a string"),
    }
}

fn number(v: &Value) -> u64 {
    match v {
        Value::Number(n) => *n,
        _ => panic!("not a number"),
    }
}

fn array(v: &Value) -> &Vec<Value> {
    match v {
        Value::Array(a) => a,
        _ => panic!("not an array"),
    }
}

fn spans(ms: &[Match]) -> Vec<(usize, usize, String)> {
    ms.iter().map(|m| (m.start, m.end, m.text.clone())).collect()
}

#[test]
fn compile_accepts_valid_and_refuses_invalid() {
    assert!(RRegExp::new("a+b").is_ok());
    match RRegExp::new("(") {
        Ok(_) => panic!("an open group must be refused"),
        Err(e) => assert!(!e.message.is_empty()),
    }
}

#[test]
fn as_str_gives_the_pattern() {
    assert_eq!(re("a+b").as_str(), "a+b");
}

#[test]
fn find_all_is_non_overlapping_left_to_right() {
    let ms = re("a").find_all("aaa");
    assert_eq!(
        spans(&ms),
        vec![(0, 1, "a".to_string()), (1, 2, "a".to_string()), (2, 3, "a".to_string())]
    );
}

#[test]
fn find_all_makes_progress_on_empty_matches() {
    let ms = re("").find_all("ab");
    assert_eq!(
        spans(&ms),
        vec![(0, 0, String::new()), (1, 1, String::new()), (2, 2, String::new())]
    );
}

#[test]
fn find_all_on_no_match_is_empty() {
    assert!(re("z").find_all("abc").is_empty());
}

#[test]
fn replace_all_replaces_every_match() {
    assert_eq!(re(r"\d+").replace_all("a1b22c", "#"), "a#b#c");
}

#[test]
fn replace_replaces_the_first_match_only() {
    assert_eq!(re(r"\d+").replace("a1b22c", "#"), "a#b22c");
}

#[test]
fn replacen_with_zero_leaves_the_text() {
    assert_eq!(re(r"\d+").replacen("a1b22c", 0, "#"), "a1b22c");
}

#[test]
fn replacen_replaces_up_to_the_limit() {
    assert_eq!(re("a").replacen("aaaa", 2, "b"), "bbaa");
    assert_eq!(re("a").replacen("aaaa", 9, "b"), "bbbb");
}

#[test]
fn replace_expands_group_references() {
    assert_eq!(re(r"(\w+) (\w+)").replace("hello world", "$2 $1"), "world hello");
}

#[test]
fn replace_without_match_keeps_the_text() {
    assert_eq!(re("x").replace_all("abc", "#"), "abc");
}

#[test]
fn splitn_keeps_the_rest_in_the_last_piece() {
    assert_eq!(re(",").splitn("a,b,c,d", 2), vec!["a", "b,c,d"]);
}

#[test]
fn split_yields_one_piece_more_than_matches() {
    assert_eq!(re(",").split("a,b,,c,"), vec!["a", "b", "", "c", ""]);
    assert_eq!(re(",").split(""), vec![""]);
}

#[test]
fn is_match_and_find() {
    let r = re("b+");
    assert!(r.is_match("abbc"));
    assert!(!r.is_match("ac"));
    let m = r.find("abbc").unwrap();
    assert_eq!((m.start, m.end, m.text.as_str()), (1, 3, "bb"));
    assert!(r.find("ac").is_none());
}

#[test]
fn find_at_starts_the_search_at_the_offset() {
    let r = re("a");
    let m = r.find_at("aba", 1).unwrap();
    assert_eq!((m.start, m.end), (2, 3));
    assert!(r.find_at("aba", 3).is_none());
}

#[test]
fn offsets_are_in_bytes() {
    let m = re("b").find("éb").unwrap();
    assert_eq!((m.start, m.end, m.text.as_str()), (2, 3, "b"));
}

#[test]
fn is_match_at_is_true_only_where_a_match_begins() {
    let r = re("a");
    for start in 0..=3 {
        let found = r.find_at("bab", start);
        let begins = matches!(found, Some(ref m) if m.start == start);
        assert_eq!(r.is_match_at("bab", start), begins);
    }
    assert!(r.is_match_at("bab", 1));
    assert!(!r.is_match_at("bab", 0));
}

#[test]
fn syntax_of_alternation() {
    match parse("a|b").unwrap() {
        SyntaxNode::Alternation(v) => {
            assert_eq!(v.len(), 2);
            assert!(matches!(v[0], SyntaxNode::Literal(LiteralValue::Unicode('a'))));
            assert!(matches!(v[1], SyntaxNode::Literal(LiteralValue::Unicode('b'))));
        }
        other => panic!("unexpected {:?}", other),
    }
    let v = re("a|b").syntax().unwrap();
    assert_eq!(string(field(&v, "@name")), "regex_syntax::hir::Hir");
    let kind = field(&v, "kind");
    assert_eq!(string(field(kind, "@variant")), "Alternation");
    let items = array(field(kind, "value"));
    assert_eq!(items.len(), 2);
    let lit = field(field(&items[0], "kind"), "value");
    assert_eq!(string(field(lit, "@variant")), "Unicode");
    assert_eq!(number(field(lit, "value")), 'a' as u64);
    let lit = field(field(&items[1], "kind"), "value");
    assert_eq!(number(field(lit, "value")), 'b' as u64);
}

#[test]
fn syntax_of_capture_groups() {
    match parse("(a)(?P<x>b)").unwrap() {
        SyntaxNode::Concat(v) => {
            assert_eq!(v.len(), 2);
            match &v[0] {
                SyntaxNode::Group { kind: GroupRole::CaptureIndex(1), inner } => {
                    assert!(matches!(**inner, SyntaxNode::Literal(LiteralValue::Unicode('a'))))
                }
                other => panic!("unexpected {:?}", other),
            }
            match &v[1] {
                SyntaxNode::Group { kind: GroupRole::CaptureName { index, name }, inner } => {
                    assert_eq!(*index, 2);
                    assert_eq!(name, "x");
                    assert!(matches!(**inner, SyntaxNode::Literal(LiteralValue::Unicode('b'))))
                }
                other => panic!("unexpected {:?}", other),
            }
        }
        other => panic!("unexpected {:?}", other),
    }
    let v = re("(a)(?P<x>b)").syntax().unwrap();
    let groups = array(field(field(&v, "kind"), "value"));
    let first = field(field(&groups[0], "kind"), "value");
    assert_eq!(string(field(first, "@name")), "regex_syntax::hir::Group");
    let k = field(first, "kind");
    assert_eq!(keys(k), vec!["@type", "@name", "@variant", "index"]);
    assert_eq!(string(field(k, "@variant")), "CaptureIndex");
    assert_eq!(number(field(k, "index")), 1);
    let second = field(field(&groups[1], "kind"), "value");
    let k = field(second, "kind");
    assert_eq!(keys(k), vec!["@type", "@name", "@variant", "index", "name"]);
    assert_eq!(string(field(k, "@variant")), "CaptureName");
    assert_eq!(number(field(k, "index")), 2);
    assert_eq!(string(field(k, "name")), "x");
}

#[test]
fn serialization_is_deterministic() {
    for p in ["a|b", "(a)(?P<x>b)", r"[a-c]\d{2,5}?", r"^\bx*$", "(?-u)[a-z]", ""] {
        let r = re(p);
        let a = format!("{:?}", r.syntax().unwrap());
        let b = format!("{:?}", r.syntax().unwrap());
        assert_eq!(a, b);
    }
}

#[test]
fn syntax_of_repetition_and_class() {
    match parse("[a-c]{2,5}?").unwrap() {
        SyntaxNode::Repetition { greedy, kind, inner } => {
            assert!(!greedy);
            assert_eq!(kind, RepeatKind::Range(RepeatBounds::Bounded(2, 5)));
            assert!(matches!(*inner, SyntaxNode::Class(_)));
        }
        other => panic!("unexpected {:?}", other),
    }
    let v = re("[a-c]{2,5}?").syntax().unwrap();
    let rep = field(field(&v, "kind"), "value");
    assert_eq!(keys(rep), vec!["@type", "@name", "greedy", "kind", "hir"]);
    assert!(matches!(field(rep, "greedy"), Value::Bool(false)));
    let range = field(field(rep, "kind"), "value");
    assert_eq!(string(field(range, "@variant")), "Bounded");
    let bounds: Vec<u64> = array(field(range, "value")).iter().map(number).collect();
    assert_eq!(bounds, vec![2, 5]);
    let class = field(field(field(rep, "hir"), "kind"), "value");
    assert_eq!(string(field(class, "@variant")), "Unicode");
    let ranges = array(field(field(class, "value"), "ranges"));
    assert_eq!(ranges.len(), 1);
    assert_eq!(number(field(&ranges[0], "start")), 'a' as u64);
    assert_eq!(number(field(&ranges[0], "end")), 'c' as u64);
}

#[test]
fn syntax_of_anchors_bytes_and_empty() {
    let v = re("^").syntax().unwrap();
    let a = field(field(&v, "kind"), "value");
    assert_eq!(string(field(a, "@name")), "regex_syntax::hir::Anchor");
    assert_eq!(string(field(a, "@variant")), "StartText");
    let v = re("").syntax().unwrap();
    let k = field(&v, "kind");
    assert_eq!(keys(k), vec!["@type", "@name", "@variant"]);
    assert_eq!(string(field(k, "@variant")), "Empty");
    let v = re(r"\B").syntax().unwrap();
    assert_eq!(string(field(field(field(&v, "kind"), "value"), "@variant")), "UnicodeNegate");
    let v = re("(?-u)[\\x00-\\x10]").syntax().unwrap();
    let class = field(field(&v, "kind"), "value");
    assert_eq!(string(field(class, "@variant")), "Bytes");
    let ranges = array(field(field(class, "value"), "ranges"));
    assert_eq!(number(field(&ranges[0], "start")), 0);
    assert_eq!(number(field(&ranges[0], "end")), 16);
}

#[test]
fn parse_refuses_invalid_patterns() {
    match parse("(") {
        Ok(_) => panic!("an open group must be refused"),
        Err(e) => assert!(!e.message.is_empty()),
    }
}

#[test]
fn match_values_carry_bounds_and_text() {
    let ms = re("b").find_all("abcb");
    let v = matches_value(&ms);
    let items = array(&v);
    assert_eq!(items.len(), 2);
    assert_eq!(string(field(&items[1], "@name")), "regex::Match");
    assert_eq!(number(field(&items[1], "start")), 3);
    assert_eq!(number(field(&items[1], "end")), 4);
    assert_eq!(string(field(field(&items[1], "as_str"), "@value")), "b");
    assert!(matches!(option(&None), Value::Null));
    let one = option(&re("c").find("abc"));
    assert_eq!(number(field(&one, "start")), 2);
}

#[test]
fn string_values_keep_order() {
    let v = strings_value(&re(",").split("x,y"));
    let items = array(&v);
    assert_eq!(string(field(&items[0], "@name")), "std::string::String");
    assert_eq!(string(field(&items[0], "@value")), "x");
    assert_eq!(string(field(&items[1], "@value")), "y");
}

#[test]
fn find_is_the_first_of_find_all() {
    for (p, t) in [("b+", "abbcbb"), ("", "é"), ("x", "abc"), ("a*", "baaa")] {
        let r = re(p);
        let all = r.find_all(t);
        match r.find(t) {
            Some(m) => assert_eq!((m.start, m.end), (all[0].start, all[0].end)),
            None => assert!(all.is_empty()),
        }
        for w in all.windows(2) {
            assert!(w[0].start < w[1].start && w[0].end <= w[1].start);
        }
    }
}

#[test]
fn empty_matches_skip_whole_characters() {
    let ms = re("").find_all("é");
    assert_eq!(spans(&ms), vec![(0, 0, String::new()), (2, 2, String::new())]);
}

#[test]
fn replacement_with_group_reference_differs_from_literal() {
    assert_eq!(re("(b)").replace_all("abcb", "[$1]"), "a[b]c[b]");
    assert_eq!(re("b").replace_all("abcb", "[x]"), "a[x]c[x]");
}

#[test]
fn splitn_with_zero_and_large_limits() {
    assert!(re(",").splitn("a,b", 0).is_empty());
    assert_eq!(re(",").splitn("a,b", 1), vec!["a,b"]);
    assert_eq!(re(",").splitn("a,b", 5), vec!["a", "b"]);
}

#[test]
fn code_points_are_numbers() {
    let v = re("é").syntax().unwrap();
    let lit = field(field(&v, "kind"), "value");
    assert_eq!(number(field(lit, "value")), 0xE9);
    let v = LiteralValue::Unicode('\u{1F600}').to_value();
    assert_eq!(number(field(&v, "value")), 0x1F600);
}

#[test]
fn capture_groups_follow_the_parser() {
    match parse("(?:a)(b)(?P<n>c)").unwrap() {
        SyntaxNode::Concat(v) => {
            assert!(matches!(v[0], SyntaxNode::Group { kind: GroupRole::NonCapturing, .. }));
            assert!(matches!(v[1], SyntaxNode::Group { kind: GroupRole::CaptureIndex(1), .. }));
            assert!(matches!(
                v[2],
                SyntaxNode::Group { kind: GroupRole::CaptureName { index: 2, .. }, .. }
            ));
        }
        other => panic!("unexpected {:?}", other),
    }
}

#[test]
fn byte_ranges_have_ordered_bounds() {
    match parse("(?-u)[\\x10-\\x20\\x00]").unwrap() {
        SyntaxNode::Class(rregex::ClassValue::Bytes(rs)) => {
            assert_eq!(rs.len(), 2);
            assert_eq!((rs[0].start, rs[0].end), (0, 0));
            assert_eq!((rs[1].start, rs[1].end), (0x10, 0x20));
        }
        other => panic!("unexpected {:?}", other),
    }
}
