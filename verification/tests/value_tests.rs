use markup::Attribute;
use markup::Cache;
use markup::Element;
use markup::Expr;
use markup::Lst;
use markup::Node;
use markup::Render;
use markup::RenderAttributeValue;
use markup::Span;
use markup::Value;
use markup::doctype;
use markup::raw;
use markup::source_digest;
use markup::template::from_nodes;
use markup::value_to_string;
use std::rc::Rc;

#[test]
fn doctype_is_raw() {
    assert_eq!(value_to_string(&doctype()), "<!DOCTYPE html>");
}

#[test]
fn raw_bypasses_escaping() {
    assert_eq!(value_to_string(&raw("<b>&</b>")), "<b>&</b>");
    assert_eq!(value_to_string(&Value::Str("<b>&</b>".to_string())), "&lt;b&gt;&amp;&lt;/b&gt;");
}

#[test]
fn value_rendering() {
    assert_eq!(value_to_string(&Value::Int(0)), "0");
    assert_eq!(value_to_string(&Value::Int(-42)), "-42");
    assert_eq!(value_to_string(&Value::Int(i64::MIN)), "-9223372036854775808");
    assert_eq!(value_to_string(&Value::Int(i64::MAX)), "9223372036854775807");
    assert_eq!(value_to_string(&Value::Bool(true)), "true");
    assert_eq!(value_to_string(&Value::Bool(false)), "false");
    assert_eq!(value_to_string(&Value::Ch('π')), "π");
    assert_eq!(value_to_string(&Value::NoneV), "");
    assert_eq!(
        value_to_string(&Value::SomeV(Rc::new(Value::Str("a<b".to_string())))),
        "a&lt;b"
    );
    let pair = Value::Pair(Rc::new(Value::Int(6)), Rc::new(Value::Str("7".to_string())));
    assert_eq!(value_to_string(&pair), "67");
    let list = Value::List(vec![
        Rc::new(Value::Int(1)),
        Rc::new(Value::Str("x".to_string())),
        Rc::new(Value::Bool(false)),
    ]);
    assert_eq!(value_to_string(&list), "1xfalse");
}

#[test]
fn render_protocol_impls() {
    let mut s = String::new();
    true.render(&mut s);
    false.render(&mut s);
    assert_eq!(s, "truefalse");

    let mut s = String::new();
    (-5i64).render(&mut s);
    7u64.render(&mut s);
    9usize.render(&mut s);
    assert_eq!(s, "-579");

    let mut s = String::new();
    'x'.render(&mut s);
    "a<b".to_string().render(&mut s);
    assert_eq!(s, "xa&lt;b");

    let mut s = String::new();
    Some(3i64).render(&mut s);
    None::<i64>.render(&mut s);
    assert_eq!(s, "3");

    assert!(!true.is_none() && true.is_true() && !true.is_false());
    assert!(!false.is_true() && false.is_false());
    assert!(Value::NoneV.is_none());
    assert!(Value::Bool(true).is_true());
    assert!(Value::Bool(false).is_false());
    assert!(!Value::Int(1).is_true() && !Value::Int(1).is_false() && !Value::Int(1).is_none());
}

#[test]
fn iterable_attribute_source() {
    let src: Vec<char> = "pairs".chars().collect();
    let var = Expr::Var(Span { lo: 0, hi: 5 });
    let el = Element {
        name: None,
        id: None,
        classes: Lst::Nil,
        attributes: Lst::Cons(Box::new(Attribute::Many(var)), Box::new(Lst::Nil)),
        children: Some(Lst::Nil),
    };
    let nodes = Lst::Cons(Box::new(Node::Element(el)), Box::new(Lst::Nil));
    let pairs = Value::List(vec![
        Rc::new(Value::Pair(
            Rc::new(Value::Str("a".to_string())),
            Rc::new(Value::Str("1".to_string())),
        )),
        Rc::new(Value::Pair(
            Rc::new(Value::Str("b".to_string())),
            Rc::new(Value::Bool(true)),
        )),
        Rc::new(Value::Pair(Rc::new(Value::Str("c".to_string())), Rc::new(Value::NoneV))),
        Rc::new(Value::Pair(
            Rc::new(Value::Str("d".to_string())),
            Rc::new(Value::Bool(false)),
        )),
    ]);
    let env: markup::Env = vec![("pairs".to_string(), Rc::new(pairs))];
    let d = from_nodes(src, nodes, env);
    assert_eq!(d.to_string().unwrap(), "<div a=\"1\" b></div>");
}

#[test]
fn content_digest_is_stable() {
    assert_eq!(
        source_digest("abc"),
        "ba7816bf8f01cfea414140de5dae2223b00361a396177a9cb410ff61f20015ad"
    );
    assert_eq!(
        source_digest(""),
        "e3b0c44298fc1c149afbf4c8996fb92427ae41e4649b934ca495991b7852b855"
    );
    assert_ne!(source_digest("abc"), source_digest("abd"));
}

#[test]
fn cache_compiles_each_source_once() {
    let mut cache = Cache::init();
    let src = "A { \"hi\" }";
    let i = cache.cached(src).unwrap();
    let j = cache.cached(src).unwrap();
    assert_eq!(i, j);
    let k = cache.cached("B { \"bye\" }").unwrap();
    assert_ne!(i, k);
    let a = cache.get(i).unwrap();
    assert_eq!(a[0].to_string(&vec![]).unwrap(), "hi");
    let b = cache.get(k).unwrap();
    assert_eq!(b[0].to_string(&vec![]).unwrap(), "bye");
    assert!(cache.cached("broken {").is_err());
}
