use markup::RErr;
use markup::Value;
use markup::define;
use markup::new;
use std::rc::Rc;

fn ints(data: &[i64]) -> Value {
    let mut items = Vec::new();
    for d in data {
        items.push(Rc::new(Value::Int(*d)));
    }
    Value::List(items)
}

#[test]
fn t() {
    let data: Vec<i64> = (1..1000).collect();
    let body = "foo { @for d in data { bar { \"Hello\" @d \"World\" } } }";
    let env: markup::Env = vec![("data".to_string(), Rc::new(ints(&data)))];

    let defs = define(&format!("Define(data: list) {{ {} }}", body)).unwrap();
    let define_out = defs[0].to_string(&env).unwrap();
    let dynamic = new(body, env.clone()).unwrap().to_string().unwrap();
    let to_string = {
        let mut s = String::new();
        defs[0].render(&env, &mut s).unwrap();
        s
    };
    let to_writer = {
        let mut s = String::new();
        new(body, env.clone()).unwrap().render(&mut s).unwrap();
        s
    };

    assert_eq!(define_out.len(), 23879);
    assert_eq!(define_out, dynamic);
    assert_eq!(define_out, to_string);
    assert_eq!(define_out, to_writer);
}

#[test]
fn element_round_trip() {
    let d = new("div { \"Two\" }", vec![]).unwrap();
    assert_eq!(d.to_string().unwrap(), "<div>Two</div>");
    let v = new("br;", vec![]).unwrap();
    assert_eq!(v.to_string().unwrap(), "<br>");
}

#[test]
fn attribute_tri_state() {
    let src = "div[x = v] {}";
    let bind = |v: Value| -> String {
        new(src, vec![("v".to_string(), Rc::new(v))]).unwrap().to_string().unwrap()
    };
    assert_eq!(bind(Value::Bool(true)), "<div x></div>");
    assert_eq!(bind(Value::Bool(false)), "<div></div>");
    assert_eq!(bind(Value::NoneV), "<div></div>");
    assert_eq!(
        bind(Value::SomeV(Rc::new(Value::Str("val".to_string())))),
        "<div x=\"val\"></div>"
    );
    assert_eq!(bind(Value::Str("a<b".to_string())), "<div x=\"a&lt;b\"></div>");
    assert_eq!(bind(Value::Int(7)), "<div x=\"7\"></div>");
}

#[test]
fn class_id_composition() {
    let a = new(".foo.bar#baz {}", vec![]).unwrap().to_string().unwrap();
    assert_eq!(a, "<div id=\"baz\" class=\"foo bar\"></div>");
    let b = new("#baz.foo.bar {}", vec![]).unwrap().to_string().unwrap();
    assert_eq!(b, "<div id=\"baz\" class=\"foo bar\"></div>");
}

#[test]
fn for_enumerate_control_flow() {
    let d = new("@for (i, x) in [10,20,30].enumerate() { @i \":\" @x \";\" }", vec![]).unwrap();
    assert_eq!(d.to_string().unwrap(), "0:10;1:20;2:30;");
}

#[test]
fn match_guards_select_first_taken_arm() {
    let src = "@match v { 1 => { \"one\" } n if n == 2 => { \"two\" } _ => { \"other\" } }";
    let run = |v: i64| -> String {
        new(src, vec![("v".to_string(), Rc::new(Value::Int(v)))])
            .unwrap()
            .to_string()
            .unwrap()
    };
    assert_eq!(run(1), "one");
    assert_eq!(run(2), "two");
    assert_eq!(run(3), "other");
}

#[test]
fn match_alternation() {
    let src = "@match v { 1 | 2 => { \"small\" } _ => { \"big\" } }";
    let run = |v: i64| -> String {
        new(src, vec![("v".to_string(), Rc::new(Value::Int(v)))])
            .unwrap()
            .to_string()
            .unwrap()
    };
    assert_eq!(run(1), "small");
    assert_eq!(run(2), "small");
    assert_eq!(run(9), "big");
}

#[test]
fn composition_embeds_without_double_escaping() {
    let inner_defs = define("B(x: string) { span { @x } }").unwrap();
    let inner = inner_defs[0]
        .to_string(&vec![("x".to_string(), Rc::new(Value::Str("a<b".to_string())))])
        .unwrap();
    assert_eq!(inner, "<span>a&lt;b</span>");
    let outer_defs = define("A(child: any) { div { @child } }").unwrap();
    let out = outer_defs[0]
        .to_string(&vec![("child".to_string(), Rc::new(markup::raw(&inner)))])
        .unwrap();
    assert_eq!(out, "<div><span>a&lt;b</span></div>");
}

#[test]
fn end_to_end_fields() {
    let defs = define("A(foo: int, bar: int, baz: string) { {foo}{bar}{foo+bar}{baz} }").unwrap();
    let env: markup::Env = vec![
        ("foo".to_string(), Rc::new(Value::Int(1))),
        ("bar".to_string(), Rc::new(Value::Int(-2))),
        ("baz".to_string(), Rc::new(Value::Str("3".to_string()))),
    ];
    assert_eq!(defs[0].to_string(&env).unwrap(), "1-2-13");
    assert_eq!(defs[0].name, "A");
    assert_eq!(defs[0].field_names, vec!["foo", "bar", "baz"]);
    assert!(defs[0].size_hint > 0);
}

#[test]
fn if_else_chain() {
    let src = "@if v == 1 { \"one\" } else if v == 2 { \"two\" } else { \"other\" }";
    let run = |v: i64| -> String {
        new(src, vec![("v".to_string(), Rc::new(Value::Int(v)))])
            .unwrap()
            .to_string()
            .unwrap()
    };
    assert_eq!(run(1), "one");
    assert_eq!(run(2), "two");
    assert_eq!(run(5), "other");
}

#[test]
fn if_let_binds_in_consequent() {
    let src = "@if let (a, b) = p { @a \"-\" @b } else { \"no\" }";
    let pair = Value::Pair(Rc::new(Value::Int(4)), Rc::new(Value::Int(5)));
    let out = new(src, vec![("p".to_string(), Rc::new(pair))])
        .unwrap()
        .to_string()
        .unwrap();
    assert_eq!(out, "4-5");
    let out2 = new(src, vec![("p".to_string(), Rc::new(Value::Int(3)))])
        .unwrap()
        .to_string()
        .unwrap();
    assert_eq!(out2, "no");
}

#[test]
fn let_statement_binds_later_siblings() {
    let d = new("@let x = 5; @x \"+\" @x", vec![]).unwrap();
    assert_eq!(d.to_string().unwrap(), "5+5");
}

#[test]
fn dynamic_tag_names() {
    let env: markup::Env =
        vec![("name".to_string(), Rc::new(Value::Str("foo-bar".to_string())))];
    let d = new("${name};", env.clone()).unwrap();
    assert_eq!(d.to_string().unwrap(), "<foo-bar>");
    let d2 = new("${name} {}", env).unwrap();
    assert_eq!(d2.to_string().unwrap(), "<foo-bar></foo-bar>");
    let d3 = new("$\"foo-bar\";", vec![]).unwrap();
    assert_eq!(d3.to_string().unwrap(), "<foo-bar>");
}

#[test]
fn arithmetic_and_literals() {
    let d = new("{1 + 2} {2 * 3} {7 - 10} {\"<>\"} {true} {false}", vec![]).unwrap();
    assert_eq!(d.to_string().unwrap(), "36-3&lt;&gt;truefalse");
}

#[test]
fn parse_error_positions() {
    assert!(new("div {", vec![]).is_err());
    assert!(new("\"unterminated", vec![]).is_err());
    assert!(new("div [x = ] {}", vec![]).is_err());
    assert!(define("NoBody").is_err());
    let e = match new("%", vec![]) {
        Err(e) => e,
        Ok(_) => panic!(),
    };
    assert_eq!(e.at, 0);
}

#[test]
fn render_errors() {
    let unbound = new("@x", vec![]).unwrap().to_string().unwrap_err();
    assert!(matches!(unbound, RErr::Unbound(_)));
    let mismatch = new("@for d in n { @d }", vec![("n".to_string(), Rc::new(Value::Int(3)))])
        .unwrap()
        .to_string()
        .unwrap_err();
    assert_eq!(mismatch, RErr::Mismatch);
    let noarm = new("@match v { 1 => { \"a\" } }", vec![(
        "v".to_string(),
        Rc::new(Value::Int(2)),
    )])
    .unwrap()
    .to_string()
    .unwrap_err();
    assert_eq!(noarm, RErr::NoArm);
    let overflow = new("{9223372036854775807 + 1}", vec![]).unwrap().to_string().unwrap_err();
    assert_eq!(overflow, RErr::Overflow);
}

#[test]
fn two_definitions_in_one_source() {
    let defs = define("A { \"a\" } B { \"b\" }").unwrap();
    assert_eq!(defs.len(), 2);
    assert_eq!(defs[0].name, "A");
    assert_eq!(defs[1].name, "B");
    assert_eq!(defs[0].to_string(&vec![]).unwrap(), "a");
    assert_eq!(defs[1].to_string(&vec![]).unwrap(), "b");
}

#[test]
fn element_string_body_and_attributes() {
    let d = new("foo.bar[baz = true] \"quux\"", vec![]).unwrap();
    assert_eq!(d.to_string().unwrap(), "<foo class=\"bar\" baz>quux</foo>");
    let d2 = new("br[k = 6];", vec![]).unwrap();
    assert_eq!(d2.to_string().unwrap(), "<br k=\"6\">");
}

#[test]
fn empty_template_renders_nothing() {
    let d = new("", vec![]).unwrap();
    assert_eq!(d.to_string().unwrap(), "");
    let defs = define("A { }").unwrap();
    assert_eq!(defs[0].to_string(&vec![]).unwrap(), "");
}

#[test]
fn newest_binding_shadows() {
    let env: markup::Env = vec![
        ("x".to_string(), Rc::new(Value::Int(1))),
        ("x".to_string(), Rc::new(Value::Int(2))),
    ];
    assert_eq!(new("@x", env).unwrap().to_string().unwrap(), "2");
    let env2: markup::Env = vec![("x".to_string(), Rc::new(Value::Int(1)))];
    assert_eq!(new("@let x = 9; @x", env2).unwrap().to_string().unwrap(), "9");
}

#[test]
fn nested_elements_and_shorthands() {
    let d = new(
        "1 .foo { 2 .bar.baz { 3 #quux { 4 } 5 } 6 } 7",
        vec![],
    )
    .unwrap();
    assert_eq!(
        d.to_string().unwrap(),
        "1<div class=\"foo\">2<div class=\"bar baz\">3<div id=\"quux\">4</div>5</div>6</div>7"
    );
}

#[test]
fn loop_bindings_stay_in_scope() {
    let env: markup::Env = vec![("x".to_string(), Rc::new(Value::Int(7)))];
    let d = new("@for x in [1,2] { @x } @x", env).unwrap();
    assert_eq!(d.to_string().unwrap(), "127");
}

#[test]
fn pair_values_render_concatenated() {
    let env: markup::Env = vec![(
        "h".to_string(),
        Rc::new(Value::Pair(
            Rc::new(Value::Int(6)),
            Rc::new(Value::Str("7".to_string())),
        )),
    )];
    let d = new("div[h = h] {}", env).unwrap();
    assert_eq!(d.to_string().unwrap(), "<div h=\"67\"></div>");
}
