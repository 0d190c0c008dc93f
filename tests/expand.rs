use foreigner_class::emit::{decimal_text, emit, positional_param_name, GeneratedFunction};
use foreigner_class::expand::expand;
use foreigner_class::model::{ErrorKind, ExpandError, MethodVariant, ReceiverForm};
use foreigner_class::parser::{parse_class_block, parse_signature};
use foreigner_class::receiver::parse_receiver;
use foreigner_class::registry::TypeRegistry;
use foreigner_class::token::{Punct, Token};
use foreigner_class::types::parse_type;

/// Splits declaration text into tokens, as the host lexer would.
fn lex(src: &str) -> Vec<Token> {
    let chars: Vec<char> = src.chars().collect();
    let mut out = Vec::new();
    let mut i = 0;
    while i < chars.len() {
        let c = chars[i];
        if c.is_whitespace() {
            i += 1;
        } else if c.is_alphanumeric() || c == '_' {
            let start = i;
            while i < chars.len() && (chars[i].is_alphanumeric() || chars[i] == '_') {
                i += 1;
            }
            out.push(Token::Ident(chars[start..i].iter().collect()));
        } else if c == '\'' {
            let start = i;
            i += 1;
            while i < chars.len() && (chars[i].is_alphanumeric() || chars[i] == '_') {
                i += 1;
            }
            out.push(Token::Lifetime(chars[start..i].iter().collect()));
        } else if c == ':' && i + 1 < chars.len() && chars[i + 1] == ':' {
            out.push(Token::Punct(Punct::PathSep));
            i += 2;
        } else if c == '-' && i + 1 < chars.len() && chars[i + 1] == '>' {
            out.push(Token::Punct(Punct::Arrow));
            i += 2;
        } else {
            let p = match c {
                '&' => Some(Punct::Amp),
                '*' => Some(Punct::Star),
                ':' => Some(Punct::Colon),
                '.' => Some(Punct::Dot),
                ',' => Some(Punct::Comma),
                ';' => Some(Punct::Semi),
                '(' => Some(Punct::OpenParen),
                ')' => Some(Punct::CloseParen),
                '{' => Some(Punct::OpenBrace),
                '}' => Some(Punct::CloseBrace),
                '[' => Some(Punct::OpenBracket),
                ']' => Some(Punct::CloseBracket),
                '<' => Some(Punct::Lt),
                '>' => Some(Punct::Gt),
                _ => None,
            };
            match p {
                Some(p) => out.push(Token::Punct(p)),
                None => out.push(Token::Other(c.to_string())),
            }
            i += 1;
        }
    }
    out
}

fn run(src: &str) -> Result<Vec<GeneratedFunction>, ExpandError> {
    expand(&lex(src), &"example_com".to_string(), &TypeRegistry::with_defaults())
}

fn names(f: &GeneratedFunction) -> Vec<String> {
    f.params.iter().map(|p| p.name.clone()).collect()
}

fn types(f: &GeneratedFunction) -> Vec<String> {
    f.params.iter().map(|p| p.ty.clone()).collect()
}

fn err(kind: ErrorKind, pos: usize) -> ExpandError {
    ExpandError { kind, pos }
}

#[test]
fn round_trip_single_method() {
    let fs = run("class Foo { method Foo.bar(&self, x: i32) -> i32; }").unwrap();
    assert_eq!(fs.len(), 1);
    let f = &fs[0];
    assert_eq!(f.external_name, "Bridge_example_com_Foo_bar");
    assert_eq!(types(f), vec!["*mut JNIEnv", "jclass", "jlong", "jint"]);
    assert_eq!(names(f), vec!["_", "_", "this", "a_0"]);
    assert_eq!(f.return_type, "jint");
    assert_eq!(f.receiver_type, "Foo");
    assert_eq!(f.call_target, vec!["Foo", "bar"]);
    assert_eq!(f.call_args, vec!["this", "a_0"]);
    assert!(f.no_mangle);
    assert!(f.public);
}

#[test]
fn unmapped_type_aborts_block() {
    let r = run("class Foo { method Foo.ok(&self) -> i32; method Foo.bar(&self, x: f64); }");
    assert_eq!(r.unwrap_err(), err(ErrorKind::UnsupportedType, 1));
}

#[test]
fn unmapped_return_type_aborts_block() {
    let r = run("class Foo { method Foo.bar(&self) -> f64; }");
    assert_eq!(r.unwrap_err(), err(ErrorKind::UnsupportedType, 0));
}

#[test]
fn unterminated_class_body() {
    let toks = lex("class Foo { method Foo.bar(&self);");
    let r = expand(&toks, &"example_com".to_string(), &TypeRegistry::with_defaults());
    assert_eq!(r.unwrap_err(), err(ErrorKind::SyntaxError, toks.len()));
}

#[test]
fn raw_pointer_receiver_rejected() {
    let toks = lex("class Foo { method Foo.bar(*self); }");
    let c = parse_class_block(&toks).unwrap();
    assert_eq!(c.methods.len(), 1);
    assert!(c.methods[0].signature.raw_pointer_receiver);
    assert!(matches!(
        c.methods[0].signature.receiver,
        Some(ReceiverForm::ByValue { mutable: false })
    ));
    let r = run("class Foo { method Foo.bar(*self); }");
    assert_eq!(r.unwrap_err(), err(ErrorKind::UnsupportedReceiverForm, 0));
    let r = run("class Foo { method Foo.a(&self); method Foo.b(*const self, x: f64); }");
    assert_eq!(r.unwrap_err(), err(ErrorKind::UnsupportedReceiverForm, 1));
}

#[test]
fn constructors_and_static_methods_emit_nothing() {
    let fs = run(
        "class Foo { constructor Foo.new(x: i32); method Foo.a(&self); \
         static_method Foo.s(y: i32) -> i32; method Foo.b(&mut self, z: i32); }",
    )
    .unwrap();
    assert_eq!(fs.len(), 2);
    assert_eq!(fs[0].external_name, "Bridge_example_com_Foo_a");
    assert_eq!(fs[1].external_name, "Bridge_example_com_Foo_b");
    let fs = run("class Foo { constructor Foo.new(); }").unwrap();
    assert!(fs.is_empty());
}

#[test]
fn methods_only_give_one_bridge_each() {
    let fs = run("class K { method K.a(&self); method K.b(&self); method K.c(self); }").unwrap();
    assert_eq!(fs.len(), 3);
}

#[test]
fn bridge_parameters_are_positional() {
    let fs = run("class Foo { method Foo.f(&self, p: i32, q: i32, r: i32,); }").unwrap();
    let f = &fs[0];
    assert_eq!(f.params.len(), 6);
    assert_eq!(names(f), vec!["_", "_", "this", "a_0", "a_1", "a_2"]);
    assert_eq!(f.call_args, vec!["this", "a_0", "a_1", "a_2"]);
    assert_eq!(f.return_type, "c_void");
}

#[test]
fn eleven_parameters_get_two_digit_names() {
    let mut src = String::from("class Foo { method Foo.f(&self");
    for k in 0..11 {
        src.push_str(&format!(", p{}: i32", k));
    }
    src.push_str("); }");
    let fs = run(&src).unwrap();
    assert_eq!(fs[0].params.len(), 14);
    assert_eq!(fs[0].params[13].name, "a_10");
}

#[test]
fn empty_class_gives_nothing() {
    assert!(run("class Foo { }").unwrap().is_empty());
}

#[test]
fn missing_class_keyword() {
    assert_eq!(run("struct Foo { }").unwrap_err(), err(ErrorKind::SyntaxError, 0));
    assert_eq!(run("class { }").unwrap_err(), err(ErrorKind::SyntaxError, 1));
    assert_eq!(run("class Foo method").unwrap_err(), err(ErrorKind::SyntaxError, 2));
}

#[test]
fn unknown_variant() {
    assert_eq!(
        run("class Foo { function Foo.bar(&self); }").unwrap_err(),
        err(ErrorKind::UnknownVariant, 3)
    );
}

#[test]
fn unexpected_token_after_receiver() {
    // class Foo { method Foo . bar ( & self x ...
    assert_eq!(
        run("class Foo { method Foo.bar(&self x: i32); }").unwrap_err(),
        err(ErrorKind::SyntaxError, 10)
    );
}

#[test]
fn missing_semicolon() {
    assert_eq!(
        run("class Foo { method Foo.bar(&self) }").unwrap_err(),
        err(ErrorKind::SyntaxError, 11)
    );
}

#[test]
fn constructor_takes_no_receiver() {
    assert_eq!(
        run("class Foo { constructor Foo.new(&self); }").unwrap_err(),
        err(ErrorKind::SyntaxError, 8)
    );
}

fn receiver_of(src: &str) -> Result<Option<(ReceiverForm, bool, usize)>, usize> {
    parse_receiver(&lex(src), 0)
}

#[test]
fn receiver_forms() {
    assert!(matches!(
        receiver_of("&self)"),
        Ok(Some((ReceiverForm::ByReference { lifetime: None, mutable: false }, false, 2)))
    ));
    assert!(matches!(
        receiver_of("&mut self)"),
        Ok(Some((ReceiverForm::ByReference { lifetime: None, mutable: true }, false, 3)))
    ));
    match receiver_of("&'a self)") {
        Ok(Some((ReceiverForm::ByReference { lifetime: Some(l), mutable: false }, false, 3))) => {
            assert_eq!(l, "'a")
        },
        other => panic!("{:?}", other),
    }
    assert!(matches!(
        receiver_of("&'a mut self)"),
        Ok(Some((ReceiverForm::ByReference { lifetime: Some(_), mutable: true }, false, 4)))
    ));
    assert!(matches!(
        receiver_of("*self)"),
        Ok(Some((ReceiverForm::ByValue { mutable: false }, true, 2)))
    ));
    assert!(matches!(
        receiver_of("*mut self)"),
        Ok(Some((ReceiverForm::ByValue { mutable: false }, true, 3)))
    ));
    assert!(matches!(
        receiver_of("*const self)"),
        Ok(Some((ReceiverForm::ByValue { mutable: false }, true, 3)))
    ));
    assert!(matches!(
        receiver_of("self)"),
        Ok(Some((ReceiverForm::ByValue { mutable: false }, false, 1)))
    ));
    assert!(matches!(
        receiver_of("mut self)"),
        Ok(Some((ReceiverForm::ByValue { mutable: true }, false, 2)))
    ));
    match receiver_of("self: Box<Self>)") {
        Ok(Some((ReceiverForm::ByExplicitType { ty, mutable: false }, false, 6))) => {
            assert_eq!(ty, "Box<Self>")
        },
        other => panic!("{:?}", other),
    }
    match receiver_of("mut self: Box<Self>)") {
        Ok(Some((ReceiverForm::ByExplicitType { ty, mutable: true }, false, 7))) => {
            assert_eq!(ty, "Box<Self>")
        },
        other => panic!("{:?}", other),
    }
    match receiver_of("mut self: &Foo)") {
        Ok(Some((ReceiverForm::ByExplicitType { ty, mutable: true }, false, 5))) => {
            assert_eq!(ty, "&Foo")
        },
        other => panic!("{:?}", other),
    }
}

#[test]
fn no_receiver_consumes_nothing() {
    assert!(matches!(receiver_of("&x: i32)"), Ok(None)));
    assert!(matches!(receiver_of("*x)"), Ok(None)));
    assert!(matches!(receiver_of("x: i32)"), Ok(None)));
    assert!(matches!(receiver_of("mut x: i32)"), Ok(None)));
    assert!(matches!(receiver_of(")"), Ok(None)));
    assert!(matches!(receiver_of(""), Ok(None)));
    let toks = lex("(x: i32)");
    let (sig, n) = parse_signature(&toks, 0, true).unwrap();
    assert!(sig.receiver.is_none());
    assert_eq!(sig.params.len(), 1);
    assert_eq!(sig.params[0].name, "x");
    assert_eq!(n, 5);
}

#[test]
fn receiver_decision_repeats() {
    let a = receiver_of("&mut self, x: i32)");
    let b = receiver_of("&mut self, x: i32)");
    assert_eq!(format!("{:?}", a), format!("{:?}", b));
}

#[test]
fn typed_receiver_with_bad_type() {
    assert_eq!(receiver_of("self: )").unwrap_err(), 2);
}

#[test]
fn type_rendering() {
    let t = lex("&'a mut Foo");
    assert_eq!(parse_type(&t, 0).unwrap(), ("&'a mut Foo".to_string(), 4));
    let t = lex("*const i32");
    assert_eq!(parse_type(&t, 0).unwrap(), ("*const i32".to_string(), 3));
    let t = lex("std::os::raw::c_int,");
    assert_eq!(parse_type(&t, 0).unwrap(), ("std::os::raw::c_int".to_string(), 7));
    let t = lex("&i32");
    assert_eq!(parse_type(&t, 0).unwrap(), ("&i32".to_string(), 2));
    let t = lex("*i32");
    assert_eq!(parse_type(&t, 0).unwrap_err(), 1);
    let t = lex("a::");
    assert_eq!(parse_type(&t, 0).unwrap_err(), 2);
}

#[test]
fn composite_type_through_registry() {
    let mut reg = TypeRegistry::with_defaults();
    reg.insert("&str".to_string(), "jstring".to_string());
    let fs = expand(
        &lex("class Foo { method Foo.name(&self, s: &str) -> &str; }"),
        &"pkg".to_string(),
        &reg,
    )
    .unwrap();
    assert_eq!(types(&fs[0])[3], "jstring");
    assert_eq!(fs[0].return_type, "jstring");
    assert_eq!(fs[0].external_name, "Bridge_pkg_Foo_name");
}

#[test]
fn registry_lookup_and_override() {
    let mut reg = TypeRegistry::new();
    assert_eq!(reg.lookup(&"i32".to_string()), None);
    reg.insert("i32".to_string(), "jint".to_string());
    reg.insert("i64".to_string(), "jlong".to_string());
    assert_eq!(reg.lookup(&"i32".to_string()), Some("jint".to_string()));
    reg.insert("i32".to_string(), "jshort".to_string());
    assert_eq!(reg.lookup(&"i32".to_string()), Some("jshort".to_string()));
    assert_eq!(reg.lookup(&"i64".to_string()), Some("jlong".to_string()));
    let d = TypeRegistry::with_defaults();
    assert_eq!(d.lookup(&"i32".to_string()), Some("jint".to_string()));
    assert_eq!(d.lookup(&"f64".to_string()), None);
}

#[test]
fn decimal_names() {
    assert_eq!(decimal_text(0), "0");
    assert_eq!(decimal_text(7), "7");
    assert_eq!(decimal_text(10), "10");
    assert_eq!(decimal_text(1234), "1234");
    assert_eq!(positional_param_name(0), "a_0");
    assert_eq!(positional_param_name(42), "a_42");
}

#[test]
fn emit_single_descriptor() {
    let toks = lex("class Foo { method a::b::call(&self, x: i32); static_method Foo.s(); }");
    let c = parse_class_block(&toks).unwrap();
    assert_eq!(c.name, "Foo");
    assert_eq!(c.methods[0].variant, MethodVariant::Method);
    assert_eq!(c.methods[1].variant, MethodVariant::StaticMethod);
    let reg = TypeRegistry::with_defaults();
    let pkg = "example_com".to_string();
    let g = emit(&c.methods[0], &c.name, &pkg, &reg).unwrap().unwrap();
    assert_eq!(g.external_name, "Bridge_example_com_Foo_call");
    assert_eq!(g.call_target, vec!["a", "b", "call"]);
    assert!(emit(&c.methods[1], &c.name, &pkg, &reg).unwrap().is_none());
    assert!(emit(&c.methods[0], &c.name, &pkg, &TypeRegistry::new()).is_err());
}

#[test]
fn variant_keywords() {
    assert_eq!(MethodVariant::from_keyword(&"constructor".to_string()), Some(MethodVariant::Constructor));
    assert_eq!(MethodVariant::from_keyword(&"method".to_string()), Some(MethodVariant::Method));
    assert_eq!(
        MethodVariant::from_keyword(&"static_method".to_string()),
        Some(MethodVariant::StaticMethod)
    );
    assert_eq!(MethodVariant::from_keyword(&"Method".to_string()), None);
}

#[test]
fn generic_tuple_slice_and_array_types() {
    let t = lex("Vec<i32>)");
    assert_eq!(parse_type(&t, 0).unwrap(), ("Vec<i32>".to_string(), 4));
    let t = lex("HashMap<String, Vec<Vec<u8>>>");
    assert_eq!(
        parse_type(&t, 0).unwrap(),
        ("HashMap<String, Vec<Vec<u8>>>".to_string(), t.len())
    );
    let t = lex("std::borrow::Cow<'a, str>");
    assert_eq!(parse_type(&t, 0).unwrap(), ("std::borrow::Cow<'a, str>".to_string(), t.len()));
    let t = lex("a::B<T>::C");
    assert_eq!(parse_type(&t, 0).unwrap(), ("a::B<T>::C".to_string(), t.len()));
    let t = lex("()");
    assert_eq!(parse_type(&t, 0).unwrap(), ("()".to_string(), 2));
    let t = lex("(i32, bool)");
    assert_eq!(parse_type(&t, 0).unwrap(), ("(i32, bool)".to_string(), 5));
    let t = lex("(i32,)");
    assert_eq!(parse_type(&t, 0).unwrap(), ("(i32,)".to_string(), 4));
    let t = lex("(i32)");
    assert_eq!(parse_type(&t, 0).unwrap(), ("(i32)".to_string(), 3));
    let t = lex("&[u8]");
    assert_eq!(parse_type(&t, 0).unwrap(), ("&[u8]".to_string(), 4));
    let t = lex("[u8; 16]");
    assert_eq!(parse_type(&t, 0).unwrap(), ("[u8; 16]".to_string(), 5));
    let t = lex("&'a mut [Option<i32>]");
    assert_eq!(parse_type(&t, 0).unwrap(), ("&'a mut [Option<i32>]".to_string(), t.len()));
    let t = lex("Vec<i32");
    assert_eq!(parse_type(&t, 0).unwrap_err(), 3);
    let t = lex("[u8; ]");
    assert_eq!(parse_type(&t, 0).unwrap_err(), 3);
    let t = lex("(i32 bool)");
    assert_eq!(parse_type(&t, 0).unwrap_err(), 2);
}

#[test]
fn generic_types_through_registry() {
    let mut reg = TypeRegistry::with_defaults();
    reg.insert("Vec<i32>".to_string(), "jintArray".to_string());
    reg.insert("()".to_string(), "c_void".to_string());
    reg.insert("&[u8]".to_string(), "jbyteArray".to_string());
    let fs = expand(
        &lex("class Foo { method Foo.f(self: Box<Self>, x: Vec<i32>, b: &[u8]) -> (); }"),
        &"example_com".to_string(),
        &reg,
    )
    .unwrap();
    assert_eq!(types(&fs[0]), vec!["*mut JNIEnv", "jclass", "jlong", "jintArray", "jbyteArray"]);
    assert_eq!(fs[0].return_type, "c_void");
    let r = run("class Foo { method Foo.f(&self, x: Vec<i32>); }");
    assert_eq!(r.unwrap_err(), err(ErrorKind::UnsupportedType, 0));
}
