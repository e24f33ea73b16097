use maybe_debug::{maybe_debug, Backend, MaybeDebug, Subject};

#[derive(Copy, Clone)]
struct NotDebug(u32);

fn shown(backend: Backend, subject: Subject<'_>) -> String {
    maybe_debug(backend, subject).render()
}

#[test]
fn debug_regular() {
    #[derive(Debug)]
    struct Foo(u32, String);
    let foo = Foo(5, "too".into());
    let text = format!("{:?}", foo);
    let value = |backend| {
        shown(backend, Subject::Value { name: "basic::debug_regular::Foo", debug: Some(text.clone()) })
    };
    assert_eq!(value(Backend::Specializing), "Foo(5, \"too\")");
    assert_eq!(value(Backend::Baseline), "basic::debug_regular::Foo { .. }");

    let s = String::from("too");
    let string = |backend| {
        shown(backend, Subject::Value { name: "alloc::string::String", debug: Some(format!("{:?}", s)) })
    };
    assert_eq!(string(Backend::Specializing), "\"too\"");
    assert_eq!(string(Backend::Baseline), "alloc::string::String { .. }");

    let not_debug = NotDebug(15);
    assert_eq!(not_debug.0, 15);
    for backend in [Backend::Specializing, Backend::Baseline] {
        assert_eq!(
            shown(backend, Subject::Value { name: "basic::NotDebug", debug: None }),
            "basic::NotDebug { .. }"
        );
    }
}

#[test]
fn debug_slices() {
    let v = vec![1, 4, 8];
    let texts: Vec<String> = v.iter().map(|x| format!("{:?}", x)).collect();
    let ints = |backend| {
        shown(backend, Subject::Slice { name: "i32", len: v.len(), entries: Some(texts.clone()) })
    };
    assert_eq!(ints(Backend::Specializing), format!("{:?}", v.as_slice()));
    assert_eq!(ints(Backend::Baseline), "[3 of i32]");

    let bytes = b"you are a superstar";
    let bytes_text = format!("{:?}", bytes);
    assert_eq!(
        shown(Backend::Specializing, Subject::Value { name: "[u8; 19]", debug: Some(bytes_text.clone()) }),
        bytes_text
    );
    assert_eq!(
        shown(Backend::Baseline, Subject::Value { name: "[u8; 19]", debug: Some(bytes_text) }),
        "[u8; 19] { .. }"
    );

    let non_debug = vec![NotDebug(18); 4];
    assert_eq!(non_debug[3].0, 18);
    for backend in [Backend::Specializing, Backend::Baseline] {
        let r = maybe_debug(backend, Subject::Slice { name: "basic::NotDebug", len: non_debug.len(), entries: None });
        assert_eq!(r.render(), MaybeDebug::fallback_slice("basic::NotDebug", 4).render());
        assert_eq!(r.render(), "[4 of basic::NotDebug]");
    }
}

#[test]
fn debug_str() {
    for backend in [Backend::Specializing, Backend::Baseline] {
        let r = maybe_debug(backend, Subject::Str("foo"));
        assert!(r.has_debug_info());
        assert_eq!(r.render(), "\"foo\"");
    }
}

#[test]
fn cast_debug() {
    let s = String::from("foo baz");
    assert_eq!(maybe_debug::cast_debug(&s), None);
}
