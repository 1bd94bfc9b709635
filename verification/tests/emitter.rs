use wl_scanner::emit;
use wl_scanner::names;
use wl_scanner::proto::Arg;
use wl_scanner::proto::DataType;
use wl_scanner::proto::Entry;
use wl_scanner::proto::Enum;
use wl_scanner::proto::Event;
use wl_scanner::proto::Interface;
use wl_scanner::proto::Protocol;
use wl_scanner::proto::Request;

fn arg(name: &str, ty: DataType, nullable: bool, interface: Option<&str>) -> Arg {
    Arg {
        name: name.to_string(),
        nullable,
        ty,
        interface: interface.map(|s| s.to_string()),
        enumeration: None,
        summary: None,
    }
}

fn greeter() -> Protocol {
    Protocol {
        name: "greeter_protocol".to_string(),
        summary: Some("a friendly protocol".to_string()),
        description: None,
        copyright: None,
        interfaces: vec![Interface {
            name: "greeter".to_string(),
            summary: None,
            description: None,
            version: 1,
            enums: vec![],
            requests: vec![Request {
                name: "hello".to_string(),
                since: None,
                destructor: false,
                summary: None,
                description: None,
                args: vec![arg("name", DataType::String, false, None)],
            }],
            events: vec![Event {
                name: "greeting".to_string(),
                since: None,
                summary: None,
                description: None,
                args: vec![arg("text", DataType::String, false, None)],
            }],
        }],
    }
}

#[test]
fn end_to_end_greeter() {
    let text = emit::protocol(&greeter());
    assert!(text.contains("const INTERFACE: &'static ::core::primitive::str = \"greeter\";"));
    assert!(text.contains("const VERSION: ::core::primitive::u32 = 1u32;"));
    assert!(text.contains("pub trait r#Greeter<T>: 'static + ::core::marker::Sized {"));
    assert!(text.contains("0u16 => {"));
    assert!(text.contains(
        "let r#name = _stream.string()?.ok_or(::yutani::wire::WlError::NON_NULLABLE)?;"
    ));
    assert!(text.contains("Self::r#hello(_this, _event_loop, _client, r#name)"));
    assert!(text.contains(
        "fn r#hello(this: ::wl::lease::Lease<Self>, event_loop: &mut ::wl::wire::EventLoop<T>, client: &mut ::wl::server::Client<T>, r#name: ::std::string::String) -> ::core::result::Result<(), ::wl::wire::WlError<'static>>;"
    ));
    assert!(text.contains(
        "fn r#greeting(this: ::wl::lease::Lease<Self>, client: &mut ::wl::server::Client<T>, r#text: &'_ ::core::primitive::str) -> ::core::result::Result<(), ::wl::wire::WlError<'static>> {"
    ));
    assert!(text.contains("let _key = _stream.start_message(this.id(), 0u16);"));
    assert!(text.contains("_stream.send_string(::core::option::Option::Some(r#text))?;"));
    assert!(text.contains("_stream.commit(_key)"));
    assert!(text.contains("pub mod r#greeter {"));
    assert!(text.contains("#![doc = \"# Greeter Protocol\"]"));
    assert!(text.contains("_ => ::core::result::Result::Err(::wl::wire::WlError::INVALID_OPCODE)"));
}

#[test]
fn opcodes_follow_declaration_order() {
    let mut p = greeter();
    p.interfaces[0].requests.push(Request {
        name: "goodbye".to_string(),
        since: None,
        destructor: true,
        summary: None,
        description: None,
        args: vec![],
    });
    p.interfaces[0].events.push(Event {
        name: "farewell".to_string(),
        since: None,
        summary: None,
        description: None,
        args: vec![],
    });
    let text = emit::protocol(&p);
    assert!(text.contains("0u16 => {"));
    assert!(text.contains("1u16 => {"));
    assert!(text.contains("Self::r#goodbye(_this, _event_loop, _client)"));
    assert!(text.contains("let _key = _stream.start_message(this.id(), 1u16);"));
}

#[test]
fn identifiers_are_normalized_per_style() {
    let iface = Interface {
        name: "wl_seat".to_string(),
        summary: None,
        description: None,
        version: 2,
        enums: vec![],
        requests: vec![Request {
            name: "setMode".to_string(),
            since: None,
            destructor: false,
            summary: None,
            description: None,
            args: vec![],
        }],
        events: vec![],
    };
    let text = emit::interface(iface);
    assert!(text.contains("pub trait r#WlSeat<T>: 'static + ::core::marker::Sized {"));
    assert!(text.contains("pub mod r#wl_seat {"));
    assert!(text.contains("Self::r#set_mode(_this, _event_loop, _client)"));
    assert!(text.contains("const VERSION: ::core::primitive::u32 = 2u32;"));
}

#[test]
fn generation_is_stable() {
    let first = emit::protocol(&greeter());
    let second = emit::protocol(&greeter());
    assert_eq!(first, second);
}

#[test]
fn doc_text_is_escaped() {
    let mut p = greeter();
    p.description = Some("say \"hi\"\nnow".to_string());
    let text = emit::protocol(&p);
    assert!(text.contains("#![doc = \"say \\\"hi\\\"\\nnow\"]"));
}

#[test]
fn entry_name_with_leading_digit_is_prefixed() {
    assert_eq!(
        names::entry_const_name("transform", "180"),
        "TRANSFORM_180".to_string()
    );
    assert_eq!(
        names::entry_const_name("transform", "flipped"),
        "FLIPPED".to_string()
    );
}

#[test]
fn enumeration_wrapper_type() {
    let e = Enum {
        name: "transform".to_string(),
        summary: None,
        description: None,
        since: None,
        entries: vec![
            Entry {
                name: "normal".to_string(),
                since: None,
                summary: None,
                description: None,
                value: 0,
            },
            Entry {
                name: "180".to_string(),
                since: Some(2),
                summary: None,
                description: None,
                value: 4,
            },
        ],
    };
    let text = emit::enumeration(e);
    assert!(text.contains("#[repr(transparent)]\npub struct r#Transform(u32);"));
    assert!(text.contains("pub const r#NORMAL: Self = Self(0u32);"));
    assert!(text.contains("pub const r#TRANSFORM_180: Self = Self(4u32);"));
    assert!(text.contains("#[doc = \"`Since version 2`\"]"));
    assert!(text.contains("4u32 => ::core::write!(f, \"{}({})\", \"TRANSFORM_180\", 4u32),"));
    assert!(text.contains("value => ::core::write!(f, \"UNKNOWN({})\", value)"));
    assert!(text.contains("impl ::core::convert::From<::core::primitive::u32> for r#Transform {"));
}

#[test]
fn request_docs_and_argument_summaries() {
    let mut r = Request {
        name: "set_mode".to_string(),
        since: Some(3),
        destructor: false,
        summary: Some("pick a mode".to_string()),
        description: None,
        args: vec![arg("mode", DataType::Uint, false, None)],
    };
    r.args[0].summary = Some("the mode to use".to_string());
    let text = emit::request(&r);
    assert!(text.contains("#[doc = \"`Since version 3`\"]"));
    assert!(text.contains("#[doc = \"Pick A Mode\"]"));
    assert!(text.contains("#[doc = \"## Arguments\"]"));
    assert!(text.contains("#[doc = \"\\n`mode`: the mode to use\"]"));
    assert!(text.contains("r#set_mode"));
}

#[test]
fn type_mapper_owned_types() {
    assert_eq!(arg("a", DataType::Int, false, None).ty(), "::core::primitive::i32");
    assert_eq!(arg("a", DataType::Uint, false, None).ty(), "::core::primitive::u32");
    assert_eq!(arg("a", DataType::Fixed, false, None).ty(), "::yutani::Fixed");
    assert_eq!(arg("a", DataType::String, false, None).ty(), "::std::string::String");
    assert_eq!(
        arg("a", DataType::String, true, None).ty(),
        "::core::option::Option<::std::string::String>"
    );
    assert_eq!(arg("a", DataType::Array, false, None).ty(), "::std::vec::Vec<u8>");
    assert_eq!(arg("a", DataType::Fd, false, None).ty(), "::yutani::File");
    assert_eq!(arg("a", DataType::Object, false, None).ty(), "::yutani::Id");
    assert_eq!(
        arg("a", DataType::Object, true, None).ty(),
        "::core::option::Option<::yutani::Id>"
    );
    assert_eq!(arg("a", DataType::NewId, false, Some("wl_output")).ty(), "::yutani::Id");
    assert_eq!(arg("a", DataType::NewId, false, None).ty(), "::yutani::NewId");
}

#[test]
fn type_mapper_transient_types() {
    assert_eq!(
        arg("a", DataType::String, false, None).send_ty(),
        "&'_ ::core::primitive::str"
    );
    assert_eq!(
        arg("a", DataType::String, true, None).send_ty(),
        "::core::option::Option<&'_ ::core::primitive::str>"
    );
    assert_eq!(
        arg("a", DataType::Array, false, None).send_ty(),
        "&'_ [::core::primitive::u8]"
    );
    assert_eq!(arg("a", DataType::Fd, false, None).send_ty(), "::yutani::Fd<'static>");
    assert_eq!(arg("a", DataType::NewId, false, None).send_ty(), "&'_ ::yutani::NewId");
}

#[test]
fn type_mapper_decode_templates() {
    assert_eq!(arg("a", DataType::Int, false, None).getter("_stream"), "_stream.i32()?");
    assert_eq!(arg("a", DataType::Uint, false, None).getter("_stream"), "_stream.u32()?");
    assert_eq!(arg("a", DataType::Fixed, false, None).getter("_stream"), "_stream.fixed()?");
    assert_eq!(arg("a", DataType::String, true, None).getter("_stream"), "_stream.string()?");
    assert_eq!(
        arg("a", DataType::String, false, None).getter("_stream"),
        "_stream.string()?.ok_or(::yutani::wire::WlError::NON_NULLABLE)?"
    );
    assert_eq!(arg("a", DataType::Array, false, None).getter("_stream"), "_stream.bytes()?");
    assert_eq!(arg("a", DataType::Fd, false, None).getter("_stream"), "_stream.file()?");
    assert_eq!(
        arg("a", DataType::Object, false, None).getter("_stream"),
        "_stream.object()?.ok_or(::yutani::wire::WlError::NON_NULLABLE)?"
    );
    assert_eq!(
        arg("a", DataType::NewId, false, Some("wl_output")).getter("_stream"),
        "_stream.object()?.ok_or(::yutani::wire::WlError::NON_NULLABLE)?"
    );
    assert_eq!(arg("a", DataType::NewId, false, None).getter("_stream"), "_stream.new_id()?");
}

#[test]
fn type_mapper_encode_templates() {
    assert_eq!(
        arg("serial", DataType::Uint, false, None).sender("_stream"),
        "_stream.send_u32(r#serial)?"
    );
    assert_eq!(
        arg("text", DataType::String, false, None).sender("_stream"),
        "_stream.send_string(::core::option::Option::Some(r#text))?"
    );
    assert_eq!(
        arg("text", DataType::String, true, None).sender("_stream"),
        "_stream.send_string(r#text)?"
    );
    assert_eq!(
        arg("obj", DataType::Object, false, None).sender("_stream"),
        "_stream.send_object(Some(r#obj))?"
    );
    assert_eq!(
        arg("obj", DataType::NewId, false, Some("wl_output")).sender("_stream"),
        "_stream.send_object(Some(r#obj))?"
    );
    assert_eq!(
        arg("obj", DataType::NewId, false, None).sender("_stream"),
        "_stream.send_new_id(r#obj)?"
    );
}
