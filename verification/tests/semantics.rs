use wl_scanner::codec::decode_arg;
use wl_scanner::codec::decode_args;
use wl_scanner::codec::dispatch;
use wl_scanner::codec::encode_arg;
use wl_scanner::codec::render_enum_value;
use wl_scanner::codec::ArgValue;
use wl_scanner::codec::WireError;
use wl_scanner::codec::WireValue;
use wl_scanner::proto::Arg;
use wl_scanner::proto::DataType;
use wl_scanner::proto::Entry;
use wl_scanner::proto::Enum;
use wl_scanner::proto::Request;

fn arg(ty: DataType, nullable: bool, interface: Option<&str>) -> Arg {
    Arg {
        name: "value".to_string(),
        nullable,
        ty,
        interface: interface.map(|s| s.to_string()),
        enumeration: None,
        summary: None,
    }
}

#[test]
fn missing_required_string() {
    let required = arg(DataType::String, false, None);
    assert_eq!(
        decode_arg(&required, &WireValue::Str(None)),
        Err(WireError::MissingRequiredArgument)
    );
    assert_eq!(
        decode_arg(&required, &WireValue::Str(Some("hi".to_string()))),
        Ok(ArgValue::Str("hi".to_string()))
    );
    let nullable = arg(DataType::String, true, None);
    assert_eq!(decode_arg(&nullable, &WireValue::Str(None)), Ok(ArgValue::OptStr(None)));
    assert_eq!(
        decode_arg(&nullable, &WireValue::Str(Some("hi".to_string()))),
        Ok(ArgValue::OptStr(Some("hi".to_string())))
    );
}

#[test]
fn missing_required_object_and_pinned_new_id() {
    let required = arg(DataType::Object, false, None);
    assert_eq!(
        decode_arg(&required, &WireValue::Object(None)),
        Err(WireError::MissingRequiredArgument)
    );
    assert_eq!(decode_arg(&required, &WireValue::Object(Some(7))), Ok(ArgValue::Object(7)));
    let nullable = arg(DataType::Object, true, None);
    assert_eq!(decode_arg(&nullable, &WireValue::Object(None)), Ok(ArgValue::OptObject(None)));
    let pinned = arg(DataType::NewId, false, Some("wl_output"));
    assert_eq!(
        decode_arg(&pinned, &WireValue::Object(None)),
        Err(WireError::MissingRequiredArgument)
    );
    assert_eq!(decode_arg(&pinned, &WireValue::Object(Some(9))), Ok(ArgValue::NewId(9)));
}

#[test]
fn wrong_wire_shape_fails_typed_read() {
    let a = arg(DataType::Int, false, None);
    assert_eq!(decode_arg(&a, &WireValue::Uint(1)), Err(WireError::UnexpectedType));
    assert_eq!(
        encode_arg(&a, &ArgValue::Uint(1)),
        Err(WireError::UnexpectedType)
    );
}

#[test]
fn round_trip_every_shape() {
    let cases: Vec<(Arg, ArgValue)> = vec![
        (arg(DataType::Int, false, None), ArgValue::Int(-5)),
        (arg(DataType::Uint, false, None), ArgValue::Uint(7)),
        (arg(DataType::Fixed, false, None), ArgValue::Fixed(256)),
        (arg(DataType::String, false, None), ArgValue::Str("hey".to_string())),
        (
            arg(DataType::String, true, None),
            ArgValue::OptStr(Some("hey".to_string())),
        ),
        (arg(DataType::String, true, None), ArgValue::OptStr(None)),
        (arg(DataType::Array, false, None), ArgValue::Array(vec![1, 2, 3])),
        (arg(DataType::Fd, false, None), ArgValue::Fd(4)),
        (arg(DataType::Object, false, None), ArgValue::Object(9)),
        (arg(DataType::Object, true, None), ArgValue::OptObject(Some(9))),
        (arg(DataType::Object, true, None), ArgValue::OptObject(None)),
        (arg(DataType::NewId, false, Some("wl_output")), ArgValue::NewId(3)),
        (
            arg(DataType::NewId, false, None),
            ArgValue::DynNewId {
                interface: "wl_output".to_string(),
                version: 2,
                id: 5,
            },
        ),
    ];
    for (a, v) in cases {
        let wire = encode_arg(&a, &v).unwrap();
        assert_eq!(decode_arg(&a, &wire), Ok(v));
    }
}

fn hello_request() -> Request {
    Request {
        name: "hello".to_string(),
        since: None,
        destructor: false,
        summary: None,
        description: None,
        args: vec![arg(DataType::Uint, false, None), arg(DataType::String, false, None)],
    }
}

#[test]
fn dispatch_invalid_opcode() {
    let requests = vec![hello_request()];
    let wire: Vec<WireValue> = vec![];
    assert_eq!(dispatch(&requests, true, 1, &wire), Err(WireError::InvalidOpcode));
    assert_eq!(dispatch(&requests, true, 40000, &wire), Err(WireError::InvalidOpcode));
}

#[test]
fn dispatch_failed_downcast() {
    let requests = vec![hello_request()];
    let wire = vec![WireValue::Uint(7), WireValue::Str(Some("x".to_string()))];
    assert_eq!(dispatch(&requests, false, 0, &wire), Err(WireError::InternalError));
    assert_eq!(dispatch(&requests, false, 9, &wire), Err(WireError::InternalError));
}

#[test]
fn dispatch_decodes_declared_order() {
    let requests = vec![hello_request()];
    let wire = vec![WireValue::Uint(7), WireValue::Str(Some("x".to_string()))];
    assert_eq!(
        dispatch(&requests, true, 0, &wire),
        Ok((0, vec![ArgValue::Uint(7), ArgValue::Str("x".to_string())]))
    );
    let absent = vec![WireValue::Uint(7), WireValue::Str(None)];
    assert_eq!(
        dispatch(&requests, true, 0, &absent),
        Err(WireError::MissingRequiredArgument)
    );
    let mismatched = vec![WireValue::Int(7), WireValue::Str(Some("x".to_string()))];
    assert_eq!(dispatch(&requests, true, 0, &mismatched), Err(WireError::UnexpectedType));
    let short = vec![WireValue::Uint(7)];
    assert_eq!(dispatch(&requests, true, 0, &short), Err(WireError::UnexpectedType));
}

#[test]
fn decode_args_propagates_first_failure() {
    let args = vec![arg(DataType::String, false, None), arg(DataType::Int, false, None)];
    let wire = vec![WireValue::Str(None), WireValue::Uint(1)];
    assert_eq!(decode_args(&args, &wire), Err(WireError::MissingRequiredArgument));
}

fn transform() -> Enum {
    Enum {
        name: "transform".to_string(),
        summary: None,
        description: None,
        since: None,
        entries: vec![
            Entry {
                name: "normal".to_string(),
                since: None,
                summary: None,
                description: None,
                value: 0,
            },
            Entry {
                name: "180".to_string(),
                since: None,
                summary: None,
                description: None,
                value: 4,
            },
        ],
    }
}

#[test]
fn render_known_value() {
    let e = transform();
    assert_eq!(render_enum_value(&e, 0), "NORMAL(0)");
    assert_eq!(render_enum_value(&e, 4), "TRANSFORM_180(4)");
}

#[test]
fn render_unknown_value() {
    let e = transform();
    assert_eq!(render_enum_value(&e, 9), "UNKNOWN(9)");
    assert_eq!(render_enum_value(&e, 4294967295), "UNKNOWN(4294967295)");
}

#[test]
fn render_duplicate_values_first_declaration_wins() {
    let mut e = transform();
    e.entries.push(Entry {
        name: "flipped".to_string(),
        since: None,
        summary: None,
        description: None,
        value: 4,
    });
    assert_eq!(render_enum_value(&e, 4), "TRANSFORM_180(4)");
}
