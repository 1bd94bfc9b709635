//! The marshalling and dispatch semantics of the generated code, as a
//! verified model. The emitter produces decode and encode call-forms as
//! text; this module states what those sequences do to values: how each
//! (wire type, nullability) pair decodes from and encodes to the wire, how
//! a dispatch entry point selects and feeds a request handler, and how an
//! enum wrapper renders its value.

use vstd::prelude::*;
use vstd::string::StringExecFns;
use crate::proto::Arg;
use crate::proto::DataType;
use crate::proto::Enum;
use crate::proto::Entry;
use crate::proto::Request;
use crate::proto::pinned;
use crate::names::const_name_of;
use crate::names::entry_const_name;
use crate::text::dec_str;
use crate::text::push_dec;

verus! {

/// The runtime errors of the generated code: all are explicit result
/// values, never aborts, leaving recovery to the hosting runtime.
#[derive(Clone, Copy, Debug, PartialEq, Eq, Structural)]
pub enum WireError {
    /// The dispatch downcast failed: an internal invariant violation, not a
    /// protocol error.
    InternalError,
    /// The message opcode is outside the declared request range.
    InvalidOpcode,
    /// A non-nullable String or Object argument was absent on the wire.
    MissingRequiredArgument,
    /// A typed cursor read found a value of another wire shape.
    UnexpectedType,
}

/// One value as a typed read yields it from the message cursor, or as a
/// typed write places it on the message stream.
#[derive(Clone, Debug, PartialEq)]
pub enum WireValue {
    Int(i32),
    Uint(u32),
    Fixed(i32),
    Str(Option<String>),
    Array(Vec<u8>),
    Fd(i32),
    Object(Option<u32>),
    NewId { interface: String, version: u32, id: u32 },
}

/// One decoded argument value, in the owned shape handed to a request
/// handler.
#[derive(Clone, Debug, PartialEq)]
pub enum ArgValue {
    Int(i32),
    Uint(u32),
    Fixed(i32),
    Str(String),
    OptStr(Option<String>),
    Array(Vec<u8>),
    Fd(i32),
    Object(u32),
    OptObject(Option<u32>),
    NewId(u32),
    DynNewId { interface: String, version: u32, id: u32 },
}

/// The mathematical model of a wire value.
pub enum WireVal {
    Int(i32),
    Uint(u32),
    Fixed(i32),
    Str(Option<Seq<char>>),
    Array(Seq<u8>),
    Fd(i32),
    Object(Option<u32>),
    NewId { interface: Seq<char>, version: u32, id: u32 },
}

/// The mathematical model of a decoded argument value.
pub enum ArgVal {
    Int(i32),
    Uint(u32),
    Fixed(i32),
    Str(Seq<char>),
    OptStr(Option<Seq<char>>),
    Array(Seq<u8>),
    Fd(i32),
    Object(u32),
    OptObject(Option<u32>),
    NewId(u32),
    DynNewId { interface: Seq<char>, version: u32, id: u32 },
}

/// The model of a wire value.
pub open spec fn wire_view(w: WireValue) -> WireVal {
    match w {
        WireValue::Int(x) => WireVal::Int(x),
        WireValue::Uint(x) => WireVal::Uint(x),
        WireValue::Fixed(x) => WireVal::Fixed(x),
        WireValue::Str(o) => WireVal::Str(
            match o {
                Option::Some(s) => Option::Some(s@),
                Option::None => Option::None,
            },
        ),
        WireValue::Array(b) => WireVal::Array(b@),
        WireValue::Fd(f) => WireVal::Fd(f),
        WireValue::Object(o) => WireVal::Object(o),
        WireValue::NewId { interface, version, id } => WireVal::NewId {
            interface: interface@,
            version,
            id,
        },
    }
}

/// The model of a decoded argument value.
pub open spec fn arg_view(v: ArgValue) -> ArgVal {
    match v {
        ArgValue::Int(x) => ArgVal::Int(x),
        ArgValue::Uint(x) => ArgVal::Uint(x),
        ArgValue::Fixed(x) => ArgVal::Fixed(x),
        ArgValue::Str(s) => ArgVal::Str(s@),
        ArgValue::OptStr(o) => ArgVal::OptStr(
            match o {
                Option::Some(s) => Option::Some(s@),
                Option::None => Option::None,
            },
        ),
        ArgValue::Array(b) => ArgVal::Array(b@),
        ArgValue::Fd(f) => ArgVal::Fd(f),
        ArgValue::Object(id) => ArgVal::Object(id),
        ArgValue::OptObject(o) => ArgVal::OptObject(o),
        ArgValue::NewId(id) => ArgVal::NewId(id),
        ArgValue::DynNewId { interface, version, id } => ArgVal::DynNewId {
            interface: interface@,
            version,
            id,
        },
    }
}

/// The models of a sequence of decoded values.
pub open spec fn arg_seq_view(s: Seq<ArgValue>) -> Seq<ArgVal>
    decreases s.len(),
{
    if s.len() == 0 {
        Seq::empty()
    } else {
        seq![arg_view(s[0])] + arg_seq_view(s.skip(1))
    }
}

/// What the decode sequence emitted for one argument yields from the wire
/// value at its cursor position: nullability toggles a presence check that
/// fails with MissingRequiredArgument when a non-nullable String or Object
/// (or pinned NewId) is absent, a nullable one decodes absence to an empty
/// value, and a value of another wire shape fails the typed read.
pub open spec fn decode_spec(ty: DataType, nullable: bool, pin: bool, w: WireVal) -> Result<
    ArgVal,
    WireError,
> {
    match ty {
        DataType::Int => match w {
            WireVal::Int(x) => Ok(ArgVal::Int(x)),
            _ => Err(WireError::UnexpectedType),
        },
        DataType::Uint => match w {
            WireVal::Uint(x) => Ok(ArgVal::Uint(x)),
            _ => Err(WireError::UnexpectedType),
        },
        DataType::Fixed => match w {
            WireVal::Fixed(x) => Ok(ArgVal::Fixed(x)),
            _ => Err(WireError::UnexpectedType),
        },
        DataType::String => match w {
            WireVal::Str(o) => if nullable {
                Ok(ArgVal::OptStr(o))
            } else {
                match o {
                    Option::Some(s) => Ok(ArgVal::Str(s)),
                    Option::None => Err(WireError::MissingRequiredArgument),
                }
            },
            _ => Err(WireError::UnexpectedType),
        },
        DataType::Array => match w {
            WireVal::Array(b) => Ok(ArgVal::Array(b)),
            _ => Err(WireError::UnexpectedType),
        },
        DataType::Fd => match w {
            WireVal::Fd(f) => Ok(ArgVal::Fd(f)),
            _ => Err(WireError::UnexpectedType),
        },
        DataType::Object => match w {
            WireVal::Object(o) => if nullable {
                Ok(ArgVal::OptObject(o))
            } else {
                match o {
                    Option::Some(id) => Ok(ArgVal::Object(id)),
                    Option::None => Err(WireError::MissingRequiredArgument),
                }
            },
            _ => Err(WireError::UnexpectedType),
        },
        DataType::NewId => if pin {
            match w {
                WireVal::Object(o) => match o {
                    Option::Some(id) => Ok(ArgVal::NewId(id)),
                    Option::None => Err(WireError::MissingRequiredArgument),
                },
                _ => Err(WireError::UnexpectedType),
            }
        } else {
            match w {
                WireVal::NewId { interface, version, id } => Ok(
                    ArgVal::DynNewId { interface, version, id },
                ),
                _ => Err(WireError::UnexpectedType),
            }
        },
    }
}

/// What the encode sequence emitted for one argument places on the wire: a
/// non-nullable String or Object is wrapped as present, a pinned NewId is
/// written as a non-nullable Object, and a value of another owned shape
/// fails.
pub open spec fn encode_spec(ty: DataType, nullable: bool, pin: bool, v: ArgVal) -> Result<
    WireVal,
    WireError,
> {
    match ty {
        DataType::Int => match v {
            ArgVal::Int(x) => Ok(WireVal::Int(x)),
            _ => Err(WireError::UnexpectedType),
        },
        DataType::Uint => match v {
            ArgVal::Uint(x) => Ok(WireVal::Uint(x)),
            _ => Err(WireError::UnexpectedType),
        },
        DataType::Fixed => match v {
            ArgVal::Fixed(x) => Ok(WireVal::Fixed(x)),
            _ => Err(WireError::UnexpectedType),
        },
        DataType::String => if nullable {
            match v {
                ArgVal::OptStr(o) => Ok(WireVal::Str(o)),
                _ => Err(WireError::UnexpectedType),
            }
        } else {
            match v {
                ArgVal::Str(s) => Ok(WireVal::Str(Option::Some(s))),
                _ => Err(WireError::UnexpectedType),
            }
        },
        DataType::Array => match v {
            ArgVal::Array(b) => Ok(WireVal::Array(b)),
            _ => Err(WireError::UnexpectedType),
        },
        DataType::Fd => match v {
            ArgVal::Fd(f) => Ok(WireVal::Fd(f)),
            _ => Err(WireError::UnexpectedType),
        },
        DataType::Object => if nullable {
            match v {
                ArgVal::OptObject(o) => Ok(WireVal::Object(o)),
                _ => Err(WireError::UnexpectedType),
            }
        } else {
            match v {
                ArgVal::Object(id) => Ok(WireVal::Object(Option::Some(id))),
                _ => Err(WireError::UnexpectedType),
            }
        },
        DataType::NewId => if pin {
            match v {
                ArgVal::NewId(id) => Ok(WireVal::Object(Option::Some(id))),
                _ => Err(WireError::UnexpectedType),
            }
        } else {
            match v {
                ArgVal::DynNewId { interface, version, id } => Ok(
                    WireVal::NewId { interface, version, id },
                ),
                _ => Err(WireError::UnexpectedType),
            }
        },
    }
}

/// Whether a value has the owned shape that the type mapper assigns to the
/// (wire type, nullability) pair.
pub open spec fn arg_value_fits(ty: DataType, nullable: bool, pin: bool, v: ArgVal) -> bool {
    match ty {
        DataType::Int => v is Int,
        DataType::Uint => v is Uint,
        DataType::Fixed => v is Fixed,
        DataType::String => if nullable {
            v is OptStr
        } else {
            v is Str
        },
        DataType::Array => v is Array,
        DataType::Fd => v is Fd,
        DataType::Object => if nullable {
            v is OptObject
        } else {
            v is Object
        },
        DataType::NewId => if pin {
            v is NewId
        } else {
            v is DynNewId
        },
    }
}

/// Round trip: for every (wire type, nullability) pair, both NewId shapes
/// included, encoding a value of the owned shape and decoding at the same
/// cursor position reproduces the original value.
pub proof fn lemma_round_trip(ty: DataType, nullable: bool, pin: bool, v: ArgVal)
    requires
        arg_value_fits(ty, nullable, pin, v),
    ensures
        encode_spec(ty, nullable, pin, v) is Ok,
        decode_spec(ty, nullable, pin, encode_spec(ty, nullable, pin, v)->Ok_0) == Ok::<
            ArgVal,
            WireError,
        >(v),
{
}

/// For a non-nullable String or Object argument (a pinned NewId decodes as
/// a non-nullable Object), decoding fails with MissingRequiredArgument if
/// and only if the wire value is absent; the nullable variants decode
/// absence to an empty value without failure.
pub proof fn lemma_missing_required(pin: bool, w: WireVal)
    ensures
        decode_spec(DataType::String, false, pin, w) == Err::<ArgVal, WireError>(
            WireError::MissingRequiredArgument,
        ) <==> w == WireVal::Str(Option::<Seq<char>>::None),
        decode_spec(DataType::Object, false, pin, w) == Err::<ArgVal, WireError>(
            WireError::MissingRequiredArgument,
        ) <==> w == WireVal::Object(Option::<u32>::None),
        decode_spec(DataType::NewId, false, true, w) == Err::<ArgVal, WireError>(
            WireError::MissingRequiredArgument,
        ) <==> w == WireVal::Object(Option::<u32>::None),
        w is Str ==> decode_spec(DataType::String, true, pin, w) == Ok::<ArgVal, WireError>(
            ArgVal::OptStr(w->Str_0),
        ),
        w is Object ==> decode_spec(DataType::Object, true, pin, w) == Ok::<ArgVal, WireError>(
            ArgVal::OptObject(w->Object_0),
        ),
{
}

fn clone_opt_string(o: &Option<String>) -> (r: Option<String>)
    ensures
        r == *o,
{
    match o {
        Option::Some(s) => Option::Some(s.clone()),
        Option::None => Option::None,
    }
}

fn copy_bytes(v: &Vec<u8>) -> (r: Vec<u8>)
    ensures
        r@ == v@,
{
    let mut out: Vec<u8> = Vec::new();
    let mut i: usize = 0;
    while i < v.len()
        invariant
            i <= v@.len(),
            out@ == v@.take(i as int),
        decreases v@.len() - i,
    {
        out.push(v[i]);
        i = i + 1;
        proof {
            assert(out@ =~= v@.take(i as int));
        }
    }
    proof {
        assert(v@.take(v@.len() as int) =~= v@);
    }
    out
}

/// Decodes one argument from the wire value at its cursor position,
/// following the argument's wire type, nullability, and NewId shape.
pub fn decode_arg(a: &Arg, w: &WireValue) -> (r: Result<ArgValue, WireError>)
    ensures
        r is Ok <==> decode_spec(a.ty, a.nullable, pinned(*a), wire_view(*w)) is Ok,
        r is Ok ==> arg_view(r->Ok_0) == decode_spec(a.ty, a.nullable, pinned(*a), wire_view(*w))->Ok_0,
        r is Err ==> r->Err_0 == decode_spec(a.ty, a.nullable, pinned(*a), wire_view(*w))->Err_0,
{
    match a.ty {
        DataType::Int => match w {
            WireValue::Int(x) => Ok(ArgValue::Int(*x)),
            _ => Err(WireError::UnexpectedType),
        },
        DataType::Uint => match w {
            WireValue::Uint(x) => Ok(ArgValue::Uint(*x)),
            _ => Err(WireError::UnexpectedType),
        },
        DataType::Fixed => match w {
            WireValue::Fixed(x) => Ok(ArgValue::Fixed(*x)),
            _ => Err(WireError::UnexpectedType),
        },
        DataType::String => match w {
            WireValue::Str(o) => if a.nullable {
                Ok(ArgValue::OptStr(clone_opt_string(o)))
            } else {
                match o {
                    Option::Some(s) => Ok(ArgValue::Str(s.clone())),
                    Option::None => Err(WireError::MissingRequiredArgument),
                }
            },
            _ => Err(WireError::UnexpectedType),
        },
        DataType::Array => match w {
            WireValue::Array(b) => Ok(ArgValue::Array(copy_bytes(b))),
            _ => Err(WireError::UnexpectedType),
        },
        DataType::Fd => match w {
            WireValue::Fd(f) => Ok(ArgValue::Fd(*f)),
            _ => Err(WireError::UnexpectedType),
        },
        DataType::Object => match w {
            WireValue::Object(o) => if a.nullable {
                Ok(ArgValue::OptObject(*o))
            } else {
                match o {
                    Option::Some(id) => Ok(ArgValue::Object(*id)),
                    Option::None => Err(WireError::MissingRequiredArgument),
                }
            },
            _ => Err(WireError::UnexpectedType),
        },
        DataType::NewId => if a.interface.is_some() {
            match w {
                WireValue::Object(o) => match o {
                    Option::Some(id) => Ok(ArgValue::NewId(*id)),
                    Option::None => Err(WireError::MissingRequiredArgument),
                },
                _ => Err(WireError::UnexpectedType),
            }
        } else {
            match w {
                WireValue::NewId { interface, version, id } => Ok(
                    ArgValue::DynNewId {
                        interface: interface.clone(),
                        version: *version,
                        id: *id,
                    },
                ),
                _ => Err(WireError::UnexpectedType),
            }
        },
    }
}

/// Encodes one argument's value as the wire value that its encode sequence
/// sends.
pub fn encode_arg(a: &Arg, v: &ArgValue) -> (r: Result<WireValue, WireError>)
    ensures
        r is Ok <==> encode_spec(a.ty, a.nullable, pinned(*a), arg_view(*v)) is Ok,
        r is Ok ==> wire_view(r->Ok_0) == encode_spec(a.ty, a.nullable, pinned(*a), arg_view(*v))->Ok_0,
        r is Err ==> r->Err_0 == encode_spec(a.ty, a.nullable, pinned(*a), arg_view(*v))->Err_0,
{
    match a.ty {
        DataType::Int => match v {
            ArgValue::Int(x) => Ok(WireValue::Int(*x)),
            _ => Err(WireError::UnexpectedType),
        },
        DataType::Uint => match v {
            ArgValue::Uint(x) => Ok(WireValue::Uint(*x)),
            _ => Err(WireError::UnexpectedType),
        },
        DataType::Fixed => match v {
            ArgValue::Fixed(x) => Ok(WireValue::Fixed(*x)),
            _ => Err(WireError::UnexpectedType),
        },
        DataType::String => if a.nullable {
            match v {
                ArgValue::OptStr(o) => Ok(WireValue::Str(clone_opt_string(o))),
                _ => Err(WireError::UnexpectedType),
            }
        } else {
            match v {
                ArgValue::Str(s) => Ok(WireValue::Str(Option::Some(s.clone()))),
                _ => Err(WireError::UnexpectedType),
            }
        },
        DataType::Array => match v {
            ArgValue::Array(b) => Ok(WireValue::Array(copy_bytes(b))),
            _ => Err(WireError::UnexpectedType),
        },
        DataType::Fd => match v {
            ArgValue::Fd(f) => Ok(WireValue::Fd(*f)),
            _ => Err(WireError::UnexpectedType),
        },
        DataType::Object => if a.nullable {
            match v {
                ArgValue::OptObject(o) => Ok(WireValue::Object(*o)),
                _ => Err(WireError::UnexpectedType),
            }
        } else {
            match v {
                ArgValue::Object(id) => Ok(WireValue::Object(Option::Some(*id))),
                _ => Err(WireError::UnexpectedType),
            }
        },
        DataType::NewId => if a.interface.is_some() {
            match v {
                ArgValue::NewId(id) => Ok(WireValue::Object(Option::Some(*id))),
                _ => Err(WireError::UnexpectedType),
            }
        } else {
            match v {
                ArgValue::DynNewId { interface, version, id } => Ok(
                    WireValue::NewId {
                        interface: interface.clone(),
                        version: *version,
                        id: *id,
                    },
                ),
                _ => Err(WireError::UnexpectedType),
            }
        },
    }
}

/// What decoding the arguments from position `i` on yields: each argument
/// is decoded at its cursor position in declared order, a failure
/// propagates immediately, and an exhausted cursor fails the typed read.
pub open spec fn decode_args_from(args: Seq<Arg>, wire: Seq<WireValue>, i: int) -> Result<
    Seq<ArgVal>,
    WireError,
>
    decreases args.len() - i,
{
    if i >= args.len() {
        Ok(Seq::empty())
    } else if i >= wire.len() {
        Err(WireError::UnexpectedType)
    } else {
        match decode_spec(args[i].ty, args[i].nullable, pinned(args[i]), wire_view(wire[i])) {
            Result::Err(e) => Err(e),
            Result::Ok(v) => match decode_args_from(args, wire, i + 1) {
                Result::Err(e) => Err(e),
                Result::Ok(vs) => Ok(seq![v] + vs),
            },
        }
    }
}

/// What decoding a request's whole argument list yields.
pub open spec fn decode_args_spec(args: Seq<Arg>, wire: Seq<WireValue>) -> Result<
    Seq<ArgVal>,
    WireError,
> {
    decode_args_from(args, wire, 0)
}

fn decode_args_rec(args: &Vec<Arg>, wire: &Vec<WireValue>, i: usize) -> (r: Result<
    Vec<ArgValue>,
    WireError,
>)
    requires
        i <= args@.len(),
    ensures
        r is Ok <==> decode_args_from(args@, wire@, i as int) is Ok,
        r is Ok ==> arg_seq_view(r->Ok_0@) == decode_args_from(args@, wire@, i as int)->Ok_0,
        r is Err ==> r->Err_0 == decode_args_from(args@, wire@, i as int)->Err_0,
    decreases args@.len() - i,
{
    if i == args.len() {
        Ok(Vec::new())
    } else if i >= wire.len() {
        Err(WireError::UnexpectedType)
    } else {
        match decode_arg(&args[i], &wire[i]) {
            Result::Err(e) => Err(e),
            Result::Ok(v) => match decode_args_rec(args, wire, i + 1) {
                Result::Err(e) => Err(e),
                Result::Ok(vs) => {
                    let mut vs = vs;
                    let ghost prev = vs@;
                    vs.insert(0, v);
                    proof {
                        assert(vs@ =~= seq![v] + prev);
                        assert(vs@.skip(1) =~= prev);
                        assert(arg_seq_view(vs@) == seq![arg_view(v)] + arg_seq_view(prev));
                        assert(arg_seq_view(vs@) == decode_args_from(args@, wire@, i as int)->Ok_0);
                    }
                    Ok(vs)
                },
            },
        }
    }
}

/// Decodes a request's arguments in declared order from their cursor
/// positions; any failure propagates immediately.
pub fn decode_args(args: &Vec<Arg>, wire: &Vec<WireValue>) -> (r: Result<Vec<ArgValue>, WireError>)
    ensures
        r is Ok <==> decode_args_spec(args@, wire@) is Ok,
        r is Ok ==> arg_seq_view(r->Ok_0@) == decode_args_spec(args@, wire@)->Ok_0,
        r is Err ==> r->Err_0 == decode_args_spec(args@, wire@)->Err_0,
{
    decode_args_rec(args, wire, 0)
}

/// What the generated dispatch entry point does: a failed downcast of the
/// target handle is an internal invariant violation; an opcode outside the
/// declared range is invalid; otherwise the arguments of the request
/// declared at position `opcode` are decoded in order and handed, with that
/// opcode, to its handler.
pub open spec fn dispatch_spec(
    requests: Seq<Request>,
    downcast_ok: bool,
    opcode: u16,
    wire: Seq<WireValue>,
) -> Result<(u16, Seq<ArgVal>), WireError> {
    if !downcast_ok {
        Err(WireError::InternalError)
    } else if opcode as int >= requests.len() {
        Err(WireError::InvalidOpcode)
    } else {
        match decode_args_spec(requests[opcode as int].args@, wire) {
            Result::Err(e) => Err(e),
            Result::Ok(vs) => Ok((opcode, vs)),
        }
    }
}

/// The dispatch decision of the generated entry point, on a model of the
/// incoming message: which request handler is invoked, with which decoded
/// values, or which error is returned.
pub fn dispatch(
    requests: &Vec<Request>,
    downcast_ok: bool,
    opcode: u16,
    wire: &Vec<WireValue>,
) -> (r: Result<(u16, Vec<ArgValue>), WireError>)
    ensures
        r is Ok <==> dispatch_spec(requests@, downcast_ok, opcode, wire@) is Ok,
        r is Ok ==> r->Ok_0.0 == opcode && arg_seq_view(r->Ok_0.1@) == dispatch_spec(
            requests@,
            downcast_ok,
            opcode,
            wire@,
        )->Ok_0.1,
        r is Err ==> r->Err_0 == dispatch_spec(requests@, downcast_ok, opcode, wire@)->Err_0,
{
    if !downcast_ok {
        Err(WireError::InternalError)
    } else if (opcode as usize) >= requests.len() {
        Err(WireError::InvalidOpcode)
    } else {
        match decode_args(&requests[opcode as usize].args, wire) {
            Result::Err(e) => Err(e),
            Result::Ok(vs) => Ok((opcode, vs)),
        }
    }
}

/// Dispatch errors: a handle that fails its downcast yields InternalError
/// before the opcode is looked at; with a sound handle, any opcode at or
/// beyond the declared request count yields InvalidOpcode; a declared
/// opcode selects exactly the request at that position.
pub proof fn lemma_dispatch_errors(
    requests: Seq<Request>,
    downcast_ok: bool,
    opcode: u16,
    wire: Seq<WireValue>,
)
    ensures
        !downcast_ok ==> dispatch_spec(requests, downcast_ok, opcode, wire) == Err::<
            (u16, Seq<ArgVal>),
            WireError,
        >(WireError::InternalError),
        downcast_ok && opcode as int >= requests.len() ==> dispatch_spec(
            requests,
            downcast_ok,
            opcode,
            wire,
        ) == Err::<(u16, Seq<ArgVal>), WireError>(WireError::InvalidOpcode),
        downcast_ok && (opcode as int) < requests.len() && dispatch_spec(
            requests,
            downcast_ok,
            opcode,
            wire,
        ) is Ok ==> dispatch_spec(requests, downcast_ok, opcode, wire)->Ok_0.0 == opcode
            && dispatch_spec(requests, downcast_ok, opcode, wire)->Ok_0.1 == decode_args_spec(
            requests[opcode as int].args@,
            wire,
        )->Ok_0,
{
}

// ---------------------------------------------------------------------------
// Enum value rendering
// ---------------------------------------------------------------------------

/// What the generated rendering impl shows for a wrapped value: the
/// declared entries are matched in order, a known value renders as
/// `NAME(value)` with the first matching entry's constant-style name, and
/// any other value falls through to `UNKNOWN(value)`.
pub open spec fn render_spec(enum_name: Seq<char>, entries: Seq<Entry>, value: u32) -> Seq<char>
    decreases entries.len(),
{
    if entries.len() == 0 {
        "UNKNOWN("@ + dec_str(value as nat) + ")"@
    } else if entries[0].value == value {
        const_name_of(enum_name, entries[0].name@) + "("@ + dec_str(value as nat) + ")"@
    } else {
        render_spec(enum_name, entries.skip(1), value)
    }
}

/// Renders a wrapped enum value as the generated rendering impl does.
pub fn render_enum_value(e: &Enum, value: u32) -> (r: String)
    ensures
        r@ == render_spec(e.name@, e.entries@, value),
{
    let mut idx: usize = 0;
    proof {
        assert(e.entries@.skip(0) =~= e.entries@);
    }
    while idx < e.entries.len()
        invariant
            idx <= e.entries@.len(),
            render_spec(e.name@, e.entries@, value) == render_spec(
                e.name@,
                e.entries@.skip(idx as int),
                value,
            ),
        decreases e.entries@.len() - idx,
    {
        if e.entries[idx].value == value {
            let mut out = entry_const_name(e.name.as_str(), e.entries[idx].name.as_str());
            out.append("(");
            push_dec(&mut out, value);
            out.append(")");
            proof {
                assert(e.entries@.skip(idx as int)[0] == e.entries@[idx as int]);
                assert(out@ =~= render_spec(e.name@, e.entries@.skip(idx as int), value));
            }
            return out;
        }
        idx = idx + 1;
        proof {
            assert(e.entries@.skip(idx - 1)[0] == e.entries@[idx - 1]);
            assert(e.entries@.skip(idx - 1).skip(1) =~= e.entries@.skip(idx as int));
        }
    }
    let mut out = String::new();
    out.append("UNKNOWN(");
    push_dec(&mut out, value);
    out.append(")");
    proof {
        assert(out@ =~= render_spec(e.name@, e.entries@.skip(e.entries@.len() as int), value));
    }
    out
}

/// A value no entry declares renders as `UNKNOWN(value)`.
pub proof fn lemma_render_unknown(enum_name: Seq<char>, entries: Seq<Entry>, value: u32)
    requires
        forall|j: int| 0 <= j < entries.len() ==> (#[trigger] entries[j]).value != value,
    ensures
        render_spec(enum_name, entries, value) == "UNKNOWN("@ + dec_str(value as nat) + ")"@,
    decreases entries.len(),
{
    if entries.len() > 0 {
        assert(entries[0].value != value);
        lemma_render_unknown(enum_name, entries.skip(1), value);
    }
}

/// A declared value renders as `NAME(value)`, with the constant-style name
/// of the first entry declaring it.
pub proof fn lemma_render_known(enum_name: Seq<char>, entries: Seq<Entry>, value: u32, i: int)
    requires
        0 <= i < entries.len(),
        entries[i].value == value,
        forall|j: int| 0 <= j < i ==> (#[trigger] entries[j]).value != value,
    ensures
        render_spec(enum_name, entries, value) == const_name_of(enum_name, entries[i].name@) + "("@
            + dec_str(value as nat) + ")"@,
    decreases entries.len(),
{
    if i > 0 {
        assert(entries[0].value != value);
        lemma_render_known(enum_name, entries.skip(1), value, i - 1);
        assert(entries.skip(1)[i - 1] == entries[i]);
    }
}

} // verus!
