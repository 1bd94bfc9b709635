//! The in-memory protocol model: a `Protocol` holds interfaces, each with its
//! enums, requests and events; requests and events carry typed arguments.
//! The model is built once from schema text, held immutable, and consumed by
//! a single emission pass.

use vstd::prelude::*;
use vstd::string::StringExecFns;
use crate::names::snake_of;
use crate::names::to_snake;

verus! {

/// Root of the model: one protocol description, loaded once and immutable.
#[derive(Clone, Debug)]
pub struct Protocol {
    pub name: String,
    pub summary: Option<String>,
    pub description: Option<String>,
    pub copyright: Option<String>,
    pub interfaces: Vec<Interface>,
}

/// A named, versioned collection of enums, requests and events.
#[derive(Clone, Debug)]
pub struct Interface {
    pub name: String,
    pub summary: Option<String>,
    pub description: Option<String>,
    pub version: u32,
    pub enums: Vec<Enum>,
    pub requests: Vec<Request>,
    pub events: Vec<Event>,
}

/// A named group of constants wrapping an unsigned 32-bit wire value.
#[derive(Clone, Debug)]
pub struct Enum {
    pub name: String,
    pub summary: Option<String>,
    pub description: Option<String>,
    pub since: Option<u32>,
    pub entries: Vec<Entry>,
}

/// A message from client to server; its opcode is its zero-based position in
/// the interface's declaration order.
#[derive(Clone, Debug)]
pub struct Request {
    pub name: String,
    pub since: Option<u32>,
    pub destructor: bool,
    pub summary: Option<String>,
    pub description: Option<String>,
    pub args: Vec<Arg>,
}

/// A message from server to client; its opcode is its zero-based position in
/// the interface's declaration order.
#[derive(Clone, Debug)]
pub struct Event {
    pub name: String,
    pub since: Option<u32>,
    pub summary: Option<String>,
    pub description: Option<String>,
    pub args: Vec<Arg>,
}

/// One named constant of an enum. Values need not be unique.
#[derive(Clone, Debug)]
pub struct Entry {
    pub name: String,
    pub since: Option<u32>,
    pub summary: Option<String>,
    pub description: Option<String>,
    pub value: u32,
}

/// Marker a schema may attach to a request that destroys its object.
#[derive(Clone, Copy, Debug, PartialEq, Eq, Structural)]
pub enum RequestType {
    Destructor,
}

/// One typed argument of a request or event.
#[derive(Clone, Debug)]
pub struct Arg {
    pub name: String,
    pub nullable: bool,
    pub ty: DataType,
    pub interface: Option<String>,
    pub enumeration: Option<String>,
    pub summary: Option<String>,
}

/// The eight abstract wire data types. Every mapping site matches this enum
/// exhaustively, so adding a ninth type cannot silently skip a site.
#[derive(Clone, Copy, Debug, PartialEq, Eq, Structural)]
pub enum DataType {
    Int,
    Uint,
    Fixed,
    String,
    Array,
    Fd,
    Object,
    NewId,
}

/// A `NewId` argument whose interface is pinned in the schema is encoded and
/// decoded exactly like a non-nullable `Object`; an unpinned one carries a
/// dynamic object-creation descriptor.
pub open spec fn pinned(a: Arg) -> bool {
    a.interface is Some
}

/// The call-form that reads this argument from the message cursor `stream`.
pub open spec fn getter_text(a: Arg, stream: Seq<char>) -> Seq<char> {
    match a.ty {
        DataType::Int => stream + ".i32()?"@,
        DataType::Uint => stream + ".u32()?"@,
        DataType::Fixed => stream + ".fixed()?"@,
        DataType::String => if a.nullable {
            stream + ".string()?"@
        } else {
            stream + ".string()?.ok_or(::yutani::wire::WlError::NON_NULLABLE)?"@
        },
        DataType::Array => stream + ".bytes()?"@,
        DataType::Fd => stream + ".file()?"@,
        DataType::Object => if a.nullable {
            stream + ".object()?"@
        } else {
            stream + ".object()?.ok_or(::yutani::wire::WlError::NON_NULLABLE)?"@
        },
        DataType::NewId => if pinned(a) {
            stream + ".object()?.ok_or(::yutani::wire::WlError::NON_NULLABLE)?"@
        } else {
            stream + ".new_id()?"@
        },
    }
}

/// The call-form that writes this argument to the message stream `stream`;
/// the written value is the argument's own (raw) member-style identifier.
pub open spec fn sender_text(a: Arg, stream: Seq<char>) -> Seq<char> {
    match a.ty {
        DataType::Int => stream + ".send_i32(r#"@ + snake_of(a.name@) + ")?"@,
        DataType::Uint => stream + ".send_u32(r#"@ + snake_of(a.name@) + ")?"@,
        DataType::Fixed => stream + ".send_fixed(r#"@ + snake_of(a.name@) + ")?"@,
        DataType::String => if a.nullable {
            stream + ".send_string(r#"@ + snake_of(a.name@) + ")?"@
        } else {
            stream + ".send_string(::core::option::Option::Some(r#"@ + snake_of(a.name@) + "))?"@
        },
        DataType::Array => stream + ".send_bytes(r#"@ + snake_of(a.name@) + ")?"@,
        DataType::Fd => stream + ".send_file(r#"@ + snake_of(a.name@) + ")?"@,
        DataType::Object => if a.nullable {
            stream + ".send_object(r#"@ + snake_of(a.name@) + ")?"@
        } else {
            stream + ".send_object(Some(r#"@ + snake_of(a.name@) + "))?"@
        },
        DataType::NewId => if pinned(a) {
            stream + ".send_object(Some(r#"@ + snake_of(a.name@) + "))?"@
        } else {
            stream + ".send_new_id(r#"@ + snake_of(a.name@) + ")?"@
        },
    }
}

/// The owned type of this argument, as it appears in request-handler method
/// signatures.
pub open spec fn owned_ty_text(a: Arg) -> Seq<char> {
    match a.ty {
        DataType::Int => "::core::primitive::i32"@,
        DataType::Uint => "::core::primitive::u32"@,
        DataType::Fixed => "::yutani::Fixed"@,
        DataType::String => if a.nullable {
            "::core::option::Option<::std::string::String>"@
        } else {
            "::std::string::String"@
        },
        DataType::Array => "::std::vec::Vec<u8>"@,
        DataType::Fd => "::yutani::File"@,
        DataType::Object => if a.nullable {
            "::core::option::Option<::yutani::Id>"@
        } else {
            "::yutani::Id"@
        },
        DataType::NewId => if pinned(a) {
            "::yutani::Id"@
        } else {
            "::yutani::NewId"@
        },
    }
}

/// The transient type of this argument, as it appears in event-sending
/// method signatures; borrowed forms avoid copies on the send path.
pub open spec fn send_ty_text(a: Arg) -> Seq<char> {
    match a.ty {
        DataType::Int => "::core::primitive::i32"@,
        DataType::Uint => "::core::primitive::u32"@,
        DataType::Fixed => "::yutani::Fixed"@,
        DataType::String => if a.nullable {
            "::core::option::Option<&'_ ::core::primitive::str>"@
        } else {
            "&'_ ::core::primitive::str"@
        },
        DataType::Array => "&'_ [::core::primitive::u8]"@,
        DataType::Fd => "::yutani::Fd<'static>"@,
        DataType::Object => if a.nullable {
            "::core::option::Option<::yutani::Id>"@
        } else {
            "::yutani::Id"@
        },
        DataType::NewId => if pinned(a) {
            "::yutani::Id"@
        } else {
            "&'_ ::yutani::NewId"@
        },
    }
}

impl Arg {
    /// The wire-read call-form for this argument against the cursor `stream`.
    pub fn getter(&self, stream: &str) -> (r: String)
        ensures
            r@ == getter_text(*self, stream@),
    {
        let mut out = String::from_str(stream);
        match self.ty {
            DataType::Int => out.append(".i32()?"),
            DataType::Uint => out.append(".u32()?"),
            DataType::Fixed => out.append(".fixed()?"),
            DataType::String => if self.nullable {
                out.append(".string()?");
            } else {
                out.append(".string()?.ok_or(::yutani::wire::WlError::NON_NULLABLE)?");
            },
            DataType::Array => out.append(".bytes()?"),
            DataType::Fd => out.append(".file()?"),
            DataType::Object => if self.nullable {
                out.append(".object()?");
            } else {
                out.append(".object()?.ok_or(::yutani::wire::WlError::NON_NULLABLE)?");
            },
            DataType::NewId => if self.interface.is_some() {
                out.append(".object()?.ok_or(::yutani::wire::WlError::NON_NULLABLE)?");
            } else {
                out.append(".new_id()?");
            },
        }
        out
    }

    /// The wire-write call-form for this argument against the stream
    /// `stream`.
    pub fn sender(&self, stream: &str) -> (r: String)
        ensures
            r@ == sender_text(*self, stream@),
    {
        let ident = to_snake(self.name.as_str());
        let mut out = String::from_str(stream);
        match self.ty {
            DataType::Int => {
                out.append(".send_i32(r#");
                out.append(ident.as_str());
                out.append(")?");
            },
            DataType::Uint => {
                out.append(".send_u32(r#");
                out.append(ident.as_str());
                out.append(")?");
            },
            DataType::Fixed => {
                out.append(".send_fixed(r#");
                out.append(ident.as_str());
                out.append(")?");
            },
            DataType::String => if self.nullable {
                out.append(".send_string(r#");
                out.append(ident.as_str());
                out.append(")?");
            } else {
                out.append(".send_string(::core::option::Option::Some(r#");
                out.append(ident.as_str());
                out.append("))?");
            },
            DataType::Array => {
                out.append(".send_bytes(r#");
                out.append(ident.as_str());
                out.append(")?");
            },
            DataType::Fd => {
                out.append(".send_file(r#");
                out.append(ident.as_str());
                out.append(")?");
            },
            DataType::Object => if self.nullable {
                out.append(".send_object(r#");
                out.append(ident.as_str());
                out.append(")?");
            } else {
                out.append(".send_object(Some(r#");
                out.append(ident.as_str());
                out.append("))?");
            },
            DataType::NewId => if self.interface.is_some() {
                out.append(".send_object(Some(r#");
                out.append(ident.as_str());
                out.append("))?");
            } else {
                out.append(".send_new_id(r#");
                out.append(ident.as_str());
                out.append(")?");
            },
        }
        out
    }

    /// The owned type of this argument in a request-handler signature.
    pub fn ty(&self) -> (r: String)
        ensures
            r@ == owned_ty_text(*self),
    {
        match self.ty {
            DataType::Int => String::from_str("::core::primitive::i32"),
            DataType::Uint => String::from_str("::core::primitive::u32"),
            DataType::Fixed => String::from_str("::yutani::Fixed"),
            DataType::String => if self.nullable {
                String::from_str("::core::option::Option<::std::string::String>")
            } else {
                String::from_str("::std::string::String")
            },
            DataType::Array => String::from_str("::std::vec::Vec<u8>"),
            DataType::Fd => String::from_str("::yutani::File"),
            DataType::Object => if self.nullable {
                String::from_str("::core::option::Option<::yutani::Id>")
            } else {
                String::from_str("::yutani::Id")
            },
            DataType::NewId => if self.interface.is_some() {
                String::from_str("::yutani::Id")
            } else {
                String::from_str("::yutani::NewId")
            },
        }
    }

    /// The transient type of this argument in an event-sending signature.
    pub fn send_ty(&self) -> (r: String)
        ensures
            r@ == send_ty_text(*self),
    {
        match self.ty {
            DataType::Int => String::from_str("::core::primitive::i32"),
            DataType::Uint => String::from_str("::core::primitive::u32"),
            DataType::Fixed => String::from_str("::yutani::Fixed"),
            DataType::String => if self.nullable {
                String::from_str("::core::option::Option<&'_ ::core::primitive::str>")
            } else {
                String::from_str("&'_ ::core::primitive::str")
            },
            DataType::Array => String::from_str("&'_ [::core::primitive::u8]"),
            DataType::Fd => String::from_str("::yutani::Fd<'static>"),
            DataType::Object => if self.nullable {
                String::from_str("::core::option::Option<::yutani::Id>")
            } else {
                String::from_str("::yutani::Id")
            },
            DataType::NewId => if self.interface.is_some() {
                String::from_str("::yutani::Id")
            } else {
                String::from_str("&'_ ::yutani::NewId")
            },
        }
    }
}

} // verus!
