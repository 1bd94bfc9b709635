//! The code emitter: walks the protocol model once and produces the source
//! text of the generated unit. Per interface it emits a dispatch-capable
//! trait (name and version constants, one abstract method per request, one
//! default-implemented sender method per event, a hidden dispatch entry
//! point) and a module of enum wrapper types. Every emitted form is pinned
//! down by a spec function; the exec functions produce exactly that text.
//!
//! Opcodes are positional: the dispatch arm and the sender for the member at
//! zero-based declaration index `i` are generated with opcode `i`, so
//! regenerating from an unchanged model reproduces identical opcodes.

use vstd::prelude::*;
use vstd::string::StringExecFns;
use crate::proto::Protocol;
use crate::proto::Interface;
use crate::proto::Enum;
use crate::proto::Entry;
use crate::proto::Request;
use crate::proto::Event;
use crate::proto::Arg;
use crate::proto::getter_text;
use crate::proto::sender_text;
use crate::proto::owned_ty_text;
use crate::proto::send_ty_text;
use crate::names::snake_of;
use crate::names::pascal_of;
use crate::names::title_of;
use crate::names::const_name_of;
use crate::names::to_snake;
use crate::names::to_pascal;
use crate::names::to_title;
use crate::names::entry_const_name;
use crate::text::dec_str;
use crate::text::escaped;
use crate::text::push_dec;
use crate::text::push_escaped;

verus! {

// ---------------------------------------------------------------------------
// Documentation attributes
// ---------------------------------------------------------------------------

/// An outer doc attribute holding the escaped text.
pub open spec fn doc_text(s: Seq<char>) -> Seq<char> {
    "#[doc = \""@ + escaped(s) + "\"]\n"@
}

/// An inner doc attribute holding the escaped text.
pub open spec fn inner_doc_text(s: Seq<char>) -> Seq<char> {
    "#![doc = \""@ + escaped(s) + "\"]\n"@
}

/// The doc lines for an optional since-version: the version note and a
/// blank separator line.
pub open spec fn since_doc_text(since: Option<u32>) -> Seq<char> {
    match since {
        Option::Some(n) => "#[doc = \"`Since version "@ + dec_str(n as nat)
            + "`\"]\n#[doc = \"\"]\n"@,
        Option::None => Seq::empty(),
    }
}

/// The doc line for an optional summary, shown in Title Case.
pub open spec fn summary_doc_text(summary: Option<String>) -> Seq<char> {
    match summary {
        Option::Some(s) => doc_text(title_of(s@)),
        Option::None => Seq::empty(),
    }
}

/// The doc line for an optional description, copied as written.
pub open spec fn description_doc_text(description: Option<String>) -> Seq<char> {
    match description {
        Option::Some(s) => doc_text(s@),
        Option::None => Seq::empty(),
    }
}

/// The inner doc line for an optional protocol-level text, copied as
/// written.
pub open spec fn inner_opt_doc_text(text: Option<String>) -> Seq<char> {
    match text {
        Option::Some(s) => inner_doc_text(s@),
        Option::None => Seq::empty(),
    }
}

fn push_since_doc(out: &mut String, since: &Option<u32>)
    ensures
        final(out)@ == old(out)@ + since_doc_text(*since),
{
    match since {
        Option::Some(n) => {
            out.append("#[doc = \"`Since version ");
            push_dec(out, *n);
            out.append("`\"]\n#[doc = \"\"]\n");
            proof {
                assert(out@ =~= old(out)@ + since_doc_text(*since));
            }
        },
        Option::None => {},
    }
}

fn push_summary_doc(out: &mut String, summary: &Option<String>)
    ensures
        final(out)@ == old(out)@ + summary_doc_text(*summary),
{
    match summary {
        Option::Some(s) => {
            let titled = to_title(s.as_str());
            out.append("#[doc = \"");
            push_escaped(out, titled.as_str());
            out.append("\"]\n");
            proof {
                assert(out@ =~= old(out)@ + summary_doc_text(*summary));
            }
        },
        Option::None => {},
    }
}

fn push_description_doc(out: &mut String, description: &Option<String>)
    ensures
        final(out)@ == old(out)@ + description_doc_text(*description),
{
    match description {
        Option::Some(s) => {
            out.append("#[doc = \"");
            push_escaped(out, s.as_str());
            out.append("\"]\n");
            proof {
                assert(out@ =~= old(out)@ + description_doc_text(*description));
            }
        },
        Option::None => {},
    }
}

fn push_inner_opt_doc(out: &mut String, text: &Option<String>)
    ensures
        final(out)@ == old(out)@ + inner_opt_doc_text(*text),
{
    match text {
        Option::Some(s) => {
            out.append("#![doc = \"");
            push_escaped(out, s.as_str());
            out.append("\"]\n");
            proof {
                assert(out@ =~= old(out)@ + inner_opt_doc_text(*text));
            }
        },
        Option::None => {},
    }
}

// ---------------------------------------------------------------------------
// Argument documentation
// ---------------------------------------------------------------------------

/// The doc line for one argument's summary, or nothing.
pub open spec fn arg_doc_text(a: Arg) -> Seq<char> {
    match a.summary {
        Option::Some(s) => "#[doc = \"\\n`"@ + escaped(a.name@) + "`: "@ + escaped(s@)
            + "\"]\n"@,
        Option::None => Seq::empty(),
    }
}

/// The doc lines for the first `n` arguments' summaries.
pub open spec fn arg_docs_text(args: Seq<Arg>, n: int) -> Seq<char>
    decreases n,
{
    if n <= 0 {
        Seq::empty()
    } else {
        arg_docs_text(args, n - 1) + arg_doc_text(args[n - 1])
    }
}

/// Whether any argument carries a summary.
pub open spec fn has_arg_doc(args: Seq<Arg>) -> bool {
    exists|j: int| 0 <= j < args.len() && args[j].summary is Some
}

/// The Arguments section header, present only when some argument carries a
/// summary.
pub open spec fn arg_docs_header_text(args: Seq<Arg>) -> Seq<char> {
    if has_arg_doc(args) {
        "#[doc = \"\"]\n#[doc = \"## Arguments\"]\n"@
    } else {
        Seq::empty()
    }
}

fn any_arg_doc(args: &Vec<Arg>) -> (b: bool)
    ensures
        b == has_arg_doc(args@),
{
    let mut idx: usize = 0;
    while idx < args.len()
        invariant
            idx <= args@.len(),
            forall|j: int| 0 <= j < idx ==> !(args@[j].summary is Some),
        decreases args@.len() - idx,
    {
        if args[idx].summary.is_some() {
            return true;
        }
        idx = idx + 1;
    }
    false
}

fn push_arg_docs(out: &mut String, args: &Vec<Arg>)
    ensures
        final(out)@ == old(out)@ + arg_docs_header_text(args@) + arg_docs_text(
            args@,
            args@.len() as int,
        ),
{
    if any_arg_doc(args) {
        out.append("#[doc = \"\"]\n#[doc = \"## Arguments\"]\n");
    }
    let mut idx: usize = 0;
    while idx < args.len()
        invariant
            idx <= args@.len(),
            out@ == old(out)@ + arg_docs_header_text(args@) + arg_docs_text(args@, idx as int),
        decreases args@.len() - idx,
    {
        match &args[idx].summary {
            Option::Some(s) => {
                out.append("#[doc = \"\\n`");
                push_escaped(out, args[idx].name.as_str());
                out.append("`: ");
                push_escaped(out, s.as_str());
                out.append("\"]\n");
            },
            Option::None => {},
        }
        idx = idx + 1;
        proof {
            assert(out@ =~= old(out)@ + arg_docs_header_text(args@) + arg_docs_text(
                args@,
                idx as int,
            ));
        }
    }
}

// ---------------------------------------------------------------------------
// Requests
// ---------------------------------------------------------------------------

/// The parameter list entries for the first `n` arguments of a request, in
/// owned types.
pub open spec fn request_params_text(args: Seq<Arg>, n: int) -> Seq<char>
    decreases n,
{
    if n <= 0 {
        Seq::empty()
    } else {
        request_params_text(args, n - 1) + ", r#"@ + snake_of(args[n - 1].name@) + ": "@
            + owned_ty_text(args[n - 1])
    }
}

/// The abstract handler method declared for one request.
pub open spec fn request_text(r: Request) -> Seq<char> {
    since_doc_text(r.since) + summary_doc_text(r.summary) + "#[doc = \"\"]\n"@
        + description_doc_text(r.description) + arg_docs_header_text(r.args@) + arg_docs_text(
        r.args@,
        r.args@.len() as int,
    ) + "fn r#"@ + snake_of(r.name@)
        + "(this: ::wl::lease::Lease<Self>, event_loop: &mut ::wl::wire::EventLoop<T>, client: &mut ::wl::server::Client<T>"@
        + request_params_text(r.args@, r.args@.len() as int)
        + ") -> ::core::result::Result<(), ::wl::wire::WlError<'static>>;\n"@
}

fn push_request_params(out: &mut String, args: &Vec<Arg>)
    ensures
        final(out)@ == old(out)@ + request_params_text(args@, args@.len() as int),
{
    let mut idx: usize = 0;
    while idx < args.len()
        invariant
            idx <= args@.len(),
            out@ == old(out)@ + request_params_text(args@, idx as int),
        decreases args@.len() - idx,
    {
        out.append(", r#");
        let n = to_snake(args[idx].name.as_str());
        out.append(n.as_str());
        out.append(": ");
        let t = args[idx].ty();
        out.append(t.as_str());
        idx = idx + 1;
        proof {
            assert(out@ =~= old(out)@ + request_params_text(args@, idx as int));
        }
    }
}

#[verifier::rlimit(100)]
fn push_request(out: &mut String, request: &Request)
    ensures
        final(out)@ == old(out)@ + request_text(*request),
{
    push_since_doc(out, &request.since);
    push_summary_doc(out, &request.summary);
    out.append("#[doc = \"\"]\n");
    push_description_doc(out, &request.description);
    push_arg_docs(out, &request.args);
    out.append("fn r#");
    let n = to_snake(request.name.as_str());
    out.append(n.as_str());
    out.append(
        "(this: ::wl::lease::Lease<Self>, event_loop: &mut ::wl::wire::EventLoop<T>, client: &mut ::wl::server::Client<T>",
    );
    push_request_params(out, &request.args);
    out.append(") -> ::core::result::Result<(), ::wl::wire::WlError<'static>>;\n");
    proof {
        assert(out@ =~= old(out)@ + request_text(*request));
    }
}

/// The declaration of the abstract handler method for one request.
pub fn request(req: &Request) -> (r: String)
    ensures
        r@ == request_text(*req),
{
    let mut out = String::new();
    push_request(&mut out, req);
    proof {
        assert(out@ =~= request_text(*req));
    }
    out
}

// ---------------------------------------------------------------------------
// Events
// ---------------------------------------------------------------------------

/// The parameter list entries for the first `n` arguments of an event, in
/// transient types.
pub open spec fn event_params_text(args: Seq<Arg>, n: int) -> Seq<char>
    decreases n,
{
    if n <= 0 {
        Seq::empty()
    } else {
        event_params_text(args, n - 1) + ", r#"@ + snake_of(args[n - 1].name@) + ": "@
            + send_ty_text(args[n - 1])
    }
}

/// The wire-write statements for the first `n` arguments of an event.
pub open spec fn senders_text(args: Seq<Arg>, n: int) -> Seq<char>
    decreases n,
{
    if n <= 0 {
        Seq::empty()
    } else {
        senders_text(args, n - 1) + sender_text(args[n - 1], "_stream"@) + ";\n"@
    }
}

/// The default-implemented sender method for one event: it starts a message
/// keyed by the object id and the event's positional opcode, writes each
/// argument in declared order, and commits.
pub open spec fn event_text(e: Event, opcode: nat) -> Seq<char> {
    since_doc_text(e.since) + summary_doc_text(e.summary) + "#[doc = \"\"]\n"@
        + description_doc_text(e.description) + arg_docs_header_text(e.args@) + arg_docs_text(
        e.args@,
        e.args@.len() as int,
    ) + "fn r#"@ + snake_of(e.name@)
        + "(this: ::wl::lease::Lease<Self>, client: &mut ::wl::server::Client<T>"@
        + event_params_text(e.args@, e.args@.len() as int)
        + ") -> ::core::result::Result<(), ::wl::wire::WlError<'static>> {\nlet _stream = client.stream();\nlet _key = _stream.start_message(this.id(), "@
        + dec_str(opcode) + "u16);\n"@ + senders_text(e.args@, e.args@.len() as int)
        + "_stream.commit(_key)\n}\n"@
}

fn push_event_params(out: &mut String, args: &Vec<Arg>)
    ensures
        final(out)@ == old(out)@ + event_params_text(args@, args@.len() as int),
{
    let mut idx: usize = 0;
    while idx < args.len()
        invariant
            idx <= args@.len(),
            out@ == old(out)@ + event_params_text(args@, idx as int),
        decreases args@.len() - idx,
    {
        out.append(", r#");
        let n = to_snake(args[idx].name.as_str());
        out.append(n.as_str());
        out.append(": ");
        let t = args[idx].send_ty();
        out.append(t.as_str());
        idx = idx + 1;
        proof {
            assert(out@ =~= old(out)@ + event_params_text(args@, idx as int));
        }
    }
}

fn push_senders(out: &mut String, args: &Vec<Arg>)
    ensures
        final(out)@ == old(out)@ + senders_text(args@, args@.len() as int),
{
    let mut idx: usize = 0;
    while idx < args.len()
        invariant
            idx <= args@.len(),
            out@ == old(out)@ + senders_text(args@, idx as int),
        decreases args@.len() - idx,
    {
        let s = args[idx].sender("_stream");
        out.append(s.as_str());
        out.append(";\n");
        idx = idx + 1;
        proof {
            assert(out@ =~= old(out)@ + senders_text(args@, idx as int));
        }
    }
}

#[verifier::rlimit(100)]
fn push_event(out: &mut String, event: &Event, opcode: u16)
    ensures
        final(out)@ == old(out)@ + event_text(*event, opcode as nat),
{
    push_since_doc(out, &event.since);
    push_summary_doc(out, &event.summary);
    out.append("#[doc = \"\"]\n");
    push_description_doc(out, &event.description);
    push_arg_docs(out, &event.args);
    out.append("fn r#");
    let n = to_snake(event.name.as_str());
    out.append(n.as_str());
    out.append("(this: ::wl::lease::Lease<Self>, client: &mut ::wl::server::Client<T>");
    push_event_params(out, &event.args);
    out.append(
        ") -> ::core::result::Result<(), ::wl::wire::WlError<'static>> {\nlet _stream = client.stream();\nlet _key = _stream.start_message(this.id(), ",
    );
    push_dec(out, opcode as u32);
    out.append("u16);\n");
    push_senders(out, &event.args);
    out.append("_stream.commit(_key)\n}\n");
    proof {
        assert(out@ =~= old(out)@ + event_text(*event, opcode as nat));
    }
}

/// The default-implemented sender method for one event, generated with the
/// given positional opcode.
pub fn event(ev: &Event, opcode: u16) -> (r: String)
    ensures
        r@ == event_text(*ev, opcode as nat),
{
    let mut out = String::new();
    push_event(&mut out, ev, opcode);
    proof {
        assert(out@ =~= event_text(*ev, opcode as nat));
    }
    out
}

// ---------------------------------------------------------------------------
// Enums
// ---------------------------------------------------------------------------

/// One named constant of an enum wrapper type.
pub open spec fn entry_text(enum_name: Seq<char>, entry: Entry) -> Seq<char> {
    since_doc_text(entry.since) + summary_doc_text(entry.summary) + "#[doc = \"\"]\n"@
        + description_doc_text(entry.description) + "pub const r#"@ + const_name_of(
        enum_name,
        entry.name@,
    ) + ": Self = Self("@ + dec_str(entry.value as nat) + "u32);\n"@
}

/// The constants for the first `n` entries.
pub open spec fn entries_text(enum_name: Seq<char>, entries: Seq<Entry>, n: int) -> Seq<char>
    decreases n,
{
    if n <= 0 {
        Seq::empty()
    } else {
        entries_text(enum_name, entries, n - 1) + entry_text(enum_name, entries[n - 1])
    }
}

/// One rendering arm: a known wrapped value is shown as `NAME(value)`.
pub open spec fn debug_arm_text(enum_name: Seq<char>, entry: Entry) -> Seq<char> {
    dec_str(entry.value as nat) + "u32 => ::core::write!(f, \"{}({})\", \""@ + const_name_of(
        enum_name,
        entry.name@,
    ) + "\", "@ + dec_str(entry.value as nat) + "u32),\n"@
}

/// The rendering arms for the first `n` entries.
pub open spec fn debug_arms_text(enum_name: Seq<char>, entries: Seq<Entry>, n: int) -> Seq<char>
    decreases n,
{
    if n <= 0 {
        Seq::empty()
    } else {
        debug_arms_text(enum_name, entries, n - 1) + debug_arm_text(enum_name, entries[n - 1])
    }
}

/// The wrapper type emitted for one enum: a transparent struct over `u32`,
/// one constant per entry, conversions from and into `u32`, and a rendering
/// impl that shows known values as `NAME(value)` and every other value as
/// `UNKNOWN(value)`.
pub open spec fn enumeration_text(e: Enum) -> Seq<char> {
    since_doc_text(e.since) + summary_doc_text(e.summary) + "#[doc = \"\"]\n"@
        + description_doc_text(e.description) + "#[repr(transparent)]\npub struct r#"@ + pascal_of(
        e.name@,
    ) + "(u32);\nimpl r#"@ + pascal_of(e.name@) + " {\n"@ + entries_text(
        e.name@,
        e.entries@,
        e.entries@.len() as int,
    ) + "}\nimpl ::core::convert::From<::core::primitive::u32> for r#"@ + pascal_of(e.name@)
        + " {\nfn from(value: ::core::primitive::u32) -> Self {\nSelf(value)\n}\n}\nimpl ::core::convert::Into<::core::primitive::u32> for r#"@
        + pascal_of(e.name@)
        + " {\nfn into(self) -> ::core::primitive::u32 {\nself.0\n}\n}\nimpl ::core::fmt::Debug for r#"@
        + pascal_of(e.name@)
        + " {\nfn fmt(&self, f: &mut ::core::fmt::Formatter<'_>) -> ::core::fmt::Result {\nmatch self.0 {\n"@
        + debug_arms_text(e.name@, e.entries@, e.entries@.len() as int)
        + "value => ::core::write!(f, \"UNKNOWN({})\", value)\n}\n}\n}\n"@
}

#[verifier::rlimit(100)]
fn push_entries(out: &mut String, enum_name: &str, entries: &Vec<Entry>)
    ensures
        final(out)@ == old(out)@ + entries_text(enum_name@, entries@, entries@.len() as int),
{
    let mut idx: usize = 0;
    while idx < entries.len()
        invariant
            idx <= entries@.len(),
            out@ == old(out)@ + entries_text(enum_name@, entries@, idx as int),
        decreases entries@.len() - idx,
    {
        push_since_doc(out, &entries[idx].since);
        push_summary_doc(out, &entries[idx].summary);
        out.append("#[doc = \"\"]\n");
        push_description_doc(out, &entries[idx].description);
        out.append("pub const r#");
        let c = entry_const_name(enum_name, entries[idx].name.as_str());
        out.append(c.as_str());
        out.append(": Self = Self(");
        push_dec(out, entries[idx].value);
        out.append("u32);\n");
        idx = idx + 1;
        proof {
            assert(out@ =~= old(out)@ + entries_text(enum_name@, entries@, idx as int));
        }
    }
}

#[verifier::rlimit(100)]
fn push_debug_arms(out: &mut String, enum_name: &str, entries: &Vec<Entry>)
    ensures
        final(out)@ == old(out)@ + debug_arms_text(enum_name@, entries@, entries@.len() as int),
{
    let mut idx: usize = 0;
    while idx < entries.len()
        invariant
            idx <= entries@.len(),
            out@ == old(out)@ + debug_arms_text(enum_name@, entries@, idx as int),
        decreases entries@.len() - idx,
    {
        push_dec(out, entries[idx].value);
        out.append("u32 => ::core::write!(f, \"{}({})\", \"");
        let c = entry_const_name(enum_name, entries[idx].name.as_str());
        out.append(c.as_str());
        out.append("\", ");
        push_dec(out, entries[idx].value);
        out.append("u32),\n");
        idx = idx + 1;
        proof {
            assert(out@ =~= old(out)@ + debug_arms_text(enum_name@, entries@, idx as int));
        }
    }
}

fn push_enumeration(out: &mut String, enumeration: &Enum)
    ensures
        final(out)@ == old(out)@ + enumeration_text(*enumeration),
{
    push_since_doc(out, &enumeration.since);
    push_summary_doc(out, &enumeration.summary);
    out.append("#[doc = \"\"]\n");
    push_description_doc(out, &enumeration.description);
    out.append("#[repr(transparent)]\npub struct r#");
    let p = to_pascal(enumeration.name.as_str());
    out.append(p.as_str());
    out.append("(u32);\nimpl r#");
    out.append(p.as_str());
    out.append(" {\n");
    push_entries(out, enumeration.name.as_str(), &enumeration.entries);
    out.append("}\nimpl ::core::convert::From<::core::primitive::u32> for r#");
    out.append(p.as_str());
    out.append(
        " {\nfn from(value: ::core::primitive::u32) -> Self {\nSelf(value)\n}\n}\nimpl ::core::convert::Into<::core::primitive::u32> for r#",
    );
    out.append(p.as_str());
    out.append(
        " {\nfn into(self) -> ::core::primitive::u32 {\nself.0\n}\n}\nimpl ::core::fmt::Debug for r#",
    );
    out.append(p.as_str());
    out.append(
        " {\nfn fmt(&self, f: &mut ::core::fmt::Formatter<'_>) -> ::core::fmt::Result {\nmatch self.0 {\n",
    );
    push_debug_arms(out, enumeration.name.as_str(), &enumeration.entries);
    out.append("value => ::core::write!(f, \"UNKNOWN({})\", value)\n}\n}\n}\n");
    proof {
        assert(out@ =~= old(out)@ + enumeration_text(*enumeration));
    }
}

/// The wrapper type emitted for one enum.
pub fn enumeration(en: Enum) -> (r: String)
    ensures
        r@ == enumeration_text(en),
{
    let mut out = String::new();
    push_enumeration(&mut out, &en);
    proof {
        assert(out@ =~= enumeration_text(en));
    }
    out
}

// ---------------------------------------------------------------------------
// Dispatch
// ---------------------------------------------------------------------------

/// The call arguments handed to a request handler for the first `n`
/// decoded values.
pub open spec fn call_args_text(args: Seq<Arg>, n: int) -> Seq<char>
    decreases n,
{
    if n <= 0 {
        Seq::empty()
    } else {
        call_args_text(args, n - 1) + ", r#"@ + snake_of(args[n - 1].name@)
    }
}

/// The decode statements for the first `n` arguments of a request, in
/// declared order; each decode may fail and propagates immediately.
pub open spec fn arm_lets_text(args: Seq<Arg>, n: int) -> Seq<char>
    decreases n,
{
    if n <= 0 {
        Seq::empty()
    } else {
        arm_lets_text(args, n - 1) + "let r#"@ + snake_of(args[n - 1].name@) + " = "@
            + getter_text(args[n - 1], "_stream"@) + ";\n"@
    }
}

/// The dispatch arm for the request declared at zero-based position
/// `opcode`: it decodes the arguments in declared order and invokes the
/// request's handler method with the decoded values.
pub open spec fn dispatch_arm_text(r: Request, opcode: nat) -> Seq<char> {
    dec_str(opcode) + "u16 => {\nlet _stream = _client.stream();\n"@ + arm_lets_text(
        r.args@,
        r.args@.len() as int,
    ) + "Self::r#"@ + snake_of(r.name@) + "(_this, _event_loop, _client"@ + call_args_text(
        r.args@,
        r.args@.len() as int,
    ) + ")\n},\n"@
}

/// The dispatch arms for the first `n` requests; the arm for the request at
/// index `i` is generated with opcode `i`.
pub open spec fn dispatch_arms_text(requests: Seq<Request>, n: int) -> Seq<char>
    decreases n,
{
    if n <= 0 {
        Seq::empty()
    } else {
        dispatch_arms_text(requests, n - 1) + dispatch_arm_text(requests[n - 1], (n - 1) as nat)
    }
}

/// The handler declarations for the first `n` requests.
pub open spec fn requests_text(requests: Seq<Request>, n: int) -> Seq<char>
    decreases n,
{
    if n <= 0 {
        Seq::empty()
    } else {
        requests_text(requests, n - 1) + request_text(requests[n - 1])
    }
}

/// The sender methods for the first `n` events; the method for the event at
/// index `i` is generated with opcode `i`.
pub open spec fn events_text(events: Seq<Event>, n: int) -> Seq<char>
    decreases n,
{
    if n <= 0 {
        Seq::empty()
    } else {
        events_text(events, n - 1) + event_text(events[n - 1], (n - 1) as nat)
    }
}

/// The wrapper types for the first `n` enums.
pub open spec fn enums_text(enums: Seq<Enum>, n: int) -> Seq<char>
    decreases n,
{
    if n <= 0 {
        Seq::empty()
    } else {
        enums_text(enums, n - 1) + enumeration_text(enums[n - 1])
    }
}

// ---------------------------------------------------------------------------
// Interfaces and the whole protocol
// ---------------------------------------------------------------------------

/// Positional opcodes must fit in the wire's unsigned 16-bit opcode field.
pub open spec fn interface_fits(i: Interface) -> bool {
    i.requests@.len() <= 0x10000 && i.events@.len() <= 0x10000
}

/// The doc lines, trait header, name and version constants, and the opening
/// of the hidden dispatch entry point emitted for one interface.
pub open spec fn interface_head_text(i: Interface) -> Seq<char> {
    "#[doc = \"`Version "@ + dec_str(i.version as nat) + "`\"]\n#[doc = \"\"]\n"@
        + summary_doc_text(i.summary) + "#[doc = \"\"]\n"@ + description_doc_text(i.description)
        + "pub trait r#"@ + pascal_of(i.name@) + "<T>: 'static + ::core::marker::Sized {\n"@
        + "const INTERFACE: &'static ::core::primitive::str = \""@ + escaped(i.name@) + "\";\n"@
        + "const VERSION: ::core::primitive::u32 = "@ + dec_str(i.version as nat) + "u32;\n"@
        + "#[doc(hidden)]\nfn dispatch(_this: ::wl::lease::Lease<dyn ::core::any::Any>, _event_loop: &mut ::wl::wire::EventLoop<T>, _client: &mut ::wl::server::Client<T>, _message: ::wl::wire::Message) -> ::core::result::Result<(), ::wl::wire::WlError<'static>> {\nlet _this: ::wl::lease::Lease<Self> = _this.downcast().ok_or(::wl::wire::WlError::INTERNAL)?;\nmatch _message.opcode {\n"@
}

/// Everything of an interface's text up to and including the default
/// object-wrapping methods: the head, the dispatch arms, the fall-through
/// arm for any opcode outside the declared range, and the two
/// object-wrapping methods.
pub open spec fn interface_front_text(i: Interface) -> Seq<char> {
    interface_head_text(i) + dispatch_arms_text(i.requests@, i.requests@.len() as int)
        + "_ => ::core::result::Result::Err(::wl::wire::WlError::INVALID_OPCODE)\n}\n}\n#[doc = \"Create a new object that can be tracked by `wl`\"]\nfn into_object(self, id: ::wl::Id) -> ::wl::lease::Resident<Self, T, ::wl::server::Client<T>> {\n::wl::lease::Resident::new(id, Self::dispatch, Self::INTERFACE, Self::VERSION, self)\n}\n#[doc = \"Create a new object that can be tracked by `wl`, with a given version\"]\nfn into_versioned_object(self, id: ::wl::Id, version: u32) -> ::wl::lease::Resident<Self, T, ::wl::server::Client<T>> {\n::wl::lease::Resident::new(id, Self::dispatch, Self::INTERFACE, version, self)\n}\n"@
}

/// Everything of an interface's text after the object-wrapping methods:
/// the request handler declarations, the event sender methods, and the
/// module of enum wrapper types.
pub open spec fn interface_back_text(i: Interface) -> Seq<char> {
    requests_text(i.requests@, i.requests@.len() as int) + events_text(
        i.events@,
        i.events@.len() as int,
    ) + "}\npub mod r#"@ + snake_of(i.name@) + " {\n"@ + enums_text(
        i.enums@,
        i.enums@.len() as int,
    ) + "}\n"@
}

/// The source text emitted for one interface: the dispatch-capable trait
/// and a module holding its enum wrapper types. Any opcode outside the
/// declared range falls through the dispatch match to InvalidOpcode.
pub open spec fn interface_text(i: Interface) -> Seq<char> {
    interface_front_text(i) + interface_back_text(i)
}

#[verifier::rlimit(100)]
fn push_dispatch_arms(out: &mut String, requests: &Vec<Request>)
    requires
        requests@.len() <= 0x10000,
    ensures
        final(out)@ == old(out)@ + dispatch_arms_text(requests@, requests@.len() as int),
{
    let mut idx: usize = 0;
    while idx < requests.len()
        invariant
            idx <= requests@.len(),
            requests@.len() <= 0x10000,
            out@ == old(out)@ + dispatch_arms_text(requests@, idx as int),
        decreases requests@.len() - idx,
    {
        push_dec(out, idx as u32);
        out.append("u16 => {\nlet _stream = _client.stream();\n");
        let mut j: usize = 0;
        while j < requests[idx].args.len()
            invariant
                idx < requests@.len(),
                j <= requests@[idx as int].args@.len(),
                out@ == old(out)@ + dispatch_arms_text(requests@, idx as int) + dec_str(
                    idx as nat,
                ) + "u16 => {\nlet _stream = _client.stream();\n"@ + arm_lets_text(
                    requests@[idx as int].args@,
                    j as int,
                ),
            decreases requests@[idx as int].args@.len() - j,
        {
            out.append("let r#");
            let n = to_snake(requests[idx].args[j].name.as_str());
            out.append(n.as_str());
            out.append(" = ");
            let g = requests[idx].args[j].getter("_stream");
            out.append(g.as_str());
            out.append(";\n");
            j = j + 1;
            proof {
                assert(out@ =~= old(out)@ + dispatch_arms_text(requests@, idx as int) + dec_str(
                    idx as nat,
                ) + "u16 => {\nlet _stream = _client.stream();\n"@ + arm_lets_text(
                    requests@[idx as int].args@,
                    j as int,
                ));
            }
        }
        out.append("Self::r#");
        let n = to_snake(requests[idx].name.as_str());
        out.append(n.as_str());
        out.append("(_this, _event_loop, _client");
        let mut k: usize = 0;
        while k < requests[idx].args.len()
            invariant
                idx < requests@.len(),
                k <= requests@[idx as int].args@.len(),
                out@ == old(out)@ + dispatch_arms_text(requests@, idx as int) + dec_str(
                    idx as nat,
                ) + "u16 => {\nlet _stream = _client.stream();\n"@ + arm_lets_text(
                    requests@[idx as int].args@,
                    requests@[idx as int].args@.len() as int,
                ) + "Self::r#"@ + snake_of(requests@[idx as int].name@)
                    + "(_this, _event_loop, _client"@ + call_args_text(
                    requests@[idx as int].args@,
                    k as int,
                ),
            decreases requests@[idx as int].args@.len() - k,
        {
            out.append(", r#");
            let n2 = to_snake(requests[idx].args[k].name.as_str());
            out.append(n2.as_str());
            k = k + 1;
            proof {
                assert(out@ =~= old(out)@ + dispatch_arms_text(requests@, idx as int) + dec_str(
                    idx as nat,
                ) + "u16 => {\nlet _stream = _client.stream();\n"@ + arm_lets_text(
                    requests@[idx as int].args@,
                    requests@[idx as int].args@.len() as int,
                ) + "Self::r#"@ + snake_of(requests@[idx as int].name@)
                    + "(_this, _event_loop, _client"@ + call_args_text(
                    requests@[idx as int].args@,
                    k as int,
                ));
            }
        }
        out.append(")\n},\n");
        idx = idx + 1;
        proof {
            assert(out@ =~= old(out)@ + dispatch_arms_text(requests@, idx as int));
        }
    }
}

fn push_requests(out: &mut String, requests: &Vec<Request>)
    ensures
        final(out)@ == old(out)@ + requests_text(requests@, requests@.len() as int),
{
    let mut idx: usize = 0;
    while idx < requests.len()
        invariant
            idx <= requests@.len(),
            out@ == old(out)@ + requests_text(requests@, idx as int),
        decreases requests@.len() - idx,
    {
        push_request(out, &requests[idx]);
        idx = idx + 1;
        proof {
            assert(out@ =~= old(out)@ + requests_text(requests@, idx as int));
        }
    }
}

fn push_events(out: &mut String, events: &Vec<Event>)
    requires
        events@.len() <= 0x10000,
    ensures
        final(out)@ == old(out)@ + events_text(events@, events@.len() as int),
{
    let mut idx: usize = 0;
    while idx < events.len()
        invariant
            idx <= events@.len(),
            events@.len() <= 0x10000,
            out@ == old(out)@ + events_text(events@, idx as int),
        decreases events@.len() - idx,
    {
        push_event(out, &events[idx], idx as u16);
        idx = idx + 1;
        proof {
            assert(out@ =~= old(out)@ + events_text(events@, idx as int));
        }
    }
}

fn push_enums(out: &mut String, enums: &Vec<Enum>)
    ensures
        final(out)@ == old(out)@ + enums_text(enums@, enums@.len() as int),
{
    let mut idx: usize = 0;
    while idx < enums.len()
        invariant
            idx <= enums@.len(),
            out@ == old(out)@ + enums_text(enums@, idx as int),
        decreases enums@.len() - idx,
    {
        push_enumeration(out, &enums[idx]);
        idx = idx + 1;
        proof {
            assert(out@ =~= old(out)@ + enums_text(enums@, idx as int));
        }
    }
}

fn push_interface_head(out: &mut String, interface: &Interface)
    ensures
        final(out)@ == old(out)@ + interface_head_text(*interface),
{
    out.append("#[doc = \"`Version ");
    push_dec(out, interface.version);
    out.append("`\"]\n#[doc = \"\"]\n");
    push_summary_doc(out, &interface.summary);
    out.append("#[doc = \"\"]\n");
    push_description_doc(out, &interface.description);
    out.append("pub trait r#");
    let p = to_pascal(interface.name.as_str());
    out.append(p.as_str());
    out.append("<T>: 'static + ::core::marker::Sized {\n");
    out.append("const INTERFACE: &'static ::core::primitive::str = \"");
    push_escaped(out, interface.name.as_str());
    out.append("\";\n");
    out.append("const VERSION: ::core::primitive::u32 = ");
    push_dec(out, interface.version);
    out.append("u32;\n");
    out.append(
        "#[doc(hidden)]\nfn dispatch(_this: ::wl::lease::Lease<dyn ::core::any::Any>, _event_loop: &mut ::wl::wire::EventLoop<T>, _client: &mut ::wl::server::Client<T>, _message: ::wl::wire::Message) -> ::core::result::Result<(), ::wl::wire::WlError<'static>> {\nlet _this: ::wl::lease::Lease<Self> = _this.downcast().ok_or(::wl::wire::WlError::INTERNAL)?;\nmatch _message.opcode {\n",
    );
    proof {
        assert(out@ =~= old(out)@ + interface_head_text(*interface));
    }
}

fn push_interface_front(out: &mut String, interface: &Interface)
    requires
        interface_fits(*interface),
    ensures
        final(out)@ == old(out)@ + interface_front_text(*interface),
{
    push_interface_head(out, interface);
    push_dispatch_arms(out, &interface.requests);
    out.append(
        "_ => ::core::result::Result::Err(::wl::wire::WlError::INVALID_OPCODE)\n}\n}\n#[doc = \"Create a new object that can be tracked by `wl`\"]\nfn into_object(self, id: ::wl::Id) -> ::wl::lease::Resident<Self, T, ::wl::server::Client<T>> {\n::wl::lease::Resident::new(id, Self::dispatch, Self::INTERFACE, Self::VERSION, self)\n}\n#[doc = \"Create a new object that can be tracked by `wl`, with a given version\"]\nfn into_versioned_object(self, id: ::wl::Id, version: u32) -> ::wl::lease::Resident<Self, T, ::wl::server::Client<T>> {\n::wl::lease::Resident::new(id, Self::dispatch, Self::INTERFACE, version, self)\n}\n",
    );
    proof {
        assert(out@ =~= old(out)@ + interface_front_text(*interface));
    }
}

#[verifier::rlimit(100)]
fn push_interface_back(out: &mut String, interface: &Interface)
    requires
        interface_fits(*interface),
    ensures
        final(out)@ == old(out)@ + interface_back_text(*interface),
{
    push_requests(out, &interface.requests);
    push_events(out, &interface.events);
    out.append("}\npub mod r#");
    let m = to_snake(interface.name.as_str());
    out.append(m.as_str());
    out.append(" {\n");
    push_enums(out, &interface.enums);
    out.append("}\n");
    proof {
        assert(out@ =~= old(out)@ + interface_back_text(*interface));
    }
}

#[verifier::rlimit(100)]
fn push_interface(out: &mut String, interface: &Interface)
    requires
        interface_fits(*interface),
    ensures
        final(out)@ == old(out)@ + interface_text(*interface),
{
    push_interface_front(out, interface);
    push_interface_back(out, interface);
    proof {
        assert(out@ =~= old(out)@ + interface_text(*interface));
    }
}

/// The source text emitted for one interface.
pub fn interface(iface: Interface) -> (r: String)
    requires
        interface_fits(iface),
    ensures
        r@ == interface_text(iface),
{
    let mut out = String::new();
    push_interface(&mut out, &iface);
    proof {
        assert(out@ =~= interface_text(iface));
    }
    out
}

/// The interface texts for the first `n` interfaces.
pub open spec fn interfaces_text(interfaces: Seq<Interface>, n: int) -> Seq<char>
    decreases n,
{
    if n <= 0 {
        Seq::empty()
    } else {
        interfaces_text(interfaces, n - 1) + interface_text(interfaces[n - 1])
    }
}

/// Every interface of the protocol keeps its opcodes inside the 16-bit
/// opcode field.
pub open spec fn protocol_fits(p: Protocol) -> bool {
    forall|k: int| 0 <= k < p.interfaces@.len() ==> interface_fits(#[trigger] p.interfaces@[k])
}

/// The documentation header of the generated unit: the title-cased name,
/// the optional summary and description, and the optional copyright
/// section.
pub open spec fn protocol_header_text(p: Protocol) -> Seq<char> {
    "#![doc = \"# "@ + escaped(title_of(p.name@)) + "\"]\n"@ + inner_opt_doc_text(p.summary)
        + "#![doc = \"\"]\n"@ + inner_opt_doc_text(p.description) + (match p.copyright {
        Option::Some(c) => "#![doc = \"## Copyright\"]\n#![doc = \""@ + escaped(c@) + "\"]\n"@,
        Option::None => Seq::empty(),
    })
}

/// The whole generated source unit for one protocol: the documentation
/// header followed by each interface's text, in declaration order.
pub open spec fn protocol_text(p: Protocol) -> Seq<char> {
    protocol_header_text(p) + interfaces_text(p.interfaces@, p.interfaces@.len() as int)
}

/// Whether every interface of `p` can be generated (its opcodes fit the
/// 16-bit opcode field).
pub fn protocol_generable(model: &Protocol) -> (b: bool)
    ensures
        b == protocol_fits(*model),
{
    let mut idx: usize = 0;
    while idx < model.interfaces.len()
        invariant
            idx <= model.interfaces@.len(),
            forall|k: int| 0 <= k < idx ==> interface_fits(#[trigger] model.interfaces@[k]),
        decreases model.interfaces@.len() - idx,
    {
        if model.interfaces[idx].requests.len() > 0x10000
            || model.interfaces[idx].events.len() > 0x10000 {
            return false;
        }
        idx = idx + 1;
    }
    true
}

/// The whole generated source unit for one protocol model.
#[verifier::rlimit(100)]
pub fn protocol(model: &Protocol) -> (r: String)
    requires
        protocol_fits(*model),
    ensures
        r@ == protocol_text(*model),
{
    let mut out = String::new();
    out.append("#![doc = \"# ");
    let titled = to_title(model.name.as_str());
    push_escaped(&mut out, titled.as_str());
    out.append("\"]\n");
    push_inner_opt_doc(&mut out, &model.summary);
    out.append("#![doc = \"\"]\n");
    push_inner_opt_doc(&mut out, &model.description);
    match &model.copyright {
        Option::Some(c) => {
            out.append("#![doc = \"## Copyright\"]\n#![doc = \"");
            push_escaped(&mut out, c.as_str());
            out.append("\"]\n");
        },
        Option::None => {},
    }
    proof {
        assert(out@ =~= protocol_header_text(*model));
    }
    let mut idx: usize = 0;
    while idx < model.interfaces.len()
        invariant
            idx <= model.interfaces@.len(),
            protocol_fits(*model),
            out@ == protocol_header_text(*model) + interfaces_text(model.interfaces@, idx as int),
        decreases model.interfaces@.len() - idx,
    {
        push_interface(&mut out, &model.interfaces[idx]);
        idx = idx + 1;
        proof {
            assert(out@ =~= protocol_header_text(*model) + interfaces_text(
                model.interfaces@,
                idx as int,
            ));
        }
    }
    out
}

// ---------------------------------------------------------------------------
// Laws
// ---------------------------------------------------------------------------

/// Opcodes equal the zero-based declaration index: the dispatch arm
/// appended for the request at position `i` is generated with opcode `i`,
/// and the sender method appended for the event at position `i` is
/// generated with opcode `i`.
pub proof fn lemma_opcode_is_declaration_index(requests: Seq<Request>, events: Seq<Event>, i: int)
    requires
        0 <= i,
    ensures
        i < requests.len() ==> dispatch_arms_text(requests, i + 1) == dispatch_arms_text(
            requests,
            i,
        ) + dispatch_arm_text(requests[i], i as nat),
        i < events.len() ==> events_text(events, i + 1) == events_text(events, i) + event_text(
            events[i],
            i as nat,
        ),
{
}

/// The dispatch arm for opcode `op` begins with the decimal literal of
/// `op` itself: the matched opcode in the generated text is the declared
/// position, nothing else.
pub proof fn lemma_arm_opcode_literal(r: Request, op: nat)
    ensures
        dispatch_arm_text(r, op).take(dec_str(op).len() as int) == dec_str(op),
{
    assert(dispatch_arm_text(r, op).take(dec_str(op).len() as int) =~= dec_str(op));
}

/// Generation is deterministic: the emitted unit is a function of the
/// protocol model alone, so regenerating from an unchanged schema
/// reproduces identical text, and with it identical opcodes.
pub proof fn lemma_generation_stable(p1: Protocol, p2: Protocol)
    requires
        p1 == p2,
    ensures
        protocol_text(p1) == protocol_text(p2),
{
}

} // verus!
