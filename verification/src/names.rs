//! Identifier normalization: schema identifiers, written in an arbitrary
//! separator and case convention, are mapped to type-name (PascalCase),
//! member-name (snake_case), constant (SHOUTY_SNAKE_CASE), and title-cased
//! prose styles. The case conversions themselves come from the `heck` crate;
//! each result is a pure function of the input characters, named by an
//! uninterpreted spec function. Entry names that begin with a digit are not
//! valid identifiers on their own, so the owning enum's name is prefixed
//! before casing.

use vstd::prelude::*;
use vstd::string::StringExecFns;
use vstd::string::StrSliceExecFns;
use crate::text::push_char;

verus! {

pub uninterp spec fn snake_of(s: Seq<char>) -> Seq<char>;

pub uninterp spec fn pascal_of(s: Seq<char>) -> Seq<char>;

pub uninterp spec fn shouty_of(s: Seq<char>) -> Seq<char>;

pub uninterp spec fn title_of(s: Seq<char>) -> Seq<char>;

/// Relies on heck::ToSnakeCase::to_snake_case: the snake_case form of an
/// identifier, a function of its characters alone.
#[verifier::external_body]
pub(crate) fn to_snake(s: &str) -> (r: String)
    ensures
        r@ == snake_of(s@),
{
    heck::ToSnakeCase::to_snake_case(s)
}

/// Relies on heck::ToPascalCase::to_pascal_case: the PascalCase form of an
/// identifier, a function of its characters alone.
#[verifier::external_body]
pub(crate) fn to_pascal(s: &str) -> (r: String)
    ensures
        r@ == pascal_of(s@),
{
    heck::ToPascalCase::to_pascal_case(s)
}

/// Relies on heck::ToShoutySnakeCase::to_shouty_snake_case: the
/// SHOUTY_SNAKE_CASE form of an identifier, a function of its characters
/// alone.
#[verifier::external_body]
pub(crate) fn to_shouty(s: &str) -> (r: String)
    ensures
        r@ == shouty_of(s@),
{
    heck::ToShoutySnakeCase::to_shouty_snake_case(s)
}

/// Relies on heck::ToTitleCase::to_title_case: the Title Case form of a
/// text, a function of its characters alone.
#[verifier::external_body]
pub(crate) fn to_title(s: &str) -> (r: String)
    ensures
        r@ == title_of(s@),
{
    heck::ToTitleCase::to_title_case(s)
}

/// Whether an identifier begins with a decimal digit.
pub open spec fn leading_digit(s: Seq<char>) -> bool {
    s.len() > 0 && ('0' as u32) <= (s[0] as u32) && (s[0] as u32) <= ('9' as u32)
}

/// The constant-style identifier for an enum entry: entry names that begin
/// with a digit are prefixed with the owning enum's name and an underscore
/// before casing, all others are cased as they stand.
pub open spec fn const_name_of(enum_name: Seq<char>, entry_name: Seq<char>) -> Seq<char> {
    if leading_digit(entry_name) {
        shouty_of(enum_name + seq!['_'] + entry_name)
    } else {
        shouty_of(entry_name)
    }
}

/// The constant-style identifier for the entry `entry_name` of the enum
/// `enum_name`.
pub fn entry_const_name(enum_name: &str, entry_name: &str) -> (r: String)
    ensures
        r@ == const_name_of(enum_name@, entry_name@),
{
    let starts_digit = if entry_name.is_empty() {
        false
    } else {
        let c = entry_name.get_char(0);
        ('0' as u32) <= (c as u32) && (c as u32) <= ('9' as u32)
    };
    if starts_digit {
        let mut prefixed = String::from_str(enum_name);
        push_char(&mut prefixed, '_');
        prefixed.append(entry_name);
        proof {
            assert(prefixed@ =~= enum_name@ + seq!['_'] + entry_name@);
        }
        to_shouty(prefixed.as_str())
    } else {
        to_shouty(entry_name)
    }
}

} // verus!
