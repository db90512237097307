//! The strength of the wireless link, as the kernel's wireless status table reports it.
use crate::text::{nth_field, nth_field_of, nth_line, nth_line_of, parse_i32, parse_i32_text, remove_char, without_char};
use vstd::prelude::*;

verus! {

/// The text of the link quality in a wireless status table: the fourth field of its third
/// line (after the two header lines), when the table has a third line.
pub open spec fn strength_text(table: Seq<char>) -> Option<Option<Seq<char>>> {
    match nth_line(table, 2) {
        Some(line) => Some(nth_field(line, 3)),
        None => None,
    }
}

/// A table whose third line, if any, holds a link quality that reads as a number once its
/// dots are taken out.
pub open spec fn strength_readable(table: Seq<char>) -> bool {
    strength_text(table) matches Some(field) ==> (field matches Some(f) && parse_i32_text(without_char(f, '.')) is Some)
}

/// Whether the link quality of a wireless status table can be read.
pub fn ssid_strength_readable(table: &str) -> (r: bool)
    ensures
        r == strength_readable(table@),
{
    match nth_line_of(table, 2) {
        None => true,
        Some(line) => match nth_field_of(line.as_str(), 3) {
            None => false,
            Some(field) => {
                let digits = remove_char(field.as_str(), '.');
                parse_i32(digits.as_str()).is_some()
            },
        },
    }
}

/// The strength of the wireless link from the wireless status table (`None` when it could
/// not be read, which gives 0): the link quality of its first interface, its dots taken
/// out; -1 when no interface is listed.
pub fn get_curret_ssid_strength(table: Option<&str>) -> (r: i32)
    requires
        table matches Some(t) ==> strength_readable(t@),
    ensures
        match table {
            None => r == 0,
            Some(t) => match strength_text(t@) {
                None => r == -1,
                Some(field) => parse_i32_text(without_char(field.unwrap(), '.')) == Some(r),
            },
        },
{
    match table {
        None => 0,
        Some(t) => match nth_line_of(t, 2) {
            None => -1,
            Some(line) => match nth_field_of(line.as_str(), 3) {
                Some(field) => {
                    let digits = remove_char(field.as_str(), '.');
                    match parse_i32(digits.as_str()) {
                        Some(v) => v,
                        None => -1,
                    }
                },
                None => -1,
            },
        },
    }
}

} // verus!
