//! The version that a `dd` binary reports of itself.
use crate::decimal::{parse_u16, u16_of};
use crate::text::{chars_of, contents, split, split_at, tokenize, tokens, Delimiter};
use vstd::prelude::*;

verus! {

/// One component of a version, as `part` writes it: the number that it writes
/// or, where it writes none, zero.
pub open spec fn component(part: Seq<char>) -> u16 {
    match u16_of(part) {
        Some(n) => n,
        None => 0,
    }
}

/// The version that `report` gives as major and minor number. It is the third
/// token of the report, which a single `.` must divide in two: a report with
/// fewer tokens, or with a third token that `.` divides otherwise, gives none.
pub open spec fn version_of(report: Seq<char>) -> Option<(u16, u16)> {
    let toks = tokens(report);
    if toks.len() < 3 {
        None
    } else {
        let parts = split(toks[2], Delimiter::Char('.'));
        if parts.len() == 2 {
            Some((component(parts[0]), component(parts[1])))
        } else {
            None
        }
    }
}

/// Whether `version` comes before `than`: the major numbers decide, and
/// between equal ones the minor numbers.
pub open spec fn older(version: (u16, u16), than: (u16, u16)) -> bool {
    version.0 < than.0 || (version.0 == than.0 && version.1 < than.1)
}

/// Reads one component of a version.
fn parse_component(part: &Vec<char>) -> (n: u16)
    ensures
        n == component(part@),
{
    match parse_u16(part) {
        Some(n) => n,
        None => 0,
    }
}

/// Reads the version out of `report`.
pub fn parse_version(report: &str) -> (version: Option<(u16, u16)>)
    ensures
        version == version_of(report@),
{
    let chars = chars_of(report);
    let toks = tokenize(&chars);
    if toks.len() < 3 {
        return None;
    }
    let parts = split_at(&toks[2], Delimiter::Char('.'));
    if parts.len() != 2 {
        return None;
    }
    Some((parse_component(&parts[0]), parse_component(&parts[1])))
}

/// Tells whether `version` comes before `than`.
pub fn is_older(version: (u16, u16), than: (u16, u16)) -> (b: bool)
    ensures
        b == older(version, than),
{
    version.0 < than.0 || (version.0 == than.0 && version.1 < than.1)
}

} // verus!
