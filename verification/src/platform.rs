//! The kind of system that the library works for: what separates the components of a path there.

use vstd::prelude::*;

verus! {

/// The kind of a system.
#[derive(Debug, Clone, Copy, PartialEq, Eq, Structural)]
pub enum Platform {
    Unix,
    Windows,
}

/// Whether a character separates the components of a path.
pub open spec fn separates(platform: Platform, c: char) -> bool {
    c == '/' || (platform == Platform::Windows && c == '\\')
}

/// Whether a character separates the components of a path.
pub fn is_separator(platform: Platform, c: char) -> (r: bool)
    ensures
        r == separates(platform, c),
{
    c == '/' || (platform == Platform::Windows && c == '\\')
}

/// The separator that is written between components.
pub open spec fn separator(platform: Platform) -> char {
    match platform {
        Platform::Unix => '/',
        Platform::Windows => '\\',
    }
}

/// The separator that is written between components.
pub fn main_separator(platform: Platform) -> (r: char)
    ensures
        r == separator(platform),
{
    match platform {
        Platform::Unix => '/',
        Platform::Windows => '\\',
    }
}

/// `std::path::is_separator` says whether a character separates the components of a path on the
/// machine that the program runs on. A slash does on every machine; nothing is said of others.
#[verifier::external_body]
fn separates_here(c: char) -> (r: bool)
    ensures
        c == '/' ==> r,
{
    std::path::is_separator(c)
}

/// The platform of a machine, from whether a backslash separates the components of a path there.
pub open spec fn platform_of(backslash_separates: bool) -> Platform {
    if backslash_separates {
        Platform::Windows
    } else {
        Platform::Unix
    }
}

/// The platform of a machine, from whether a backslash separates the components of a path there.
pub fn platform_with(backslash_separates: bool) -> (r: Platform)
    ensures
        r == platform_of(backslash_separates),
{
    if backslash_separates {
        Platform::Windows
    } else {
        Platform::Unix
    }
}

/// The platform of the machine that the program runs on. Which one that is, is left open.
pub(crate) fn here() -> (r: Platform) {
    platform_with(separates_here('\\'))
}

} // verus!
