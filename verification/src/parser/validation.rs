use vstd::prelude::*;

verus! {

/// An ASCII letter or digit.
pub open spec fn ascii_alphanumeric(c: char) -> bool {
    ('a' <= c && c <= 'z') || ('A' <= c && c <= 'Z') || ('0' <= c && c <= '9')
}

/// The names of Vim registers.
pub open spec fn valid_register(c: char) -> bool {
    ascii_alphanumeric(c) || c == '"' || c == '-' || c == '_' || c == '+' || c == '*'
        || c == '~' || c == '=' || c == '/' || c == ':' || c == '.' || c == '%' || c == '#'
}

/// Returns true if the character is a valid Vim register name.
/// Valid registers include:
/// - Named / Append: 'a'..='z', 'A'..='Z'
/// - Numbered: '0'..='9'
/// - Special: '"' (unnamed), '-' (small delete), '_' (black hole),
///   '+', '*' (clipboard), '~' (drop), '=', '/', ':', '.', '%', '#'
pub fn is_valid_register(c: char) -> (r: bool)
    ensures
        r == valid_register(c),
{
    let alphanumeric = ('a' <= c && c <= 'z') || ('A' <= c && c <= 'Z') || ('0' <= c && c <= '9');
    alphanumeric || match c {
        '"' | '-' | '_' | '+' | '*' | '~' | '=' | '/' | ':' | '.' | '%' | '#' => true,
        _ => false,
    }
}

} // verus!
