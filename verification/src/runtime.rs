use crate::terms::MAGO_BIN_DEFAULT;
use crate::text::{is_blank, is_blank_text};
use vstd::prelude::*;

verus! {

/// The binary to start: the configured one unless it is missing or nothing
/// but whitespace, in which case the default.
pub open spec fn binary_choice(configured: Option<Seq<char>>, default: Seq<char>) -> Seq<char> {
    match configured {
        Some(v) => if is_blank(v) {
            default
        } else {
            v
        },
        None => default,
    }
}

/// Chooses between a configured binary and the default (see `binary_choice`).
pub fn binary_or_default(configured: Option<String>, default: &str) -> (binary: String)
    ensures
        binary@ == binary_choice(configured.deep_view(), default@),
{
    match configured {
        Some(v) => if is_blank_text(v.as_str()) {
            String::from_str(default)
        } else {
            v
        },
        None => String::from_str(default),
    }
}

/// The Mago executable for checks, given the value of `MAGO_BIN` (`None`
/// where it is unset or not Unicode): that value unless it is blank,
/// otherwise `mago`.
pub fn resolve_mago_bin(configured: Option<String>) -> (binary: String)
    ensures
        binary@ == binary_choice(configured.deep_view(), MAGO_BIN_DEFAULT@),
{
    binary_or_default(configured, MAGO_BIN_DEFAULT)
}

/// The chosen binary is never blank when the default is not: a blank
/// configuration falls back on the default.
pub proof fn lemma_binary_not_blank(configured: Option<Seq<char>>, default: Seq<char>)
    requires
        !is_blank(default),
    ensures
        !is_blank(binary_choice(configured, default)),
{
}

} // verus!
