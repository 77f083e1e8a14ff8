//! The notification sentence for the chosen window.

use vstd::prelude::*;
use vstd::string::*;

verus! {

/// Composes the outbound message: the fixed sentence with the two formatted
/// local times of the cheapest window filled in.
pub fn format_message(valid_from: &String, valid_to: &String) -> (r: String)
    ensures
        r@ == "The cheapest hour for the Agile Octopus tariff tomorrow is between "@
            + valid_from@ + " and "@ + valid_to@ + "."@,
{
    let mut m = String::from_str(
        "The cheapest hour for the Agile Octopus tariff tomorrow is between ",
    );
    m.append(valid_from.as_str());
    m.append(" and ");
    m.append(valid_to.as_str());
    m.append(".");
    m
}

} // verus!
