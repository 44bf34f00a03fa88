//! Filling the column name into the single-column update statement.

use std::collections::HashMap;
use vstd::prelude::*;

verus! {

#[verifier::external_type_specification]
#[verifier::external_body]
pub struct ExFmtError(strfmt::FmtError);

/// What `strfmt::strfmt` makes of `template` when its only variable, `name`,
/// is set to `value`; `None` where it reports an error.
pub uninterp spec fn strfmt_one(template: Seq<char>, name: Seq<char>, value: Seq<char>) -> Option<Seq<char>>;

/// Relies on `strfmt::strfmt`, which formats `template` from a map of
/// variables; here the map holds `name` set to `value`, and nothing else.
/// Its result depends on the three strings alone.
#[verifier::external_body]
pub(crate) fn fill_template(template: &str, name: &str, value: &str) -> (r: Result<String, strfmt::FmtError>)
    ensures
        r is Ok <==> strfmt_one(template@, name@, value@) is Some,
        r is Ok ==> strfmt_one(template@, name@, value@) == Some(r->Ok_0@),
{
    let mut vars: HashMap<String, String> = HashMap::new();
    vars.insert(name.to_string(), value.to_string());
    strfmt::strfmt(template, &vars)
}

} // verus!
