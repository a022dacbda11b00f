use crate::paths::{extension_of, path_extension};
use vstd::prelude::*;

verus! {

/// True iff the path's extension is exactly `json`.
pub fn is_json_file(file: &str) -> (r: bool)
    ensures
        r == (extension_of(file@) == Some("json"@)),
{
    match path_extension(file) {
        Some(e) => {
            let json = String::from_str("json");
            proof { reveal_strlit("json"); }
            e == json
        },
        None => false,
    }
}

} // verus!
