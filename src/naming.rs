use vstd::prelude::*;
use crate::error::BuildError;

verus! {

/// Whether a name holds an underscore anywhere.
pub open spec fn has_underscore(s: Seq<char>) -> bool {
    exists|i: int| 0 <= i < s.len() && s[i] == '_'
}

/// Checks the plugin-naming convention: a name with an underscore is refused,
/// any other name is handed back unchanged.
pub fn validate_plugin_name(name: &str) -> (r: Result<String, BuildError>)
    ensures
        has_underscore(name@) <==> r is Err,
        r is Err ==> r == Err::<String, BuildError>(BuildError::CrateName),
        r matches Ok(s) ==> s@ == name@,
{
    let n = name.unicode_len();
    let mut i: usize = 0;
    while i < n
        invariant
            n == name@.len(),
            i <= n,
            forall|k: int| 0 <= k < i ==> name@[k] != '_',
        decreases n - i,
    {
        if name.get_char(i) == '_' {
            return Err(BuildError::CrateName);
        }
        i = i + 1;
    }
    Ok(String::from_str(name))
}

} // verus!
