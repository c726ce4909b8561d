use vstd::prelude::*;

verus! {

/// The last component of the path `p`, as `std::path::Path::file_name` gives it, when that is
/// valid Unicode.
pub uninterp spec fn path_file_name(p: Seq<char>) -> Option<Seq<char>>;

/// Relies on `std::path::Path::file_name`: the final component of the path, if there is one,
/// which depends on the path's text alone.
#[verifier::external_body]
pub(crate) fn file_name_of(p: &str) -> (r: Option<String>)
    ensures
        match r {
            Some(n) => path_file_name(p@) == Some(n@),
            None => path_file_name(p@) is None,
        },
{
    match std::path::Path::new(p).file_name() {
        Some(n) => n.to_str().map(String::from),
        None => None,
    }
}

} // verus!
