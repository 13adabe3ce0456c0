//! Conversion of an uploaded file to an image with the `convert` tool: the
//! command line and where the result is read from.
use vstd::prelude::*;
use crate::common::domain::ServiceError;
use crate::common::util::{is_hyphenated_uuid, IdGenerator};
use crate::path::{join, joined, renamed, renamed_file_name};
use crate::text::{text_concat, text_concat3};
use crate::upload::ConvertType;

verus! {

/// The arguments given to `convert`: the input path, then the target
/// format written to standard output (`png:-`).
pub fn convert_args(input_path: &str, ct: &ConvertType) -> (r: Vec<String>)
    ensures
        r@.len() == 2,
        r@[0]@ == input_path@,
        ct is Png ==> r@[1]@ == "png:-"@,
{
    let mut args: Vec<String> = Vec::new();
    args.push(String::from_str(input_path));
    args.push(text_concat(ct.to_str(), ":-"));
    proof {
        reveal_strlit("png");
        reveal_strlit(":-");
        reveal_strlit("png:-");
        assert("png"@ + ":-"@ =~= "png:-"@);
    }
    args
}

/// A fresh working directory under `tmp_root`, named by a new UUID.
pub fn conversion_dir(tmp_root: &str) -> (r: String)
    ensures
        exists|id: Seq<char>| is_hyphenated_uuid(id) && r@ == joined(tmp_root@, id),
{
    let id = IdGenerator.get();
    let r = join(tmp_root, id.as_str());
    assert(is_hyphenated_uuid(id@) && r@ == joined(tmp_root@, id@));
    r
}

/// Where the converted image is read from: in `temp_dir`, the final
/// component of `input_path` with its extension replaced by the target
/// format's; an error `no file name` when the input path has no final
/// component.
pub fn converted_output_path(temp_dir: &str, input_path: &str, ct: &ConvertType) -> (r: Result<String, ServiceError>)
    ensures
        ct is Png ==> match renamed_file_name(input_path@, "png"@) {
            Some(n) => r matches Ok(p) && p@ == temp_dir@ + "/"@ + n,
            None => r matches Err(e) && e.0@ == "no file name"@,
        },
{
    let ext = ct.to_str();
    proof {
        reveal_strlit("png");
    }
    match renamed(input_path, ext) {
        Some(n) => Ok(text_concat3(temp_dir, "/", n.as_str())),
        None => Err(ServiceError::new("no file name")),
    }
}

/// The error reported when `convert` fails, quoting its outputs.
pub fn conversion_failure(stdout: &str, stderr: &str) -> (r: ServiceError)
    ensures
        r.0@ == "error! stdout: "@ + stdout@ + "\nstderr: "@ + stderr@,
{
    let a = text_concat("error! stdout: ", stdout);
    ServiceError(text_concat3(a.as_str(), "\nstderr: ", stderr))
}

} // verus!
