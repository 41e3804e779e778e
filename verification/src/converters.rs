//! The encoder adapter: argument lists for plain remuxing and the
//! classification of encoder exit codes.

use vstd::prelude::*;
use vstd::string::StringExecFns;

verus! {

/// The encoder arguments for remuxing a file into another container without
/// re-encoding.
pub open spec fn remux_args_spec(file_in: Seq<char>, file_out: Seq<char>) -> Seq<Seq<char>> {
    seq!["-i"@, file_in, "-c"@, "copy"@, file_out]
}

/// Build the encoder arguments for a basic remux of an input file.
pub fn remux_media_file_args(file_in: &str, file_out: &str) -> (r: Vec<String>)
    ensures
        r.deep_view() == remux_args_spec(file_in@, file_out@),
{
    let mut args: Vec<String> = Vec::new();
    args.push("-i".to_owned());
    args.push(file_in.to_owned());
    args.push("-c".to_owned());
    args.push("copy".to_owned());
    args.push(file_out.to_owned());
    assert(args.deep_view() =~= remux_args_spec(file_in@, file_out@));
    args
}

/// Classify an encoder exit code: only a clean zero exit counts as success;
/// a failed launch is reported as the failure code 1.
pub fn ffmpeg_exit_success(code: i32) -> (r: bool)
    ensures
        r == (code == 0),
{
    code == 0
}

} // verus!
