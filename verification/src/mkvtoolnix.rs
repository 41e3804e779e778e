//! The demuxer/muxer tool adapter: tool paths and the classification of exit
//! codes into success and hard failure.

use vstd::prelude::*;
use vstd::string::StringExecFns;

use crate::utils;

verus! {

broadcast use vstd::string::group_string_axioms;

/// The full path of one of the toolkit's programs.
pub open spec fn exe_path_spec(dir: Seq<char>, exe: Seq<char>) -> Seq<char> {
    utils::push_segment_spec(dir, exe + ".exe"@)
}

/// The path of a toolkit program below its installation directory.
pub fn get_exe(exe: &str, mkvtoolnix_dir: &str) -> (r: String)
    ensures
        r@ == exe_path_spec(mkvtoolnix_dir@, exe@),
{
    let mut name = exe.to_owned();
    name.append(".exe");
    let mut segs: Vec<String> = Vec::new();
    segs.push(name);
    let out = utils::join_path_segments(mkvtoolnix_dir, &segs);
    proof {
        assert(segs.deep_view() =~= seq![exe@ + ".exe"@]);
        assert(utils::join_segments_spec(mkvtoolnix_dir@, segs.deep_view(), 0)
            == utils::join_segments_spec(
            utils::push_segment_spec(mkvtoolnix_dir@, exe@ + ".exe"@),
            segs.deep_view(),
            1,
        ));
    }
    out
}

/// Classify a demuxer or muxer exit code: 0 is success, 1 a soft failure
/// treated as success, 2 (also used when the tool cannot be launched) a hard
/// failure; anything else is tolerated.
pub fn tool_exit_success(code: i32) -> (r: bool)
    ensures
        r == (code != 2),
{
    code != 2
}

} // verus!
