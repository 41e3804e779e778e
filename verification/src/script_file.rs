//! Temporary script files: randomly named files below a media file's private
//! scripts directory.

use vstd::prelude::*;
use vstd::string::StringExecFns;

use crate::strutil::dec_spec;
use crate::utils;

verus! {

broadcast use vstd::string::group_string_axioms;

/// An ASCII letter or decimal digit.
pub open spec fn is_ascii_alnum(c: char) -> bool {
    (('a' as u32) <= c as u32 && c as u32 <= ('z' as u32)) || (('A' as u32) <= c as u32 && c as u32
        <= ('Z' as u32)) || (('0' as u32) <= c as u32 && c as u32 <= ('9' as u32))
}

/// Relies on rand's Alphanumeric distribution: sampling a string of length 16
/// yields 16 ASCII alphanumeric characters, whatever they are — in particular
/// no separators and no dots.
#[verifier::external_body]
fn random_alphanumeric16() -> (r: String)
    ensures
        r@.len() == 16,
        forall|k: int| 0 <= k < r@.len() ==> is_ascii_alnum(#[trigger] r@[k]),
{
    rand::distr::SampleString::sample_string(&rand::distr::Alphanumeric, &mut rand::rng(), 16)
}

/// A temporary script file below a media file's scripts directory.
pub struct ScriptFile {
    pub path: String,
}

impl ScriptFile {
    /// Generate a random batch file name ending in the given purpose marker.
    /// The name starts with sixteen random alphanumeric characters.
    pub fn generate_random_file_name(postfix: &str) -> (r: String)
        ensures
            r@.len() == 16 + 1 + postfix@.len() + 4,
            r@.skip(16) == "-"@ + postfix@ + ".bat"@,
            forall|k: int| 0 <= k < 16 ==> is_ascii_alnum(#[trigger] r@[k]),
    {
        let mut name = random_alphanumeric16();
        name.append("-");
        name.append(postfix);
        name.append(".bat");
        proof {
            reveal_strlit("-");
            reveal_strlit(".bat");
            assert(name@.skip(16) =~= "-"@ + postfix@ + ".bat"@);
        }
        name
    }

    /// Generate a temporary script file path below the media file's private
    /// scripts directory: a randomly named batch file.
    pub fn generate_temp_file_path(file_id: usize, postfix: &str, temp_base: &str) -> (r: String)
        ensures
            ({
                let dir = utils::push_segment_spec(
                    utils::push_segment_spec(temp_base@, dec_spec(file_id as int)),
                    "scripts"@,
                );
                exists|name: Seq<char>|
                    {
                        &&& #[trigger] r@ == utils::push_segment_spec(dir, name)
                        &&& name.len() == 16 + 1 + postfix@.len() + 4
                        &&& name.skip(16) == "-"@ + postfix@ + ".bat"@
                    }
            }),
    {
        let id_str = crate::strutil::usize_to_string(file_id);
        let name = ScriptFile::generate_random_file_name(postfix);
        let ghost name_view = name@;
        let mut segs: Vec<String> = Vec::new();
        segs.push(id_str);
        segs.push("scripts".to_owned());
        segs.push(name);
        let out = utils::join_path_segments(temp_base, &segs);
        proof {
            assert(segs.deep_view() =~= seq![dec_spec(file_id as int), "scripts"@, name_view]);
            let d1 = utils::push_segment_spec(temp_base@, dec_spec(file_id as int));
            let d2 = utils::push_segment_spec(d1, "scripts"@);
            let d3 = utils::push_segment_spec(d2, name_view);
            assert(utils::join_segments_spec(temp_base@, segs.deep_view(), 0)
                == utils::join_segments_spec(d1, segs.deep_view(), 1));
            assert(utils::join_segments_spec(d1, segs.deep_view(), 1) == utils::join_segments_spec(
                d2,
                segs.deep_view(),
                2,
            ));
            assert(utils::join_segments_spec(d2, segs.deep_view(), 2) == utils::join_segments_spec(
                d3,
                segs.deep_view(),
                3,
            ));
            assert(out@ == d3);
        }
        out
    }

    /// Get the temporary file's path.
    pub fn get_path(&self) -> (r: &String)
        ensures
            r@ == self.path@,
    {
        &self.path
    }
}

} // verus!
