//! Which files qualify for upload: those whose guessed media type is a video type.

use vstd::prelude::*;

verus! {

/// The media type that `mime_guess` guesses first for a path, from its extension alone.
pub uninterp spec fn guessed_mime(path: Seq<char>) -> Option<Seq<char>>;

/// The prefix shared by all video media types.
pub open spec fn video_prefix() -> Seq<char> {
    seq!['v', 'i', 'd', 'e', 'o', '/']
}

/// A media type names a video when it starts with `video/`.
pub open spec fn is_video_type(mime: Seq<char>) -> bool {
    mime.len() >= video_prefix().len() && mime.subrange(0, video_prefix().len() as int)
        == video_prefix()
}

/// A path is eligible when its guessed media type is a video type.
pub open spec fn is_eligible_path(path: Seq<char>) -> bool {
    match guessed_mime(path) {
        Some(m) => is_video_type(m),
        None => false,
    }
}

/// Relies on `mime_guess::from_path(..).first()`: the first media type guessed from the
/// path's extension, written out as text, or none when the extension is unknown.
#[verifier::external_body]
fn first_mime(path: &str) -> (r: Option<String>)
    ensures
        match r {
            Some(m) => guessed_mime(path@) == Some(m@),
            None => guessed_mime(path@).is_none(),
        },
{
    mime_guess::from_path(path).first().map(|m| m.to_string())
}

/// Whether a media type, as text, is a video type.
pub fn is_video_mime(mime: &str) -> (r: bool)
    ensures
        r == is_video_type(mime@),
{
    let prefix = "video/";
    proof {
        reveal_strlit("video/");
    }
    assert(prefix@ == video_prefix());
    let n = mime.unicode_len();
    if n < 6 {
        return false;
    }
    let mut i: usize = 0;
    while i < 6
        invariant
            0 <= i <= 6,
            n == mime@.len(),
            n >= 6,
            prefix@ == video_prefix(),
            forall|j: int| 0 <= j < i ==> mime@[j] == video_prefix()[j],
        decreases 6 - i,
    {
        if mime.get_char(i) != prefix.get_char(i) {
            assert(mime@.subrange(0, 6)[i as int] != video_prefix()[i as int]);
            return false;
        }
        i = i + 1;
    }
    assert(mime@.subrange(0, 6) =~= video_prefix());
    true
}

/// Whether the file at `path` qualifies for upload.
pub fn is_video(path: &str) -> (r: bool)
    ensures
        r == is_eligible_path(path@),
{
    match first_mime(path) {
        Some(m) => is_video_mime(m.as_str()),
        None => false,
    }
}

/// The paths that qualify for upload, in their given order.
pub fn select_eligible(paths: &Vec<String>) -> (r: Vec<String>)
    ensures
        r@.map_values(|s: String| s@) == paths@.map_values(|s: String| s@).filter(
            |p: Seq<char>| is_eligible_path(p),
        ),
{
    let mut r: Vec<String> = Vec::new();
    let mut i: usize = 0;
    while i < paths.len()
        invariant
            0 <= i <= paths@.len(),
            r@.map_values(|s: String| s@) == paths@.subrange(0, i as int).map_values(
                |s: String| s@,
            ).filter(|p: Seq<char>| is_eligible_path(p)),
        decreases paths@.len() - i,
    {
        let keep = is_video(paths[i].as_str());
        proof {
            let f = |s: String| s@;
            let pred = |p: Seq<char>| is_eligible_path(p);
            let before = paths@.subrange(0, i as int).map_values(f);
            let after = paths@.subrange(0, i as int + 1).map_values(f);
            assert(after =~= before.push(paths@[i as int]@));
            assert(after.filter(pred) == if pred(paths@[i as int]@) {
                before.filter(pred).push(paths@[i as int]@)
            } else {
                before.filter(pred)
            }) by {
                reveal(Seq::filter);
                assert(after.drop_last() =~= before);
            }
        }
        if keep {
            r.push(paths[i].clone());
        }
        i = i + 1;
    }
    assert(paths@.subrange(0, paths@.len() as int) =~= paths@);
    r
}

} // verus!
