//! Deciding where a job's result goes: next to the source, suffixed, and never
//! onto a name that already exists or onto the source itself.

use crate::paths::{path_eq, path_eq_of, path_file_stem, path_file_stem_of, path_join, path_join_of, path_parent, path_parent_of};
use crate::text::{dec, decimal, owned};
use vstd::prelude::*;

verus! {

/// The directory the output goes to: the input's parent, or `.`.
pub open spec fn out_dir(input: Seq<char>) -> Seq<char> {
    match path_parent_of(input) {
        Some(d) => d,
        None => "."@,
    }
}

/// The input's file stem, or `output` when it has none.
pub open spec fn out_stem(input: Seq<char>) -> Seq<char> {
    match path_file_stem_of(input) {
        Some(s) => s,
        None => "output"@,
    }
}

/// `stem`, or `stem-suffix` when `suffix` is not empty.
pub open spec fn out_base(stem: Seq<char>, suffix: Seq<char>) -> Seq<char> {
    if suffix.len() == 0 {
        stem
    } else {
        stem + "-"@ + suffix
    }
}

/// The file name tried at step `k`: `base.ext`, then `base-1.ext`, `base-2.ext`, …
pub open spec fn candidate_name(base: Seq<char>, k: nat, ext: Seq<char>) -> Seq<char> {
    if k == 0 {
        base + "."@ + ext
    } else {
        base + "-"@ + dec(k) + "."@ + ext
    }
}

/// The path tried at step `k` for `input`.
pub open spec fn candidate(input: Seq<char>, suffix: Seq<char>, ext: Seq<char>, k: nat) -> Seq<char> {
    path_join_of(
        out_dir(input),
        candidate_name(out_base(out_stem(input), suffix), k, ext),
    )
}

/// `path_exists` answered `answer` when asked about `path`.
pub open spec fn reported<F: Fn(&str) -> bool>(path_exists: F, path: Seq<char>, answer: bool) -> bool {
    exists|p: &str| p@ == path && path_exists.ensures((p,), answer)
}

/// The candidate at step `k` is unusable: it is the source, or `path_exists`
/// reported it taken.
pub open spec fn step_taken<F: Fn(&str) -> bool>(
    input: Seq<char>,
    suffix: Seq<char>,
    ext: Seq<char>,
    path_exists: F,
    k: nat,
) -> bool {
    let c = candidate(input, suffix, ext, k);
    path_eq_of(c, input) || reported(path_exists, c, true)
}

/// `out` is the name `output_path_with` settles on: the first candidate that
/// is not the source and that `path_exists` reported free.
pub open spec fn chosen_output<F: Fn(&str) -> bool>(
    input: Seq<char>,
    suffix: Seq<char>,
    ext: Seq<char>,
    path_exists: F,
    out: Seq<char>,
) -> bool {
    exists|k: nat|
        {
            &&& k <= u32::MAX
            &&& out == candidate(input, suffix, ext, k)
            &&& !path_eq_of(out, input)
            &&& reported(path_exists, out, false)
            &&& forall|j: nat| j < k ==> step_taken(input, suffix, ext, path_exists, j)
        }
}

/// Every candidate up to counter `u32::MAX` is unusable.
pub open spec fn all_taken<F: Fn(&str) -> bool>(
    input: Seq<char>,
    suffix: Seq<char>,
    ext: Seq<char>,
    path_exists: F,
) -> bool {
    forall|k: nat| k <= u32::MAX ==> step_taken(input, suffix, ext, path_exists, k)
}

/// The chosen output is never the source and was reported free; it is one of
/// the candidates next to the source; and when the plain name (no counter)
/// is usable, it is the one chosen.
pub proof fn lemma_output_never_source<F: Fn(&str) -> bool>(
    input: Seq<char>,
    suffix: Seq<char>,
    ext: Seq<char>,
    path_exists: F,
    out: Seq<char>,
)
    requires
        chosen_output(input, suffix, ext, path_exists, out),
    ensures
        !path_eq_of(out, input),
        reported(path_exists, out, false),
        exists|k: nat| k <= u32::MAX && out == #[trigger] candidate(input, suffix, ext, k),
        !step_taken(input, suffix, ext, path_exists, 0) ==> out == candidate(
            input,
            suffix,
            ext,
            0,
        ),
{
    let k = choose|k: nat|
        {
            &&& k <= u32::MAX
            &&& out == candidate(input, suffix, ext, k)
            &&& !path_eq_of(out, input)
            &&& reported(path_exists, out, false)
            &&& forall|j: nat| j < k ==> step_taken(input, suffix, ext, path_exists, j)
        };
    assert(out == candidate(input, suffix, ext, k));
    if !step_taken(input, suffix, ext, path_exists, 0) {
        assert(k == 0);
    }
}

/// The file stem with the suffix appended after a dash (when there is one).
pub fn output_base(stem: &str, suffix: &str) -> (r: String)
    ensures
        r@ == out_base(stem@, suffix@),
{
    let mut r = owned(stem);
    if suffix.is_empty() {
        r
    } else {
        r.append("-");
        r.append(suffix);
        r
    }
}

/// The file name tried at step `k`.
pub fn candidate_file_name(base: &str, k: u32, ext: &str) -> (r: String)
    ensures
        r@ == candidate_name(base@, k as nat, ext@),
{
    let mut r = owned(base);
    if k > 0 {
        r.append("-");
        let n = decimal(k as u64);
        r.append(n.as_str());
    }
    r.append(".");
    r.append(ext);
    r
}

/// Build an output path next to `input`.
///
/// - `suffix`: appended to the stem with a leading dash, or empty for none
///   (`clip` + `compressed` → `clip-compressed`).
/// - `new_ext`: extension without the dot, e.g. `"mp4"`.
///
/// If a candidate already exists (as `path_exists` reports) or is the source itself,
/// a `-1`, `-2`, … counter is appended until a free name is found. `None` only
/// when every counter up to `u32::MAX` is taken.
pub fn output_path_with<F: Fn(&str) -> bool>(
    input: &str,
    suffix: &str,
    new_ext: &str,
    path_exists: &F,
) -> (r: Option<String>)
    requires
        forall|p: &str| path_exists.requires((p,)),
    ensures
        match r {
            Some(out) => chosen_output(input@, suffix@, new_ext@, *path_exists, out@),
            None => all_taken(input@, suffix@, new_ext@, *path_exists),
        },
{
    let dir = match path_parent(input) {
        Some(d) => d,
        None => owned("."),
    };
    let stem = match path_file_stem(input) {
        Some(s) => s,
        None => owned("output"),
    };
    let base = output_base(stem.as_str(), suffix);
    let mut counter: u32 = 0;
    loop
        invariant
            forall|p: &str| path_exists.requires((p,)),
            dir@ == out_dir(input@),
            base@ == out_base(out_stem(input@), suffix@),
            forall|j: nat| j < counter ==> step_taken(input@, suffix@, new_ext@, *path_exists, j),
        decreases u32::MAX - counter,
    {
        let name = candidate_file_name(base.as_str(), counter, new_ext);
        let cand = path_join(dir.as_str(), name.as_str());
        assert(cand@ == candidate(input@, suffix@, new_ext@, counter as nat));
        let same = path_eq(cand.as_str(), input);
        if !same {
            let c = cand.as_str();
            let taken = path_exists(c);
            if !taken {
                assert(reported(*path_exists, cand@, false));
                assert(chosen_output(input@, suffix@, new_ext@, *path_exists, cand@));
                return Some(cand);
            }
            assert(reported(*path_exists, cand@, true));
        }
        assert(step_taken(input@, suffix@, new_ext@, *path_exists, counter as nat));
        if counter == u32::MAX {
            assert forall|k: nat| k <= u32::MAX implies step_taken(
                input@,
                suffix@,
                new_ext@,
                *path_exists,
                k,
            ) by {
                if k < counter {
                }
            }
            return None;
        }
        counter = counter + 1;
    }
}

} // verus!
