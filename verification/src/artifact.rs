//! Artifact discovery: which produced files count as the requested
//! target's output, and in what order the two kinds are tried.
//!
//! A library artifact is any file in the toolchain's dependency output
//! directory whose name has the library-archive extension and contains
//! `lib` followed by the target name (with `-` normalized to `_`, as the
//! toolchain writes it).  An executable artifact is a file named exactly
//! like the target in the main output directory.  Library artifacts are
//! preferred over executables by policy; among library candidates the
//! first in listing order wins.

use vstd::prelude::*;
use vstd::string::StrSliceExecFns;
use vstd::string::StringExecFns;

use crate::reply::ArtifactLabel;
use crate::reply::LabelModel;
use crate::text::contains_seq;
use crate::text::ends_with_seq;
use crate::text::occurs_at;

verus! {

/// The target name as it appears in produced file names: the toolchain
/// replaces `-` with `_`.
pub open spec fn normalized_target(t: Seq<char>) -> Seq<char> {
    t.map_values(|c: char| if c == '-' { '_' } else { c })
}

/// The substring a library artifact's file name must contain: `lib`
/// followed by the normalized target name.
pub open spec fn lib_needle(t: Seq<char>) -> Seq<char> {
    seq!['l', 'i', 'b'] + normalized_target(t)
}

/// The library-archive file extension, dot included.
pub open spec fn rlib_suffix() -> Seq<char> {
    seq!['.', 'r', 'l', 'i', 'b']
}

/// `name` is a library artifact produced for `target`: a non-empty stem
/// with the library-archive extension, containing `lib` plus the
/// normalized target name.
pub open spec fn rlib_matches(name: Seq<char>, target: Seq<char>) -> bool {
    &&& name.len() > rlib_suffix().len()
    &&& ends_with_seq(name, rlib_suffix())
    &&& contains_seq(name, lib_needle(target))
}

/// Some entry of `listing` is a library artifact for `target`.
pub open spec fn some_rlib_in(listing: Seq<Seq<char>>, target: Seq<char>) -> bool {
    exists|i: int| 0 <= i < listing.len() && rlib_matches(listing[i], target)
}

/// `i` is the first entry of `listing` that is a library artifact for
/// `target`.
pub open spec fn first_rlib_at(listing: Seq<Seq<char>>, target: Seq<char>, i: int) -> bool {
    &&& 0 <= i < listing.len()
    &&& rlib_matches(listing[i], target)
    &&& forall|j: int| 0 <= j < i ==> !rlib_matches(listing[j], target)
}

/// Index of the first library artifact in `listing`, or `listing.len()`
/// when there is none.
pub open spec fn first_rlib_index(listing: Seq<Seq<char>>, target: Seq<char>) -> int
    decreases listing.len(),
{
    if listing.len() == 0 {
        0
    } else if rlib_matches(listing[0], target) {
        0
    } else {
        1 + first_rlib_index(listing.drop_first(), target)
    }
}

/// `first_rlib_index` names the first match when one exists, and runs off
/// the end when none does.
pub proof fn lemma_first_rlib_index(listing: Seq<Seq<char>>, target: Seq<char>)
    ensures
        some_rlib_in(listing, target) ==> first_rlib_at(
            listing,
            target,
            first_rlib_index(listing, target),
        ),
        !some_rlib_in(listing, target) ==> first_rlib_index(listing, target)
            == listing.len(),
    decreases listing.len(),
{
    if listing.len() != 0 && !rlib_matches(listing[0], target) {
        let rest = listing.drop_first();
        lemma_first_rlib_index(rest, target);
        assert forall|i: int| 0 <= i < listing.len() && rlib_matches(listing[i], target)
            implies 0 <= i - 1 < rest.len() && rlib_matches(rest[i - 1], target) by {
            assert(rest[i - 1] == listing[i]);
        }
        if some_rlib_in(listing, target) {
            let w = choose|i: int| 0 <= i < listing.len() && rlib_matches(listing[i], target);
            assert(rlib_matches(rest[w - 1], target));
            assert(some_rlib_in(rest, target));
            let k = first_rlib_index(rest, target);
            assert forall|j: int| 0 <= j < 1 + k implies !rlib_matches(listing[j], target) by {
                if j > 0 {
                    assert(listing[j] == rest[j - 1]);
                }
            }
        } else {
            assert forall|i: int| 0 <= i < rest.len() implies !rlib_matches(rest[i], target) by {
                assert(rest[i] == listing[i + 1]);
            }
            assert(!some_rlib_in(rest, target));
        }
    }
}

/// The first match is unique: any index satisfying `first_rlib_at` is
/// `first_rlib_index`.
pub proof fn lemma_first_rlib_unique(listing: Seq<Seq<char>>, target: Seq<char>, i: int)
    requires
        first_rlib_at(listing, target, i),
    ensures
        i == first_rlib_index(listing, target),
{
    lemma_first_rlib_index(listing, target);
    let k = first_rlib_index(listing, target);
    assert(some_rlib_in(listing, target));
    if i < k {
        assert(rlib_matches(listing[i], target));
    } else if k < i {
        assert(rlib_matches(listing[k], target));
    }
}

/// The artifact chosen for `target` from a snapshot of the toolchain's
/// output: the first library artifact in the dependency listing if any,
/// else the executable if one is present, else nothing.
pub open spec fn select_model(
    listing: Seq<Seq<char>>,
    target: Seq<char>,
    exe_present: bool,
) -> Option<LabelModel> {
    if some_rlib_in(listing, target) {
        Some(LabelModel::LibraryArchive(listing[first_rlib_index(listing, target)]))
    } else if exe_present {
        Some(LabelModel::Executable(target))
    } else {
        None
    }
}

/// The view of an optional artifact label.
pub open spec fn opt_label_view(r: Option<ArtifactLabel>) -> Option<LabelModel> {
    match r {
        Some(l) => Some(l@),
        None => None,
    }
}

/// Decide whether one produced file name is a library artifact for
/// `target`.
pub fn is_matching_rlib(file_name: &str, target: &str) -> (r: bool)
    ensures
        r == rlib_matches(file_name@, target@),
{
    let n = file_name.unicode_len();
    let m = target.unicode_len();
    if n <= 5 {
        return false;
    }
    // The extension check: the last five characters are `.rlib`.
    if !(file_name.get_char(n - 5) == '.' && file_name.get_char(n - 4) == 'r'
        && file_name.get_char(n - 3) == 'l' && file_name.get_char(n - 2) == 'i'
        && file_name.get_char(n - 1) == 'b') {
        proof {
            let sfx = rlib_suffix();
            if ends_with_seq(file_name@, sfx) {
                let sub = file_name@.subrange(n - 5, n as int);
                assert(sub[0] == file_name@[n - 5] && sub[1] == file_name@[n - 4]
                    && sub[2] == file_name@[n - 3] && sub[3] == file_name@[n - 2]
                    && sub[4] == file_name@[n - 1]);
            }
        }
        return false;
    }
    proof {
        let sub = file_name@.subrange(n - 5, n as int);
        assert(sub =~= rlib_suffix());
    }
    if n < 3 || n - 3 < m {
        proof {
            assert forall|i: int| !occurs_at(file_name@, lib_needle(target@), i) by {
                assert(lib_needle(target@).len() == 3 + target@.len());
            }
        }
        return false;
    }
    let last_start: usize = n - 3 - m;
    let mut i: usize = 0;
    while i <= last_start
        invariant
            n == file_name@.len(),
            m == target@.len(),
            n >= 3 + m,
            last_start == n - 3 - m,
            i <= last_start + 1,
            forall|ii: int| 0 <= ii < i ==> !occurs_at(
                file_name@,
                lib_needle(target@),
                ii,
            ),
            name_is_rlib(file_name@),
        decreases last_start + 1 - i,
    {
        if file_name.get_char(i) == 'l' && file_name.get_char(i + 1) == 'i'
            && file_name.get_char(i + 2) == 'b' {
            let mut j: usize = 0;
            let mut mismatch: bool = false;
            while j < m
                invariant
                    n == file_name@.len(),
                    m == target@.len(),
                    n >= 3 + m,
                    i + 3 + m <= n,
                    j <= m,
                    !mismatch ==> forall|jj: int| 0 <= jj < j ==> file_name@[i + 3 + jj]
                        == normalized_target(target@)[jj],
                    mismatch ==> !occurs_at(file_name@, lib_needle(target@), i as int),
                decreases m - j,
            {
                let tc = target.get_char(j);
                let want: char = if tc == '-' {
                    '_'
                } else {
                    tc
                };
                if file_name.get_char(i + 3 + j) != want {
                    proof {
                        let needle = lib_needle(target@);
                        if occurs_at(file_name@, needle, i as int) {
                            let sub = file_name@.subrange(i as int, i + needle.len());
                            assert(sub[3 + j] == file_name@[i + 3 + j]);
                            assert(needle[3 + j] == normalized_target(target@)[j as int]);
                        }
                    }
                    mismatch = true;
                }
                j += 1;
            }
            if !mismatch {
                proof {
                    let needle = lib_needle(target@);
                    let sub = file_name@.subrange(i as int, i + needle.len());
                    assert forall|k: int| 0 <= k < needle.len() implies sub[k] == needle[k] by {
                        assert(sub[k] == file_name@[i + k]);
                        if k >= 3 {
                            assert(needle[k] == normalized_target(target@)[k - 3]);
                            assert(file_name@[i + 3 + (k - 3)] == normalized_target(
                                target@,
                            )[k - 3]);
                        }
                    }
                    assert(sub =~= needle);
                    assert(occurs_at(file_name@, needle, i as int));
                }
                return true;
            }
        } else {
            proof {
                let needle = lib_needle(target@);
                if occurs_at(file_name@, needle, i as int) {
                    let sub = file_name@.subrange(i as int, i + needle.len());
                    assert(sub[0] == file_name@[i as int] && sub[1] == file_name@[i + 1]
                        && sub[2] == file_name@[i + 2]);
                }
            }
        }
        i += 1;
    }
    proof {
        assert forall|ii: int| !occurs_at(file_name@, lib_needle(target@), ii) by {
            assert(lib_needle(target@).len() == 3 + target@.len());
        }
    }
    false
}

/// `name` carries the library-archive extension over a non-empty stem.
pub open spec fn name_is_rlib(name: Seq<char>) -> bool {
    name.len() > rlib_suffix().len() && ends_with_seq(name, rlib_suffix())
}

/// Find the first library artifact for `target` in `listing` at or after
/// index `start`; entries before `start` have already been ruled out or
/// tried by the caller.
pub fn find_rlib(listing: &Vec<String>, target: &str, start: usize) -> (r: Option<usize>)
    ensures
        match r {
            Some(i) => start <= i && i < listing.len() && rlib_matches(
                listing@[i as int]@,
                target@,
            ) && forall|j: int| start <= j < i ==> !rlib_matches(listing@[j]@, target@),
            None => forall|j: int| start <= j < listing@.len() ==> !rlib_matches(
                listing@[j]@,
                target@,
            ),
        },
{
    let mut i: usize = start;
    while i < listing.len()
        invariant
            start <= i,
            forall|j: int| start <= j < i ==> !rlib_matches(listing@[j]@, target@),
        decreases listing.len() - i,
    {
        if is_matching_rlib(listing[i].as_str(), target) {
            return Some(i);
        }
        i += 1;
    }
    None
}

/// Choose the artifact for `target` from the dependency-directory listing
/// and the presence of an executable: library artifacts first, the
/// executable second, nothing otherwise.
pub fn select_artifact(listing: &Vec<String>, target: &str, exe_present: bool) -> (r: Option<
    ArtifactLabel,
>)
    ensures
        opt_label_view(r) == select_model(listing.deep_view(), target@, exe_present),
{
    proof {
        assert forall|j: int| 0 <= j < listing@.len() implies listing.deep_view()[j]
            == listing@[j]@ by {}
    }
    match find_rlib(listing, target, 0) {
        Some(i) => {
            let file_name = listing[i].clone();
            proof {
                let deep = listing.deep_view();
                assert(first_rlib_at(deep, target@, i as int));
                lemma_first_rlib_unique(deep, target@, i as int);
                assert(some_rlib_in(deep, target@));
            }
            Some(ArtifactLabel::LibraryArchive { file_name })
        },
        None => {
            proof {
                let deep = listing.deep_view();
                if some_rlib_in(deep, target@) {
                    let w = choose|i: int| 0 <= i < deep.len() && rlib_matches(
                        deep[i],
                        target@,
                    );
                    assert(deep[w] == listing@[w]@);
                    assert(!rlib_matches(listing@[w]@, target@));
                }
            }
            if exe_present {
                Some(ArtifactLabel::Executable { file_name: String::from_str(target) })
            } else {
                None
            }
        },
    }
}

} // verus!
