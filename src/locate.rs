//! Location of build artifacts by naming convention. The candidates are
//! computed here; whether each exists on disk is observed by the caller.

use vstd::prelude::*;

use crate::format::cargo::CargoProject;

verus! {

/// Where a release build leaves its outputs, relative to the project root.
pub const BUILD_OUTPUT_DIR: &'static str = "target/release/";

/// The prefix and extension of the conventional library name.
pub const LIB_PREFIX: &'static str = "lib";

pub const LIB_EXTENSION: &'static str = ".rlib";

/// The executable of project `name` under `dir`, with the platform's
/// executable suffix `suffix`.
pub open spec fn exe_path(dir: Seq<char>, name: Seq<char>, suffix: Seq<char>) -> Seq<char> {
    dir + name + suffix
}

/// The library of project `name` under `dir`.
pub open spec fn lib_path(dir: Seq<char>, name: Seq<char>) -> Seq<char> {
    dir + LIB_PREFIX@ + name + LIB_EXTENSION@
}

/// Lexicographic order by code point, from position `i` on.
pub open spec fn lt_from(a: Seq<char>, b: Seq<char>, i: int) -> bool
    decreases a.len() - i,
{
    if i < 0 || i >= a.len() {
        0 <= i < b.len()
    } else if i >= b.len() {
        false
    } else if a[i] != b[i] {
        (a[i] as int) < (b[i] as int)
    } else {
        lt_from(a, b, i + 1)
    }
}

/// `a` comes strictly before `b` in the order of strings (code point by
/// code point, a proper prefix first).
pub open spec fn seq_lt(a: Seq<char>, b: Seq<char>) -> bool {
    lt_from(a, b, 0)
}

/// `a` comes no later than `b`.
pub open spec fn seq_le(a: Seq<char>, b: Seq<char>) -> bool {
    a == b || seq_lt(a, b)
}

/// Every path comes no later than those after it.
pub open spec fn sorted(s: Seq<Seq<char>>) -> bool {
    forall|i: int, j: int| 0 <= i < j < s.len() ==> seq_le(s[i], s[j])
}

/// The characters of each string.
pub open spec fn views(v: Seq<String>) -> Seq<Seq<char>> {
    v.map_values(|s: String| s@)
}

/// The first `n` candidates whose flag is set, in their order.
pub open spec fn kept(candidates: Seq<Seq<char>>, present: Seq<bool>, n: int) -> Seq<Seq<char>>
    decreases n,
{
    if n <= 0 {
        Seq::empty()
    } else if present[n - 1] {
        kept(candidates, present, n - 1).push(candidates[n - 1])
    } else {
        kept(candidates, present, n - 1)
    }
}

/// All candidates whose flag is set, in their order.
pub open spec fn present_of(candidates: Seq<Seq<char>>, present: Seq<bool>) -> Seq<Seq<char>> {
    kept(candidates, present, candidates.len() as int)
}

/// Two different strings are ordered one way or the other.
pub proof fn lemma_lt_total(a: Seq<char>, b: Seq<char>, i: int)
    requires
        0 <= i <= a.len(),
        i <= b.len(),
        forall|k: int| 0 <= k < i ==> a[k] == b[k],
        a != b,
    ensures
        lt_from(a, b, i) || lt_from(b, a, i),
    decreases a.len() - i,
{
    if i >= a.len() && i >= b.len() {
        assert(a =~= b);
    } else if i < a.len() && i < b.len() && a[i] == b[i] {
        lemma_lt_total(a, b, i + 1);
    } else if i < a.len() && i < b.len() {
        assert((a[i] as int) != (b[i] as int));
    }
}

/// Whether `a` comes strictly before `b`.
pub fn str_lt(a: &str, b: &str) -> (r: bool)
    ensures
        r == seq_lt(a@, b@),
{
    let a_len = a.unicode_len();
    let b_len = b.unicode_len();
    let mut i: usize = 0;
    while i < a_len && i < b_len && a.get_char(i) == b.get_char(i)
        invariant
            a_len == a@.len(),
            b_len == b@.len(),
            i <= a_len,
            i <= b_len,
            lt_from(a@, b@, 0) == lt_from(a@, b@, i as int),
        decreases a_len - i,
    {
        assert(lt_from(a@, b@, i as int) == lt_from(a@, b@, i as int + 1));
        i = i + 1;
    }
    if i >= a_len {
        i < b_len
    } else if i >= b_len {
        false
    } else {
        a.get_char(i) < b.get_char(i)
    }
}

/// The conventional artifact paths of `project` under `dir`: the executable
/// (with the platform's suffix `exe_suffix`, empty where executables have
/// none) and the library, in the order of their paths.
pub fn candidate_paths(project: &CargoProject, dir: &str, exe_suffix: &str) -> (r: Vec<String>)
    ensures
        r@.len() == 2,
        views(r@).to_set() == set![
            exe_path(dir@, project.package.name@, exe_suffix@),
            lib_path(dir@, project.package.name@),
        ],
        sorted(views(r@)),
{
    let name = project.package.name.as_str();
    let mut exe = String::from_str(dir);
    exe.append(name);
    exe.append(exe_suffix);
    let mut lib = String::from_str(dir);
    lib.append(LIB_PREFIX);
    lib.append(name);
    lib.append(LIB_EXTENSION);
    let ghost e = exe@;
    let ghost l = lib@;
    let exe_first = !str_lt(lib.as_str(), exe.as_str());
    let r = if exe_first {
        vec![exe, lib]
    } else {
        vec![lib, exe]
    };
    proof {
        assert(views(r@) =~= if exe_first { seq![e, l] } else { seq![l, e] });
        assert(views(r@).to_set() =~= set![e, l]) by {
            let s = views(r@);
            assert(s.to_set().contains(s[0]));
            assert(s.to_set().contains(s[1]));
        }
        if exe_first && e != l {
            lemma_lt_total(e, l, 0);
        }
    }
    r
}

/// The candidates that are present, in their order; `present[i]` says
/// whether `candidates[i]` exists.
pub fn locate(candidates: &Vec<String>, present: &Vec<bool>) -> (r: Vec<String>)
    requires
        candidates@.len() == present@.len(),
    ensures
        views(r@) == present_of(views(candidates@), present@),
{
    let mut r: Vec<String> = Vec::new();
    let mut i: usize = 0;
    while i < candidates.len()
        invariant
            candidates@.len() == present@.len(),
            i <= candidates@.len(),
            views(r@) == kept(views(candidates@), present@, i as int),
        decreases candidates@.len() - i,
    {
        if present[i] {
            r.push(candidates[i].clone());
        }
        assert(views(r@) =~= kept(views(candidates@), present@, i as int + 1));
        i = i + 1;
    }
    r
}

/// The first `n` flags, when none is set, keep nothing.
proof fn lemma_kept_none(candidates: Seq<Seq<char>>, present: Seq<bool>, n: int)
    requires
        n <= present.len(),
        forall|i: int| 0 <= i < present.len() ==> !present[i],
    ensures
        kept(candidates, present, n) == Seq::<Seq<char>>::empty(),
    decreases n,
{
    if n > 0 {
        lemma_kept_none(candidates, present, n - 1);
    }
}

/// The first `n` flags, when all are set, keep the first `n` candidates.
proof fn lemma_kept_all(candidates: Seq<Seq<char>>, present: Seq<bool>, n: int)
    requires
        0 <= n <= candidates.len(),
        candidates.len() == present.len(),
        forall|i: int| 0 <= i < present.len() ==> present[i],
    ensures
        kept(candidates, present, n) == candidates.subrange(0, n),
    decreases n,
{
    if n > 0 {
        lemma_kept_all(candidates, present, n - 1);
        assert(candidates.subrange(0, n) =~= candidates.subrange(0, n - 1).push(candidates[n - 1]));
    }
}

/// Where no conventional artifact exists, nothing is located, and no error
/// arises.
pub proof fn lemma_locate_none_present(candidates: Seq<Seq<char>>, present: Seq<bool>)
    requires
        candidates.len() == present.len(),
        forall|i: int| 0 <= i < present.len() ==> !present[i],
    ensures
        present_of(candidates, present) == Seq::<Seq<char>>::empty(),
{
    lemma_kept_none(candidates, present, candidates.len() as int);
}

/// Where every candidate exists, all are located, in the candidates' own
/// sorted order; being a function of the candidates and flags alone, the
/// result is the same on every call.
pub proof fn lemma_locate_all_present(candidates: Seq<Seq<char>>, present: Seq<bool>)
    requires
        candidates.len() == present.len(),
        forall|i: int| 0 <= i < present.len() ==> present[i],
        sorted(candidates),
    ensures
        present_of(candidates, present) == candidates,
        sorted(present_of(candidates, present)),
{
    lemma_kept_all(candidates, present, candidates.len() as int);
    assert(candidates.subrange(0, candidates.len() as int) =~= candidates);
}

} // verus!
