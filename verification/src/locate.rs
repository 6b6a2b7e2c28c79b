use vstd::prelude::*;

use crate::errors::LaunchError;
use crate::strutil::join_path;
use crate::strutil::spec_join;
use crate::strutil::str_eq;

verus! {

/// Appends `x` unless it is already present: the de-duplication step of
/// candidate building. The position of the first insertion is kept.
pub open spec fn spec_push_unique(s: Seq<Seq<char>>, x: Seq<char>) -> Seq<Seq<char>> {
    if s.contains(x) {
        s
    } else {
        s.push(x)
    }
}

/// No two entries of the list are equal.
pub open spec fn spec_distinct(s: Seq<Seq<char>>) -> bool {
    forall|i: int, j: int| 0 <= i < j < s.len() ==> s[i] != s[j]
}

/// De-duplication law: inserting a path makes it present; inserting it a
/// second time changes nothing; entries already in the list keep their
/// position; a duplicate-free list stays duplicate-free.
pub proof fn lemma_push_unique_dedup(s: Seq<Seq<char>>, x: Seq<char>)
    ensures
        spec_push_unique(s, x).contains(x),
        spec_push_unique(spec_push_unique(s, x), x) == spec_push_unique(s, x),
        forall|i: int| 0 <= i < s.len() ==> spec_push_unique(s, x)[i] == s[i],
        spec_distinct(s) ==> spec_distinct(spec_push_unique(s, x)),
{
    if s.contains(x) {
    } else {
        let p = s.push(x);
        assert(p[s.len() as int] == x);
        assert(p.contains(x));
        if spec_distinct(s) {
            assert forall|i: int, j: int| 0 <= i < j < p.len() implies p[i] != p[j] by {
                if j == s.len() {
                    assert(p[i] == s[i]);
                    if s[i] == x {
                        assert(s.contains(x));
                    }
                }
            }
        }
    }
}

/// The ordered, de-duplicated candidate list for binary resolution, in
/// priority order: the `binaries` directory beside the host executable; on the
/// platform with packaged resources, the resources `binaries` directory one
/// level above the executable; the directory named by the override environment
/// variable, when set; two locations under the current working directory, when
/// it is obtainable; and a fixed source-tree relative path as last resort.
pub open spec fn spec_candidates(
    exe_dir: Seq<char>,
    packaged_resources: bool,
    env_dir: Option<Seq<char>>,
    cwd: Option<Seq<char>>,
    name: Seq<char>,
) -> Seq<Seq<char>> {
    let s0 = spec_push_unique(Seq::empty(), spec_join(spec_join(exe_dir, "binaries"@), name));
    let s1 = if packaged_resources {
        spec_push_unique(s0, spec_join(spec_join(exe_dir, "../Resources/binaries"@), name))
    } else {
        s0
    };
    let s2 = match env_dir {
        Some(d) => spec_push_unique(s1, spec_join(d, name)),
        None => s1,
    };
    let s3 = match cwd {
        Some(c) => spec_push_unique(
            spec_push_unique(s2, spec_join(spec_join(c, "src-tauri/binaries"@), name)),
            spec_join(spec_join(c, "binaries"@), name),
        ),
        None => s2,
    };
    spec_push_unique(s3, spec_join("src-tauri/binaries"@, name))
}

/// A candidate list never holds the same path twice.
pub proof fn lemma_candidates_distinct(
    exe_dir: Seq<char>,
    packaged_resources: bool,
    env_dir: Option<Seq<char>>,
    cwd: Option<Seq<char>>,
    name: Seq<char>,
)
    ensures
        spec_distinct(spec_candidates(exe_dir, packaged_resources, env_dir, cwd, name)),
{
    let s0 = spec_push_unique(Seq::empty(), spec_join(spec_join(exe_dir, "binaries"@), name));
    let s1 = if packaged_resources {
        spec_push_unique(s0, spec_join(spec_join(exe_dir, "../Resources/binaries"@), name))
    } else {
        s0
    };
    let s2 = match env_dir {
        Some(d) => spec_push_unique(s1, spec_join(d, name)),
        None => s1,
    };
    let s3 = match cwd {
        Some(c) => spec_push_unique(
            spec_push_unique(s2, spec_join(spec_join(c, "src-tauri/binaries"@), name)),
            spec_join(spec_join(c, "binaries"@), name),
        ),
        None => s2,
    };
    assert(spec_distinct(Seq::<Seq<char>>::empty()));
    lemma_push_unique_dedup(Seq::empty(), spec_join(spec_join(exe_dir, "binaries"@), name));
    if packaged_resources {
        lemma_push_unique_dedup(s0, spec_join(spec_join(exe_dir, "../Resources/binaries"@), name));
    }
    match env_dir {
        Some(d) => lemma_push_unique_dedup(s1, spec_join(d, name)),
        None => (),
    }
    match cwd {
        Some(c) => {
            lemma_push_unique_dedup(s2, spec_join(spec_join(c, "src-tauri/binaries"@), name));
            lemma_push_unique_dedup(
                spec_push_unique(s2, spec_join(spec_join(c, "src-tauri/binaries"@), name)),
                spec_join(spec_join(c, "binaries"@), name),
            );
        },
        None => (),
    }
    lemma_push_unique_dedup(s3, spec_join("src-tauri/binaries"@, name));
}

/// Appends `path` to the candidate list unless an equal entry is already
/// there.
pub fn push_candidate(v: &mut Vec<String>, path: String)
    ensures
        final(v).deep_view() == spec_push_unique(old(v).deep_view(), path@),
{
    let n = v.len();
    let mut i: usize = 0;
    while i < n
        invariant
            i <= n,
            n == v@.len(),
            v@ == old(v)@,
            forall|j: int| 0 <= j < i ==> v.deep_view()[j] != path@,
        decreases n - i,
    {
        if str_eq(v[i].as_str(), path.as_str()) {
            proof {
                assert(old(v).deep_view()[i as int] == path@);
                assert(old(v).deep_view().contains(path@));
            }
            return ;
        }
        i = i + 1;
    }
    proof {
        assert forall|j: int| 0 <= j < old(v).deep_view().len() implies old(v).deep_view()[j]
            != path@ by {}
        assert(!old(v).deep_view().contains(path@));
    }
    v.push(path);
    proof {
        assert(v.deep_view() =~= old(v).deep_view().push(path@));
    }
}

/// Builds the candidate list of [`spec_candidates`] from the environment
/// facts the caller read: the host executable's directory, whether the
/// packaged-resources location applies, the override directory from the
/// environment (when set), and the current working directory (when readable).
pub fn build_candidates(
    exe_dir: &str,
    packaged_resources: bool,
    env_dir: &Option<String>,
    cwd: &Option<String>,
    name: &str,
) -> (r: Vec<String>)
    ensures
        r.deep_view() == spec_candidates(
            exe_dir@,
            packaged_resources,
            env_dir.deep_view(),
            cwd.deep_view(),
            name@,
        ),
{
    let mut v: Vec<String> = Vec::new();
    proof {
        assert(v.deep_view() =~= Seq::<Seq<char>>::empty());
    }
    let first = join_path(join_path(exe_dir, "binaries").as_str(), name);
    push_candidate(&mut v, first);
    if packaged_resources {
        let packaged = join_path(join_path(exe_dir, "../Resources/binaries").as_str(), name);
        push_candidate(&mut v, packaged);
    }
    match env_dir {
        Some(d) => {
            let from_env = join_path(d.as_str(), name);
            push_candidate(&mut v, from_env);
        },
        None => {},
    }
    match cwd {
        Some(c) => {
            let tree = join_path(join_path(c.as_str(), "src-tauri/binaries").as_str(), name);
            push_candidate(&mut v, tree);
            let plain = join_path(join_path(c.as_str(), "binaries").as_str(), name);
            push_candidate(&mut v, plain);
        },
        None => {},
    }
    let fallback = join_path("src-tauri/binaries", name);
    push_candidate(&mut v, fallback);
    v
}

/// Index of the first set flag, or -1 when none is set.
pub open spec fn spec_first_true(flags: Seq<bool>) -> int
    decreases flags.len(),
{
    if flags.len() == 0 {
        -1
    } else if flags[0] {
        0
    } else {
        let r = spec_first_true(flags.drop_first());
        if r == -1 {
            -1
        } else {
            r + 1
        }
    }
}

pub proof fn lemma_first_true_none(flags: Seq<bool>)
    requires
        forall|j: int| 0 <= j < flags.len() ==> !flags[j],
    ensures
        spec_first_true(flags) == -1,
    decreases flags.len(),
{
    if flags.len() > 0 {
        lemma_first_true_none(flags.drop_first());
    }
}

pub proof fn lemma_first_true_at(flags: Seq<bool>, i: int)
    requires
        0 <= i < flags.len(),
        flags[i],
        forall|j: int| 0 <= j < i ==> !flags[j],
    ensures
        spec_first_true(flags) == i,
    decreases flags.len(),
{
    if i > 0 {
        lemma_first_true_at(flags.drop_first(), i - 1);
    }
}

/// The candidate a resolution failure reports: the first attempted path, or
/// the "<unknown>" placeholder when no candidate was tried at all.
pub open spec fn spec_not_found_candidate(cands: Seq<Seq<char>>) -> Seq<char> {
    if cands.len() > 0 {
        cands[0]
    } else {
        "<unknown>"@
    }
}

/// Selects the first candidate that exists on the filesystem. The caller
/// probes each candidate (a read-only check) and hands the outcomes in
/// `present`, index-aligned with `candidates`; this function decides. When no
/// candidate exists — in particular when the list is empty — the result is the
/// not-found error carrying [`spec_not_found_candidate`].
pub fn resolve_binary(candidates: &Vec<String>, present: &Vec<bool>) -> (r: Result<
    String,
    LaunchError,
>)
    requires
        candidates@.len() == present@.len(),
    ensures
        match r {
            Ok(p) => ({
                let i = spec_first_true(present@);
                &&& 0 <= i < candidates@.len()
                &&& present@[i]
                &&& p@ == candidates.deep_view()[i]
            }),
            Err(e) => ({
                &&& spec_first_true(present@) == -1
                &&& e matches LaunchError::BinaryNotFound { candidate } && candidate@
                    == spec_not_found_candidate(candidates.deep_view())
            }),
        },
{
    let n = candidates.len();
    let mut i: usize = 0;
    while i < n
        invariant
            i <= n,
            n == candidates@.len(),
            n == present@.len(),
            forall|j: int| 0 <= j < i ==> !present@[j],
        decreases n - i,
    {
        if present[i] {
            proof {
                lemma_first_true_at(present@, i as int);
            }
            return Ok(candidates[i].clone());
        }
        i = i + 1;
    }
    proof {
        lemma_first_true_none(present@);
    }
    let candidate = if candidates.len() > 0 {
        candidates[0].clone()
    } else {
        "<unknown>".to_owned()
    };
    Err(LaunchError::BinaryNotFound { candidate })
}

} // verus!
