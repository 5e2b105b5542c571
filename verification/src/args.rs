use vstd::prelude::*;

verus! {

use crate::text::{
    contains_seq, spec_find, spec_dec, find_first, copy_range, chars_of, dec_u64,
};

// ---------------------------------------------------------------------------
// The `name[@version]` command-line form.
// ---------------------------------------------------------------------------

/// The crate name in a `name[@version]` argument: everything before the
/// first `@`, or the whole text when there is none.
pub open spec fn spec_parse_name(s: Seq<char>) -> Seq<char> {
    if contains_seq(s, seq!['@']) {
        s.subrange(0, spec_find(s, seq!['@']))
    } else {
        s
    }
}

/// The requested version in a `name[@version]` argument: everything after
/// the first `@`, if there is one.
pub open spec fn spec_parse_version(s: Seq<char>) -> Option<Seq<char>> {
    if contains_seq(s, seq!['@']) {
        Some(s.subrange(spec_find(s, seq!['@']) + 1, s.len() as int))
    } else {
        None
    }
}

/// Splits a `name[@version]` argument into the name and the version.
pub fn parse_crate_spec(spec: &Vec<char>) -> (r: (Vec<char>, Option<Vec<char>>))
    ensures
        r.0@ == spec_parse_name(spec@),
        r.1 matches Some(v) ==> spec_parse_version(spec@) == Some(v@),
        r.1 is None ==> spec_parse_version(spec@) is None,
{
    let mut at: Vec<char> = Vec::new();
    at.push('@');
    proof {
        assert(at@ =~= seq!['@']);
    }
    let len = spec.len();
    match find_first(spec, &at) {
        Some(i) => {
            let name = copy_range(spec, 0, i);
            let ver = copy_range(spec, i + 1, len);
            (name, Some(ver))
        },
        None => {
            let name = copy_range(spec, 0, len);
            proof {
                assert(name@ =~= spec@);
            }
            (name, None)
        },
    }
}

// ---------------------------------------------------------------------------
// The installer's argument list.
// ---------------------------------------------------------------------------

/// The view of an optional argument.
pub open spec fn opt_chars_view(v: Option<Vec<char>>) -> Option<Seq<char>> {
    match v {
        Some(c) => Some(c@),
        None => None,
    }
}

/// The argument list handed to the installer:
/// `install <name> [--version <version>] --root <root> --jobs <jobs>`.
pub open spec fn spec_install_args(
    name: Seq<char>,
    version: Option<Seq<char>>,
    root: Seq<char>,
    jobs: int,
) -> Seq<Seq<char>> {
    (match version {
        Some(v) => seq!["install"@, name, "--version"@, v],
        None => seq!["install"@, name],
    }) + seq!["--root"@, root, "--jobs"@, spec_dec(jobs)]
}

/// Builds the installer's argument list.
pub fn build_install_args(
    name: &Vec<char>,
    version: &Option<Vec<char>>,
    root: &Vec<char>,
    jobs: u64,
) -> (r: Vec<Vec<char>>)
    ensures
        r@.map_values(|v: Vec<char>| v@) == spec_install_args(
            name@,
            opt_chars_view(*version),
            root@,
            jobs as int,
        ),
{
    let mut r: Vec<Vec<char>> = Vec::new();
    r.push(chars_of("install"));
    r.push(copy_range(name, 0, name.len()));
    match version {
        Some(v) => {
            r.push(chars_of("--version"));
            r.push(copy_range(v, 0, v.len()));
        },
        None => {},
    }
    r.push(chars_of("--root"));
    r.push(copy_range(root, 0, root.len()));
    r.push(chars_of("--jobs"));
    r.push(dec_u64(jobs));
    proof {
        assert(name@.subrange(0, name@.len() as int) =~= name@);
        assert(root@.subrange(0, root@.len() as int) =~= root@);
        if version is Some {
            assert((version->0)@.subrange(0, (version->0)@.len() as int) =~= (version->0)@);
        }
        assert(r@.map_values(|v: Vec<char>| v@) =~= spec_install_args(
            name@,
            opt_chars_view(*version),
            root@,
            jobs as int,
        ));
    }
    r
}

/// Relies on `num_cpus::get`: the number of logical processors of the
/// machine, documented to be at least one.
#[verifier::external_body]
fn cpu_count() -> (n: usize)
    ensures
        1 <= n,
{
    num_cpus::get()
}

/// Builds the installer's argument list with one job per available
/// processor, and reports the job count used.
pub fn install_args_for_host(
    name: &Vec<char>,
    version: &Option<Vec<char>>,
    root: &Vec<char>,
) -> (r: (Vec<Vec<char>>, u64))
    ensures
        1 <= r.1,
        r.0@.map_values(|v: Vec<char>| v@) == spec_install_args(
            name@,
            opt_chars_view(*version),
            root@,
            r.1 as int,
        ),
{
    let jobs = cpu_count() as u64;
    let args = build_install_args(name, version, root, jobs);
    (args, jobs)
}

} // verus!
