//! Filename sanitization and confinement of target paths to the upload
//! directory.
use vstd::prelude::*;

verus! {

/// The sanitized form of a raw filename, as produced by the sanitization
/// policy of the `sanitize_filename` crate.
pub uninterp spec fn sanitized_of(name: Seq<char>) -> Seq<char>;

/// A name that cannot escape the directory it is joined to: it holds no
/// path separator and is not one of the relative-directory names `.`
/// and `..`.
pub open spec fn confined_name(name: Seq<char>) -> bool {
    &&& forall|i: int| 0 <= i < name.len() ==> name[i] != '/' && name[i] != '\\'
    &&& name != seq!['.']
    &&& name != seq!['.', '.']
}

/// The path of a file called `name` directly inside `dir`.
pub open spec fn joined(dir: Seq<char>, name: Seq<char>) -> Seq<char> {
    dir + seq!['/'] + name
}

/// `path` names an entry directly inside `dir`: it extends `dir` by one
/// separator and a confined name.
pub open spec fn stays_within(dir: Seq<char>, path: Seq<char>) -> bool {
    &&& path.len() > dir.len()
    &&& path.subrange(0, dir.len() as int) == dir
    &&& path[dir.len() as int] == '/'
    &&& confined_name(path.subrange(dir.len() as int + 1, path.len() as int))
}

/// Joining a confined name to a directory yields a path that stays
/// within that directory, whatever the raw name looked like.
pub proof fn lemma_joined_stays_within(dir: Seq<char>, name: Seq<char>)
    requires
        confined_name(name),
    ensures
        stays_within(dir, joined(dir, name)),
{
    let path = joined(dir, name);
    assert(path.subrange(0, dir.len() as int) =~= dir);
    assert(path.subrange(dir.len() as int + 1, path.len() as int) =~= name);
}

/// Relies on `sanitize_filename::sanitize_with_options` with the empty
/// replacement: it deletes path separators and the other reserved
/// characters (`/ \ ? < > : * | "` and control characters), replaces a
/// name consisting only of dots by the empty string, and truncates the
/// result to 255 bytes, so the result depends on the name alone and
/// holds no separator and is neither `.` nor `..`.
#[verifier::external_body]
fn sanitize_name(name: &str) -> (r: String)
    ensures
        r@ == sanitized_of(name@),
        confined_name(r@),
{
    sanitize_filename::sanitize_with_options(
        name,
        sanitize_filename::Options { windows: false, truncate: true, replacement: "" },
    )
}

/// The path under which a part with raw filename `name` is stored: `dir`
/// joined with the sanitized form of `name`. The result always stays
/// within `dir`.
pub fn target_path(dir: &str, name: &str) -> (p: String)
    ensures
        p@ == joined(dir@, sanitized_of(name@)),
        stays_within(dir@, p@),
{
    let safe = sanitize_name(name);
    let mut p = dir.to_owned();
    p.append("/");
    p.append(safe.as_str());
    proof {
        reveal_strlit("/");
        assert(p@ =~= joined(dir@, sanitized_of(name@)));
        lemma_joined_stays_within(dir@, sanitized_of(name@));
    }
    p
}

} // verus!
