use vstd::prelude::*;
use vstd::string::*;
use crate::text::{contains_spec, contains_str, ends_with};

verus! {

/// Whether `item` occurs in `s` bounded on each side by `delim` or by an
/// end of `s`: the membership test of a delimiter-separated list.
pub open spec fn has_delimited(s: Seq<char>, item: Seq<char>, delim: char) -> bool {
    exists|i: int|
        0 <= i <= s.len() - item.len() && #[trigger] s.subrange(i, i + item.len()) == item && (i
            == 0 || s[i - 1] == delim) && (i + item.len() == s.len() || s[i + item.len()] == delim)
}

/// Whether `line` stands as a whole line of `s`.
pub open spec fn has_line(s: Seq<char>, line: Seq<char>) -> bool {
    has_delimited(s, line, '\n')
}

/// Whether `dir` stands as a whole `;`-delimited segment of `path`.
pub open spec fn has_segment(path: Seq<char>, dir: Seq<char>) -> bool {
    has_delimited(path, dir, ';')
}

/// Membership in a delimiter-separated list, by exact match of one
/// delimited stretch; written for a non-empty item.
fn delimited_present(s: &str, item: &str, delim: char) -> (r: bool)
    requires
        1 <= item@.len(),
    ensures
        r == has_delimited(s@, item@, delim),
{
    let n: usize = s.unicode_len();
    let m: usize = item.unicode_len();
    if m > n {
        return false;
    }
    let mut i: usize = 0;
    loop
        invariant
            1 <= m <= n,
            n == s@.len(),
            m == item@.len(),
            0 <= i <= n - m,
            forall|k: int|
                0 <= k < i ==> !(#[trigger] s@.subrange(k, k + item@.len()) == item@ && (k == 0
                    || s@[k - 1] == delim) && (k + item@.len() == s@.len() || s@[k + item@.len()]
                    == delim)),
        decreases n - m - i,
    {
        let left_ok: bool = i == 0 || s.get_char(i - 1) == delim;
        let right_ok: bool = i + m == n || s.get_char(i + m) == delim;
        if left_ok && right_ok {
            let mut j: usize = 0;
            let mut hit: bool = true;
            while j < m && hit
                invariant
                    j <= m,
                    i + m <= n,
                    n == s@.len(),
                    m == item@.len(),
                    hit ==> forall|l: int| 0 <= l < j ==> s@[i + l] == item@[l],
                    !hit ==> s@.subrange(i as int, i + item@.len()) != item@,
                decreases m - j + (if hit { 1int } else { 0int }),
            {
                if s.get_char(i + j) != item.get_char(j) {
                    proof {
                        assert(s@.subrange(i as int, i + item@.len())[j as int] != item@[
                        j as int]);
                    }
                    hit = false;
                } else {
                    j += 1;
                }
            }
            if hit {
                proof {
                    assert(s@.subrange(i as int, i + item@.len()) =~= item@);
                }
                return true;
            }
        } else {
            proof {
                assert(!((i as int == 0 || s@[i as int - 1] == delim) && (i as int + item@.len()
                    == s@.len() || s@[i as int + item@.len()] == delim)));
            }
        }
        if i == n - m {
            return false;
        }
        i += 1;
    }
}

/// The line the registrar appends to a shell profile to put `dir` on the
/// execution search path.
pub open spec fn export_line_spec(dir: Seq<char>) -> Seq<char> {
    "export PATH=\""@ + dir + ":$PATH\""@
}

pub fn export_line(dir: &str) -> (l: String)
    ensures
        l@ == export_line_spec(dir@),
{
    "export PATH=\"".to_owned().concat(dir).concat(":$PATH\"")
}

/// The shell profile file the export line goes to, selected by the
/// configured shell: `.bashrc` for a bash-like shell, `.zshrc` for zsh,
/// `.profile` otherwise.
pub open spec fn shell_profile_spec(home: Seq<char>, shell: Seq<char>) -> Seq<char> {
    if contains_spec(shell, "bash"@) {
        home + "/.bashrc"@
    } else if contains_spec(shell, "zsh"@) {
        home + "/.zshrc"@
    } else {
        home + "/.profile"@
    }
}

pub fn shell_profile(home: &str, shell: &str) -> (p: String)
    ensures
        p@ == shell_profile_spec(home@, shell@),
{
    if contains_str(shell, "bash") {
        home.to_owned().concat("/.bashrc")
    } else if contains_str(shell, "zsh") {
        home.to_owned().concat("/.zshrc")
    } else {
        home.to_owned().concat("/.profile")
    }
}

/// Whether the profile already carries the export line for `dir` as a
/// whole line: registration then performs no further mutation.
pub fn profile_has_export(profile: &str, dir: &str) -> (r: bool)
    ensures
        r == has_line(profile@, export_line_spec(dir@)),
{
    let line = export_line(dir);
    proof {
        reveal_strlit("export PATH=\"");
        assert(line@.len() >= 1);
    }
    delimited_present(profile, line.as_str(), '\n')
}

/// What appending the export line adds after the current profile text: a
/// fresh line holding exactly the export line.
pub open spec fn appended_profile_spec(profile: Seq<char>, dir: Seq<char>) -> Seq<char> {
    profile + "\n"@ + export_line_spec(dir) + "\n"@
}

/// The text appended to the profile when the export line is missing.
pub fn export_append_chunk(dir: &str) -> (c: String)
    ensures
        c@ == "\n"@ + export_line_spec(dir@) + "\n"@,
{
    "\n".to_owned().concat(export_line(dir).as_str()).concat("\n")
}

/// Law: registering a directory is idempotent. After one registration the
/// profile carries the export line as a whole line, so a second
/// registration finds it present and appends nothing.
pub proof fn lemma_register_line_idempotent(profile: Seq<char>, dir: Seq<char>)
    ensures
        has_line(appended_profile_spec(profile, dir), export_line_spec(dir)),
{
    reveal_strlit("\n");
    let s = appended_profile_spec(profile, dir);
    let line = export_line_spec(dir);
    let i: int = profile.len() as int + 1;
    assert(s.subrange(i, i + line.len()) =~= line);
    assert(s[i - 1] == '\n');
    assert(s[i + line.len()] == '\n');
}

/// Whether the persisted `PATH` value already lists `dir` as one of its
/// `;`-delimited segments; written for a non-empty directory string.
pub fn path_has_segment(path: &str, dir: &str) -> (r: bool)
    requires
        1 <= dir@.len(),
    ensures
        r == has_segment(path@, dir@),
{
    delimited_present(path, dir, ';')
}

/// The `PATH` value after appending `dir`, keeping exactly one `;`
/// between the old value and the new segment.
pub open spec fn appended_path_spec(path: Seq<char>, dir: Seq<char>) -> Seq<char> {
    if ends_with_sc(path) {
        path + dir
    } else {
        path + ";"@ + dir
    }
}

/// Whether the sequence ends with `;`.
pub open spec fn ends_with_sc(path: Seq<char>) -> bool {
    path.len() > 0 && path[path.len() - 1] == ';'
}

pub fn appended_path(path: &str, dir: &str) -> (p: String)
    ensures
        p@ == appended_path_spec(path@, dir@),
{
    proof {
        reveal_strlit(";");
    }
    if ends_with(path, ";") {
        proof {
            assert(path@.subrange(path@.len() - 1, path@.len() as int)[0] == ';');
        }
        path.to_owned().concat(dir)
    } else {
        proof {
            if ends_with_sc(path@) {
                assert(path@.subrange(path@.len() - 1, path@.len() as int) =~= ";"@);
            }
        }
        path.to_owned().concat(";").concat(dir)
    }
}

/// Law: registering a directory in the persisted `PATH` is idempotent.
/// After one registration the directory stands as a whole segment, so a
/// second registration finds it and mutates nothing.
pub proof fn lemma_register_segment_idempotent(path: Seq<char>, dir: Seq<char>)
    ensures
        has_segment(appended_path_spec(path, dir), dir),
{
    reveal_strlit(";");
    let s = appended_path_spec(path, dir);
    if ends_with_sc(path) {
        let i: int = path.len() as int;
        assert(s.subrange(i, i + dir.len()) =~= dir);
        assert(s[i - 1] == ';');
    } else {
        let i: int = path.len() as int + 1;
        assert(s.subrange(i, i + dir.len()) =~= dir);
        assert(s[i - 1] == ';');
    }
}

} // verus!
