//! Dependency detection: deciding what the version and installation probes
//! mean, and reconstructing the interactive shell's search path.
//!
//! The probes (running a shell or `npm`, listing the version manager's
//! directory, testing whether a path exists) are plain I/O that the
//! embedding application performs; every decision on their results is made
//! and proved here.

use vstd::prelude::*;

verus! {

/// Status of the required dependencies.
#[derive(Debug, Clone, PartialEq, Eq)]
pub struct DependencyStatus {
    /// Node.js version if installed (e.g. `v20.10.0`), `None` if not found.
    pub node: Option<String>,
    /// CLI version if installed, `None` if not found.
    pub claude: Option<String>,
    /// Whether the user is authenticated.
    pub authenticated: bool,
}

/// Assemble the dependency report from the three probe results.
pub fn check_dependencies(
    node: Option<String>,
    claude: Option<String>,
    authenticated: bool,
) -> (r: DependencyStatus)
    ensures
        r.node == node,
        r.claude == claude,
        r.authenticated == authenticated,
{
    DependencyStatus { node, claude, authenticated }
}

/// Strict lexicographic order on character sequences by code point:
/// `a` comes strictly before `b`.
pub open spec fn seq_char_lt(a: Seq<char>, b: Seq<char>) -> bool
    decreases a.len(),
{
    if b.len() == 0 {
        false
    } else if a.len() == 0 {
        true
    } else if a[0] != b[0] {
        (a[0] as u32) < (b[0] as u32)
    } else {
        seq_char_lt(a.drop_first(), b.drop_first())
    }
}

/// The order is irreflexive: nothing comes strictly before itself.
pub proof fn lemma_seq_char_lt_irrefl(a: Seq<char>)
    ensures
        !seq_char_lt(a, a),
    decreases a.len(),
{
    if a.len() > 0 {
        lemma_seq_char_lt_irrefl(a.drop_first());
    }
}

/// The order is transitive.
pub proof fn lemma_seq_char_lt_trans(a: Seq<char>, b: Seq<char>, c: Seq<char>)
    requires
        seq_char_lt(a, b),
        seq_char_lt(b, c),
    ensures
        seq_char_lt(a, c),
    decreases a.len(),
{
    if a.len() > 0 && b.len() > 0 && c.len() > 0 && a[0] == b[0] && b[0] == c[0] {
        lemma_seq_char_lt_trans(a.drop_first(), b.drop_first(), c.drop_first());
    }
}

/// Whether `a` comes strictly before `b` in code-point lexicographic order.
pub fn str_lt(a: &str, b: &str) -> (r: bool)
    ensures
        r == seq_char_lt(a@, b@),
{
    let a_len = a.unicode_len();
    let b_len = b.unicode_len();
    let mut i: usize = 0;
    proof {
        assert(a@.skip(0) =~= a@);
        assert(b@.skip(0) =~= b@);
    }
    loop
        invariant
            i <= a_len,
            i <= b_len,
            a_len == a@.len(),
            b_len == b@.len(),
            seq_char_lt(a@, b@) == seq_char_lt(a@.skip(i as int), b@.skip(i as int)),
        decreases a_len - i,
    {
        if i == b_len {
            return false;
        }
        if i == a_len {
            return true;
        }
        let ca = a.get_char(i);
        let cb = b.get_char(i);
        if ca != cb {
            return (ca as u32) < (cb as u32);
        }
        proof {
            assert(a@.skip(i as int).drop_first() =~= a@.skip(i as int + 1));
            assert(b@.skip(i as int).drop_first() =~= b@.skip(i as int + 1));
        }
        i = i + 1;
    }
}

/// The greatest entry of the version manager's directory in code-point
/// lexicographic order — the latest installed version, the way the entries
/// are sorted before the newest is picked.
pub fn latest_nvm_version(dirs: &Vec<String>) -> (r: Option<String>)
    ensures
        dirs@.len() == 0 ==> r is None,
        dirs@.len() > 0 ==> (r matches Some(m) && (exists|i: int|
            0 <= i < dirs@.len() && m@ == dirs@[i]@) && (forall|i: int|
            0 <= i < dirs@.len() ==> !seq_char_lt(m@, dirs@[i]@))),
{
    if dirs.len() == 0 {
        return None;
    }
    let mut best: String = dirs[0].clone();
    let mut i: usize = 1;
    proof {
        lemma_seq_char_lt_irrefl(dirs@[0]@);
    }
    while i < dirs.len()
        invariant
            1 <= i <= dirs@.len(),
            exists|j: int| 0 <= j < i && best@ == dirs@[j]@,
            forall|j: int| 0 <= j < i ==> !seq_char_lt(best@, dirs@[j]@),
        decreases dirs@.len() - i,
    {
        if str_lt(best.as_str(), dirs[i].as_str()) {
            proof {
                let old_best = best@;
                assert forall|j: int| 0 <= j < i implies !seq_char_lt(
                    dirs@[i as int]@,
                    dirs@[j]@,
                ) by {
                    if seq_char_lt(dirs@[i as int]@, dirs@[j]@) {
                        lemma_seq_char_lt_trans(old_best, dirs@[i as int]@, dirs@[j]@);
                    }
                }
                lemma_seq_char_lt_irrefl(dirs@[i as int]@);
            }
            best = dirs[i].clone();
        }
        i = i + 1;
    }
    Some(best)
}

/// The fixed fallback search path: the common install locations, joined
/// with `:` in their priority order.
pub open spec fn spec_fallback_paths() -> Seq<char> {
    "/opt/homebrew/bin:/usr/local/bin:/usr/bin:/bin:/usr/sbin:/sbin:/opt/homebrew/opt/node/bin:/usr/local/opt/node/bin"@
}

/// The fallback search path, with the version manager's `bin` directory put
/// first when one was found.
fn compose_fallback(nvm_bin: Option<String>) -> (r: String)
    ensures
        (match nvm_bin {
            Some(b) => r@ == b@ + ":"@ + spec_fallback_paths(),
            None => r@ == spec_fallback_paths(),
        }),
{
    match nvm_bin {
        Some(b) => b.concat(":").concat(
            "/opt/homebrew/bin:/usr/local/bin:/usr/bin:/bin:/usr/sbin:/sbin:/opt/homebrew/opt/node/bin:/usr/local/opt/node/bin",
        ),
        None => String::from_str(
            "/opt/homebrew/bin:/usr/local/bin:/usr/bin:/bin:/usr/sbin:/sbin:/opt/homebrew/opt/node/bin:/usr/local/opt/node/bin",
        ),
    }
}

/// Reconstruct the interactive shell's search path.
///
/// `zsh_path` is the trimmed output of asking the login shell for its
/// `$PATH`, when that probe succeeded; it wins whenever it is non-empty.
/// Otherwise the fixed fallback locations are used, with the version
/// manager's `bin` directory — `nvm_bin`, when the application found one —
/// put first.
pub fn get_shell_path(zsh_path: Option<String>, nvm_bin: Option<String>) -> (r: String)
    ensures
        (match zsh_path {
            Some(p) => if p@.len() > 0 {
                r@ == p@
            } else {
                spec_composed_fallback(r@, nvm_bin)
            },
            None => spec_composed_fallback(r@, nvm_bin),
        }),
{
    match zsh_path {
        Some(p) => {
            if p.as_str().is_empty() {
                compose_fallback(nvm_bin)
            } else {
                p
            }
        },
        None => compose_fallback(nvm_bin),
    }
}

/// Whether `r` is the fallback search path composed for `nvm_bin`.
pub open spec fn spec_composed_fallback(r: Seq<char>, nvm_bin: Option<String>) -> bool {
    match nvm_bin {
        Some(b) => r == b@ + ":"@ + spec_fallback_paths(),
        None => r == spec_fallback_paths(),
    }
}

/// Decide the result of the CLI installation run from the exit status of
/// `npm`: success is success, and a failure reports the rendered exit code.
pub fn install_claude_code(status_success: bool, code_text: &String) -> (r: Result<(), String>)
    ensures
        r is Ok <==> status_success,
        !status_success ==> (r matches Err(m) && m@ == "npm install failed with exit code: "@
            + code_text@),
{
    if status_success {
        Ok(())
    } else {
        Err(String::from_str("npm install failed with exit code: ").concat(code_text.as_str()))
    }
}

} // verus!
