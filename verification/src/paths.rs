use vstd::prelude::*;
use vstd::string::StrSliceExecFns;
use crate::errors::PathResolutionError;

verus! {

/// The index of the last `/` separator in a path, or -1 when it has none.
pub open spec fn last_sep(p: Seq<char>) -> int
    decreases p.len(),
{
    if p.len() == 0 {
        -1
    } else if p[p.len() - 1] == '/' {
        p.len() - 1
    } else {
        last_sep(p.drop_last())
    }
}

/// The containing directory of a path, or `None` when it has none: a path
/// without a separator is a bare name, and the root `/` is its own top.
/// A path whose only separator is the leading one has the root as parent;
/// otherwise the parent is everything before the last separator.
pub open spec fn spec_parent(p: Seq<char>) -> Option<Seq<char>> {
    let i = last_sep(p);
    if i < 0 {
        None
    } else if p.len() == 1 {
        None
    } else if i == 0 {
        Some(p.subrange(0, 1))
    } else {
        Some(p.subrange(0, i))
    }
}

proof fn lemma_last_sep_found(p: Seq<char>, j: int)
    requires
        0 <= j < p.len(),
        p[j] == '/',
        forall|k: int| j < k < p.len() ==> p[k] != '/',
    ensures
        last_sep(p) == j,
    decreases p.len(),
{
    if j < p.len() - 1 {
        assert(p[p.len() - 1] != '/');
        assert(forall|k: int| j < k < p.drop_last().len() ==> p.drop_last()[k] != '/');
        lemma_last_sep_found(p.drop_last(), j);
    }
}

proof fn lemma_last_sep_none(p: Seq<char>)
    requires
        forall|k: int| 0 <= k < p.len() ==> p[k] != '/',
    ensures
        last_sep(p) == -1,
    decreases p.len(),
{
    if p.len() > 0 {
        lemma_last_sep_none(p.drop_last());
    }
}

/// The containing directory of a path, as `spec_parent` defines it, or
/// `PathResolutionError::NoParent` when the path has none.
pub fn parent_of(path: &str) -> (r: Result<String, PathResolutionError>)
    ensures
        (match spec_parent(path@) {
            Some(par) => r matches Ok(d) && d@ == par,
            None => r == Err::<String, PathResolutionError>(PathResolutionError::NoParent),
        }),
{
    let n = path.unicode_len();
    let mut i: usize = n;
    loop
        invariant_except_break
            i <= n,
            n == path@.len(),
            forall|k: int| i <= k < n ==> path@[k] != '/',
        ensures
            i <= n,
            n == path@.len(),
            forall|k: int| i <= k < n ==> path@[k] != '/',
            i == 0 || path@[i - 1] == '/',
        decreases i,
    {
        if i == 0 {
            break;
        }
        if path.get_char(i - 1) == '/' {
            break;
        }
        i = i - 1;
    }
    if i == 0 {
        proof {
            lemma_last_sep_none(path@);
        }
        Err(PathResolutionError::NoParent)
    } else {
        proof {
            lemma_last_sep_found(path@, i - 1);
        }
        if n == 1 {
            Err(PathResolutionError::NoParent)
        } else if i == 1 {
            Ok(path.substring_char(0, 1).to_owned())
        } else {
            Ok(path.substring_char(0, i - 1).to_owned())
        }
    }
}

/// The directory next to the running executable. The hosting layer resolves
/// the executable's own path and hands it in, or `None` when resolution
/// failed; the result is that path's containing directory, or the error
/// that says which step broke.
pub fn get_app_data_dir(resolved_exe: Option<&str>) -> (r: Result<String, PathResolutionError>)
    ensures
        resolved_exe is None ==> r == Err::<String, PathResolutionError>(
            PathResolutionError::Unresolved,
        ),
        (match resolved_exe {
            Some(p) => match spec_parent(p@) {
                Some(par) => r matches Ok(d) && d@ == par,
                None => r == Err::<String, PathResolutionError>(PathResolutionError::NoParent),
            },
            None => true,
        }),
{
    match resolved_exe {
        None => Err(PathResolutionError::Unresolved),
        Some(p) => parent_of(p),
    }
}

/// The root-path operation of the command surface: the directory that holds
/// the running executable, or a `PathResolutionError` instead of a crash.
pub fn get_root_path(resolved_exe: Option<&str>) -> (r: Result<String, PathResolutionError>)
    ensures
        resolved_exe is None ==> r == Err::<String, PathResolutionError>(
            PathResolutionError::Unresolved,
        ),
        (match resolved_exe {
            Some(p) => match spec_parent(p@) {
                Some(par) => r matches Ok(d) && d@ == par,
                None => r == Err::<String, PathResolutionError>(PathResolutionError::NoParent),
            },
            None => true,
        }),
{
    get_app_data_dir(resolved_exe)
}

} // verus!
