use vstd::prelude::*;
use vstd::string::StrSliceExecFns;
use vstd::string::StringExecFns;
use crate::error::Error;
use crate::strutil::str_eq;

verus! {

/// The suffix of `p` that follows the last occurrence of `c`; all of `p` when
/// `c` does not occur.
pub open spec fn after_last(p: Seq<char>, c: char) -> Seq<char>
    decreases p.len(),
{
    if p.len() == 0 {
        Seq::empty()
    } else if p.last() == c {
        Seq::empty()
    } else {
        after_last(p.drop_last(), c).push(p.last())
    }
}

/// The logical file name of a path: everything after the last `/` separator,
/// or the whole path when it has none.
pub open spec fn base_name_spec(p: Seq<char>) -> Seq<char> {
    after_last(p, '/')
}

/// Whether a file name holds a `.` anywhere past its first character; a name
/// whose only dot leads it (a hidden file) has no extension.
pub open spec fn has_extension_dot(name: Seq<char>) -> bool {
    exists|i: int| 1 <= i < name.len() && name[i] == '.'
}

/// The extension of a file name: the suffix after its last dot, except that a
/// name with no dot past its first character has the empty extension.
pub open spec fn extension_spec(name: Seq<char>) -> Seq<char> {
    if has_extension_dot(name) {
        after_last(name, '.')
    } else {
        Seq::empty()
    }
}

/// When every position from `k` to the end of `p` avoids `c`, and `k` is
/// either the start or just past an occurrence of `c`, then the suffix after
/// the last `c` is exactly the suffix from `k`.
proof fn lemma_after_last_subrange(p: Seq<char>, c: char, k: int)
    requires
        0 <= k <= p.len(),
        forall|j: int| k <= j < p.len() ==> p[j] != c,
        k == 0 || p[k - 1] == c,
    ensures
        after_last(p, c) == p.subrange(k, p.len() as int),
    decreases p.len(),
{
    if p.len() == 0 {
        assert(after_last(p, c) =~= p.subrange(0, 0));
    } else if p.last() == c {
        assert(k == p.len());
        assert(after_last(p, c) =~= p.subrange(k, p.len() as int));
    } else {
        assert(k < p.len());
        let q = p.drop_last();
        lemma_after_last_subrange(q, c, k);
        assert(after_last(p, c) =~= p.subrange(k, p.len() as int)) by {
            assert(after_last(p, c) == q.subrange(k, q.len() as int).push(p.last()));
        }
    }
}

/// Extracts the logical file name from a path.
pub fn base_name(path: &str) -> (r: String)
    ensures
        r@ == base_name_spec(path@),
{
    let n = path.unicode_len();
    let mut cut: usize = 0;
    let mut i: usize = 0;
    while i < n
        invariant
            n == path@.len(),
            0 <= cut <= i <= n,
            forall|j: int| cut <= j < i ==> path@[j] != '/',
            cut == 0 || path@[cut - 1] == '/',
        decreases n - i,
    {
        if path.get_char(i) == '/' {
            cut = i + 1;
        }
        i += 1;
    }
    proof {
        lemma_after_last_subrange(path@, '/', cut as int);
    }
    let s = path.substring_char(cut, n);
    String::from_str(s)
}

/// Extracts the extension from a logical file name.
pub fn extension(name: &str) -> (r: String)
    ensures
        r@ == extension_spec(name@),
{
    let n = name.unicode_len();
    if n == 0 {
        return String::new();
    }
    let mut found = false;
    let mut cut: usize = 0;
    let mut i: usize = 1;
    while i < n
        invariant
            n == name@.len(),
            1 <= i <= n,
            found ==> 1 <= cut < i && name@[cut as int] == '.' && (forall|j: int|
                cut < j < i ==> name@[j] != '.'),
            !found ==> (forall|j: int| 1 <= j < i ==> name@[j] != '.'),
        decreases n - i,
    {
        if name.get_char(i) == '.' {
            found = true;
            cut = i;
        }
        i += 1;
    }
    if !found {
        return String::new();
    }
    proof {
        assert(has_extension_dot(name@));
        lemma_after_last_subrange(name@, '.', cut + 1);
    }
    let s = name.substring_char(cut + 1, n);
    String::from_str(s)
}

/// The naming-policy tags the library understands.
pub open spec fn policy_valid(policy: Seq<char>) -> bool {
    policy == "raw"@ || policy == "gid"@ || policy == "gide"@
}

/// The physical storage key a policy derives: `raw` keeps the original name,
/// `gid` uses the unique identifier alone, and `gide` appends the original
/// extension to the unique identifier.
pub open spec fn raw_key_spec(
    policy: Seq<char>,
    name: Seq<char>,
    ext: Seq<char>,
    uid: Seq<char>,
) -> Seq<char>
    recommends
        policy_valid(policy),
{
    if policy == "raw"@ {
        name
    } else if policy == "gid"@ {
        uid
    } else {
        uid + "."@ + ext
    }
}

/// Derives the physical storage key for a file from the naming policy, the
/// logical file name, its extension, and a freshly generated unique
/// identifier. An unknown policy tag is rejected.
pub fn resolve_raw_key(policy: &str, name: &str, ext: &str, uid: &str) -> (r: Result<
    String,
    Error,
>)
    ensures
        r is Ok <==> policy_valid(policy@),
        r matches Ok(k) ==> k@ == raw_key_spec(policy@, name@, ext@, uid@),
        r matches Err(e) ==> e is OperationFailed,
{
    if str_eq(policy, "raw") {
        Ok(String::from_str(name))
    } else if str_eq(policy, "gid") {
        Ok(String::from_str(uid))
    } else if str_eq(policy, "gide") {
        let mut key = String::from_str(uid);
        key.append(".");
        key.append(ext);
        Ok(key)
    } else {
        Err(Error::OperationFailed(String::from_str("unknown naming policy")))
    }
}

} // verus!
