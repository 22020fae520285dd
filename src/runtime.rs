use vstd::prelude::*;
use vstd::string::StringSliceAdditionalSpecFns;

verus! {

/// The interpreter that runs an application entry point.
#[derive(Clone, Copy, Debug, PartialEq, Eq, Structural)]
pub enum RuntimeKind {
    Node,
    Python,
}

/// Why an entry point cannot be launched.
#[derive(Clone, Copy, Debug, PartialEq, Eq, Structural)]
pub enum ConfigError {
    /// The entry point's extension is not in the runtime table.
    UnsupportedExtension,
    /// The application's URL does not parse.
    InvalidServerUrl,
}

pub const SLASH: u8 = 47;

pub const DOT: u8 = 46;

/// Index of the last occurrence of `c` in `s`, or -1 when there is none.
pub open spec fn last_index(s: Seq<u8>, c: u8) -> int
    decreases s.len(),
{
    if s.len() == 0 {
        -1
    } else if s.last() == c {
        s.len() - 1
    } else {
        last_index(s.drop_last(), c)
    }
}

/// Whether `s` ends in a separator, or in a `.` component (`.` alone or
/// after a `/`), which a path's last component skips.
pub open spec fn ends_in_skipped(s: Seq<u8>) -> bool {
    s.len() > 0 && (s.last() == SLASH || (s.last() == DOT && (s.len() == 1 || s[s.len() - 2]
        == SLASH)))
}

/// The path without trailing separators and trailing `.` components.
pub open spec fn trim_tail(s: Seq<u8>) -> Seq<u8>
    decreases s.len(),
{
    if ends_in_skipped(s) {
        trim_tail(s.drop_last())
    } else {
        s
    }
}

/// The last component of a path, when it names a file: trailing separators
/// and `.` components are skipped, and a path that ends in `..`, or has no
/// component left, names none.
pub open spec fn file_name(path: Seq<u8>) -> Option<Seq<u8>> {
    let t = trim_tail(path);
    let c = t.subrange(last_index(t, SLASH) + 1, t.len() as int);
    if c.len() == 0 || c == seq![DOT, DOT] {
        None
    } else {
        Some(c)
    }
}

/// What follows the last dot of the file name, when that dot is not its first
/// byte (a leading dot marks a hidden file, not an extension).
pub open spec fn extension_of(path: Seq<u8>) -> Option<Seq<u8>> {
    match file_name(path) {
        None => None,
        Some(name) => {
            let d = last_index(name, DOT);
            if d <= 0 {
                None
            } else {
                Some(name.subrange(d + 1, name.len() as int))
            }
        },
    }
}

/// The fixed runtime table: `js` runs under node, `py` under python.
pub open spec fn runtime_of_extension(ext: Option<Seq<u8>>) -> Result<RuntimeKind, ConfigError> {
    match ext {
        Some(e) => if e == seq![106u8, 115u8] {
            Ok(RuntimeKind::Node)
        } else if e == seq![112u8, 121u8] {
            Ok(RuntimeKind::Python)
        } else {
            Err(ConfigError::UnsupportedExtension)
        },
        None => Err(ConfigError::UnsupportedExtension),
    }
}

/// The executable name of each runtime.
pub open spec fn executable_name(k: RuntimeKind) -> Seq<char> {
    match k {
        RuntimeKind::Node => seq!['n', 'o', 'd', 'e'],
        RuntimeKind::Python => seq!['p', 'y', 't', 'h', 'o', 'n'],
    }
}

proof fn lemma_last_index_at(s: Seq<u8>, c: u8, k: int)
    requires
        0 <= k < s.len(),
        s[k] == c,
        forall|j: int| k < j < s.len() ==> s[j] != c,
    ensures
        last_index(s, c) == k,
    decreases s.len(),
{
    if s.last() != c {
        lemma_last_index_at(s.drop_last(), c, k);
    }
}

proof fn lemma_last_index_none(s: Seq<u8>, c: u8)
    requires
        forall|j: int| 0 <= j < s.len() ==> s[j] != c,
    ensures
        last_index(s, c) == -1,
    decreases s.len(),
{
    if s.len() > 0 {
        lemma_last_index_none(s.drop_last(), c);
    }
}

/// Position of the last `c` in `b[lo..hi]`, relative to `lo`.
fn rfind_in(b: &[u8], lo: usize, hi: usize, c: u8) -> (r: Option<usize>)
    requires
        lo <= hi <= b@.len(),
    ensures
        match r {
            Some(i) => lo + i < hi && last_index(b@.subrange(lo as int, hi as int), c) == i as int,
            None => last_index(b@.subrange(lo as int, hi as int), c) == -1,
        },
{
    let ghost s = b@.subrange(lo as int, hi as int);
    let mut i: usize = hi;
    while i > lo
        invariant
            lo <= i <= hi <= b@.len(),
            s == b@.subrange(lo as int, hi as int),
            forall|j: int| i <= j < hi ==> b@[j] != c,
        decreases i,
    {
        if b[i - 1] == c {
            proof {
                lemma_last_index_at(s, c, (i - 1 - lo) as int);
            }
            return Some(i - 1 - lo);
        }
        i = i - 1;
    }
    proof {
        lemma_last_index_none(s, c);
    }
    None
}

/// Length of the prefix of `path` that is left once trailing separators and
/// `.` components are taken off.
fn trimmed_len(path: &[u8]) -> (r: usize)
    ensures
        r <= path@.len(),
        trim_tail(path@) == path@.subrange(0, r as int),
{
    let mut end: usize = path.len();
    assert(path@.subrange(0, end as int) == path@);
    while end > 0
        invariant
            end <= path@.len(),
            trim_tail(path@) == trim_tail(path@.subrange(0, end as int)),
        decreases end,
    {
        let ghost t = path@.subrange(0, end as int);
        let last = path[end - 1];
        if last == SLASH || (last == DOT && (end == 1 || path[end - 2] == SLASH)) {
            assert(ends_in_skipped(t));
            assert(t.drop_last() =~= path@.subrange(0, end - 1));
            end = end - 1;
        } else {
            assert(!ends_in_skipped(t));
            return end;
        }
    }
    assert(!ends_in_skipped(path@.subrange(0, 0)));
    end
}

/// Extension of the file named by `path`, as a byte range of `path`.
fn extension_range(path: &[u8]) -> (r: Option<(usize, usize)>)
    ensures
        match r {
            Some((start, end)) => start <= end <= path@.len() && extension_of(path@) == Some(
                path@.subrange(start as int, end as int),
            ),
            None => extension_of(path@) is None,
        },
{
    let end = trimmed_len(path);
    let ghost t = trim_tail(path@);
    let name_start: usize = match rfind_in(path, 0, end, SLASH) {
        Some(i) => i + 1,
        None => 0,
    };
    let ghost name = t.subrange(last_index(t, SLASH) + 1, t.len() as int);
    assert(name =~= path@.subrange(name_start as int, end as int));
    if name_start == end {
        return None;
    }
    if end - name_start == 2 && path[name_start] == DOT && path[name_start + 1] == DOT {
        assert(name =~= seq![DOT, DOT]);
        return None;
    }
    assert(name != seq![DOT, DOT]) by {
        if name.len() == 2 {
            assert(name[0] == path@[name_start as int] && name[1] == path@[name_start + 1]);
        }
    }
    assert(file_name(path@) == Some(name));
    match rfind_in(path, name_start, end, DOT) {
        Some(d) => {
            if d == 0 {
                None
            } else {
                assert(name.subrange(d + 1, name.len() as int) =~= path@.subrange(
                    name_start + d + 1,
                    end as int,
                ));
                Some((name_start + d + 1, end))
            }
        },
        None => None,
    }
}

/// Resolves the runtime of an entry point from its file extension.
/// An extension outside the table is a configuration error.
pub fn resolve_runtime(entry_point: &str) -> (r: Result<RuntimeKind, ConfigError>)
    ensures
        r == runtime_of_extension(extension_of(entry_point.spec_bytes())),
{
    let b = entry_point.as_bytes();
    match extension_range(b) {
        Some((start, end)) => {
            let n = end - start;
            let ghost e = b@.subrange(start as int, end as int);
            if n == 2 && b[start] == 106u8 && b[start + 1] == 115u8 {
                assert(e =~= seq![106u8, 115u8]);
                Ok(RuntimeKind::Node)
            } else if n == 2 && b[start] == 112u8 && b[start + 1] == 121u8 {
                assert(e =~= seq![112u8, 121u8]);
                Ok(RuntimeKind::Python)
            } else {
                assert(e != seq![106u8, 115u8] && e != seq![112u8, 121u8]) by {
                    if n == 2 {
                        assert(e[0] == b@[start as int] && e[1] == b@[start + 1]);
                    } else {
                        assert(e.len() != 2);
                    }
                }
                Err(ConfigError::UnsupportedExtension)
            }
        },
        None => Err(ConfigError::UnsupportedExtension),
    }
}

impl RuntimeKind {
    /// Name of the program that runs an entry point of this kind.
    pub fn executable(&self) -> (r: &'static str)
        ensures
            r@ == executable_name(*self),
    {
        match self {
            RuntimeKind::Node => {
                proof {
                    reveal_strlit("node");
                }
                "node"
            },
            RuntimeKind::Python => {
                proof {
                    reveal_strlit("python");
                }
                "python"
            },
        }
    }
}

/// Resolves the program that runs an entry point, or the configuration error
/// that forbids launching it.
pub fn get_executable_from_filepath(filename: &str) -> (r: Result<&'static str, ConfigError>)
    ensures
        match runtime_of_extension(extension_of(filename.spec_bytes())) {
            Ok(k) => r matches Ok(x) && x@ == executable_name(k),
            Err(e) => r == Err::<&'static str, ConfigError>(e),
        },
{
    match resolve_runtime(filename) {
        Ok(k) => Ok(k.executable()),
        Err(e) => Err(e),
    }
}

/// Every extension of the runtime table resolves to its runtime, and every
/// other extension, or none, is a configuration error.
pub proof fn lemma_runtime_table(ext: Option<Seq<u8>>)
    ensures
        ext == Some(seq![106u8, 115u8]) ==> runtime_of_extension(ext) == Ok::<RuntimeKind, ConfigError>(RuntimeKind::Node),
        ext == Some(seq![112u8, 121u8]) ==> runtime_of_extension(ext) == Ok::<RuntimeKind, ConfigError>(RuntimeKind::Python),
        ext != Some(seq![106u8, 115u8]) && ext != Some(seq![112u8, 121u8]) ==> runtime_of_extension(ext)
            == Err::<RuntimeKind, ConfigError>(ConfigError::UnsupportedExtension),
{
}

} // verus!
