//! Asset path resolution and shader source validation.
//!
//! A path is modelled as its byte string, with `/` as the separator.
//! The embedder reads files and determines the program's own location;
//! this module owns every decision made about those values: how the
//! asset root is derived from the executable's path, how a file name is
//! joined to the root, and whether a loaded file is acceptable shader
//! source (it must not contain an embedded nul byte).

use vstd::prelude::*;

verus! {

/// Everything that can go wrong while loading assets and building a
/// shader program.
#[derive(Debug)]
pub enum Error {
    /// The running program's own location could not be determined, or
    /// it has no parent directory to anchor the asset root to.
    PathResolutionError,
    /// A filesystem read failed.
    IoError,
    /// A loaded file contains a `0x00` byte, so it cannot be handed to
    /// the driver as a nul-terminated source string.
    EmbeddedNulError,
    /// A resource name whose extension names no supported shader stage.
    UnsupportedExtensionError,
    /// The driver rejected a shader; carries the driver's diagnostic log.
    ShaderCompileError { log: Vec<u8> },
    /// The driver rejected a program link; carries the driver's log.
    ProgramLinkError { log: Vec<u8> },
}

/// The byte `/`, the path separator.
pub open spec fn sep() -> u8 {
    47u8
}

/// Whether `s` contains a nul byte.
pub open spec fn has_nul(s: Seq<u8>) -> bool {
    exists|i: int| 0 <= i < s.len() && s[i] == 0u8
}

/// Shader source text: an owned byte buffer known to be free of
/// embedded nul bytes, so it can be nul-terminated for the driver.
pub struct SourceText {
    bytes: Vec<u8>,
}

impl View for SourceText {
    type V = Seq<u8>;

    closed spec fn view(&self) -> Seq<u8> {
        self.bytes@
    }
}

impl SourceText {
    /// The defining invariant: no embedded nul byte.
    pub open spec fn wf(&self) -> bool {
        !has_nul(self@)
    }

    /// Accepts a loaded file's contents as shader source, rejecting
    /// any buffer that contains a nul byte.
    pub fn from_bytes(bytes: Vec<u8>) -> (r: Result<SourceText, Error>)
        ensures
            !has_nul(bytes@) ==> (r matches Ok(t) && t@ == bytes@ && t.wf()),
            has_nul(bytes@) ==> (r matches Err(e) && e is EmbeddedNulError),
    {
        let n = bytes.len();
        let mut i: usize = 0;
        while i < n
            invariant
                n == bytes.len(),
                0 <= i <= n,
                forall|j: int| 0 <= j < i ==> bytes@[j] != 0u8,
            decreases n - i,
        {
            if bytes[i] == 0u8 {
                assert(has_nul(bytes@));
                return Err(Error::EmbeddedNulError);
            }
            i += 1;
        }
        Ok(SourceText { bytes })
    }

    /// The validated bytes.
    pub fn as_bytes(&self) -> (r: &Vec<u8>)
        ensures
            r@ == self@,
    {
        &self.bytes
    }

    /// The source with its terminating nul appended, the exact buffer
    /// the driver is handed.
    pub fn terminated(&self) -> (r: Vec<u8>)
        requires
            self@.len() < usize::MAX,
        ensures
            r@ == self@.push(0u8),
    {
        let mut out = self.bytes.clone();
        out.push(0u8);
        out
    }
}

/// Index of the last separator in `s`, or `-1` if there is none.
pub open spec fn last_sep(s: Seq<u8>) -> int
    decreases s.len(),
{
    if s.len() == 0 {
        -1
    } else if s[s.len() - 1] == sep() {
        s.len() - 1
    } else {
        last_sep(s.drop_last())
    }
}

proof fn lemma_last_sep_at(s: Seq<u8>, k: int)
    requires
        0 <= k < s.len(),
        s[k] == sep(),
        forall|j: int| k < j < s.len() ==> s[j] != sep(),
    ensures
        last_sep(s) == k,
    decreases s.len(),
{
    if k == s.len() - 1 {
    } else {
        assert(s.drop_last()[k] == s[k]);
        lemma_last_sep_at(s.drop_last(), k);
    }
}

proof fn lemma_last_sep_none(s: Seq<u8>)
    requires
        forall|j: int| 0 <= j < s.len() ==> s[j] != sep(),
    ensures
        last_sep(s) == -1,
    decreases s.len(),
{
    if s.len() > 0 {
        lemma_last_sep_none(s.drop_last());
    }
}

/// Locator of asset files: holds the root directory, as a byte path,
/// that every resource name is resolved against.
#[derive(Debug)]
pub struct Resources {
    root_path: Vec<u8>,
}

impl View for Resources {
    type V = Seq<u8>;

    closed spec fn view(&self) -> Seq<u8> {
        self.root_path@
    }
}

impl Resources {
    /// Anchors the asset root to the running program's location:
    /// the root is the executable's parent directory (everything up to
    /// and including the last separator) joined with `rel_path`.
    /// Fails when the executable's path has no parent directory.
    /// The embedder supplies `exe_path`; determining it is its job,
    /// and when that itself fails the embedder reports
    /// `PathResolutionError` without calling here.
    pub fn from_relative_exe_path(exe_path: &Vec<u8>, rel_path: &Vec<u8>) -> (r: Result<
        Resources,
        Error,
    >)
        requires
            exe_path@.len() + rel_path@.len() <= usize::MAX,
        ensures
            last_sep(exe_path@) >= 0 ==> (r matches Ok(res) && res@ == exe_path@.subrange(
                0,
                last_sep(exe_path@) + 1,
            ) + rel_path@),
            last_sep(exe_path@) < 0 ==> (r matches Err(e) && e is PathResolutionError),
    {
        let n = exe_path.len();
        let mut i: usize = n;
        while i > 0
            invariant
                n == exe_path.len(),
                0 <= i <= n,
                exe_path@.len() + rel_path@.len() <= usize::MAX,
                forall|j: int| i <= j < n ==> exe_path@[j] != sep(),
            decreases i,
        {
            i -= 1;
            if exe_path[i] == 47u8 {
                proof {
                    lemma_last_sep_at(exe_path@, i as int);
                }
                let mut root: Vec<u8> = Vec::new();
                let mut k: usize = 0;
                while k < i + 1
                    invariant
                        0 <= k <= i + 1,
                        i < n,
                        n == exe_path.len(),
                        root@ == exe_path@.subrange(0, k as int),
                    decreases i + 1 - k,
                {
                    root.push(exe_path[k]);
                    assert(root@ == exe_path@.subrange(0, k + 1 as int));
                    k += 1;
                }
                let mut m: usize = 0;
                while m < rel_path.len()
                    invariant
                        0 <= m <= rel_path.len(),
                        i < n,
                        n == exe_path.len(),
                        exe_path@.len() + rel_path@.len() <= usize::MAX,
                        root@ == exe_path@.subrange(0, i + 1) + rel_path@.subrange(0, m as int),
                    decreases rel_path.len() - m,
                {
                    root.push(rel_path[m]);
                    assert(root@ == exe_path@.subrange(0, i + 1) + rel_path@.subrange(
                        0,
                        m + 1 as int,
                    ));
                    m += 1;
                }
                assert(rel_path@.subrange(0, rel_path@.len() as int) == rel_path@);
                return Ok(Resources { root_path: root });
            }
        }
        proof {
            lemma_last_sep_none(exe_path@);
        }
        Err(Error::PathResolutionError)
    }

    /// The root directory every resource name is resolved against.
    pub fn root(&self) -> (r: &Vec<u8>)
        ensures
            r@ == self@,
    {
        &self.root_path
    }

    /// Resolves a resource name against the root: `root/name`.
    pub fn resolve(&self, name: &Vec<u8>) -> (p: Vec<u8>)
        requires
            self@.len() + 1 + name@.len() <= usize::MAX,
        ensures
            p@ == self@ + seq![sep()] + name@,
    {
        let mut p = self.root_path.clone();
        p.push(47u8);
        let mut m: usize = 0;
        while m < name.len()
            invariant
                0 <= m <= name.len(),
                self@.len() + 1 + name@.len() <= usize::MAX,
                p@ == self@ + seq![sep()] + name@.subrange(0, m as int),
            decreases name.len() - m,
        {
            p.push(name[m]);
            assert(p@ == self@ + seq![sep()] + name@.subrange(0, m + 1 as int));
            m += 1;
        }
        assert(name@.subrange(0, name@.len() as int) == name@);
        p
    }
}

} // verus!
