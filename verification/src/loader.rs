use vstd::prelude::*;
use vstd::string::StrSliceExecFns;
use vstd::string::StringExecFns;

use crate::mesh::{assembled, Mesh};
use crate::vertex_buffer::{
    buf_wf, empty_model, merged, models, total_vertices, VertexBuffers,
};

verus! {

/// The index right after the last `/` of `p`: where the filename component
/// starts. `p.len()` when `p` ends in a separator, `0` when `p` holds none.
pub open spec fn start_of_name(p: Seq<char>) -> int
    decreases p.len(),
{
    if p.len() == 0 {
        0
    } else if p[p.len() - 1] == '/' {
        p.len() as int
    } else {
        start_of_name(p.drop_last())
    }
}

/// The filename component of `p`: everything after the last separator.
/// Empty exactly when `p` has no filename component (empty path, root, or a
/// path ending in a separator).
pub open spec fn name_part(p: Seq<char>) -> Seq<char> {
    p.subrange(start_of_name(p), p.len() as int)
}

/// A position `k` bordered by a separator on the left and by none on the
/// right is where the filename component starts.
proof fn lemma_start_of_name_at(p: Seq<char>, k: int)
    requires
        0 <= k <= p.len(),
        forall|j: int| k <= j < p.len() ==> p[j] != '/',
        k == 0 || p[k - 1] == '/',
    ensures
        start_of_name(p) == k,
    decreases p.len(),
{
    if p.len() == 0 {
    } else if p[p.len() - 1] == '/' {
        if k < p.len() {
            assert(p[p.len() - 1] != '/');
        }
    } else {
        assert(k < p.len()) by {
            if k == p.len() {
                assert(p[k - 1] != '/');
            }
        }
        let q = p.drop_last();
        assert forall|j: int| k <= j < q.len() implies q[j] != '/' by {
            assert(q[j] == p[j]);
        }
        lemma_start_of_name_at(q, k);
    }
}

/// Derives the filename component of a path: the non-empty text after the
/// last `/`. Returns `None` exactly when the path has no such component.
pub fn file_name(path: &str) -> (r: Option<String>)
    ensures
        match r {
            Some(name) => name_part(path@).len() > 0 && name@ == name_part(path@),
            None => name_part(path@).len() == 0,
        },
{
    let n: usize = path.unicode_len();
    let mut start: usize = n;
    while start > 0 && path.get_char(start - 1) != '/'
        invariant
            start <= n,
            n == path@.len(),
            forall|j: int| start <= j < n ==> #[trigger] path@[j] != '/',
        decreases start,
    {
        start -= 1;
    }
    proof {
        lemma_start_of_name_at(path@, start as int);
    }
    if start == n {
        None
    } else {
        let name = path.substring_char(start, n);
        Some(String::from_str(name))
    }
}

/// What can go wrong while loading a document.
#[derive(Clone, Debug, PartialEq, Eq)]
pub enum SvgError {
    /// The supplied path has no filename component to derive a name from;
    /// holds the offending path.
    InvalidFileName(String),
    /// The upstream parse or tessellation step failed; holds its report.
    SvgError(String),
}

/// The description of a load error.
pub open spec fn svg_error_text(e: SvgError) -> Seq<char> {
    match e {
        SvgError::InvalidFileName(_) => "invalid file name"@,
        SvgError::SvgError(cause) => "failed to load an SVG: "@ + cause@,
    }
}

impl SvgError {
    /// The human-readable description of this error.
    pub fn message(&self) -> (m: String)
        ensures
            m@ == svg_error_text(*self),
    {
        match self {
            SvgError::InvalidFileName(_) => String::from_str("invalid file name"),
            SvgError::SvgError(cause) => {
                let mut m = String::from_str("failed to load an SVG: ");
                m.append(cause.as_str());
                m
            },
        }
    }
}

/// A load error together with the path of the document it struck; fatal for
/// that one document only.
#[derive(Clone, Debug, PartialEq, Eq)]
pub struct FileSvgError {
    pub error: SvgError,
    pub path: String,
}

/// The description of a load error, with the offending path.
pub open spec fn file_error_text(e: FileSvgError) -> Seq<char> {
    "Error reading SVG file "@ + e.path@ + ": "@ + svg_error_text(e.error)
        + ", this is an error in `svg_mesh`."@
}

impl FileSvgError {
    /// The human-readable description of this error.
    pub fn message(&self) -> (m: String)
        ensures
            m@ == file_error_text(*self),
    {
        let mut m = String::from_str("Error reading SVG file ");
        m.append(self.path.as_str());
        m.append(": ");
        let em = self.error.message();
        m.append(em.as_str());
        m.append(", this is an error in `svg_mesh`.");
        proof {
            assert(m@ =~= file_error_text(*self));
        }
        m
    }
}

/// The per-document record the loader produces: the derived name and the
/// assembled mesh.
#[derive(Debug)]
pub struct SvgDocument {
    pub name: String,
    pub mesh: Mesh,
}

/// Drives one document through the pipeline's verified stages: name
/// derivation, buffer merging, and mesh assembly.
#[derive(Default)]
pub struct SvgAssetLoader;

impl SvgAssetLoader {
    /// Loads one document whose shapes were already parsed and triangulated
    /// upstream: derives the document's name from its path — failing with
    /// [`SvgError::InvalidFileName`] exactly when the path has no filename
    /// component — then merges the per-shape buffer pairs, in order, into
    /// one pair, and assembles the renderer-facing mesh from it.
    pub fn load(&self, path: &str, shapes: Vec<VertexBuffers>) -> (r: Result<
        SvgDocument,
        FileSvgError,
    >)
        requires
            forall|i: int| 0 <= i < shapes@.len() ==> buf_wf(#[trigger] shapes@[i]@),
            total_vertices(models(shapes@)) <= u32::MAX,
        ensures
            match r {
                Ok(doc) => {
                    &&& name_part(path@).len() > 0
                    &&& doc.name@ == name_part(path@)
                    &&& doc.mesh@ == assembled(merged(empty_model(), models(shapes@)))
                },
                Err(e) => {
                    &&& name_part(path@).len() == 0
                    &&& e.error matches SvgError::InvalidFileName(p) && p@ == path@
                    &&& e.path@ == path@
                },
            },
    {
        match file_name(path) {
            None => Err(
                FileSvgError {
                    error: SvgError::InvalidFileName(String::from_str(path)),
                    path: String::from_str(path),
                },
            ),
            Some(name) => {
                let mut pair = VertexBuffers::new();
                pair.extend(shapes);
                let mesh = pair.convert();
                Ok(SvgDocument { name, mesh })
            },
        }
    }

    /// The file extensions recognized for loader dispatch: the plain and
    /// the compressed variant of the source format.
    pub fn extensions(&self) -> (r: &'static [&'static str])
        ensures
            r@.len() == 2,
            r@[0]@ == "svg"@,
            r@[1]@ == "svgz"@,
    {
        &["svg", "svgz"]
    }
}

} // verus!
