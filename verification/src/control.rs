//! Control of the pipeline: the vertex layout, the shared work counter that
//! hands vertices and triangles out to the cores, and the checks made
//! before a render.
use vstd::prelude::*;

use crate::memory::stack;
use crate::memory::Array;

verus! {

/// How many floats one vertex attribute register holds.
pub const REGISTER_SIZE: usize = 12;

/// How many vertex layouts the pipeline keeps.
pub const VAO_SIZE: usize = 1;

/// How many vertices make one triangle.
pub const TRIANGLE_VERTICES: usize = 3;

/// The layout of the vertex data: how many floats one vertex takes.
#[derive(Debug, Default, Clone, Copy, PartialEq, Eq)]
pub struct VaoPointer {
    pub stride: usize,
}

/// The vertex layouts of a pipeline.
pub type VaoLayout = stack::Vec<VaoPointer, VAO_SIZE>;

/// Replaces the vertex layout by one of the given stride: afterwards the
/// layout holds that pointer alone.
pub fn set_vattrib_ptr(layout: &mut VaoLayout, stride: usize)
    ensures
        final(layout).wf(),
        final(layout)@ == seq![VaoPointer { stride }],
{
    if !layout.is_empty() {
        layout.pop();
    }
    layout.push(VaoPointer { stride });
    assert(layout@ =~= seq![VaoPointer { stride }]);
}

/// The number of vertices that `data_len` floats hold under the current
/// layout.
pub fn vertex_count(layout: &VaoLayout, data_len: usize) -> (count: usize)
    requires
        layout@.len() > 0,
        layout@.last().stride > 0,
    ensures
        count == data_len / layout@.last().stride,
{
    data_len / layout.peek().stride
}

/// The floats of vertex `index`: `[index * stride, (index + 1) * stride)`,
/// or `None` where that range runs past the `vao_len` floats there are.
pub open spec fn vertex_range(index: usize, stride: usize, vao_len: usize) -> Option<(usize, usize)> {
    if index * stride + stride <= vao_len {
        Some(((index * stride) as usize, (index * stride + stride) as usize))
    } else {
        None
    }
}

/// Computes `vertex_range`.
pub fn vertex_job(index: usize, stride: usize, vao_len: usize) -> (range: Option<(usize, usize)>)
    ensures
        range == vertex_range(index, stride, vao_len),
{
    match index.checked_mul(stride) {
        None => {
            proof {
                assert(index * stride >= 0) by (nonlinear_arith);
            }
            None
        },
        Some(head) => match head.checked_add(stride) {
            None => None,
            Some(tail) => {
                if tail > vao_len {
                    None
                } else {
                    Some((head, tail))
                }
            },
        },
    }
}

/// The vertices of the triangle that starts at queue slot `head`:
/// `[head, head + 3)`, or `None` where that runs past the `queue_len`
/// vertices there are.
pub open spec fn triangle_range(head: usize, queue_len: usize) -> Option<(usize, usize)> {
    if head + TRIANGLE_VERTICES <= queue_len {
        Some((head, (head + TRIANGLE_VERTICES) as usize))
    } else {
        None
    }
}

/// Computes `triangle_range`.
pub fn triangle_job(head: usize, queue_len: usize) -> (range: Option<(usize, usize)>)
    ensures
        range == triangle_range(head, queue_len),
{
    match head.checked_add(TRIANGLE_VERTICES) {
        None => None,
        Some(tail) => {
            if tail > queue_len {
                None
            } else {
                Some((head, tail))
            }
        },
    }
}

/// A vertex has a range exactly when it is one of the first
/// `vao_len / stride` vertices, and the ranges of two vertices never
/// overlap: vertex `i` ends where vertex `i + 1` starts or before.
pub proof fn law_vertex_ranges(i: usize, j: usize, stride: usize, vao_len: usize)
    requires
        stride > 0,
    ensures
        vertex_range(i, stride, vao_len) is Some <==> i < vao_len / stride,
        i < j && vertex_range(i, stride, vao_len) is Some && vertex_range(j, stride, vao_len) is Some
            ==> vertex_range(i, stride, vao_len).unwrap().1 <= vertex_range(
            j,
            stride,
            vao_len,
        ).unwrap().0,
{
    let q = vao_len / stride;
    let r = vao_len % stride;
    vstd::arithmetic::div_mod::lemma_fundamental_div_mod(vao_len as int, stride as int);
    assert(vao_len == stride * q + r);
    assert(0 <= r < stride);
    assert(i * stride + stride <= vao_len <==> i < q) by (nonlinear_arith)
        requires
            vao_len == stride * q + r,
            0 <= r < stride,
            i >= 0,
    ;
    if i < j {
        assert(i * stride + stride <= j * stride) by (nonlinear_arith)
            requires
                i < j,
                stride > 0,
        ;
        assert(j * stride <= j * stride + stride);
    }
}

/// A vertex's range, where it has one, starts at `index * stride` and holds
/// exactly `stride` floats, inside the data; it is the same range however
/// much data is bound, as long as the vertex fits.
pub proof fn law_vertex_range_exact(index: usize, stride: usize, len_a: usize, len_b: usize)
    ensures
        vertex_range(index, stride, len_a) is Some ==> {
            let r = vertex_range(index, stride, len_a).unwrap();
            &&& r.0 == index * stride
            &&& r.1 - r.0 == stride
            &&& r.1 <= len_a
        },
        vertex_range(index, stride, len_a) is Some && vertex_range(index, stride, len_b) is Some
            ==> vertex_range(index, stride, len_a) == vertex_range(index, stride, len_b),
        (index + 1) * stride <= len_a ==> vertex_range(index, stride, len_a) is Some,
        (index + 1) * stride > len_a ==> vertex_range(index, stride, len_a) is None,
{
    assert((index + 1) * stride == index * stride + stride) by (nonlinear_arith);
    assert(index * stride >= 0) by (nonlinear_arith);
}

/// The triangles' vertex ranges never overlap: the triangle that starts at
/// `h` ends no later than the next claim, at `h + 3`, starts.
pub proof fn law_triangle_ranges(h: usize, queue_len: usize)
    ensures
        triangle_range(h, queue_len) matches Some(a) ==> a.1 == h + TRIANGLE_VERTICES && a.1
            <= queue_len,
        triangle_range(h, queue_len) is Some <==> h + TRIANGLE_VERTICES <= queue_len,
{
}

/// The counter that cores draw their next piece of work from.
#[derive(Debug)]
pub struct Scheduler {
    pub head: std::sync::atomic::AtomicUsize,
}

impl Default for Scheduler {
    fn default() -> (scheduler: Self) {
        Scheduler { head: std::sync::atomic::AtomicUsize::new(0) }
    }
}

/// What a vertex claim yields once it has drawn `index` from the counter:
/// the index with its float range, or `None` past the end of the data.
pub open spec fn vertex_claim(index: usize, stride: usize, vao_len: usize) -> Option<
    (usize, usize, usize),
> {
    match vertex_range(index, stride, vao_len) {
        Some(r) => Some((index, r.0, r.1)),
        None => None,
    }
}

/// Whether the counter value `head` lies before the end of `len` items.
pub open spec fn head_before(head: usize, len: nat) -> bool {
    head < len
}

/// Computes `head_before`: whether counter value `head` lies before the
/// end of `len` items.
pub fn counter_before(head: usize, len: usize) -> (before: bool)
    ensures
        before == head_before(head, len as nat),
{
    head < len
}

impl Scheduler {
    /// Sets the counter back to the first piece of work.
    pub fn reset(&self) {
        self.head.store(0, std::sync::atomic::Ordering::Relaxed);
    }

    /// Whether the counter has not yet passed the end of `data`.
    pub fn incomplete<T>(&self, data: &Array<T>) -> (pending: bool)
        ensures
            exists|head: usize| pending == #[trigger] head_before(head, data.cells().len()),
            pending ==> data.cells().len() > 0,
    {
        let head = self.head.load(std::sync::atomic::Ordering::Relaxed);
        let pending = counter_before(head, data.as_slice().len());
        assert(pending == head_before(head, data.cells().len()));
        pending
    }

    /// Claims the next vertex: its index and its float range, or `None`
    /// when the vertex data is used up.
    pub fn claim_vertex(&self, stride: usize, vao_len: usize) -> (job: Option<(usize, usize, usize)>)
        ensures
            exists|index: usize| job == #[trigger] vertex_claim(index, stride, vao_len),
            job matches Some(j) ==> vertex_range(j.0, stride, vao_len) == Some((j.1, j.2)),
            job matches Some(j) ==> j.2 <= vao_len,
            job matches Some(j) ==> stride > 0 ==> j.0 < vao_len / stride,
    {
        let index = self.head.fetch_add(1, std::sync::atomic::Ordering::Relaxed);
        proof {
            if stride > 0 {
                law_vertex_ranges(index, index, stride, vao_len);
            }
        }
        let job = match vertex_job(index, stride, vao_len) {
            Some((head, tail)) => Some((index, head, tail)),
            None => None,
        };
        assert(job == vertex_claim(index, stride, vao_len));
        job
    }

    /// Claims the next triangle: the queue range of its three vertices, or
    /// `None` when the queue is used up.
    pub fn claim_triangle(&self, queue_len: usize) -> (job: Option<(usize, usize)>)
        ensures
            exists|head: usize| job == #[trigger] triangle_range(head, queue_len),
            job matches Some(j) ==> triangle_range(j.0, queue_len) == Some(j),
            job matches Some(j) ==> j.1 == j.0 + TRIANGLE_VERTICES && j.1 <= queue_len,
    {
        let head = self.head.fetch_add(TRIANGLE_VERTICES, std::sync::atomic::Ordering::Relaxed);
        let job = triangle_job(head, queue_len);
        assert(job == triangle_range(head, queue_len));
        job
    }
}

/// The colour and depth targets can be rendered to together: their
/// extents match, or exactly one of them is empty, or exactly one of them
/// is written.
pub open spec fn targets_compatible(
    color: Seq<usize>,
    depth: Seq<usize>,
    pixel_write: bool,
    depth_write: bool,
) -> bool {
    let empty = seq![0usize, 0usize];
    ||| color == depth
    ||| color == empty && depth != empty
    ||| color != empty && depth == empty
    ||| pixel_write && !depth_write
    ||| !pixel_write && depth_write
}

/// What the render-target check accepts, in terms of the extents: two
/// non-empty targets that are both written must have the same width and
/// the same height; equal extents always pass; a target pair with exactly
/// one write disabled always passes; so does a pair where exactly one
/// target is empty (0 by 0).
pub proof fn law_targets_compatible(
    color: [usize; 2],
    depth: [usize; 2],
    pixel_write: bool,
    depth_write: bool,
)
    ensures
        pixel_write && depth_write && color[0] > 0 && color[1] > 0 && depth[0] > 0 && depth[1] > 0
            ==> (targets_compatible(color@, depth@, pixel_write, depth_write) <==> (color[0]
            == depth[0] && color[1] == depth[1])),
        color[0] == depth[0] && color[1] == depth[1] ==> targets_compatible(
            color@,
            depth@,
            pixel_write,
            depth_write,
        ),
        pixel_write != depth_write ==> targets_compatible(color@, depth@, pixel_write, depth_write),
        (color[0] == 0 && color[1] == 0) != (depth[0] == 0 && depth[1] == 0) ==> targets_compatible(
            color@,
            depth@,
            pixel_write,
            depth_write,
        ),
        !pixel_write && !depth_write && (color[0] != depth[0] || color[1] != depth[1])
            && !(color[0] == 0 && color[1] == 0) && !(depth[0] == 0 && depth[1] == 0)
            ==> !targets_compatible(color@, depth@, pixel_write, depth_write),
{
    let empty = seq![0usize, 0usize];
    assert(color@.len() == 2 && depth@.len() == 2);
    assert((color@ == depth@) <==> (color[0] == depth[0] && color[1] == depth[1])) by {
        if color[0] == depth[0] && color[1] == depth[1] {
            assert(color@ =~= depth@);
        }
    }
    assert((color@ == empty) <==> (color[0] == 0 && color[1] == 0)) by {
        if color[0] == 0 && color[1] == 0 {
            assert(color@ =~= empty);
        }
    }
    assert((depth@ == empty) <==> (depth[0] == 0 && depth[1] == 0)) by {
        if depth[0] == 0 && depth[1] == 0 {
            assert(depth@ =~= empty);
        }
    }
}

/// Computes `targets_compatible`, the condition a render checks first.
pub fn dimensions_compatible(
    color: [usize; 2],
    depth: [usize; 2],
    pixel_write: bool,
    depth_write: bool,
) -> (ok: bool)
    ensures
        ok == targets_compatible(color@, depth@, pixel_write, depth_write),
{
    let same = color[0] == depth[0] && color[1] == depth[1];
    let color_empty = color[0] == 0 && color[1] == 0;
    let depth_empty = depth[0] == 0 && depth[1] == 0;
    proof {
        assert(same <==> color@ =~= depth@);
        assert(color_empty <==> color@ =~= seq![0usize, 0usize]);
        assert(depth_empty <==> depth@ =~= seq![0usize, 0usize]);
    }
    same || color_empty && !depth_empty || !color_empty && depth_empty || pixel_write
        && !depth_write || !pixel_write && depth_write
}

} // verus!
