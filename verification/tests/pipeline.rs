use virtual_gpu::aabb::AaBb;
use virtual_gpu::control::{
    dimensions_compatible, set_vattrib_ptr, triangle_job, vertex_count, vertex_job, Scheduler,
    VaoLayout, VaoPointer,
};
use virtual_gpu::cores::VertexCore;
use virtual_gpu::fragment::{depth_test, write_fragment};
use virtual_gpu::memory::Raster;
use virtual_gpu::memory::buffer::Buffer;
use virtual_gpu::memory::Array;
use virtual_gpu::model::Mesh;
use virtual_gpu::pixel::pack_argb;
use virtual_gpu::shader::{CullMode, DepthMode};
use virtual_gpu::texture::checkerboard;

#[test]
fn vertex_jobs_split_the_data_by_stride() {
    assert_eq!(vertex_job(0, 6, 18), Some((0, 6)));
    assert_eq!(vertex_job(2, 6, 18), Some((12, 18)));
    assert_eq!(vertex_job(3, 6, 18), None);
    assert_eq!(vertex_job(2, 6, 17), None);
    assert_eq!(vertex_job(usize::MAX, 2, usize::MAX), None);
}

#[test]
fn triangle_jobs_take_three_vertices() {
    assert_eq!(triangle_job(0, 6), Some((0, 3)));
    assert_eq!(triangle_job(3, 6), Some((3, 6)));
    assert_eq!(triangle_job(4, 6), None);
    assert_eq!(triangle_job(usize::MAX - 1, usize::MAX), None);
}

#[test]
fn scheduler_hands_out_each_vertex_once() {
    let scheduler = Scheduler::default();
    scheduler.reset();
    let mut seen = Vec::new();
    while let Some((index, head, tail)) = scheduler.claim_vertex(5, 15) {
        seen.push((index, head, tail));
    }
    assert_eq!(seen, vec![(0, 0, 5), (1, 5, 10), (2, 10, 15)]);
    scheduler.reset();
    assert_eq!(scheduler.claim_triangle(6), Some((0, 3)));
    assert_eq!(scheduler.claim_triangle(6), Some((3, 6)));
    assert_eq!(scheduler.claim_triangle(6), None);
}

#[test]
fn scheduler_incomplete_follows_head() {
    let scheduler = Scheduler::default();
    let data: Array<f32> = Buffer::from_parts([2], vec![0.0, 1.0]);
    assert!(scheduler.incomplete(&data));
    scheduler.claim_vertex(1, 2);
    scheduler.claim_vertex(1, 2);
    assert!(!scheduler.incomplete(&data));
    scheduler.reset();
    assert!(scheduler.incomplete(&data));
}

#[test]
fn layout_keeps_only_the_last_stride() {
    let mut layout = VaoLayout::new();
    set_vattrib_ptr(&mut layout, 6);
    set_vattrib_ptr(&mut layout, 5);
    assert_eq!(layout.len(), 1);
    assert_eq!(*layout.peek(), VaoPointer { stride: 5 });
    assert_eq!(vertex_count(&layout, 15), 3);
    assert_eq!(vertex_count(&layout, 14), 2);
}

#[test]
fn render_target_dimensions() {
    assert!(dimensions_compatible([4, 3], [4, 3], true, true));
    assert!(dimensions_compatible([0, 0], [4, 3], true, true));
    assert!(dimensions_compatible([4, 3], [0, 0], true, true));
    assert!(!dimensions_compatible([4, 3], [3, 4], true, true));
    assert!(dimensions_compatible([4, 3], [3, 4], true, false));
    assert!(dimensions_compatible([4, 3], [3, 4], false, true));
    assert!(dimensions_compatible([0, 0], [0, 0], true, true));
    assert!(!dimensions_compatible([2, 0], [1, 0], true, true));
}

#[test]
fn boxes_overlap_symmetrically() {
    let a = AaBb::new([0, 0], [4, 4]);
    let b = AaBb::new([4, 2], [6, 8]);
    let c = AaBb::new([5, 5], [6, 6]);
    assert!(a.overlaps(&b) && b.overlaps(&a));
    assert!(!a.overlaps(&c) && !c.overlaps(&a));
    assert!(b.overlaps(&c) && c.overlaps(&b));
    let d: AaBb<i32, 2> = Default::default();
    assert!(d.overlaps(&a));
}

#[test]
fn pixels_pack_as_argb() {
    assert_eq!(pack_argb(25, 25, 40), 0xff19_1928);
    assert_eq!(pack_argb(0, 0, 0), 0xff00_0000);
    assert_eq!(pack_argb(255, 1, 2), 0xffff_0102);
    let p = pack_argb(220, 220, 200);
    assert_eq!(((p >> 16) & 0xff, (p >> 8) & 0xff, p & 0xff), (220, 220, 200));
}

#[test]
fn checkerboard_alternates() {
    let board = checkerboard(8, 8, 'a', 'b');
    assert_eq!(board.size(), [8, 8]);
    assert_eq!(*board.get([0, 0]), 'a');
    assert_eq!(*board.get([1, 0]), 'b');
    assert_eq!(*board.get([0, 1]), 'b');
    assert_eq!(*board.get([7, 7]), 'a');
    assert_eq!(*board.get([6, 3]), 'b');
}

#[test]
fn mesh_expands_indices() {
    let mesh = Mesh::from_parts(vec![10u8, 20, 30], vec![0, 2, 1, 2]).unwrap();
    assert_eq!(mesh.vertices(), vec![10, 30, 20, 30]);
    assert!(Mesh::from_parts(vec![10u8, 20], vec![0, 2]).is_none());
}

#[test]
fn cull_and_depth_modes() {
    assert_eq!(CullMode::default(), CullMode::Off);
    assert!(!CullMode::Off.culls(true, false));
    assert!(CullMode::Front.culls(true, false));
    assert!(!CullMode::Front.culls(false, true));
    assert!(CullMode::Back.culls(false, true));
    assert_eq!(DepthMode::default(), DepthMode::WriteGreater);
    assert!(DepthMode::WriteGreater.passes(&1, &2));
    assert!(!DepthMode::WriteGreater.passes(&3, &2));
    assert!(!DepthMode::WriteLess.passes(&1, &2));
    assert!(DepthMode::WriteLess.passes(&2, &2));
    assert!(DepthMode::NoWrite.passes(&9, &2));
}

#[test]
fn vertex_core_is_stateless() {
    let cores: Array<VertexCore> = Buffer::new([3]);
    assert_eq!(cores.len(), 3);
}

#[test]
fn fragment_depth_test_and_writes() {
    let mut color: Raster<u32> = Buffer::new([2, 2]);
    let mut depth: Raster<i32> = Buffer::from_parts([2, 2], vec![5, 5, 5, 5]);
    assert!(depth_test(&depth, [1, 0], &4, DepthMode::WriteGreater));
    assert!(!depth_test(&depth, [1, 0], &6, DepthMode::WriteGreater));
    assert!(depth_test(&depth, [1, 0], &6, DepthMode::WriteLess));
    assert!(depth_test(&depth, [9, 9], &6, DepthMode::NoWrite));

    write_fragment(&mut color, &mut depth, [1, 0], 4, 0xff00_ff00, true, true);
    assert_eq!(color.as_slice(), &[0, 0xff00_ff00, 0, 0]);
    assert_eq!(depth.as_slice(), &[5, 4, 5, 5]);

    write_fragment(&mut color, &mut depth, [0, 1], 3, 7, false, true);
    assert_eq!(color.as_slice(), &[0, 0xff00_ff00, 0, 0]);
    assert_eq!(depth.as_slice(), &[5, 4, 3, 5]);

    write_fragment(&mut color, &mut depth, [1, 1], 1, 8, true, false);
    assert_eq!(color.as_slice(), &[0, 0xff00_ff00, 0, 8]);
    assert_eq!(depth.as_slice(), &[5, 4, 3, 5]);
}
