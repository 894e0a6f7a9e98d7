use egui_d3d9::mesh::{Buffers, ClipRect, DrawCall, FrameGeometry, MeshDescriptor, TextureId, DEFAULT_CAPACITY};

const CLIP: ClipRect = ClipRect { left: 0, top: 0, right: 10, bottom: 10 };

#[test]
fn empty_mesh_gives_no_descriptor() {
    assert!(MeshDescriptor::from_mesh::<u8>(vec![], vec![], CLIP, TextureId::Managed(0)).is_none());
    assert!(MeshDescriptor::from_mesh(vec![1u8], vec![], CLIP, TextureId::Managed(0)).is_none());
    assert!(MeshDescriptor::from_mesh::<u8>(vec![], vec![0], CLIP, TextureId::Managed(0)).is_none());
    let (d, v, i) = MeshDescriptor::from_mesh(vec![1u8, 2, 3], vec![0, 1, 2], CLIP, TextureId::User(4)).unwrap();
    assert_eq!((d.vertices, d.indices, d.texture_id), (3, 3, TextureId::User(4)));
    assert_eq!(v, vec![1u8, 2, 3]);
    assert_eq!(i, vec![0, 1, 2]);
}

#[test]
fn add_mesh_skips_empty_meshes() {
    let mut g: FrameGeometry<u8> = FrameGeometry::new();
    assert!(!g.add_mesh(vec![], vec![], CLIP, TextureId::Managed(0)));
    assert!(g.meshes().is_empty());
    assert!(g.add_mesh(vec![1, 2, 3], vec![0, 1, 2], CLIP, TextureId::Managed(0)));
    assert_eq!(g.meshes().len(), 1);
}

#[test]
fn counts_sum_to_array_lengths_and_draw_ranges_follow() {
    let mut g: FrameGeometry<u8> = FrameGeometry::new();
    g.add_mesh(vec![1, 2, 3], vec![0, 1, 2], CLIP, TextureId::Managed(0));
    g.add_mesh(vec![4, 5, 6, 7], vec![0, 1, 2, 2, 3, 0], CLIP, TextureId::User(9));
    let vs: usize = g.meshes().iter().map(|m| m.vertices).sum();
    let is: usize = g.meshes().iter().map(|m| m.indices).sum();
    assert_eq!(vs, g.vertices().len());
    assert_eq!(is, g.indices().len());
    assert_eq!(g.vertices(), &vec![1, 2, 3, 4, 5, 6, 7]);
    assert_eq!(g.indices(), &vec![0, 1, 2, 0, 1, 2, 2, 3, 0]);
    let calls = g.draw_calls();
    assert_eq!(
        calls,
        vec![
            DrawCall { clip: CLIP, texture_id: TextureId::Managed(0), base_vertex: 0, num_vertices: 3, start_index: 0, primitive_count: 1 },
            DrawCall { clip: CLIP, texture_id: TextureId::User(9), base_vertex: 3, num_vertices: 4, start_index: 3, primitive_count: 2 },
        ]
    );
    g.clear();
    assert!(g.draw_calls().is_empty());
    assert!(g.vertices().is_empty() && g.indices().is_empty());
}

#[test]
fn release_twice_leaves_zero_capacity() {
    let mut b: Buffers<u8, u8> = Buffers::create_buffers(1, 2, 100, 200);
    b.delete_buffers();
    b.delete_buffers();
    assert_eq!((b.vtx_capacity, b.idx_capacity), (0, 0));
    assert!(b.vtx.is_none() && b.idx.is_none());
}

#[test]
fn buffers_grow_only_when_exceeded() {
    let mut b: Buffers<u8, u8> = Buffers::create_buffers(1, 2, 100, 200);
    assert_eq!(b.vertex_growth(100), None);
    assert_eq!(b.vertex_growth(101), Some(101));
    assert_eq!(b.index_growth(150), None);
    assert_eq!(b.index_growth(500), Some(500));
    assert_eq!(b.replace_vertex_buffer(3, 101), Some(1));
    assert_eq!((b.vtx, b.vtx_capacity), (Some(3), 101));
    assert_eq!(b.replace_index_buffer(4, 500), Some(2));
    assert_eq!((b.idx, b.idx_capacity), (Some(4), 500));
    let e: Buffers<u8, u8> = Buffers::empty();
    assert_eq!(e.vertex_growth(10), Some(DEFAULT_CAPACITY));
    assert_eq!(e.index_growth(DEFAULT_CAPACITY + 1), Some(DEFAULT_CAPACITY + 1));
}
