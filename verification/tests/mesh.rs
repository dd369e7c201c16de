use skie_draw::paint::{Mesh, TextureId};

#[test]
fn building_a_mesh() {
    let mut mesh: Mesh<(i32, i32)> = Mesh::default();
    assert!(mesh.is_empty());
    assert!(mesh.texture.is_white());
    mesh.reserve_prim(3, 3);
    mesh.add_vertex((0, 0));
    mesh.add_vertex((1, 0));
    mesh.add_vertex((0, 1));
    mesh.add_triangle(0, 1, 2);
    assert_eq!(mesh.vertex_count(), 3);
    assert_eq!(mesh.index_count(), 3);
    assert!(mesh.is_valid());
    mesh.add_triangle(0, 1, 3);
    assert!(!mesh.is_valid());
    mesh.clear();
    assert!(mesh.is_empty());
}

#[test]
fn append_moves_indices_past_existing_vertices() {
    let mut a: Mesh<u8> = Mesh::default();
    a.add_vertex(1);
    a.add_vertex(2);
    a.add_triangle(0, 1, 0);
    a.texture = TextureId::User(4);
    let mut b: Mesh<u8> = Mesh::default();
    b.add_vertex(3);
    b.add_vertex(4);
    b.add_vertex(5);
    b.add_triangle(0, 1, 2);
    a.append(&b);
    assert_eq!(a.vertices, vec![1, 2, 3, 4, 5]);
    assert_eq!(a.indices, vec![0, 1, 0, 2, 3, 4]);
    assert_eq!(a.texture, TextureId::User(4));
    assert!(a.is_valid());
}
