use svg_mesh::mesh::PrimitiveTopology;
use svg_mesh::vertex_buffer::{
    LinearRgba, Position, Vertex, VertexBuffers, VertexConstructor,
};

fn constructed(p: [f32; 3], c: [f32; 4]) -> Vertex {
    let ctor = VertexConstructor {
        color: LinearRgba {
            r: c[0].to_bits(),
            g: c[1].to_bits(),
            b: c[2].to_bits(),
            a: c[3].to_bits(),
        },
    };
    ctor.new_vertex(Position { x: p[0].to_bits(), y: p[1].to_bits(), z: p[2].to_bits() })
}

#[test]
fn constructor_is_deterministic() {
    // The same transformed point and the same fixed context, twice: the two
    // vertices must be bit-identical. The affine transform is applied to the
    // raw 2-D point before construction; running it twice on equal inputs
    // gives equal positions, which the bit patterns carry exactly.
    let transform = |x: f32, y: f32| -> [f32; 3] { [x * 2.0 + 0.5, y * 2.0 - 0.5, 0.0] };
    let first = constructed(transform(3.25, -1.5), [0.25, 0.5, 0.75, 1.0]);
    let second = constructed(transform(3.25, -1.5), [0.25, 0.5, 0.75, 1.0]);
    assert_eq!(first, second);
}

#[test]
fn constructor_bakes_position_and_color() {
    let v = constructed([1.5, -2.0, 0.0], [0.125, 0.25, 0.5, 1.0]);
    assert_eq!(v.position.x, 1.5f32.to_bits());
    assert_eq!(v.position.y, (-2.0f32).to_bits());
    assert_eq!(v.position.z, 0.0f32.to_bits());
    assert_eq!(v.color.r, 0.125f32.to_bits());
    assert_eq!(v.color.a, 1.0f32.to_bits());
}

#[test]
fn assembled_mesh_is_consistent() {
    let mut pair = VertexBuffers::new();
    pair.vertices.push(constructed([0.0, 0.0, 0.0], [1.0, 0.0, 0.0, 1.0]));
    pair.vertices.push(constructed([1.0, 0.0, 0.0], [1.0, 0.0, 0.0, 1.0]));
    pair.vertices.push(constructed([0.0, 1.0, 0.0], [1.0, 0.0, 0.0, 1.0]));
    pair.indices.push(0);
    pair.indices.push(2);
    pair.indices.push(1);
    let vertex_count = pair.vertices.len();
    let expected_positions: Vec<_> = pair.vertices.iter().map(|v| v.position).collect();
    let expected_colors: Vec<_> = pair.vertices.iter().map(|v| v.color).collect();

    let mesh = pair.convert();
    assert_eq!(mesh.topology, PrimitiveTopology::TriangleList);
    assert_eq!(mesh.positions.len(), vertex_count);
    assert_eq!(mesh.colors.len(), vertex_count);
    assert_eq!(mesh.positions, expected_positions);
    assert_eq!(mesh.colors, expected_colors);
    assert_eq!(mesh.indices, vec![0, 2, 1]);
    for &i in &mesh.indices {
        assert!((i as usize) < mesh.positions.len());
    }
}

#[test]
fn empty_pair_assembles_degenerate_mesh() {
    let mesh = VertexBuffers::new().convert();
    assert_eq!(mesh.topology, PrimitiveTopology::TriangleList);
    assert!(mesh.positions.is_empty());
    assert!(mesh.colors.is_empty());
    assert!(mesh.indices.is_empty());
}
