use svg_mesh::loader::{file_name, FileSvgError, SvgAssetLoader, SvgError};
use svg_mesh::mesh::PrimitiveTopology;
use svg_mesh::vertex_buffer::{LinearRgba, Position, VertexBuffers, VertexConstructor};

fn tessellated_triangle(color: [f32; 4], translate_x: f32) -> VertexBuffers {
    // What the upstream fill pass emits for one triangle: the raw 2-D points
    // run through the shape's own transform and fixed color.
    let ctor = VertexConstructor {
        color: LinearRgba {
            r: color[0].to_bits(),
            g: color[1].to_bits(),
            b: color[2].to_bits(),
            a: color[3].to_bits(),
        },
    };
    let mut b = VertexBuffers::new();
    for (x, y) in [(0.0f32, 0.0f32), (1.0, 0.0), (0.0, 1.0)] {
        let position = Position {
            x: (x + translate_x).to_bits(),
            y: y.to_bits(),
            z: 0.0f32.to_bits(),
        };
        b.vertices.push(ctor.new_vertex(position));
    }
    b.indices.push(0);
    b.indices.push(1);
    b.indices.push(2);
    b
}

#[test]
fn file_name_extracts_last_component() {
    assert_eq!(file_name("assets/scenes/logo.svg").unwrap(), "logo.svg");
    assert_eq!(file_name("logo.svg").unwrap(), "logo.svg");
    assert_eq!(file_name("/logo.svgz").unwrap(), "logo.svgz");
    assert!(file_name("").is_none());
    assert!(file_name("/").is_none());
    assert!(file_name("assets/scenes/").is_none());
}

#[test]
fn missing_filename_is_invalid_identity() {
    let loader = SvgAssetLoader::default();
    for path in ["", "/", "some/dir/"] {
        let err = loader.load(path, vec![]).unwrap_err();
        assert_eq!(err.path, path);
        match err.error {
            SvgError::InvalidFileName(p) => assert_eq!(p, path),
            other => panic!("expected InvalidFileName, got {:?}", other),
        }
    }
}

#[test]
fn two_triangles_end_to_end() {
    // Two disjoint filled triangles, each 3 vertices / 1 triangle with
    // indices {0, 1, 2} pre-merge, merged in order into an empty
    // destination: 6 vertices, indices {0, 1, 2, 3, 4, 5}, and the second
    // triangle keeps its own transform and color, independent of the first.
    let red = [1.0, 0.0, 0.0, 1.0];
    let blue = [0.0, 0.0, 1.0, 1.0];
    let loader = SvgAssetLoader::default();
    let doc = loader
        .load(
            "scenes/two-triangles.svg",
            vec![tessellated_triangle(red, 0.0), tessellated_triangle(blue, 10.0)],
        )
        .unwrap();

    assert_eq!(doc.name, "two-triangles.svg");
    let mesh = doc.mesh;
    assert_eq!(mesh.topology, PrimitiveTopology::TriangleList);
    assert_eq!(mesh.positions.len(), 6);
    assert_eq!(mesh.colors.len(), 6);
    assert_eq!(mesh.indices, vec![0, 1, 2, 3, 4, 5]);

    // Triangle 2 sits where its own transform put it...
    assert_eq!(mesh.positions[3].x, 10.0f32.to_bits());
    assert_eq!(mesh.positions[4].x, 11.0f32.to_bits());
    assert_eq!(mesh.positions[5].x, 10.0f32.to_bits());
    // ...and wears its own color, not triangle 1's.
    for k in 0..3 {
        assert_eq!(mesh.colors[k].r, 1.0f32.to_bits());
        assert_eq!(mesh.colors[k].b, 0.0f32.to_bits());
    }
    for k in 3..6 {
        assert_eq!(mesh.colors[k].r, 0.0f32.to_bits());
        assert_eq!(mesh.colors[k].b, 1.0f32.to_bits());
    }
}

#[test]
fn load_of_no_shapes_gives_degenerate_mesh() {
    let loader = SvgAssetLoader::default();
    let doc = loader.load("empty.svg", vec![]).unwrap();
    assert_eq!(doc.name, "empty.svg");
    assert!(doc.mesh.positions.is_empty());
    assert!(doc.mesh.indices.is_empty());
}

#[test]
fn error_messages_are_exact() {
    let invalid = SvgError::InvalidFileName(String::from("dir/"));
    assert_eq!(invalid.message(), "invalid file name");

    let upstream = SvgError::SvgError(String::from("unexpected end of document"));
    assert_eq!(upstream.message(), "failed to load an SVG: unexpected end of document");

    let file_error = FileSvgError {
        error: SvgError::SvgError(String::from("bad header")),
        path: String::from("img/a.svg"),
    };
    assert_eq!(
        file_error.message(),
        "Error reading SVG file img/a.svg: failed to load an SVG: bad header, \
         this is an error in `svg_mesh`."
    );
}

#[test]
fn extensions_cover_plain_and_compressed_variant() {
    let loader = SvgAssetLoader::default();
    assert_eq!(loader.extensions(), &["svg", "svgz"]);
}
