use rayvox::quad::{
    get_vertices_for_entire_screen, set_resolution, RayVVertex, DEFAULT_HEIGHT, DEFAULT_WIDTH,
};

#[test]
fn quad_is_two_triangles_over_the_whole_screen() {
    let vertices = get_vertices_for_entire_screen();
    let resolution = [1046, 1025];
    assert_eq!(
        vertices,
        vec![
            RayVVertex { position: [-1, -1], resolution },
            RayVVertex { position: [1, -1], resolution },
            RayVVertex { position: [1, 1], resolution },
            RayVVertex { position: [-1, -1], resolution },
            RayVVertex { position: [1, 1], resolution },
            RayVVertex { position: [-1, 1], resolution },
        ]
    );
    assert_eq!([DEFAULT_WIDTH, DEFAULT_HEIGHT], resolution);
}

#[test]
fn set_resolution_rewrites_every_vertex() {
    let mut vertices = get_vertices_for_entire_screen();
    set_resolution(&mut vertices, 1024, 768);
    assert_eq!(vertices.len(), 6);
    let positions = [[-1, -1], [1, -1], [1, 1], [-1, -1], [1, 1], [-1, 1]];
    for (vertex, position) in vertices.iter().zip(positions.iter()) {
        assert_eq!(vertex.position, *position);
        assert_eq!(vertex.resolution, [1024, 768]);
    }
}

#[test]
fn set_resolution_keeps_positions_of_any_vertices() {
    let mut vertices = vec![
        RayVVertex { position: [7, -3], resolution: [1, 2] },
        RayVVertex { position: [0, 0], resolution: [3, 4] },
    ];
    set_resolution(&mut vertices, 0, u32::MAX);
    assert_eq!(
        vertices,
        vec![
            RayVVertex { position: [7, -3], resolution: [0, u32::MAX] },
            RayVVertex { position: [0, 0], resolution: [0, u32::MAX] },
        ]
    );
    let mut none: Vec<RayVVertex> = Vec::new();
    set_resolution(&mut none, 5, 5);
    assert!(none.is_empty());
}
