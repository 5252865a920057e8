use cg_demo::mesh::{corner_du, corner_dv, generate_vertices, sample_steps, GridVertex};

/// The step counts of the sample-density table.
const EXPECTED_STEPS: [u32; 6] = [2, 4, 16, 64, 256, 1024];

#[test]
fn sample_steps_match_table() {
    for (idx, expected) in EXPECTED_STEPS.iter().enumerate() {
        assert_eq!(sample_steps(idx), *expected);
    }
}

#[test]
fn density0_produces_24_vertices() {
    let mut buffer: Vec<GridVertex> = Vec::new();
    let count = generate_vertices(0, &mut buffer);
    assert_eq!(count, 24);
    assert_eq!(buffer.len(), 24);
}

#[test]
fn vertex_count_is_six_per_cell_for_every_density() {
    let mut buffer: Vec<GridVertex> = Vec::new();
    for idx in 0..6 {
        let steps = sample_steps(idx) as u64;
        let count = generate_vertices(idx, &mut buffer);
        assert_eq!(count as u64, steps * steps * 6);
        assert_eq!(buffer.len() as u64, steps * steps * 6);
    }
}

#[test]
fn regeneration_discards_previous_buffer() {
    let mut buffer: Vec<GridVertex> = Vec::new();
    generate_vertices(1, &mut buffer);
    assert_eq!(buffer.len(), 4 * 4 * 6);
    generate_vertices(0, &mut buffer);
    assert_eq!(buffer.len(), 24);
}

#[test]
fn corner_offsets_follow_emit_order() {
    // Emit order per cell: bottom-left, top-left, top-right for the first
    // triangle; bottom-left, top-right, bottom-right for the second.
    let du: Vec<u32> = (0u8..6).map(corner_du).collect();
    let dv: Vec<u32> = (0u8..6).map(corner_dv).collect();
    assert_eq!(du, vec![0, 0, 1, 0, 1, 1]);
    assert_eq!(dv, vec![0, 1, 1, 0, 1, 0]);
}

#[test]
fn first_cell_vertices_in_order() {
    let mut buffer: Vec<GridVertex> = Vec::new();
    generate_vertices(0, &mut buffer);
    for corner in 0u8..6 {
        let v = buffer[corner as usize];
        assert_eq!((v.cell_x, v.cell_y, v.corner), (0, 0, corner));
    }
    // Cells are walked column by column, bottom to top.
    assert_eq!((buffer[6].cell_x, buffer[6].cell_y), (0, 1));
    assert_eq!((buffer[12].cell_x, buffer[12].cell_y), (1, 0));
    assert_eq!((buffer[18].cell_x, buffer[18].cell_y), (1, 1));
}

#[test]
fn uv_coordinates_lie_in_unit_square() {
    let mut buffer: Vec<GridVertex> = Vec::new();
    for idx in 0..3 {
        let steps = sample_steps(idx);
        generate_vertices(idx, &mut buffer);
        for v in &buffer {
            let u_num = v.cell_x + corner_du(v.corner);
            let v_num = v.cell_y + corner_dv(v.corner);
            assert!(u_num <= steps);
            assert!(v_num <= steps);
        }
    }
}

/// The numeric echo of the exact-arithmetic law: evaluating the
/// UV-gradient tangent solve on the generated grid in floating point gives
/// the tangent (2, 0, 0) and the bitangent (-2, 0, 0), both orthogonal to
/// the flat normal (0, 0, 1).
#[test]
fn tangent_solve_on_generated_grid() {
    let mut buffer: Vec<GridVertex> = Vec::new();
    let idx = 1;
    let steps = sample_steps(idx) as f64;
    generate_vertices(idx, &mut buffer);
    for chunk in buffer.chunks(6) {
        let cell_x = chunk[0].cell_x as f64;
        let cell_y = chunk[0].cell_y as f64;
        let corner_pos = |du: f64, dv: f64| -> (f64, f64, f64) {
            (
                -1.0 + (cell_x + du) * 2.0 / steps,
                -1.0 + (cell_y + dv) * 2.0 / steps,
                0.0,
            )
        };
        let corner_uv = |du: f64, dv: f64| -> (f64, f64) {
            ((cell_x + du) / steps, (cell_y + dv) / steps)
        };
        for second in [false, true] {
            let corners: [(f64, f64); 3] = if second {
                [(0.0, 0.0), (1.0, 1.0), (1.0, 0.0)]
            } else {
                [(0.0, 0.0), (0.0, 1.0), (1.0, 1.0)]
            };
            let p: Vec<(f64, f64, f64)> =
                corners.iter().map(|&(du, dv)| corner_pos(du, dv)).collect();
            let uv: Vec<(f64, f64)> = corners.iter().map(|&(du, dv)| corner_uv(du, dv)).collect();
            let e1 = (p[1].0 - p[0].0, p[1].1 - p[0].1, p[1].2 - p[0].2);
            let e2 = (p[2].0 - p[0].0, p[2].1 - p[0].1, p[2].2 - p[0].2);
            let duv1 = (uv[1].0 - uv[0].0, uv[1].1 - uv[0].1);
            let duv2 = (uv[2].0 - uv[0].0, uv[2].1 - uv[0].1);
            let det = duv1.0 * duv2.1 - duv2.0 * duv1.1;
            assert!(det != 0.0);
            let f = 1.0 / det;
            let tangent = (
                f * (duv2.1 * e1.0 - duv1.1 * e2.0),
                f * (duv2.1 * e1.1 - duv1.1 * e2.1),
                f * (duv2.1 * e1.2 - duv1.1 * e2.2),
            );
            let bitangent = (
                f * (-duv2.1 * e1.0 + duv1.1 * e2.0),
                f * (-duv2.1 * e1.1 + duv1.1 * e2.1),
                f * (-duv2.1 * e1.2 + duv1.1 * e2.2),
            );
            let eps = 1e-9;
            assert!((tangent.0 - 2.0).abs() < eps);
            assert!(tangent.1.abs() < eps);
            assert!(tangent.2.abs() < eps);
            assert!((bitangent.0 + 2.0).abs() < eps);
            assert!(bitangent.1.abs() < eps);
            assert!(bitangent.2.abs() < eps);
            // Orthogonal to the flat normal (0, 0, 1).
            assert!(tangent.2 * 1.0 == 0.0);
            assert!(bitangent.2 * 1.0 == 0.0);
        }
    }
}
