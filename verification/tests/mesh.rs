use game_engine::mesh::{assemble_vertices, material_plan, mesh_data, mesh_fits, vertex_words, MaterialSource};

fn bits(v: &[f32]) -> Vec<u32> {
    v.iter().map(|x| x.to_bits()).collect()
}

#[test]
fn vertices_take_their_components_in_order() {
    let p = bits(&[1.0, 2.0, 3.0, 4.0, 5.0, 6.0]);
    let t = bits(&[0.1, 0.2, 0.3, 0.4]);
    let n = bits(&[0.0, 1.0, 0.0, 0.0, 0.0, 1.0]);
    let v = assemble_vertices(&p, &t, &n);
    assert_eq!(v.len(), 2);
    assert_eq!(v[1].position, [4.0f32.to_bits(), 5.0f32.to_bits(), 6.0f32.to_bits()]);
    assert_eq!(v[1].tex_coords, [0.3f32.to_bits(), 0.4f32.to_bits()]);
    assert_eq!(v[0].normal, [0.0f32.to_bits(), 1.0f32.to_bits(), 0.0f32.to_bits()]);
}

#[test]
fn mesh_without_normals_gets_zero_normal() {
    let p = bits(&[1.0, 2.0, 3.0]);
    let t = bits(&[0.5, 0.5]);
    let v = assemble_vertices(&p, &t, &vec![]);
    assert_eq!(v[0].normal, [0.0f32.to_bits(); 3]);
    assert_eq!(f32::from_bits(v[0].normal[0]), 0.0);
}

#[test]
fn incomplete_position_is_dropped() {
    let p = bits(&[1.0, 2.0, 3.0, 4.0, 5.0]);
    let t = bits(&[0.0, 0.0]);
    assert_eq!(assemble_vertices(&p, &t, &vec![]).len(), 1);
}

#[test]
fn vertex_words_interleave() {
    let p = vec![1, 2, 3, 11, 12, 13];
    let t = vec![4, 5, 14, 15];
    let n = vec![6, 7, 8, 16, 17, 18];
    let w = vertex_words(&assemble_vertices(&p, &t, &n));
    assert_eq!(w, vec![1, 2, 3, 4, 5, 6, 7, 8, 11, 12, 13, 14, 15, 16, 17, 18]);
}

#[test]
fn mesh_data_bytes_and_counts() {
    let p = vec![1, 2, 3];
    let t = vec![4, 5];
    let n = vec![6, 7, 8];
    let idx = vec![0u32, 0x0102_0304, 7];
    let m = mesh_data(&p, &t, &n, &idx, Some(3));
    assert_eq!(m.num_elements, 3);
    assert_eq!(m.material, 3);
    assert_eq!(m.vertices.len(), 1);
    assert_eq!(m.vertex_bytes.len(), 32);
    let mut want = Vec::new();
    for w in &idx {
        want.extend_from_slice(&w.to_ne_bytes());
    }
    assert_eq!(m.index_bytes, want);
    let mut want_v = Vec::new();
    for w in 1u32..=8 {
        want_v.extend_from_slice(&w.to_ne_bytes());
    }
    assert_eq!(m.vertex_bytes, want_v);
}

#[test]
fn mesh_without_material_uses_first() {
    let m = mesh_data(&vec![], &vec![], &vec![], &vec![], None);
    assert_eq!(m.material, 0);
    assert_eq!(m.num_elements, 0);
    assert!(m.vertex_bytes.is_empty());
    assert!(m.index_bytes.is_empty());
}

#[test]
fn material_plan_keeps_name_and_texture() {
    let plan = material_plan(MaterialSource { name: "fur".to_string(), diffuse_texture: Some("a.png".to_string()) });
    assert_eq!(plan.name, "fur");
    assert_eq!(plan.diffuse_texture, "a.png");
}

#[test]
fn mesh_fits_checks_coverage() {
    assert!(mesh_fits(&vec![0; 6], &vec![0; 4], &vec![]));
    assert!(mesh_fits(&vec![0; 6], &vec![0; 4], &vec![0; 6]));
    assert!(!mesh_fits(&vec![0; 6], &vec![0; 3], &vec![]));
    assert!(!mesh_fits(&vec![0; 6], &vec![0; 4], &vec![0; 5]));
    assert!(mesh_fits(&vec![0; 5], &vec![0; 2], &vec![0; 3]));
    assert!(mesh_fits(&vec![], &vec![], &vec![]));
}
