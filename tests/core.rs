use rt1w::config::{Config, HEIGHT, OUTPUT_FILENAME, SAMPLES, WIDTH};
use rt1w::materials::{parse_material_tag, Blank, MaterialKind, MaterialTag};
use rt1w::mesh::MeshTopology;
use rt1w::perlin::{perlin_generate_perm, permute, shuffle_by_draws, LatticeHash, TABLE_SIZE};
use rt1w::shapes::{cuboid_faces, rect_frame, AxisVector, NormalType, RectType};
use rt1w::textures::{TexelGrid, TextureType};
use rt1w::tracer::{path_step, should_scatter, Lighting, PathStep, MAX_DEPTH};

#[test]
fn config_new_keeps_fields() {
    let c = Config::new(640, 480, 16, "a.png".to_string());
    assert_eq!((c.width, c.height, c.samples), (640, 480, 16));
    assert_eq!(c.output_filename, "a.png");
}

#[test]
fn config_default_values() {
    let c = Config::default();
    assert_eq!((c.width, c.height, c.samples), (350, 200, 200));
    assert_eq!((WIDTH, HEIGHT, SAMPLES), (350, 200, 200));
    assert_eq!(c.output_filename, "output.png");
    assert_eq!(OUTPUT_FILENAME, "output.png");
}

#[test]
fn config_fields_all_present() {
    let c = Config::from_fields(Some("out.png".to_string()), Some(100), Some(50), Some(8));
    assert_eq!((c.width, c.height, c.samples), (100, 50, 8));
    assert_eq!(c.output_filename, "out.png");
}

#[test]
fn config_fields_partial_fall_back_together() {
    let c = Config::from_fields(None, Some(100), None, Some(8));
    assert_eq!((c.width, c.height, c.samples), (350, 200, 200));
    assert_eq!(c.output_filename, "output.png");
}

#[test]
fn config_fields_cut_to_32_bits() {
    let c = Config::from_fields(None, Some((1u64 << 32) + 5), Some(7), Some(1u64 << 32));
    assert_eq!((c.width, c.height, c.samples), (5, 7, 0));
}

#[test]
fn perm_is_permutation_of_table() {
    let p = perlin_generate_perm();
    assert_eq!(p.len(), TABLE_SIZE);
    let mut sorted = p.clone();
    sorted.sort();
    let expected: Vec<i64> = (0..256).collect();
    assert_eq!(sorted, expected);
}

#[test]
fn perm_is_shuffled() {
    // A draw that always picked the current slot would leave the table in order.
    let identity: Vec<i64> = (0..256).collect();
    let p1 = perlin_generate_perm();
    let p2 = perlin_generate_perm();
    assert!(p1 != identity || p2 != identity);
}

#[test]
fn permute_keeps_elements() {
    let mut v: Vec<i64> = vec![5, 5, -3, 9, 0, 12, 12, 12];
    let mut before = v.clone();
    permute(&mut v);
    before.sort();
    v.sort();
    assert_eq!(v, before);
}

#[test]
fn permute_empty_and_single() {
    let mut e: Vec<i64> = Vec::new();
    permute(&mut e);
    assert!(e.is_empty());
    let mut one = vec![42i64];
    permute(&mut one);
    assert_eq!(one, vec![42]);
}

#[test]
fn lattice_slot_is_xor_of_axis_entries() {
    let h = LatticeHash::new();
    for &(i, j, k) in &[(0usize, 0usize, 0usize), (1, 2, 3), (255, 17, 99), (300, 513, 1024)] {
        let s = h.slot(i, j, k);
        let expected = (h.perm_x[i % 256] ^ h.perm_y[j % 256] ^ h.perm_z[k % 256]) as usize;
        assert_eq!(s, expected);
        assert!(s < 256);
    }
}

#[test]
fn lattice_repeats_every_table_length() {
    let h = LatticeHash::new();
    assert_eq!(h.slot(3, 4, 5), h.slot(3 + 256, 4 + 512, 5));
    assert_eq!(h.slot(usize::MAX, 0, 0), h.slot(255, 0, 0));
}

#[test]
fn material_tags_are_read() {
    assert_eq!(parse_material_tag("matte/constant", true), Some(MaterialTag::Matte(TextureType::Constant)));
    assert_eq!(parse_material_tag("matte/checkered", false), Some(MaterialTag::Matte(TextureType::Checkered)));
    assert_eq!(parse_material_tag("matte/image", true), Some(MaterialTag::Matte(TextureType::Image)));
    assert_eq!(parse_material_tag("matte/noise", true), Some(MaterialTag::Matte(TextureType::Noise)));
    assert_eq!(parse_material_tag("metal/constant", true), Some(MaterialTag::Metal(TextureType::Constant)));
    assert_eq!(parse_material_tag("metal/checkered", true), Some(MaterialTag::Metal(TextureType::Checkered)));
    assert_eq!(parse_material_tag("metal/image", false), Some(MaterialTag::Metal(TextureType::Image)));
    assert_eq!(parse_material_tag("metal/noise", true), Some(MaterialTag::Metal(TextureType::Noise)));
    assert_eq!(parse_material_tag("isotropic/constant", true), Some(MaterialTag::Isotropic(TextureType::Constant)));
    assert_eq!(parse_material_tag("isotropic/checkered", true), Some(MaterialTag::Isotropic(TextureType::Checkered)));
    assert_eq!(parse_material_tag("isotropic/image", true), Some(MaterialTag::Isotropic(TextureType::Image)));
    assert_eq!(parse_material_tag("isotropic/noise", true), Some(MaterialTag::Isotropic(TextureType::Noise)));
    assert_eq!(parse_material_tag("dielectric", false), Some(MaterialTag::Dielectric));
    assert_eq!(parse_material_tag("light", false), Some(MaterialTag::Light));
}

#[test]
fn material_tags_rejected() {
    assert_eq!(parse_material_tag("isotropic/noise", false), None);
    assert_eq!(parse_material_tag("", true), None);
    assert_eq!(parse_material_tag("Matte/constant", true), None);
    assert_eq!(parse_material_tag("light ", true), None);
    assert_eq!(parse_material_tag("metal", true), None);
}

#[test]
fn material_tag_kinds() {
    assert_eq!(MaterialTag::Matte(TextureType::Noise).kind(), MaterialKind::Lambertian);
    assert_eq!(MaterialTag::Metal(TextureType::Image).kind(), MaterialKind::Metal);
    assert_eq!(MaterialTag::Isotropic(TextureType::Constant).kind(), MaterialKind::Isotropic);
    assert_eq!(MaterialTag::Dielectric.kind(), MaterialKind::Dielectric);
    assert_eq!(MaterialTag::Light.kind(), MaterialKind::DiffuseLight);
}

#[test]
fn scattering_and_emission_by_kind() {
    for k in [MaterialKind::Lambertian, MaterialKind::Metal, MaterialKind::Dielectric, MaterialKind::Isotropic] {
        assert!(k.may_scatter());
        assert!(!k.emits());
    }
    assert!(!MaterialKind::DiffuseLight.may_scatter());
    assert!(MaterialKind::DiffuseLight.emits());
    assert!(!MaterialKind::Blank.may_scatter());
    assert!(!MaterialKind::Blank.emits());
}

#[test]
fn blank_is_blank() {
    let b = Blank::create();
    assert_eq!(b.kind(), MaterialKind::Blank);
}

#[test]
fn miss_escapes() {
    assert_eq!(path_step(None, 0, MAX_DEPTH, true), PathStep::Escape);
    assert_eq!(path_step(None, MAX_DEPTH, MAX_DEPTH, false), PathStep::Escape);
}

#[test]
fn emitter_stops_path_at_any_depth() {
    for depth in [0usize, 1, 49, 50, 1000] {
        for max_depth in [0usize, 1, 50, usize::MAX] {
            assert!(!should_scatter(MaterialKind::DiffuseLight, depth, max_depth));
            assert_eq!(path_step(Some(MaterialKind::DiffuseLight), depth, max_depth, true), PathStep::Stop);
        }
    }
}

#[test]
fn scatter_bounces_below_cutoff_only() {
    assert_eq!(MAX_DEPTH, 50);
    assert!(should_scatter(MaterialKind::Lambertian, 49, MAX_DEPTH));
    assert_eq!(path_step(Some(MaterialKind::Lambertian), 49, MAX_DEPTH, true), PathStep::Bounce);
    assert!(!should_scatter(MaterialKind::Lambertian, 50, MAX_DEPTH));
    assert_eq!(path_step(Some(MaterialKind::Lambertian), 50, MAX_DEPTH, true), PathStep::Stop);
    assert_eq!(path_step(Some(MaterialKind::Metal), 3, MAX_DEPTH, false), PathStep::Stop);
    assert_eq!(path_step(Some(MaterialKind::Blank), 0, MAX_DEPTH, true), PathStep::Stop);
}

#[test]
fn path_of_lambertian_bounces_counts_to_cutoff() {
    let mut depth = 0usize;
    let mut bounces = 0usize;
    loop {
        match path_step(Some(MaterialKind::Dielectric), depth, MAX_DEPTH, true) {
            PathStep::Bounce => {
                bounces += 1;
                depth += 1;
            }
            _ => break,
        }
    }
    assert_eq!(bounces, MAX_DEPTH);
}

#[test]
fn lighting_policies() {
    assert!(Lighting::Sky.sky_visible());
    assert!(!Lighting::Sky.adds_emission_on_bounce());
    assert!(!Lighting::Emissive.sky_visible());
    assert!(Lighting::Emissive.adds_emission_on_bounce());
}

#[test]
fn texel_grid_rejects_bad_buffers() {
    assert!(TexelGrid::new(0, 2, Vec::<u8>::new()).is_none());
    assert!(TexelGrid::new(2, 0, Vec::<u8>::new()).is_none());
    assert!(TexelGrid::new(2, 2, vec![1u8, 2, 3]).is_none());
    assert!(TexelGrid::new(2, 2, vec![1u8, 2, 3, 4, 5]).is_none());
    assert!(TexelGrid::new(2, 2, vec![1u8, 2, 3, 4]).is_some());
}

#[test]
fn texel_lookup_wraps() {
    let g = TexelGrid::new(3, 2, vec![10u8, 11, 12, 20, 21, 22]).unwrap();
    assert_eq!(*g.texel(0, 0), 10);
    assert_eq!(*g.texel(2, 0), 12);
    assert_eq!(*g.texel(1, 1), 21);
    assert_eq!(*g.texel(4, 3), 21);
    assert_eq!(*g.texel(3, 2), 10);
    assert_eq!(*g.texel(u32::MAX, u32::MAX), 20);
}

#[test]
fn rect_frames() {
    let xy = rect_frame(RectType::RectXY, NormalType::NotFlipped);
    assert_eq!((xy.plane_axis, xy.u_axis, xy.v_axis, xy.u_sign, xy.v_sign), (2, 0, 1, 1, -1));
    assert_eq!(xy.normal, AxisVector { x: 0, y: 0, z: 1 });
    let xz = rect_frame(RectType::RectXZ, NormalType::Flipped);
    assert_eq!((xz.plane_axis, xz.u_axis, xz.v_axis, xz.u_sign, xz.v_sign), (1, 0, 2, -1, 1));
    assert_eq!(xz.normal, AxisVector { x: 0, y: -1, z: 0 });
    let yz = rect_frame(RectType::RectYZ, NormalType::Flipped);
    assert_eq!((yz.plane_axis, yz.u_axis, yz.v_axis, yz.u_sign, yz.v_sign), (0, 2, 1, 1, -1));
    assert_eq!(yz.normal, AxisVector { x: -1, y: 0, z: 0 });
    let yz2 = rect_frame(RectType::RectYZ, NormalType::NotFlipped);
    assert_eq!(yz2.u_sign, -1);
    assert_eq!(yz2.normal, AxisVector { x: 1, y: 0, z: 0 });
}

#[test]
fn cuboid_faces_point_outward() {
    let faces = cuboid_faces();
    assert_eq!(faces.len(), 6);
    for f in &faces {
        let fr = rect_frame(f.rect_type, f.flip);
        let n = [fr.normal.x, fr.normal.y, fr.normal.z];
        assert_eq!(n[fr.plane_axis], if f.at_max { 1 } else { -1 });
    }
    assert_eq!(faces[0].rect_type, RectType::RectXY);
    assert!(!faces[0].at_max);
    assert_eq!(faces[5].rect_type, RectType::RectYZ);
    assert!(faces[5].at_max);
}

#[test]
fn mesh_rejects_out_of_range_corner() {
    assert!(MeshTopology::new(3, vec![[0, 1, 3]]).is_none());
    assert!(MeshTopology::new(0, vec![[0, 0, 0]]).is_none());
    assert!(MeshTopology::new(0, Vec::new()).is_some());
    assert!(MeshTopology::new(4, vec![[0, 1, 2], [1, 2, 3]]).is_some());
}

#[test]
fn mesh_incidence_lists() {
    let m = MeshTopology::new(5, vec![[0, 1, 2], [2, 1, 3], [3, 3, 0]]).unwrap();
    let inc = m.incident_faces();
    assert_eq!(inc.len(), 5);
    assert_eq!(inc[0], vec![0, 2]);
    assert_eq!(inc[1], vec![0, 1]);
    assert_eq!(inc[2], vec![0, 1]);
    assert_eq!(inc[3], vec![1, 2, 2]);
    assert!(inc[4].is_empty());
}

#[test]
fn shuffle_follows_draws_from_last_slot_down() {
    let mut p: Vec<i64> = vec![1, 2, 3];
    shuffle_by_draws(&mut p, &vec![0, 0, 1]);
    assert_eq!(p, vec![3, 1, 2]);

    let mut q: Vec<i64> = vec![10, 20, 30, 40];
    shuffle_by_draws(&mut q, &vec![0, 1, 2, 3]);
    assert_eq!(q, vec![10, 20, 30, 40]);

    let mut r: Vec<i64> = vec![10, 20, 30, 40];
    shuffle_by_draws(&mut r, &vec![0, 0, 0, 0]);
    assert_eq!(r, vec![20, 30, 40, 10]);
}
