use symbios_ground_lab::obj::{
    heightmap_obj, obj_capacity_hint, obj_faces, push_decimal, uv_fraction,
    web_obj_export_allowed, OBJ_HEADER,
};

fn text(bytes: Vec<u8>) -> String {
    String::from_utf8(bytes).expect("OBJ text is ASCII")
}

/// The UV section a caller renders for a `w × h` grid from the UV fractions.
fn uv_section(w: usize, h: usize) -> String {
    let mut out = String::new();
    for z in 0..h {
        for x in 0..w {
            let (un, ud) = uv_fraction(x, w);
            let (vn, vd) = uv_fraction(z, h);
            let u = un as f32 / ud as f32;
            let v = vn as f32 / vd as f32;
            out.push_str(&format!("vt {u:.6} {v:.6}\n"));
        }
    }
    out
}

#[test]
fn obj_uv_no_nan_for_1x1_map() {
    // A 1×1 heightmap has w-1 == 0; dividing by it would produce NaN UVs.
    let obj = text(heightmap_obj(1, 1, b"v 0.0000 0.0000 0.0000\n", uv_section(1, 1).as_bytes(), b"vn 0.000000 1.000000 0.000000\n"));
    for line in obj.lines() {
        if let Some(coords) = line.strip_prefix("vt ") {
            for token in coords.split_whitespace() {
                let v: f32 = token
                    .parse()
                    .expect("UV coordinate should be a valid float");
                assert!(v.is_finite(), "NaN/Inf UV in OBJ output: {line}");
            }
        }
    }
}

#[test]
fn uv_fractions_span_unit_interval() {
    assert_eq!(uv_fraction(0, 1), (0, 1));
    assert_eq!(uv_fraction(0, 5), (0, 4));
    assert_eq!(uv_fraction(4, 5), (4, 4));
    assert_eq!(uv_fraction(2, 5), (2, 4));
    let uvs = uv_section(3, 2);
    assert_eq!(
        uvs,
        "vt 0.000000 0.000000\nvt 0.500000 0.000000\nvt 1.000000 0.000000\n\
         vt 0.000000 1.000000\nvt 0.500000 1.000000\nvt 1.000000 1.000000\n"
    );
}

#[test]
fn decimal_rendering() {
    let mut out = Vec::new();
    push_decimal(&mut out, 0);
    out.push(b' ');
    push_decimal(&mut out, 7);
    out.push(b' ');
    push_decimal(&mut out, 10);
    out.push(b' ');
    push_decimal(&mut out, 4096);
    out.push(b' ');
    push_decimal(&mut out, usize::MAX);
    assert_eq!(text(out), format!("0 7 10 4096 {}", usize::MAX));
}

#[test]
fn faces_of_a_single_quad() {
    assert_eq!(
        text(obj_faces(2, 2)),
        "f 1/1/1 3/3/3 4/4/4\nf 1/1/1 4/4/4 2/2/2\n"
    );
}

#[test]
fn faces_of_a_three_by_three_grid() {
    let expected = "\
f 1/1/1 4/4/4 5/5/5\nf 1/1/1 5/5/5 2/2/2\n\
f 2/2/2 5/5/5 6/6/6\nf 2/2/2 6/6/6 3/3/3\n\
f 4/4/4 7/7/7 8/8/8\nf 4/4/4 8/8/8 5/5/5\n\
f 5/5/5 8/8/8 9/9/9\nf 5/5/5 9/9/9 6/6/6\n";
    assert_eq!(text(obj_faces(3, 3)), expected);
}

#[test]
fn degenerate_grids_have_no_faces() {
    assert!(obj_faces(1, 1).is_empty());
    assert!(obj_faces(5, 1).is_empty());
    assert!(obj_faces(0, 1).is_empty());
    assert!(obj_faces(1, 4).is_empty());
}

#[test]
fn face_indices_stay_within_vertex_count() {
    let (w, h) = (7usize, 5usize);
    let faces = text(obj_faces(w, h));
    let lines: Vec<&str> = faces.lines().collect();
    assert_eq!(lines.len(), 2 * (w - 1) * (h - 1));
    for line in lines {
        let refs: Vec<&str> = line.strip_prefix("f ").unwrap().split(' ').collect();
        assert_eq!(refs.len(), 3);
        for r in refs {
            let parts: Vec<usize> = r.split('/').map(|p| p.parse().unwrap()).collect();
            assert_eq!(parts.len(), 3);
            assert!(parts[0] == parts[1] && parts[1] == parts[2]);
            assert!(parts[0] >= 1 && parts[0] <= w * h);
        }
    }
}

#[test]
fn document_sections_in_order() {
    let obj = text(heightmap_obj(2, 2, b"V\n", b"T\n", b"N\n"));
    assert_eq!(
        obj,
        format!("{OBJ_HEADER}V\nT\nN\nf 1/1/1 3/3/3 4/4/4\nf 1/1/1 4/4/4 2/2/2\n")
    );
    assert!(obj.starts_with("# symbios-ground-lab terrain export\n"));
}

#[test]
fn capacity_hint_is_capped() {
    assert_eq!(obj_capacity_hint(2, 2), 2 * 2 * 84 + 160);
    assert_eq!(obj_capacity_hint(1, 1), 84);
    assert_eq!(obj_capacity_hint(0, 0), 0);
    assert_eq!(obj_capacity_hint(2048, 2048), 128 * 1024 * 1024);
}

#[test]
fn web_export_limit() {
    assert!(web_obj_export_allowed(512, 512));
    assert!(web_obj_export_allowed(256, 1024));
    assert!(!web_obj_export_allowed(513, 512));
    assert!(!web_obj_export_allowed(2048, 2048));
}
