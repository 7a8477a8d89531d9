//! Map files, built byte by byte.
use rtx::bsp::Bsp;

/// A map whose player hull is solid below a floor plane and beyond a wall plane.
fn map(version: u32) -> Vec<u8> {
    let wide = version == 0x3250_5342;
    let mut planes: Vec<u8> = Vec::new();
    for (normal, dist, kind) in [([0.0f32, 0.0, 1.0], 24.0f32, 2i32), ([1.0, 0.0, 0.0], 100.0, 0)] {
        for x in normal {
            planes.extend(x.to_le_bytes());
        }
        planes.extend(dist.to_le_bytes());
        planes.extend(kind.to_le_bytes());
    }
    // Above the floor go on to the wall; in front of the wall is solid.
    let mut nodes: Vec<u8> = Vec::new();
    for (plane, children) in [(0u32, [1i32, -2]), (1, [-2, -1])] {
        nodes.extend(plane.to_le_bytes());
        for c in children {
            if wide {
                nodes.extend(c.to_le_bytes());
            } else {
                nodes.extend((c as i16).to_le_bytes());
            }
        }
    }
    let mut model: Vec<u8> = Vec::new();
    for x in [-64.0f32, -64.0, -64.0, 128.0, 128.0, 128.0, 0.0, 0.0, 0.0] {
        model.extend(x.to_le_bytes());
    }
    for head in [7i32, 0, 0, 0, 0, 0, 0] {
        model.extend(head.to_le_bytes());
    }
    let mut file = version.to_le_bytes().to_vec();
    let mut body: Vec<u8> = Vec::new();
    for lump in 0..15 {
        let part: &[u8] = match lump {
            1 => &planes,
            9 => &nodes,
            14 => &model,
            _ => &[],
        };
        file.extend((4 + 15 * 8 + body.len() as u32).to_le_bytes());
        file.extend((part.len() as u32).to_le_bytes());
        body.extend(part);
    }
    file.extend(body);
    file
}

/// On which side of each plane a point lies.
fn sides(m: &Bsp, p: [f32; 3]) -> Vec<bool> {
    m.planes.iter().map(|plane| p[plane.kind as usize] - f32::from_bits(plane.dist) < 0.0).collect()
}

#[test]
fn maps_are_read_whole() {
    for version in [29, 30, 0x3250_5342] {
        let m = Bsp::parse(&map(version)).unwrap();
        assert_eq!((m.planes.len(), m.clipnodes.len(), m.hull1_headnode), (2, 2, 0));
        assert_eq!(m.planes[0].normal.map(f32::from_bits), [0.0, 0.0, 1.0]);
        assert_eq!(m.clipnodes[0].children, [1, -2]);
        assert_eq!(m.mins.map(f32::from_bits), [-64.0; 3]);
        assert_eq!(m.maxs.map(f32::from_bits), [128.0; 3]);
        // Sample the box: under the floor and beyond the wall is solid, the rest is open.
        let (mut solid, mut open) = (0, 0);
        for i in 0..24 {
            for k in 0..24 {
                let p = [-64.0 + 8.0 * i as f32, 0.0, -64.0 + 8.0 * k as f32];
                let expected = if p[2] < 24.0 || p[0] >= 100.0 { -2 } else { -1 };
                assert_eq!(m.hull1_contents(&sides(&m, p)), Some(expected));
                assert_eq!(m.is_solid(&sides(&m, p)), expected == -2);
                if expected == -2 {
                    solid += 1;
                } else {
                    open += 1;
                }
            }
        }
        assert!(solid > 0 && open > 0);
    }
}

#[test]
fn broken_maps_are_refused() {
    assert!(Bsp::parse(&[]).is_none());
    assert!(Bsp::parse(&map(28)).is_none(), "an unknown version");
    let good = map(29);
    assert!(Bsp::parse(&good[..good.len() - 1]).is_none(), "a lump beyond the end");
    assert!(Bsp::parse(&good[..100]).is_none(), "half a directory");
    let mut small = good.clone();
    let entry = 4 + 14 * 8 + 4;
    small[entry] = 63;
    assert!(Bsp::parse(&small).is_none(), "a world model that is cut short");
}
