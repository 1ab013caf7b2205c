use led_cube::apa106led::Apa106Led;
use led_cube::cube::Cube;
use led_cube::voxel::Voxel;

fn rt(voxel: Voxel, index: usize) {
    assert_eq!(voxel.into_index(), index, "voxel {:?}", voxel);
    assert_eq!(Voxel::from_index(index), voxel, "index {}", index);
}

#[test]
fn round_trip() {
    rt(Voxel { x: 0, y: 0, z: 0 }, 0);
    rt(Voxel { x: 3, y: 3, z: 3 }, 51);
    rt(Voxel { x: 1, y: 0, z: 0 }, 1);

    rt(Voxel { x: 0, y: 0, z: 0 }, 0);
    rt(Voxel { x: 0, y: 1, z: 0 }, 7);
    rt(Voxel { x: 0, y: 2, z: 0 }, 8);
    rt(Voxel { x: 0, y: 3, z: 0 }, 15);

    rt(Voxel { x: 1, y: 0, z: 0 }, 1);
    rt(Voxel { x: 1, y: 1, z: 0 }, 6);
    rt(Voxel { x: 1, y: 2, z: 0 }, 9);
    rt(Voxel { x: 1, y: 3, z: 0 }, 14);

    rt(Voxel { x: 1, y: 2, z: 3 }, 54);
    rt(Voxel { x: 3, y: 3, z: 2 }, 44);
}

#[test]
fn bijection_over_all_indices() {
    for idx in 0..64 {
        let v = Voxel::from_index(idx);
        assert!(v.x < 4 && v.y < 4 && v.z < 4);
        assert_eq!(v.into_index(), idx);
    }
    for x in 0..4u8 {
        for y in 0..4u8 {
            for z in 0..4u8 {
                let v = Voxel { x, y, z };
                assert_eq!(Voxel::from_index(v.into_index()), v);
            }
        }
    }
}

#[test]
fn cube_set_and_get() {
    let mut cube = Cube::new();
    assert_eq!(cube.len(), 64);
    assert_eq!(
        cube.get_at_index(0),
        Apa106Led {
            red: 1,
            green: 0,
            blue: 0
        }
    );

    let c = Apa106Led {
        red: 9,
        green: 8,
        blue: 7,
    };
    let v = Voxel { x: 2, y: 1, z: 3 };
    cube.set_at_coord(v, c);
    assert_eq!(cube.get_at_coord(v), c);
    assert_eq!(cube.get_at_index(v.into_index()), c);
}

#[test]
fn cube_fills() {
    let red = Apa106Led {
        red: 255,
        green: 0,
        blue: 0,
    };
    let green = Apa106Led {
        red: 0,
        green: 255,
        blue: 0,
    };

    let mut cube = Cube::new();
    cube.fill(green);
    for i in 0..64 {
        assert_eq!(cube.get_at_index(i), green);
    }

    cube.fill_layer(2, red);
    for i in 0..64 {
        let v = Voxel::from_index(i);
        let expected = if v.z == 2 { red } else { green };
        assert_eq!(cube.get_at_index(i), expected, "index {}", i);
    }

    let mut cube = Cube::new();
    cube.fill(green);
    cube.fill_slice(0, red);
    for i in 0..64 {
        let v = Voxel::from_index(i);
        let expected = if v.x == 0 { red } else { green };
        assert_eq!(cube.get_at_index(i), expected, "index {}", i);
    }

    let mut cube = Cube::new();
    cube.fill(green);
    cube.fill_panel(3, red);
    for i in 0..64 {
        let v = Voxel::from_index(i);
        let expected = if v.y == 3 { red } else { green };
        assert_eq!(cube.get_at_index(i), expected, "index {}", i);
    }

    let mut cube = Cube::new();
    cube.fill(green);
    cube.fill_column(Voxel { x: 1, y: 2, z: 0 }, red);
    for i in 0..64 {
        let v = Voxel::from_index(i);
        let expected = if v.x == 1 && v.y == 2 { red } else { green };
        assert_eq!(cube.get_at_index(i), expected, "index {}", i);
    }
}

#[test]
fn cube_partial_fill_keeps_previous_values() {
    let red = Apa106Led {
        red: 255,
        green: 0,
        blue: 0,
    };
    let blue = Apa106Led {
        red: 0,
        green: 0,
        blue: 255,
    };

    let mut cube = Cube::new();
    cube.fill(blue);

    // A shorter source fills only a prefix: the rest of the cube keeps
    // its previous values rather than failing.
    cube.fill_iter(&[red, red]);
    assert_eq!(cube.get_at_index(0), red);
    assert_eq!(cube.get_at_index(1), red);
    for i in 2..64 {
        assert_eq!(cube.get_at_index(i), blue);
    }
}
