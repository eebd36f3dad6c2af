use wirecube::controls::{react, zoom, Keys, Motion, FOV_MAX, FOV_MIN, FOV_START};

fn none() -> Keys {
    Keys {
        escape: false,
        a: false,
        d: false,
        w: false,
        s: false,
        q: false,
        e: false,
        z: false,
        x: false,
        r: false,
        f: false,
        left: false,
        right: false,
        up: false,
        down: false,
    }
}

#[test]
fn idle_frame_changes_nothing() {
    let m = react(&none(), FOV_START).unwrap();
    assert_eq!(
        m,
        Motion { camera_x: 0, camera_y: 0, camera_z: 0, cube_x: 0, cube_y: 0, fov: 90 }
    );
}

#[test]
fn escape_quits_before_anything_else() {
    let mut k = none();
    k.escape = true;
    k.a = true;
    k.z = true;
    assert_eq!(react(&k, FOV_START), None);
}

#[test]
fn camera_and_cube_keys() {
    let mut k = none();
    k.a = true;
    k.w = true;
    k.q = true;
    k.r = true;
    k.right = true;
    k.down = true;
    let m = react(&k, FOV_START).unwrap();
    assert_eq!(m.camera_x, -1);
    assert_eq!(m.camera_y, 1);
    assert_eq!(m.camera_z, 2);
    assert_eq!(m.cube_x, 1);
    assert_eq!(m.cube_y, -1);
    assert_eq!(m.fov, 90);
}

#[test]
fn opposite_keys_cancel() {
    let mut k = none();
    k.a = true;
    k.d = true;
    k.e = true;
    k.f = true;
    k.q = true;
    k.left = true;
    k.right = true;
    let m = react(&k, FOV_START).unwrap();
    assert_eq!((m.camera_x, m.camera_z, m.cube_x), (0, -1, 0));
}

#[test]
fn zoom_steps_and_clamps() {
    assert_eq!(zoom(90, true, false), 89);
    assert_eq!(zoom(90, false, true), 91);
    assert_eq!(zoom(90, true, true), 90);
    assert_eq!(zoom(FOV_MIN, true, false), FOV_MIN);
    assert_eq!(zoom(FOV_MAX, false, true), FOV_MAX);
    // at the narrow end the clamp comes before the widening step
    assert_eq!(zoom(FOV_MIN, true, true), 46);
    assert_eq!(zoom(FOV_MAX, true, true), FOV_MAX);
}

#[test]
fn zoom_through_react() {
    let mut k = none();
    k.z = true;
    assert_eq!(react(&k, 45).unwrap().fov, 45);
    k.z = false;
    k.x = true;
    assert_eq!(react(&k, 100).unwrap().fov, 101);
}
