use imu_fusion::axes::{frame_to_filter, negate, to_filter_frame, to_render_frame, QuatBits};
use imu_fusion::frame::{Axes, RawFrame};

fn axes(x: f32, y: f32, z: f32) -> Axes {
    Axes { x: x.to_bits(), y: y.to_bits(), z: z.to_bits() }
}

#[test]
fn negate_flips_the_sign() {
    assert_eq!(f32::from_bits(negate(1.5f32.to_bits())), -1.5);
    assert_eq!(f32::from_bits(negate((-2.0f32).to_bits())), 2.0);
    assert_eq!(negate(0.0f32.to_bits()), (-0.0f32).to_bits());
}

#[test]
fn sensor_to_filter_frame() {
    let v = to_filter_frame(axes(1.0, 2.0, 3.0));
    assert_eq!(v, axes(1.0, -3.0, 2.0));
}

#[test]
fn whole_frame_uses_one_rule() {
    let f = RawFrame { accel: axes(0.0, 0.0, 1.0), gyro: axes(4.0, 5.0, 6.0), mag: axes(1.0, 0.0, 0.0) };
    let g = frame_to_filter(f);
    assert_eq!(g.accel, axes(0.0, -1.0, 0.0));
    assert_eq!(g.gyro, axes(4.0, -6.0, 5.0));
    assert_eq!(g.mag, axes(1.0, -0.0, 0.0));
}

#[test]
fn filter_to_render_frame() {
    let q = QuatBits { w: 0.5f32.to_bits(), x: 0.1f32.to_bits(), y: 0.2f32.to_bits(), z: 0.3f32.to_bits() };
    let r = to_render_frame(q);
    assert_eq!(f32::from_bits(r.w), 0.5);
    assert_eq!(f32::from_bits(r.x), 0.1);
    assert_eq!(f32::from_bits(r.y), 0.3);
    assert_eq!(f32::from_bits(r.z), -0.2);
}

#[test]
fn render_mapping_undoes_filter_mapping() {
    let v = axes(7.0, -8.0, 9.0);
    let f = to_filter_frame(v);
    let r = to_render_frame(QuatBits { w: 1.0f32.to_bits(), x: f.x, y: f.y, z: f.z });
    assert_eq!(Axes { x: r.x, y: r.y, z: r.z }, v);
}
