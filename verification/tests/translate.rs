use teleop_bridge::command::{translate, ExternalCommand, Vector3};

fn bits(x: f64, y: f64, z: f64) -> Vector3 {
    Vector3 { x: x.to_bits(), y: y.to_bits(), z: z.to_bits() }
}

#[test]
fn translate_is_deterministic() {
    let request = ExternalCommand {
        linear: Some(bits(1.5, -2.25, 3.0)),
        angular: Some(bits(0.0, -0.0, f64::NAN)),
    };
    let first = translate(request);
    let second = translate(request);
    assert_eq!(first, second);
    assert_eq!(first.angular.z, second.angular.z);
}

#[test]
fn absent_fields_collapse_to_explicit_zero() {
    let absent = ExternalCommand { linear: None, angular: None };
    let explicit = ExternalCommand {
        linear: Some(bits(0.0, 0.0, 0.0)),
        angular: Some(bits(0.0, 0.0, 0.0)),
    };
    assert_eq!(translate(absent), translate(explicit));
}

#[test]
fn angular_output_ignores_linear_input() {
    let angular = Some(bits(0.25, 0.5, 0.75));
    let one = ExternalCommand { linear: Some(bits(9.0, 8.0, 7.0)), angular };
    let other = ExternalCommand { linear: None, angular };
    assert_eq!(translate(one).angular, translate(other).angular);
    assert_eq!(translate(one).angular, bits(0.25, 0.5, 0.75));
}

#[test]
fn linear_output_ignores_angular_input() {
    let linear = Some(bits(-1.0, 2.0, -3.0));
    let one = ExternalCommand { linear, angular: Some(bits(4.0, 5.0, 6.0)) };
    let other = ExternalCommand { linear, angular: None };
    assert_eq!(translate(one).linear, translate(other).linear);
    assert_eq!(translate(one).linear, bits(-1.0, 2.0, -3.0));
}

#[test]
fn present_vector_passes_through_bit_for_bit() {
    let v = bits(-0.0, f64::INFINITY, f64::NAN);
    let command = translate(ExternalCommand { linear: Some(v), angular: Some(v) });
    assert_eq!(command.linear, v);
    assert_eq!(command.angular, v);
    assert_eq!(f64::from_bits(command.linear.x).to_bits(), (-0.0f64).to_bits());
}

#[test]
fn widened_wire_floats_pass_through_exactly() {
    // The wire carries 32-bit floats; widening to 64 bits is exact, so the
    // widened value survives translation unchanged.
    let wire: (f32, f32, f32) = (1.0, -2.5, 0.1);
    let v = bits(wire.0 as f64, wire.1 as f64, wire.2 as f64);
    let command = translate(ExternalCommand { linear: Some(v), angular: None });
    assert_eq!(f64::from_bits(command.linear.x), 1.0);
    assert_eq!(f64::from_bits(command.linear.y), -2.5);
    assert_eq!(f64::from_bits(command.linear.z), 0.1f32 as f64);
    assert_eq!(command.linear.z, (0.1f32 as f64).to_bits());
}

#[test]
fn linear_only_request_fills_zero_angular() {
    let request = ExternalCommand { linear: Some(bits(1.0, 0.0, 0.0)), angular: None };
    let command = translate(request);
    assert_eq!(command.linear, bits(1.0, 0.0, 0.0));
    assert_eq!(command.angular, Vector3 { x: 0, y: 0, z: 0 });
    assert_eq!(f64::from_bits(command.angular.x), 0.0);
}

#[test]
fn empty_request_fills_both_zero_vectors() {
    let command = translate(ExternalCommand { linear: None, angular: None });
    assert_eq!(command.linear, Vector3 { x: 0, y: 0, z: 0 });
    assert_eq!(command.angular, Vector3 { x: 0, y: 0, z: 0 });
    assert_eq!(f64::from_bits(command.linear.y), 0.0);
    assert_eq!(f64::from_bits(command.angular.z), 0.0);
}
