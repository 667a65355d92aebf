use fast_inv_sqrt::InvSqrt32;
use vector3d::{add_test, Vector3D};

#[test]
fn create_vector_3d() {
    let vec3: Vector3D<f32> = Vector3D { x: 1.0, y: 2.0, z: 3.0 };
    assert_eq!(vec3.x, 1.0);
    assert_eq!(vec3.y, 2.0);
    assert_eq!(vec3.z, 3.0);
}

#[test]
fn access_vector_fields_with_array() {
    let vec3: Vector3D<f32> = Vector3D { x: 1.0, y: 2.0, z: 3.0 };
    assert_eq!(vec3[0], 1.0);
    assert_eq!(vec3[1], 2.0);
    assert_eq!(vec3[2], 3.0);
}

#[test]
fn mutate_vector_field_() {
    let mut vec3: Vector3D<f32> = Vector3D { x: 1.0, y: 2.0, z: 3.0 };
    vec3[0] = -2.0;
    vec3[1] = -3.0;
    vec3[2] = -55.0;
    assert_eq!(vec3[0], -2.0);
    assert_eq!(vec3[1], -3.0);
    assert_eq!(vec3[2], -55.0);
}

#[test]
fn scalar_multiplication_assign() {
    let mut vec3: Vector3D<f32> = Vector3D { x: 2.0, y: 2.0, z: 3.0 };
    vec3.mul_assign(2.0);
    assert_eq!(vec3.x, 4.0);
    assert_eq!(vec3.y, 4.0);
    assert_eq!(vec3.z, 6.0);
}

#[test]
fn scalar_division_assign() {
    let mut vec3: Vector3D<f32> = Vector3D { x: 2.0, y: 2.0, z: 3.0 };
    vec3.div_assign(2.0);
    assert_eq!(vec3.x, 1.0);
    assert_eq!(vec3.y, 1.0);
    assert_eq!(vec3.z, 1.5);
}

#[test]
fn inline_scalar_multiplication() {
    let vec3: Vector3D<f32> = Vector3D { x: 2.0, y: 2.0, z: 3.0 };
    assert_eq!(vec3 * 2.0, Vector3D { x: 4.0, y: 4.0, z: 6.0 })
}

#[test]
fn inline_scalar_division() {
    let vec3: Vector3D<f32> = Vector3D { x: 2.0, y: 2.0, z: 3.0 };
    assert_eq!(vec3 / 2.0, Vector3D { x: 1.0, y: 1.0, z: 1.5 })
}

#[test]
fn negation() {
    let vec3: Vector3D<f32> = Vector3D { x: 2.0, y: 2.0, z: 3.0 };
    assert_eq!(-vec3, Vector3D { x: -2.0, y: -2.0, z: -3.0 })
}

#[test]
fn new_vector() {
    let vec3: Vector3D<f32> = Vector3D::new(2.0, 3.0, 4.0);
    assert_eq!(vec3, Vector3D { x: 2.0, y: 3.0, z: 4.0 })
}

#[test]
fn magnitude_test() {
    let vec3: Vector3D<f32> = Vector3D::new(2.0, 3.0, 4.0);
    assert_eq!(vec3.squared_length().sqrt(), 5.38516480713)
}

#[test]
fn normalize_precise_test() {
    let vec3: Vector3D<f32> = Vector3D::new(2.0, 3.0, 4.0);
    let magnitude = vec3.squared_length().sqrt();
    assert_eq!(vec3 / magnitude, Vector3D::new(0.37139067635, 0.55708605, 0.7427813527))
}

#[test]
fn normalize_test() {
    let vec3: Vector3D<f32> = Vector3D::new(2.0, 3.0, 4.0);
    let inverse_length = vec3.squared_length().inv_sqrt32();
    assert_eq!(vec3 * inverse_length, Vector3D::new(0.37097, 0.556455, 0.74194));
    assert_eq!(vec3, Vector3D::new(2.0, 3.0, 4.0));
}

#[test]
fn add_assign_test() {
    let mut vec3: Vector3D<f32> = Vector3D::new(2.0, 3.0, 4.0);
    vec3.add_assign(Vector3D::new(2.0, 3.0, 4.0));
    assert_eq!(vec3, Vector3D { x: 4.0, y: 6.0, z: 8.0 });
}

#[test]
fn sub_assign_test() {
    let mut vec3: Vector3D<f32> = Vector3D { x: 4.0, y: 6.0, z: 8.0 };
    vec3.sub_assign(Vector3D::new(2.0, 3.0, 4.0));
    assert_eq!(vec3, Vector3D::new(2.0, 3.0, 4.0));
}

#[test]
fn sub_test() {
    let vec3: Vector3D<f32> = Vector3D { x: 4.0, y: 6.0, z: 8.0 };
    assert_eq!(vec3 - Vector3D::new(2.0, 3.0, 4.0), Vector3D::new(2.0, 3.0, 4.0));
}

#[test]
fn vector_addition() {
    let vec3: Vector3D<f32> = Vector3D::new(2.0, 3.0, 4.0);
    assert_eq!(vec3 + Vector3D::new(2.0, 3.0, 4.0), Vector3D { x: 4.0, y: 6.0, z: 8.0 });
}

#[test]
fn integer_addition_sample_holds() {
    assert!(add_test());
}
