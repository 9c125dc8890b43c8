use ray_tracer::rational::Rat;
use ray_tracer::tuple::Tuple;
use ray_tracer::matrix::Matrix4;
use ray_tracer::ray::Ray;
use ray_tracer::sphere::{IdAllocator, Sphere};

fn r(v: i64) -> Rat {
    Rat::from_i64(v)
}

fn rd(n: i64, d: i64) -> Rat {
    Rat::new(n, d)
}

/// sqrt(2)/2, to twelve decimal places.
fn sqrt2_half() -> Rat {
    rd(707106781187, 1000000000000)
}

#[test]
fn a_sphere_default_transformation() {
    let mut ids = IdAllocator::new();
    let s = Sphere::new(&mut ids);

    assert_eq!(Matrix4::identity_matrix(), s.transform);
}

#[test]
fn changing_a_sphere_transformation() {
    let mut ids = IdAllocator::new();
    let mut s = Sphere::new(&mut ids);

    let t = Matrix4::translation(r(2), r(3), r(4));
    s.set_transform(t.duplicate());

    assert_eq!(t, s.transform);
}

#[test]
fn sphere_identities_are_distinct_and_increasing() {
    let mut ids = IdAllocator::new();
    let s1 = Sphere::new(&mut ids);
    let s2 = Sphere::new(&mut ids);
    let s3 = Sphere::new(&mut ids);

    assert_eq!(1, s1.id);
    assert_eq!(2, s2.id);
    assert_eq!(3, s3.id);
}

#[test]
fn intersecting_a_scaled_sphere_with_a_ray() {
    let ray = Ray {
        origin: Tuple::point(r(0), r(0), r(-5)),
        direction: Tuple::vector(r(0), r(0), r(1)),
    };
    let mut ids = IdAllocator::new();
    let mut s = Sphere::new(&mut ids);
    s.set_transform(Matrix4::scaling(r(2), r(2), r(2)));
    let xs = ray.intersect(&s);

    assert_eq!(2, xs.len());
    assert_eq!(r(3), xs.at(0).t);
    assert_eq!(r(7), xs.at(1).t);
}

#[test]
fn the_normal_on_a_sphere_at_a_point_on_the_x_axis() {
    let mut ids = IdAllocator::new();
    let mut s = Sphere::new(&mut ids);
    s.set_transform(Matrix4::translation(r(0), r(1), r(0)));
    let n = s.normal_at(&Tuple::point(r(0), rd(170711, 100000), rd(-70711, 100000)));

    let expected = Tuple::vector(r(0), rd(70711, 100000), rd(-70711, 100000));
    assert_eq!(expected.round(), n.round());
}

#[test]
fn computing_the_normal_on_a_transformed_sphere() {
    let mut ids = IdAllocator::new();
    let mut s = Sphere::new(&mut ids);
    // sin(pi/5) and cos(pi/5), to twelve decimal places
    let sin_pi5 = rd(587785252292, 1000000000000);
    let cos_pi5 = rd(809016994375, 1000000000000);
    let m = Matrix4::scaling(r(1), rd(5, 10), r(1)).mul(&Matrix4::rotation_z(sin_pi5, cos_pi5));
    s.set_transform(m);
    let n = s.normal_at(&Tuple::point(r(0), sqrt2_half(), sqrt2_half().neg()));

    assert_eq!(Tuple::vector(r(0), rd(97014, 100000), rd(-24254, 100000)), n.round());
}

#[test]
fn reflecting_a_vector_approaching_at_45() {
    let v = Tuple::vector(r(1), r(-1), r(0));
    let n = Tuple::vector(r(0), r(1), r(0));

    let result = v.reflect(&n);

    assert_eq!(Tuple::vector(r(1), r(1), r(0)), result);
}

#[test]
fn reflecting_a_vector_off_a_slanted_surface() {
    let v = Tuple::vector(r(0), r(-1), r(0));
    let n = Tuple::vector(sqrt2_half(), sqrt2_half(), r(0));

    let result = v.reflect(&n);

    assert_eq!(Tuple::vector(r(1), r(0), r(0)), result.round());
}
