use pathtracer::material::{DiffuseLight, DummyMaterial, Lambertian};
use pathtracer::object::DummyObject;
use pathtracer::onb::Onb;
use pathtracer::pdf::{CosinePdf, MixturePdf, ObjectPdf, SpherePdf};
use pathtracer::ray::Ray;
use pathtracer::vec3::Vec3;

#[test]
fn vec3_constructors() {
    let v = Vec3::new(1i64, -2, 3);
    assert_eq!((v.0, v.1, v.2), (1, -2, 3));
    let s = Vec3::splat(4i64);
    assert_eq!((s.0, s.1, s.2), (4, 4, 4));
}

#[test]
fn vec3_dot_and_length_squared() {
    let a = Vec3::new(1i64, 2, 3);
    let b = Vec3::new(4i64, -5, 6);
    assert_eq!(a.dot(b), 12);
    assert_eq!(a.length_squared(), 14);
    assert_eq!(Vec3::new(0.5f64, 0.5, 0.5).length_squared(), 0.75);
}

#[test]
fn vec3_cross_product() {
    let x = Vec3::new(1i64, 0, 0);
    let y = Vec3::new(0i64, 1, 0);
    let z = x.cross(y);
    assert_eq!((z.0, z.1, z.2), (0, 0, 1));
    let c = Vec3::new(1i64, 2, 3).cross(Vec3::new(4, 5, 6));
    assert_eq!((c.0, c.1, c.2), (-3, 6, -3));
}

#[test]
fn vec3_reflect_about_normal() {
    let r = Vec3::new(1i64, -1, 0).reflect(Vec3::new(0, 1, 0));
    assert_eq!((r.0, r.1, r.2), (1, 1, 0));
    let f = Vec3::new(0.0f64, -2.0, 1.0).reflect(Vec3::new(0.0, 1.0, 0.0));
    assert_eq!((f.0, f.1, f.2), (0.0, 2.0, 1.0));
}

#[test]
fn vec3_operators() {
    let a = Vec3::new(1i64, 2, 3);
    let b = Vec3::new(10i64, 20, 30);
    let s = a + b;
    assert_eq!((s.0, s.1, s.2), (11, 22, 33));
    let d = b - a;
    assert_eq!((d.0, d.1, d.2), (9, 18, 27));
    let m = a * b;
    assert_eq!((m.0, m.1, m.2), (10, 40, 90));
    let n = -a;
    assert_eq!((n.0, n.1, n.2), (-1, -2, -3));
    let k = a.scale(-2);
    assert_eq!((k.0, k.1, k.2), (-2, -4, -6));
}

#[test]
fn vec3_random_components_in_unit_range() {
    for _ in 0..1000 {
        let v = Vec3::<f64>::random();
        for c in [v.0, v.1, v.2] {
            assert!((0.0..1.0).contains(&c));
        }
    }
}

#[test]
fn ray_at_parameter() {
    let r = Ray { origin: Vec3::new(1i64, 2, 3), direction: Vec3::new(0, -1, 2) };
    let p = r.at(3);
    assert_eq!((p.0, p.1, p.2), (1, -1, 9));
    let q = r.at(0);
    assert_eq!((q.0, q.1, q.2), (1, 2, 3));
}

#[test]
fn onb_axes_and_transform() {
    let onb = Onb::from_axes(Vec3::new(0i64, 1, 0), Vec3::new(0, 0, 1), Vec3::new(1, 0, 0));
    let w = onb.w();
    assert_eq!((w.0, w.1, w.2), (1, 0, 0));
    let t = onb.transform(Vec3::new(2, 3, 4));
    assert_eq!((t.0, t.1, t.2), (4, 2, 3));
}

#[test]
fn diffuse_light_is_one_sided() {
    let light = DiffuseLight(Vec3::new(15.0f64, 15.0, 15.0));
    let front = light.emitted(true).unwrap();
    assert_eq!((front.0, front.1, front.2), (15.0, 15.0, 15.0));
    assert!(light.emitted(false).is_none());
}

#[test]
fn lambertian_keeps_albedo() {
    let m = Lambertian::new(Vec3::new(0.65f64, 0.05, 0.05));
    assert_eq!((m.albedo.0, m.albedo.1, m.albedo.2), (0.65, 0.05, 0.05));
    let _ = (DummyMaterial, DummyObject, SpherePdf);
}

#[test]
fn object_pdf_holds_target_and_origin() {
    let pdf = ObjectPdf::new("light", Vec3::new(1i64, 2, 3));
    assert_eq!(*pdf.object(), "light");
    let o = pdf.origin();
    assert_eq!((o.0, o.1, o.2), (1, 2, 3));
}

#[test]
fn mixture_pdf_holds_both_and_tosses_both_ways() {
    let basis = Onb::from_axes(Vec3::new(1i64, 0, 0), Vec3::new(0, 1, 0), Vec3::new(0, 0, 1));
    let mix = MixturePdf::new(SpherePdf, CosinePdf(basis));
    let w = mix.second().0.w();
    assert_eq!((w.0, w.1, w.2), (0, 0, 1));
    let firsts = (0..2000).filter(|_| mix.draws_first()).count();
    assert!(firsts > 800 && firsts < 1200, "{firsts}");
}
