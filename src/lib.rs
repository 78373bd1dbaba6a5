//! The verified core of a Monte-Carlo path tracer: vector algebra, rays,
//! bases and intervals over any scalar whose operators follow their
//! specification; the data of materials and sampling densities; and the
//! integer decisions of rendering: how a bounding-volume hierarchy splits and
//! orders its objects, and how samples and pixels are laid out.
pub mod bvh;
pub mod interval;
pub mod material;
pub mod object;
pub mod onb;
pub mod order;
pub mod pdf;
pub mod raster;
pub mod ray;
pub mod vec3;
