//! Exact vector-algebra kernel for a path tracer: 2-, 3- and 4-component
//! vectors over exact integer scalars, inclusive-range utilities, linear
//! interpolation, and ranged random sampling. Every operation carries a
//! contract that pins its result down componentwise, and the algebraic
//! laws of the kernel are proved as lemmas beside the operations they
//! relate.

pub mod num;
pub mod range_extension;
pub mod utils;
pub mod vec2;
pub mod vec3;
pub mod vec4;

pub use range_extension::Interval;
pub use range_extension::RangeExtension;
pub use utils::Lerp;
pub use vec2::{Point2, Vec2};
pub use vec3::{ColorRGB, Point3, Vec3};
pub use vec4::{ColorRGBA, Point4, Vec4};
