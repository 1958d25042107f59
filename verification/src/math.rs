//! Linear algebra: vectors of two to four components and a 4x4 matrix.

pub mod accessors;
pub mod angle;
pub mod axis;
pub mod mat4;
pub mod scalar;
pub mod swizzle;
pub mod vec2;
pub mod vec3;
pub mod vec4;
pub mod whole;

pub use self::angle::{deg, rad, Angle};
pub use self::axis::Axis;
pub use self::mat4::Mat4;
pub use self::scalar::Scalar;
pub use self::swizzle::{OutOfRange, SwizzleError, Swizzled};
pub use self::vec2::Vec2;
pub use self::vec3::Vec3;
pub use self::vec4::Vec4;
pub use self::whole::Whole;
