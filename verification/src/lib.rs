//! Planar and spatial geometry primitives over an arbitrary scalar type.
//!
//! Every type is generic over a [`scalar::Scalar`]: a copyable number with the
//! four arithmetic operators, negation, comparison and a conversion from small
//! integers. Contracts are stated over the operators' own specifications, so
//! they hold for whatever arithmetic the scalar brings with it. What the
//! operators cannot give (square roots, arc functions, the constants of a
//! floating-point type) is handed in by the caller.
pub mod angle;
pub mod axis;
pub mod coordinate_system;
pub mod data_types;
pub mod decimal;
pub mod direction2d;
pub mod direction3d;
pub mod matrix2;
pub mod matrix2d;
pub mod matrix3;
pub mod point2d;
pub mod point3d;
pub mod power;
pub mod scalar;
pub mod shapes;
pub mod text;
pub mod trsf2d;
pub mod trsfform;
pub mod vector2d;
pub mod vector3d;
pub mod xy;
pub mod xyz;

pub use angle::AngleFormula;
pub use axis::{Axis2, Axis2d, Axis3, Axis3d};
pub use coordinate_system::{CoordinateSystem2d, CoordinateSystem3d, GeneralCoordinateSystem3d};
pub use direction2d::Direction2d;
pub use direction3d::Direction3d;
pub use matrix2::Matrix2;
pub use matrix2d::Matrix2d;
pub use matrix3::Matrix3;
pub use point2d::Point2d;
pub use point3d::Point3d;
pub use scalar::Scalar;
pub use trsf2d::Trsf2d;
pub use trsfform::TrsfForm;
pub use vector2d::Vector2d;
pub use vector3d::Vector3d;
pub use xy::XY;
pub use xyz::XYZ;
