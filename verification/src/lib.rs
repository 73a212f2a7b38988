//! A camera rig for a grid-paper scene, and the geometry of the scene's grid
//! and sprite meshes, in integers throughout.
//!
//! The rig looks at a point that is kept inside a box, from an offset that
//! is read off a zoom curve, turned by an angle about an up axis. Each frame
//! it takes the steps that the wheel and the held keys ask for and, when
//! anything has changed, hands out the pose that the camera is to take.
//!
//! Positions are whole numbers of world units, however small the
//! application makes its unit. Zoom levels, directions and angles are counted
//! in millionths, time in microseconds. Divisions round toward zero. With no
//! floating point anywhere, the same inputs give the same rig on every
//! machine.

pub mod bounding_box;
pub mod camera;
pub mod curve;
pub mod grid;
pub mod heading;
pub mod input;
pub mod laws;
pub mod mesh;
pub mod scalar;
pub mod sprite;
pub mod vec3;
