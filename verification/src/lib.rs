//! Unit-carrying wrappers for planar angles.
//!
//! [`Deg`] holds a payload read as degrees, [`Rad`] one read as radians.
//! Both are generic in the payload, so one definition serves single and
//! double precision, and the two units never mix by accident: a function
//! that asks for `Into<Deg<N>>` accepts an angle in degrees or a bare
//! number, which is then read as degrees, and likewise for `Into<Rad<N>>`.
//!
//! What is here is structural: wrapping, unwrapping, comparing and
//! rendering. The contracts say which payload a value carries, when two
//! angles are equal and which text an angle renders to, for every payload
//! type. Arithmetic on payloads is not part of this crate; it belongs to
//! code that has settled on a floating-point type.
pub mod degrees;
pub mod radians;
pub mod render;

pub use degrees::Deg;
pub use radians::Rad;
pub use render::parenthesize;
