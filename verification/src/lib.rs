//! Polylogarithms of integer order: the decisions behind their evaluation.
//!
//! The polylogarithm `Li_n(z)` is evaluated in double precision by a handful
//! of formulas, each of which is accurate on a part of the plane only:
//! closed forms, rational approximations, power series, expansions around
//! the branch point `z = 1`, and inversion or reflection formulas that carry
//! an argument from one part to another. This library holds everything
//! about that evaluation that is decided rather than computed in floating
//! point:
//!
//! - which formula serves an order and an argument (`li0` to `li6` for the
//!   fixed orders, `li` for the general one), as a plan that names it;
//! - the values that are known in advance, such as `Li_n(1) = zeta(n)`;
//! - the coefficient sequences zeta, eta, the factorials and their
//!   reciprocals at the integers (`li::zeta`, `li::eta`, `li::fac`);
//! - the branch of the complex logarithm (`cln`);
//! - the rule by which a series ends (`series`).
//!
//! Numbers are binary64 values given by their bits (`ieee`), so that every
//! comparison has a meaning in terms of exact values. The floating-point
//! arithmetic itself is left to the caller, who follows the plan.

pub mod axis;
pub mod cln;
pub mod complex;
pub mod digamma;
pub mod ieee;
pub mod li;
pub mod li0;
pub mod li1;
pub mod li2;
pub mod li3;
pub mod li4;
pub mod li5;
pub mod li6;
pub mod near_unity;
pub mod series;

pub use self::cln::CLn;
pub use self::li::Li;
pub use self::li0::Li0;
pub use self::li1::Li1;
pub use self::li2::Li2;
pub use self::li3::Li3;
pub use self::li4::Li4;
pub use self::li5::Li5;
pub use self::li6::Li6;
