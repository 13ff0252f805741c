//! Arithmetic on the secp256k1 curve in projective coordinates, with the
//! prime field it is defined over.
use vstd::prelude::*;

pub mod field;
pub mod model;
pub mod affine;
pub mod projective;
pub mod laws;
pub mod group_law;
pub mod expansions;
pub mod closure;
pub mod prime;
pub mod exceptional;
pub mod complete;
pub mod inversion;
pub mod sec1;
mod cert_small;
pub mod cert_modulus;
mod cert_205115282021455665897114700593932402728804164701536103180137503955397371;
mod cert_132896956044521568488119;
mod cert_22149492674086928081353;
mod cert_5323;
mod cert_173378833005251801;
mod cert_2621;
mod cert_13331831;
mod cert_1373;
mod cert_24809;
mod cert_7723;
mod cert_255515944373312847190720520512484175977;
mod cert_1627;
mod cert_107590001;
mod cert_41201;
mod cert_7240687;
mod cert_1206781;
mod cert_20113;
mod cert_96557;
mod cert_4423;
mod cert_2657;
mod cert_13441;

pub use affine::AffinePoint;
pub use field::FieldElement;
pub use projective::ProjectivePoint;

