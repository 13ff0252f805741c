# k256_arith

Point arithmetic on the secp256k1 curve `y^2 = x^3 + 7` over the prime field
of order `p = 2^256 - 2^32 - 977`, in projective coordinates, with the
complete addition and doubling formulas of Renes, Costello and Batina (2015).
The library is written in Verus: every function carries a contract over a
mathematical model of the field and the curve, and Verus proves it.

## Layout

- `src/field.rs`: field elements as four canonical 64-bit limbs, with
  addition, subtraction, negation, multiplication, squaring, halving,
  inversion and the 32-byte big-endian encoding.
- `src/model.rs`: the model: points as integer coordinates, the addition and
  doubling formulas as polynomials reduced modulo p, affine points, scalar
  multiplication, sums and SEC1 encodings.
- `src/affine.rs`, `src/projective.rs`: the executable points, each function
  with its exact contract over the model.
- `src/laws.rs`: laws of the arithmetic: commutativity, the identity, the
  inverse, doubling as addition, round trips between affine and projective
  forms, and that every operation keeps points on the curve.
- `src/group_law.rs`: the chord-and-tangent group law on affine points, the
  proof that the projective formulas compute it wherever the divisions it
  makes are defined, and that subtracting a point undoes adding it where the
  subtraction is a chord.
- `src/prime.rs` and the `src/cert_*.rs` files: Bezout's identity, Euclid's
  lemma and Lucas' theorem, and Lucas certificates proving that p is prime;
  from them, every nonzero residue is invertible, Fermat's little theorem,
  and that -7 has no cube root, so no point of the curve has `y = 0`.
- `src/complete.rs`: completeness of the formulas: on every two points of
  the curve other than `(0, 0, 0)`, addition, doubling and mixed addition
  never give `(0, 0, 0)` and always compute the group law; with it, the
  identity law, `P + (-P)`, scaling by any nonzero factor, `(P + Q) - Q`
  standing for `P`, and `P + φ(P) + φ(φ(P))` being the identity for the
  endomorphism `φ`, all for every point of the curve.
- `src/sec1.rs`: decoding of compressed and uncompressed SEC1 encodings,
  with the square root of `x^3 + 7` as `(x^3 + 7)^((p+1)/4)`, and the proof
  that decoding an encoding of a point of the curve gives the point back.
- `src/inversion.rs`: inversion as `x^(p-2)`, by the same squarings and
  multiplications for every element.
- `src/expansions.rs`, `src/closure.rs`, `src/exceptional.rs`: the
  polynomial identities behind these proofs, proved by expanding both sides
  into monomials.
- `tests/`: tests against known multiples of the base point.
- `app/`: wrappers of the library types with the operator traits, `Sum`,
  `subtle` selection and comparison and zeroizing defaults of the
  `elliptic-curve` crate, and `identity`, `generator`, `is_identity` and
  `random` methods. The library itself calls no outside crate; `Cargo.toml`
  names `elliptic-curve` for `app/` alone.
