//! Primality: Bezout's identity, Euclid's lemma, trial division and Lucas'
//! theorem, and from them Lucas certificates that the field modulus is prime.
use vstd::prelude::*;
use vstd::arithmetic::power::{pow, lemma_pow_adds, lemma_pow_multiplies, lemma_pow_mod_noop, lemma1_pow, lemma_pow0, lemma_pow1};
use vstd::arithmetic::div_mod::{lemma_fundamental_div_mod, lemma_mod_multiples_basic, lemma_mul_mod_noop, lemma_mul_mod_noop_left,
    lemma_mul_mod_noop_right, lemma_add_mod_noop, lemma_small_mod, lemma_mod_bound, lemma_div_multiples_vanish, lemma_mod_twice};
use vstd::set_lib::{set_int_range, lemma_int_range, lemma_subset_equality, lemma_map_size};
use crate::field::{p, is_invertible};
use crate::cert_modulus::{lemma_prime_modulus, lemma_minus_seven_power};

verus! {

/// `n` is prime: above one, with no divisor strictly between one and `n`.
pub open spec fn is_prime(n: int) -> bool {
    n > 1 && forall|d: int| 1 < d < n ==> #[trigger] (n % d) != 0
}

/// `b^e mod m` by repeated squaring.
#[verifier::opaque]
pub open spec fn pow_mod(b: int, e: nat, m: int) -> int
    decreases e,
{
    if e == 0 {
        1int % m
    } else {
        let h = pow_mod(b, e / 2, m);
        if e % 2 == 0 {
            (h * h) % m
        } else {
            ((h * h) % m * (b % m)) % m
        }
    }
}

/// Repeated squaring computes the power.
pub proof fn lemma_pow_mod(b: int, e: nat, m: int)
    requires
        m > 0,
    ensures
        pow_mod(b, e, m) == pow(b, e) % m,
    decreases e,
{
    reveal(pow_mod);
    if e == 0 {
        lemma_pow0(b);
    } else {
        let k = e / 2;
        lemma_pow_mod(b, k, m);
        let h = pow(b, k);
        lemma_pow_adds(b, k, k);
        assert(k + k + e % 2 == e);
        lemma_mul_mod_noop(h, h, m);
        if e % 2 == 0 {
            assert(k + k == e);
        } else {
            lemma_pow_adds(b, k + k, 1);
            lemma_pow1(b);
            lemma_mul_mod_noop(h * h, b, m);
            lemma_mod_twice(h * h, m);
            lemma_mod_twice(b, m);
            lemma_mul_mod_noop((h * h) % m, b % m, m);
        }
    }
}

/// `k x` is a multiple of `m` when `x` is.
proof fn lemma_multiple(k: int, x: int, m: int)
    requires
        m > 0,
        x % m == 0,
    ensures
        (k * x) % m == 0,
{
    lemma_mul_mod_noop_right(k, x, m);
    lemma_small_mod(0, m as nat);
}

/// Bezout's identity: a common divisor `g = u a + v b` of `a` and `b`.
pub proof fn lemma_bezout(a: int, b: int) -> (r: (int, int, int))
    requires
        a >= 0,
        b >= 0,
        a + b > 0,
    ensures
        r.0 > 0,
        r.0 == r.1 * a + r.2 * b,
        a % r.0 == 0,
        b % r.0 == 0,
    decreases b,
{
    if b == 0 {
        lemma_mod_multiples_basic(1, a);
        lemma_small_mod(0, a as nat);
        (a, 1, 0)
    } else {
        lemma_fundamental_div_mod(a, b);
        lemma_mod_bound(a, b);
        let (g, u, v) = lemma_bezout(b, a % b);
        let q = a / b;
        lemma_fundamental_div_mod(b, g);
        lemma_fundamental_div_mod(a % b, g);
        let k = q * (b / g) + (a % b) / g;
        assert(a == k * g) by (nonlinear_arith)
            requires a == b * q + a % b, b == g * (b / g) + 0, a % b == g * ((a % b) / g) + 0, k == q * (b / g) + (a % b) / g;
        lemma_mod_multiples_basic(k, g);
        assert(g == v * a + (u - v * q) * b) by (nonlinear_arith)
            requires g == u * b + v * (a % b), a == b * q + a % b;
        (g, v, u - v * q)
    }
}

/// A divisor `g` of a prime `q` with `0 < g < q` is one.
proof fn lemma_prime_divisor(q: int, g: int)
    requires
        is_prime(q),
        0 < g < q,
        q % g == 0,
    ensures
        g == 1,
{
    if g > 1 {
        assert(q % g != 0);
    }
}

/// Euclid's lemma: a prime dividing a product divides a factor.
pub proof fn lemma_euclid(q: int, a: int, b: int)
    requires
        is_prime(q),
        (a * b) % q == 0,
    ensures
        a % q == 0 || b % q == 0,
{
    lemma_mod_bound(a, q);
    let a1 = a % q;
    if a1 != 0 {
        let (g, u, v) = lemma_bezout(q, a1);
        lemma_mod_bound(a1, g);
        if g >= q {
            vstd::arithmetic::div_mod::lemma_mod_self_0(g);
            lemma_small_mod(a1 as nat, g as nat);
        }
        lemma_prime_divisor(q, g);
        // b == u q b + v (a1 b), and a1 b is a multiple of q
        lemma_mul_mod_noop_left(a, b, q);
        lemma_multiple(v, a1 * b, q);
        lemma_mod_multiples_basic(u * b, q);
        assert(b == (u * b) * q + v * (a1 * b)) by (nonlinear_arith)
            requires 1 == u * q + v * a1;
        lemma_add_mod_noop((u * b) * q, v * (a1 * b), q);
        lemma_small_mod(0, q as nat);
    }
}

/// The product of a sequence of integers.
pub open spec fn product(s: Seq<int>) -> int
    decreases s.len(),
{
    if s.len() == 0 {
        1
    } else {
        product(s.drop_last()) * s.last()
    }
}

/// A prime dividing a product of primes is one of them.
proof fn lemma_prime_divides_product(q: int, s: Seq<int>)
    requires
        is_prime(q),
        forall|i: int| 0 <= i < s.len() ==> is_prime(#[trigger] s[i]),
        product(s) % q == 0,
    ensures
        exists|i: int| 0 <= i < s.len() && s[i] == q,
    decreases s.len(),
{
    if s.len() == 0 {
        lemma_small_mod(1, q as nat);
    } else {
        let t = s.drop_last();
        let l = s.last();
        assert(is_prime(s[s.len() - 1]));
        lemma_euclid(q, product(t), l);
        if l % q == 0 {
            if q < l {
                assert(l % q != 0);
            } else if q > l {
                lemma_small_mod(l as nat, q as nat);
            }
            assert(s[s.len() - 1] == q);
        } else {
            assert forall|i: int| 0 <= i < t.len() implies is_prime(#[trigger] t[i]) by {
                assert(t[i] == s[i]);
            }
            lemma_prime_divides_product(q, t);
            let i = choose|i: int| 0 <= i < t.len() && t[i] == q;
            assert(s[i] == q);
        }
    }
}

/// Every integer above one has a prime divisor.
proof fn lemma_prime_factor(k: int) -> (d: int)
    requires
        k > 1,
    ensures
        is_prime(d),
        k % d == 0,
    decreases k,
{
    if is_prime(k) {
        lemma_mod_multiples_basic(1, k);
        k
    } else {
        let e = choose|e: int| 1 < e < k && #[trigger] (k % e) == 0;
        let d = lemma_prime_factor(e);
        lemma_fundamental_div_mod(k, e);
        lemma_fundamental_div_mod(e, d);
        let m = (k / e) * (e / d);
        assert(k == m * d) by (nonlinear_arith)
            requires k == e * (k / e) + 0, e == d * (e / d) + 0, m == (k / e) * (e / d);
        lemma_mod_multiples_basic(m, d);
        d
    }
}

/// Trial division: no divisor below a `k` with `k^2 > n` makes `n` prime.
pub proof fn lemma_trial_division(n: int, k: int)
    requires
        n > 1,
        k > 1,
        k * k > n,
        forall|d: int| 2 <= d < k ==> #[trigger] (n % d) != 0,
    ensures
        is_prime(n),
{
    assert forall|d: int| 1 < d < n implies #[trigger] (n % d) != 0 by {
        if n % d == 0 {
            lemma_fundamental_div_mod(n, d);
            let e = n / d;
            assert(n == d * e);
            assert(e > 1 && e < n) by (nonlinear_arith)
                requires n == d * e, 1 < d < n;
            lemma_mod_multiples_basic(d, e);
            assert(e * d == d * e) by (nonlinear_arith);
            if d < k {
                assert(n % d != 0);
            } else if e < k {
                assert(n % e != 0);
            } else {
                assert(d * e >= k * k) by (nonlinear_arith)
                    requires d >= k, e >= k, k > 0;
            }
        }
    }
}

/// The least positive exponent `m <= t` with `g^m == 1` modulo `n`.
proof fn lemma_least_order(g: int, n: int, t: int) -> (m: int)
    requires
        n > 1,
        t > 0,
        pow(g, t as nat) % n == 1,
    ensures
        0 < m <= t,
        pow(g, m as nat) % n == 1,
        forall|s: int| 0 < s < m ==> #[trigger] (pow(g, s as nat) % n) != 1,
    decreases t,
{
    if exists|s: int| 0 < s < t && #[trigger] (pow(g, s as nat) % n) == 1 {
        let s = choose|s: int| 0 < s < t && #[trigger] (pow(g, s as nat) % n) == 1;
        lemma_least_order(g, n, s)
    } else {
        t
    }
}

/// Powers of an element of order dividing `m` stay one.
proof fn lemma_pow_one_multiple(g: int, n: int, m: nat, k: nat)
    requires
        n > 1,
        pow(g, m) % n == 1,
    ensures
        pow(g, m * k) % n == 1,
{
    lemma_pow_multiplies(g, m, k);
    lemma_pow_mod_noop(pow(g, m), k, n);
    lemma1_pow(k);
    lemma_small_mod(1, n as nat);
}

/// `g^i` times `g^(n-1-i)` is one modulo `n` when `g^(n-1)` is.
proof fn lemma_power_unit(g: int, n: int, i: int)
    requires
        n > 1,
        0 <= i <= n - 1,
        pow(g, (n - 1) as nat) % n == 1,
    ensures
        ((pow(g, i as nat) % n) * pow(g, (n - 1 - i) as nat)) % n == 1,
{
    lemma_pow_adds(g, i as nat, (n - 1 - i) as nat);
    assert((i as nat) + ((n - 1 - i) as nat) == (n - 1) as nat);
    lemma_mul_mod_noop_left(pow(g, i as nat), pow(g, (n - 1 - i) as nat), n);
}

/// A Lucas certificate for `n`: `g^(n-1) == 1` modulo `n`, `n - 1` is the
/// product of `fs`, and no `g^((n-1)/q)` is one for `q` in `fs`.
pub open spec fn lucas_certificate(n: int, g: int, fs: Seq<int>) -> bool {
    &&& n > 2
    &&& product(fs) == n - 1
    &&& pow_mod(g, (n - 1) as nat, n) == 1
    &&& forall|i: int| 0 <= i < fs.len() ==> #[trigger] pow_mod(g, ((n - 1) / fs[i]) as nat, n) != 1
}

/// The product of a sequence grows by the pushed factor.
pub(crate) proof fn lemma_product_push(s: Seq<int>, a: int)
    ensures
        product(s.push(a)) == product(s) * a,
{
    assert(s.push(a).drop_last() =~= s);
}

/// Under a Lucas certificate with prime factors, `g` has order `n - 1`.
proof fn lemma_lucas_order(n: int, g: int, fs: Seq<int>, t: int)
    requires
        lucas_certificate(n, g, fs),
        forall|i: int| 0 <= i < fs.len() ==> is_prime(#[trigger] fs[i]),
        0 < t < n - 1,
    ensures
        pow(g, t as nat) % n != 1,
{
    lemma_pow_mod(g, (n - 1) as nat, n);
    if pow(g, t as nat) % n == 1 {
        let m = lemma_least_order(g, n, t);
        lemma_fundamental_div_mod(n - 1, m);
        lemma_mod_bound(n - 1, m);
        let q = (n - 1) / m;
        let r = (n - 1) % m;
        assert(q >= 0) by (nonlinear_arith)
            requires n - 1 == m * q + r, 0 <= r < m, n - 1 > 0;
        lemma_pow_one_multiple(g, n, m as nat, q as nat);
        lemma_pow_adds(g, (m * q) as nat, r as nat);
        assert(((m * q) as nat) + (r as nat) == (n - 1) as nat);
        lemma_mul_mod_noop_left(pow(g, (m * q) as nat), pow(g, r as nat), n);
        assert(r == 0);
        assert(q >= 2) by (nonlinear_arith)
            requires n - 1 == m * q, 0 < m < n - 1;
        let d = lemma_prime_factor(q);
        lemma_fundamental_div_mod(q, d);
        let k = m * (q / d);
        assert(n - 1 == d * k) by (nonlinear_arith)
            requires n - 1 == m * q, q == d * (q / d) + 0, k == m * (q / d);
        lemma_mod_multiples_basic(k, d);
        assert(k * d == d * k) by (nonlinear_arith);
        lemma_div_multiples_vanish(k, d);
        lemma_prime_divides_product(d, fs);
        let i = choose|i: int| 0 <= i < fs.len() && fs[i] == d;
        assert(q / d >= 0) by (nonlinear_arith)
            requires q == d * (q / d), q > 0, d > 1;
        lemma_pow_one_multiple(g, n, m as nat, (q / d) as nat);
        assert((m as nat) * ((q / d) as nat) == ((n - 1) / d) as nat);
        lemma_pow_mod(g, ((n - 1) / d) as nat, n);
    }
}

/// `x` is a power `g^i` modulo `n` with `0 <= i < n - 1`.
pub open spec fn power_of(g: int, n: int, x: int) -> bool {
    exists|i: int| 0 <= i < n - 1 && #[trigger] (pow(g, i as nat) % n) == x
}

/// Lucas' theorem: under a certificate with prime factors, the powers of `g`
/// run through every nonzero residue modulo `n`, and `n` is prime.
pub proof fn lemma_lucas(n: int, g: int, fs: Seq<int>)
    requires
        lucas_certificate(n, g, fs),
        forall|i: int| 0 <= i < fs.len() ==> is_prime(#[trigger] fs[i]),
    ensures
        forall|x: int| 1 <= x < n ==> #[trigger] power_of(g, n, x),
        is_prime(n),
{
    lemma_pow_mod(g, (n - 1) as nat, n);
    let f = |i: int| pow(g, i as nat) % n;
    let s = set_int_range(0, n - 1);
    let range = set_int_range(1, n);
    let t = s.map(f);
    assert forall|i: int, j: int| s.contains(i) && s.contains(j) && #[trigger] f(i) == #[trigger] f(j) implies i == j by {
        if i != j {
            let (a, b) = if i < j { (i, j) } else { (j, i) };
            // g^a == g^b, so g^(b - a) == 1
            let w = pow(g, (n - 1 - a) as nat);
            lemma_power_unit(g, n, a);
            lemma_pow_adds(g, (b - a) as nat, a as nat);
            assert(((b - a) as nat) + (a as nat) == b as nat);
            lemma_pow_adds(g, (b - a) as nat, (n - 1) as nat);
            assert(((pow(g, b as nat) % n) * w) % n == 1);
            lemma_mul_mod_noop_left(pow(g, b as nat), w, n);
            lemma_pow_adds(g, a as nat, (n - 1 - a) as nat);
            assert((a as nat) + ((n - 1 - a) as nat) == (n - 1) as nat);
            assert(pow(g, b as nat) * w == pow(g, (b - a) as nat) * pow(g, (n - 1) as nat)) by (nonlinear_arith)
                requires pow(g, b as nat) == pow(g, (b - a) as nat) * pow(g, a as nat),
                    pow(g, (n - 1) as nat) == pow(g, a as nat) * w;
            lemma_mul_mod_noop_right(pow(g, (b - a) as nat), pow(g, (n - 1) as nat), n);
            lemma_lucas_order(n, g, fs, b - a);
        }
    }
    lemma_int_range(0, n - 1);
    lemma_int_range(1, n);
    lemma_map_size(s, t, f);
    assert forall|x: int| t.contains(x) implies range.contains(x) by {
        let i = choose|i: int| s.contains(i) && f(i) == x;
        lemma_mod_bound(pow(g, i as nat), n);
        lemma_power_unit(g, n, i);
        if x == 0 {
            lemma_small_mod(0, n as nat);
        }
    }
    lemma_subset_equality(t, range);
    assert forall|x: int| 1 <= x < n implies #[trigger] power_of(g, n, x) by {
        assert(range.contains(x));
        assert(t.contains(x));
        let i = choose|i: int| s.contains(i) && f(i) == x;
        assert(pow(g, i as nat) % n == x);
    }
    assert forall|d: int| 1 < d < n implies #[trigger] (n % d) != 0 by {
        if n % d == 0 {
            assert(power_of(g, n, d));
            let i = choose|i: int| 0 <= i < n - 1 && #[trigger] (pow(g, i as nat) % n) == d;
            let w = pow(g, (n - 1 - i) as nat);
            lemma_power_unit(g, n, i);
            lemma_fundamental_div_mod(d * w, n);
            lemma_fundamental_div_mod(n, d);
            let e = n / d;
            let k = (d * w) / n;
            assert(1 == (w - e * k) * d) by (nonlinear_arith)
                requires d * w == n * k + 1, n == d * e + 0;
            lemma_mod_multiples_basic(w - e * k, d);
            lemma_small_mod(1, d as nat);
        }
    }
}

/// One step of repeated squaring, with the quotients of the reductions.
pub(crate) proof fn lemma_pow_mod_step(b: int, e: nat, m: int, e2: nat, h: int, q1: int, r1: int, q2: int, r: int)
    requires
        m > b > 0,
        e > 0,
        e2 == e / 2,
        pow_mod(b, e2, m) == h,
        h * h == q1 * m + r1,
        0 <= r1 < m,
        e % 2 == 0 ==> r == r1,
        e % 2 == 1 ==> r1 * b == q2 * m + r && 0 <= r < m,
    ensures
        pow_mod(b, e, m) == r,
{
    reveal(pow_mod);
    vstd::arithmetic::div_mod::lemma_fundamental_div_mod_converse_mod(h * h, m, q1, r1);
    lemma_small_mod(b as nat, m as nat);
    if e % 2 == 1 {
        vstd::arithmetic::div_mod::lemma_fundamental_div_mod_converse_mod(r1 * b, m, q2, r);
    }
}

/// The start of repeated squaring.
pub(crate) proof fn lemma_pow_mod_zero(b: int, m: int)
    requires
        m > 1,
    ensures
        pow_mod(b, 0, m) == 1,
{
    reveal(pow_mod);
    lemma_small_mod(1, m as nat);
}

/// The field modulus is prime.
pub proof fn lemma_p_prime()
    ensures
        is_prime(p() as int),
{
    lemma_prime_modulus();
}

/// Every nonzero residue has an inverse modulo p.
pub proof fn lemma_nonzero_invertible(a: nat)
    requires
        0 < a < p(),
    ensures
        is_invertible(a),
{
    let pi = p() as int;
    lemma_p_prime();
    let (g, u, v) = lemma_bezout(pi, a as int);
    lemma_mod_bound(a as int, g);
    if g > a {
        lemma_small_mod(a, g as nat);
    }
    lemma_prime_divisor(pi, g);
    lemma_mod_bound(v, pi);
    let w = (v % pi) as nat;
    lemma_mul_mod_noop_right(a as int, v, pi);
    lemma_mod_multiples_basic(u, pi);
    assert(a * v == 1 - u * pi);
    lemma_add_mod_noop(1, -(u * pi), pi);
    assert(-(u * pi) == (-u) * pi);
    lemma_mod_multiples_basic(-u, pi);
    lemma_small_mod(1, p());
    assert(((a * w) % p()) == 1);
}

/// No zero divisors modulo p.
pub proof fn lemma_no_zero_divisors(a: int, b: int)
    requires
        (a * b) % (p() as int) == 0,
    ensures
        a % (p() as int) == 0 || b % (p() as int) == 0,
{
    lemma_p_prime();
    lemma_euclid(p() as int, a, b);
}

/// Fermat's little theorem modulo p.
pub proof fn lemma_fermat(x: int)
    requires
        x % (p() as int) != 0,
    ensures
        pow(x, (p() - 1) as nat) % (p() as int) == 1,
{
    let pi = p() as int;
    lemma_prime_modulus();
    lemma_mod_bound(x, pi);
    let x1 = x % pi;
    assert(power_of(3, pi, x1));
    let i = choose|i: int| 0 <= i < pi - 1 && #[trigger] (pow(3, i as nat) % pi) == x1;
    lemma_pow_mod(3, (pi - 1) as nat, pi);
    lemma_pow_one_multiple(3, pi, (pi - 1) as nat, i as nat);
    lemma_pow_multiplies(3, i as nat, (pi - 1) as nat);
    assert((i as nat) * ((pi - 1) as nat) == ((pi - 1) as nat) * (i as nat)) by (nonlinear_arith);
    lemma_pow_mod_noop(pow(3, i as nat), (pi - 1) as nat, pi);
    lemma_pow_mod_noop(x, (pi - 1) as nat, pi);
}

/// `-7` has no cube root modulo p, so the curve has no point with `y == 0`.
pub proof fn lemma_no_cube_root(t: int)
    ensures
        (t * t * t + 7) % (p() as int) != 0,
{
    let pi = p() as int;
    if (t * t * t + 7) % pi == 0 {
        let e = ((pi - 1) / 3) as nat;
        lemma_minus_seven_power();
        lemma_pow_mod(pi - 7, e, pi);
        // t^3 == p - 7
        lemma_add_mod_noop(t * t * t, 7, pi);
        lemma_mod_bound(t * t * t, pi);
        lemma_small_mod(7, p());
        lemma_small_mod((pi - 7) as nat, p());
        assert((t * t * t) % pi == pi - 7) by {
            lemma_small_mod(0, p());
            vstd::arithmetic::div_mod::lemma_mod_self_0(pi);
        }
        lemma_pow_adds(t, 1, 1);
        lemma_pow_adds(t, 2, 1);
        lemma_pow1(t);
        assert(pow(t, 3) == t * t * t);
        lemma_pow_mod_noop(pow(t, 3), e, pi);
        lemma_pow_multiplies(t, 3, e);
        assert(3 * e == p() - 1);
        if t % pi == 0 {
            lemma_mul_mod_noop_left(t, t, pi);
            lemma_mul_mod_noop_left(t * t, t, pi);
            lemma_small_mod(0, p());
        } else {
            lemma_fermat(t);
        }
    }
}

/// A residue below p is invertible exactly when it is nonzero.
pub proof fn lemma_invertible_iff_nonzero(a: nat)
    requires
        a < p(),
    ensures
        is_invertible(a) <==> a != 0,
{
    if a == 0 {
        if is_invertible(0) {
            let w = choose|w: nat| #[trigger] ((0 * w) % p()) == 1;
            assert(0 * w == 0);
            lemma_small_mod(0, p());
        }
    } else {
        lemma_nonzero_invertible(a);
    }
}

} // verus!
