//! The small primes of the certificates, by trial division.
use vstd::prelude::*;
use crate::prime::{is_prime, lemma_trial_division};

verus! {

proof fn lemma_small_prime_2()
    ensures
        is_prime(2),
{
    assert forall|d: int| 2 <= d < 2 implies #[trigger] (2int % d) != 0 by {
        
    }
    lemma_trial_division(2int, 2int);
}

proof fn lemma_small_prime_3()
    ensures
        is_prime(3),
{
    assert forall|d: int| 2 <= d < 2 implies #[trigger] (3int % d) != 0 by {
        
    }
    lemma_trial_division(3int, 2int);
}

proof fn lemma_small_prime_5()
    ensures
        is_prime(5),
{
    assert forall|d: int| 2 <= d < 3 implies #[trigger] (5int % d) != 0 by {
        if d == 2 {}
    }
    lemma_trial_division(5int, 3int);
}

proof fn lemma_small_prime_7()
    ensures
        is_prime(7),
{
    assert forall|d: int| 2 <= d < 3 implies #[trigger] (7int % d) != 0 by {
        if d == 2 {}
    }
    lemma_trial_division(7int, 3int);
}

proof fn lemma_small_prime_11()
    ensures
        is_prime(11),
{
    assert forall|d: int| 2 <= d < 4 implies #[trigger] (11int % d) != 0 by {
        if d == 2 {} else if d == 3 {}
    }
    lemma_trial_division(11int, 4int);
}

proof fn lemma_small_prime_13()
    ensures
        is_prime(13),
{
    assert forall|d: int| 2 <= d < 4 implies #[trigger] (13int % d) != 0 by {
        if d == 2 {} else if d == 3 {}
    }
    lemma_trial_division(13int, 4int);
}

proof fn lemma_small_prime_29()
    ensures
        is_prime(29),
{
    assert forall|d: int| 2 <= d < 6 implies #[trigger] (29int % d) != 0 by {
        if d == 2 {} else if d == 3 {} else if d == 4 {} else if d == 5 {}
    }
    lemma_trial_division(29int, 6int);
}

proof fn lemma_small_prime_31()
    ensures
        is_prime(31),
{
    assert forall|d: int| 2 <= d < 6 implies #[trigger] (31int % d) != 0 by {
        if d == 2 {} else if d == 3 {} else if d == 4 {} else if d == 5 {}
    }
    lemma_trial_division(31int, 6int);
}

proof fn lemma_small_prime_53()
    ensures
        is_prime(53),
{
    assert forall|d: int| 2 <= d < 8 implies #[trigger] (53int % d) != 0 by {
        if d == 2 {} else if d == 3 {} else if d == 4 {} else if d == 5 {} else if d == 6 {} else if d == 7 {}
    }
    lemma_trial_division(53int, 8int);
}

proof fn lemma_small_prime_67()
    ensures
        is_prime(67),
{
    assert forall|d: int| 2 <= d < 9 implies #[trigger] (67int % d) != 0 by {
        if d == 2 {} else if d == 3 {} else if d == 4 {} else if d == 5 {} else if d == 6 {} else if d == 7 {} else if d == 8 {}
    }
    lemma_trial_division(67int, 9int);
}

proof fn lemma_small_prime_83()
    ensures
        is_prime(83),
{
    assert forall|d: int| 2 <= d < 10 implies #[trigger] (83int % d) != 0 by {
        if d == 2 {} else if d == 3 {} else if d == 4 {} else if d == 5 {} else if d == 6 {} else if d == 7 {} else if d == 8 {} else if d == 9 {}
    }
    lemma_trial_division(83int, 10int);
}

proof fn lemma_small_prime_101()
    ensures
        is_prime(101),
{
    assert forall|d: int| 2 <= d < 11 implies #[trigger] (101int % d) != 0 by {
        if d == 2 {} else if d == 3 {} else if d == 4 {} else if d == 5 {} else if d == 6 {} else if d == 7 {} else if d == 8 {} else if d == 9 {} else if d == 10 {}
    }
    lemma_trial_division(101int, 11int);
}

proof fn lemma_small_prime_103()
    ensures
        is_prime(103),
{
    assert forall|d: int| 2 <= d < 11 implies #[trigger] (103int % d) != 0 by {
        if d == 2 {} else if d == 3 {} else if d == 4 {} else if d == 5 {} else if d == 6 {} else if d == 7 {} else if d == 8 {} else if d == 9 {} else if d == 10 {}
    }
    lemma_trial_division(103int, 11int);
}

proof fn lemma_small_prime_131()
    ensures
        is_prime(131),
{
    assert forall|d: int| 2 <= d < 12 implies #[trigger] (131int % d) != 0 by {
        if d == 2 {} else if d == 3 {} else if d == 4 {} else if d == 5 {} else if d == 6 {} else if d == 7 {} else if d == 8 {} else if d == 9 {} else if d == 10 {} else if d == 11 {}
    }
    lemma_trial_division(131int, 12int);
}

proof fn lemma_small_prime_239()
    ensures
        is_prime(239),
{
    assert forall|d: int| 2 <= d < 16 implies #[trigger] (239int % d) != 0 by {
        if d == 2 {} else if d == 3 {} else if d == 4 {} else if d == 5 {} else if d == 6 {} else if d == 7 {} else if d == 8 {} else if d == 9 {} else if d == 10 {} else if d == 11 {} else if d == 12 {} else if d == 13 {} else if d == 14 {} else if d == 15 {}
    }
    lemma_trial_division(239int, 16int);
}

proof fn lemma_small_prime_271()
    ensures
        is_prime(271),
{
    assert forall|d: int| 2 <= d < 17 implies #[trigger] (271int % d) != 0 by {
        if d == 2 {} else if d == 3 {} else if d == 4 {} else if d == 5 {} else if d == 6 {} else if d == 7 {} else if d == 8 {} else if d == 9 {} else if d == 10 {} else if d == 11 {} else if d == 12 {} else if d == 13 {} else if d == 14 {} else if d == 15 {} else if d == 16 {}
    }
    lemma_trial_division(271int, 17int);
}

proof fn lemma_small_prime_419()
    ensures
        is_prime(419),
{
    assert forall|d: int| 2 <= d < 21 implies #[trigger] (419int % d) != 0 by {
        if d == 2 {} else if d == 3 {} else if d == 4 {} else if d == 5 {} else if d == 6 {} else if d == 7 {} else if d == 8 {} else if d == 9 {} else if d == 10 {} else if d == 11 {} else if d == 12 {} else if d == 13 {} else if d == 14 {} else if d == 15 {} else if d == 16 {} else if d == 17 {} else if d == 18 {} else if d == 19 {} else if d == 20 {}
    }
    lemma_trial_division(419int, 21int);
}

proof fn lemma_small_prime_443()
    ensures
        is_prime(443),
{
    assert forall|d: int| 2 <= d < 22 implies #[trigger] (443int % d) != 0 by {
        if d == 2 {} else if d == 3 {} else if d == 4 {} else if d == 5 {} else if d == 6 {} else if d == 7 {} else if d == 8 {} else if d == 9 {} else if d == 10 {} else if d == 11 {} else if d == 12 {} else if d == 13 {} else if d == 14 {} else if d == 15 {} else if d == 16 {} else if d == 17 {} else if d == 18 {} else if d == 19 {} else if d == 20 {} else if d == 21 {}
    }
    lemma_trial_division(443int, 22int);
}

proof fn lemma_small_prime_887()
    ensures
        is_prime(887),
{
    assert forall|d: int| 2 <= d < 30 implies #[trigger] (887int % d) != 0 by {
        if d == 2 {} else if d == 3 {} else if d == 4 {} else if d == 5 {} else if d == 6 {} else if d == 7 {} else if d == 8 {} else if d == 9 {} else if d == 10 {} else if d == 11 {} else if d == 12 {} else if d == 13 {} else if d == 14 {} else if d == 15 {} else if d == 16 {} else if d == 17 {} else if d == 18 {} else if d == 19 {} else if d == 20 {} else if d == 21 {} else if d == 22 {} else if d == 23 {} else if d == 24 {} else if d == 25 {} else if d == 26 {} else if d == 27 {} else if d == 28 {} else if d == 29 {}
    }
    lemma_trial_division(887int, 30int);
}

proof fn lemma_small_prime_971()
    ensures
        is_prime(971),
{
    assert forall|d: int| 2 <= d < 32 implies #[trigger] (971int % d) != 0 by {
        if d == 2 {} else if d == 3 {} else if d == 4 {} else if d == 5 {} else if d == 6 {} else if d == 7 {} else if d == 8 {} else if d == 9 {} else if d == 10 {} else if d == 11 {} else if d == 12 {} else if d == 13 {} else if d == 14 {} else if d == 15 {} else if d == 16 {} else if d == 17 {} else if d == 18 {} else if d == 19 {} else if d == 20 {} else if d == 21 {} else if d == 22 {} else if d == 23 {} else if d == 24 {} else if d == 25 {} else if d == 26 {} else if d == 27 {} else if d == 28 {} else if d == 29 {} else if d == 30 {} else if d == 31 {}
    }
    lemma_trial_division(971int, 32int);
}

/// The primes below 1000 met in the certificates, by trial division.
pub(crate) proof fn lemma_small_primes()
    ensures
        is_prime(2),
        is_prime(3),
        is_prime(5),
        is_prime(7),
        is_prime(11),
        is_prime(13),
        is_prime(29),
        is_prime(31),
        is_prime(53),
        is_prime(67),
        is_prime(83),
        is_prime(101),
        is_prime(103),
        is_prime(131),
        is_prime(239),
        is_prime(271),
        is_prime(419),
        is_prime(443),
        is_prime(887),
        is_prime(971),
{
    lemma_small_prime_2();
    lemma_small_prime_3();
    lemma_small_prime_5();
    lemma_small_prime_7();
    lemma_small_prime_11();
    lemma_small_prime_13();
    lemma_small_prime_29();
    lemma_small_prime_31();
    lemma_small_prime_53();
    lemma_small_prime_67();
    lemma_small_prime_83();
    lemma_small_prime_101();
    lemma_small_prime_103();
    lemma_small_prime_131();
    lemma_small_prime_239();
    lemma_small_prime_271();
    lemma_small_prime_419();
    lemma_small_prime_443();
    lemma_small_prime_887();
    lemma_small_prime_971();
}

} // verus!
